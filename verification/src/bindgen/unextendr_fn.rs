//! The description of one exported function and the code generated for it.

use vstd::prelude::*;
use crate::text::{join_strings, concat, str_equals};

verus! {

/// The types that an exported function may take as arguments.
#[derive(Clone, Copy, Debug, PartialEq, Eq, Structural)]
pub enum UnextendrSupportedTypes {
    IntegerSxp,
    RealSxp,
    LogicalSxp,
    StringSxp,
    ListSxp,
    // scalar
    BareI32,
    BareF64,
    BareStr,
    BareBool,
}

/// The shape of a type in a Rust signature, as far as the generator reads it.
#[derive(Debug)]
pub enum TypeShape {
    /// A path type, by the identifier of its last segment (`IntegerSxp` for
    /// both `unextendr::IntegerSxp` and `IntegerSxp`).
    Path(String),
    /// A reference; the identifier of the last segment of the referenced type
    /// where that type is a path.
    Reference(Option<String>),
    /// Any other type.
    Other,
}

/// The supported type that a type shape denotes, if any.
pub open spec fn supported_type_of(ty: TypeShape) -> Option<UnextendrSupportedTypes> {
    match ty {
        TypeShape::Path(id) => if id@ == "IntegerSxp"@ {
            Some(UnextendrSupportedTypes::IntegerSxp)
        } else if id@ == "RealSxp"@ {
            Some(UnextendrSupportedTypes::RealSxp)
        } else if id@ == "LogicalSxp"@ {
            Some(UnextendrSupportedTypes::LogicalSxp)
        } else if id@ == "StringSxp"@ {
            Some(UnextendrSupportedTypes::StringSxp)
        } else if id@ == "ListSxp"@ {
            Some(UnextendrSupportedTypes::ListSxp)
        } else if id@ == "i32"@ {
            Some(UnextendrSupportedTypes::BareI32)
        } else if id@ == "f64"@ {
            Some(UnextendrSupportedTypes::BareF64)
        } else if id@ == "bool"@ {
            Some(UnextendrSupportedTypes::BareBool)
        } else {
            None
        },
        TypeShape::Reference(Some(id)) => if id@ == "str"@ {
            Some(UnextendrSupportedTypes::BareStr)
        } else {
            None
        },
        _ => None,
    }
}



impl UnextendrSupportedTypes {
    /// The supported type that a type shape denotes, if any.
    pub fn from_type(ty: &TypeShape) -> (r: Option<Self>)
        ensures
            r == supported_type_of(*ty),
    {
        match ty {
            TypeShape::Path(id) => {
                if str_equals(id, "IntegerSxp") {
                    Some(Self::IntegerSxp)
                } else if str_equals(id, "RealSxp") {
                    Some(Self::RealSxp)
                } else if str_equals(id, "LogicalSxp") {
                    Some(Self::LogicalSxp)
                } else if str_equals(id, "StringSxp") {
                    Some(Self::StringSxp)
                } else if str_equals(id, "ListSxp") {
                    Some(Self::ListSxp)
                } else if str_equals(id, "i32") {
                    Some(Self::BareI32)
                } else if str_equals(id, "f64") {
                    Some(Self::BareF64)
                } else if str_equals(id, "bool") {
                    Some(Self::BareBool)
                } else {
                    None
                }
            },
            TypeShape::Reference(Some(id)) => {
                if str_equals(id, "str") {
                    Some(Self::BareStr)
                } else {
                    None
                }
            },
            _ => None,
        }
    }

    /// The type of the argument in the C function (at the moment, only `SEXP`).
    pub fn to_c_type(&self) -> (s: String)
        ensures
            s@ == "SEXP"@,
    {
        String::from_str("SEXP")
    }
}

/// An argument of an exported function.
#[derive(Debug)]
pub struct UnextendrFnArg {
    pub pat: String,
    pub ty: UnextendrSupportedTypes,
}

/// How a function relates to a type; the field is the identifier of the type.
#[derive(Debug)]
pub enum UnextendrFnType {
    BareFunction,
    Constructor(String),
    Method(String),
    AssociatedFunction(String),
}

/// An exported function.
#[derive(Debug)]
pub struct UnextendrFn {
    /// Doc comments
    pub docs: Vec<String>,
    /// Original function name
    pub fn_name: String,
    /// The type of `self` in the case of an impl function
    pub fn_type: UnextendrFnType,
    /// Function arguments
    pub args: Vec<UnextendrFnArg>,
    /// Whether the function has return value
    pub has_result: bool,
}

/// An input of a Rust signature, as far as the generator reads it.
#[derive(Debug)]
pub enum FnInputShape {
    /// `self`, `&self` or `&mut self`.
    Receiver,
    /// A typed argument: the identifier of its pattern (`None` where the
    /// pattern is not a plain identifier) and the shape of its type.
    Typed(Option<String>, TypeShape),
}

/// An input that the generator can bind: a receiver, or an argument named
/// by an identifier and of a supported type.
pub open spec fn input_supported(input: FnInputShape) -> bool {
    match input {
        FnInputShape::Receiver => true,
        FnInputShape::Typed(pat, ty) => pat is Some && supported_type_of(ty) is Some,
    }
}

/// The arguments that a list of inputs declares: receivers are left out.
pub open spec fn declared_args(inputs: Seq<FnInputShape>) -> Seq<(Seq<char>, UnextendrSupportedTypes)>
    decreases inputs.len(),
{
    if inputs.len() == 0 {
        Seq::empty()
    } else {
        let rest = declared_args(inputs.drop_last());
        match inputs.last() {
            FnInputShape::Receiver => rest,
            FnInputShape::Typed(pat, ty) => rest.push(
                (pat.unwrap()@, supported_type_of(ty).unwrap()),
            ),
        }
    }
}

/// The arguments of a function, as pairs of name and type.
pub open spec fn args_view(args: Seq<UnextendrFnArg>) -> Seq<(Seq<char>, UnextendrSupportedTypes)> {
    Seq::new(args.len(), |i: int| (args[i].pat@, args[i].ty))
}

/// The identifier of the type that a function belongs to, if any.
pub open spec fn self_ty_ident(fn_type: UnextendrFnType) -> Option<Seq<char>> {
    match fn_type {
        UnextendrFnType::BareFunction => None,
        UnextendrFnType::Constructor(ty) => Some(ty@),
        UnextendrFnType::Method(ty) => Some(ty@),
        UnextendrFnType::AssociatedFunction(ty) => Some(ty@),
    }
}

/// The name of the inner Rust function.
pub open spec fn fn_name_inner_spec(f: UnextendrFn) -> Seq<char> {
    match self_ty_ident(f.fn_type) {
        Some(ty) => "unextendr_"@ + ty + "_"@ + f.fn_name@ + "_inner"@,
        None => "unextendr_"@ + f.fn_name@ + "_inner"@,
    }
}

/// The name of the C-callable function.
pub open spec fn fn_name_outer_spec(f: UnextendrFn) -> Seq<char> {
    match self_ty_ident(f.fn_type) {
        Some(ty) => "unextendr_"@ + ty + "_"@ + f.fn_name@,
        None => "unextendr_"@ + f.fn_name@,
    }
}

/// The name of the R function. A method named `new` takes the name of its type.
pub open spec fn fn_name_r_spec(f: UnextendrFn) -> Seq<char> {
    match self_ty_ident(f.fn_type) {
        Some(ty) => if f.fn_name@ == "new"@ {
            ty
        } else {
            ty + "_"@ + f.fn_name@
        },
        None => f.fn_name@,
    }
}

/// The arguments of the C function: a method takes `self__` first.
pub open spec fn c_args_spec(f: UnextendrFn) -> Seq<(Seq<char>, Seq<char>)> {
    let base = Seq::new(f.args@.len(), |i: int| (f.args@[i].pat@, "SEXP"@));
    if f.fn_type is Method {
        seq![("self__"@, "SEXP"@)] + base
    } else {
        base
    }
}

/// The arguments of the R function: a method takes `self` first.
pub open spec fn r_args_spec(f: UnextendrFn) -> Seq<Seq<char>> {
    let base = Seq::new(f.args@.len(), |i: int| f.args@[i].pat@);
    if f.fn_type is Method {
        seq!["self"@] + base
    } else {
        base
    }
}

/// The views of pairs of strings.
pub open spec fn pair_views(v: Seq<(String, String)>) -> Seq<(Seq<char>, Seq<char>)> {
    Seq::new(v.len(), |i: int| (v[i].0@, v[i].1@))
}

/// `"{ty} {pat}"` for each C argument.
pub open spec fn c_params(args: Seq<(Seq<char>, Seq<char>)>) -> Seq<Seq<char>> {
    Seq::new(args.len(), |i: int| args[i].1 + " "@ + args[i].0)
}

/// The names of the C arguments.
pub open spec fn c_arg_names(args: Seq<(Seq<char>, Seq<char>)>) -> Seq<Seq<char>> {
    Seq::new(args.len(), |i: int| args[i].0)
}

/// The declaration of the C function in the header.
pub open spec fn c_header_spec(f: UnextendrFn) -> Seq<char> {
    "SEXP "@ + fn_name_outer_spec(f) + "("@ + crate::text::join(c_params(c_args_spec(f)), ", "@)
        + ");"@
}

/// The C wrapper that checks the result of the Rust function.
pub open spec fn c_impl_spec(f: UnextendrFn) -> Seq<char> {
    let name = fn_name_outer_spec(f);
    let sig = crate::text::join(c_params(c_args_spec(f)), ", "@);
    let call = crate::text::join(c_arg_names(c_args_spec(f)), ", "@);
    "\nSEXP "@ + name + "_wrapper("@ + sig + ") {\n    SEXP res = "@ + name + "("@ + call
        + ");\n    return handle_result(res);\n}"@
}

/// The entry of the C function in the table of registered routines.
pub open spec fn c_call_entry_spec(f: UnextendrFn) -> Seq<char> {
    let name = fn_name_outer_spec(f);
    "    {\""@ + name + "\", (DL_FUNC) &"@ + name + "_wrapper, "@ + crate::text::decimal(
        c_args_spec(f).len(),
    ) + "},"@
}

/// Doc comments as roxygen lines.
pub open spec fn r_doc_comment_spec(docs: Seq<Seq<char>>) -> Seq<char> {
    crate::text::join(Seq::new(docs.len(), |i: int| "#'"@ + docs[i]), "\n"@)
}

/// The R function that calls the C function; a function without a result
/// returns invisibly.
pub open spec fn r_function_spec(f: UnextendrFn) -> Seq<char> {
    let args = crate::text::join(c_arg_names(c_args_spec(f)), ", "@);
    let call = ".Call("@ + fn_name_outer_spec(f) + ", "@ + args + ")"@;
    let body = if f.has_result { call } else { "invisible("@ + call + ")"@ };
    r_doc_comment_spec(crate::text::views(f.docs@)) + "\n"@ + fn_name_r_spec(f) + " <- function("@
        + args + ") {\n  "@ + body + "\n}\n"@
}

/// Roxygen lines for the doc comments.
pub fn get_r_doc_comment(docs: &[String]) -> (s: String)
    ensures
        s@ == r_doc_comment_spec(crate::text::views(docs@)),
{
    let mut lines: Vec<String> = Vec::new();
    let mut i: usize = 0;
    while i < docs.len()
        invariant
            i <= docs.len(),
            lines.len() == i,
            forall|j: int| 0 <= j < i ==> #[trigger] lines@[j]@ == "#'"@ + docs@[j]@,
        decreases docs.len() - i,
    {
        let line = concat(&["#'", docs[i].as_str()]);
        proof {
            reveal_with_fuel(crate::text::concat_spec, 3);
        }
        lines.push(line);
        i = i + 1;
    }
    let s = join_strings(&lines, "\n");
    assert(crate::text::views(lines@) =~= Seq::new(
        crate::text::views(docs@).len(),
        |j: int| "#'"@ + crate::text::views(docs@)[j],
    ));
    s
}

impl UnextendrFn {
    /// Describes a function from its signature. Receivers are skipped; every
    /// other input must be named by an identifier and be of a supported type.
    pub fn new(docs: Vec<String>, fn_name: String, inputs: &Vec<FnInputShape>, has_output: bool, fn_type: UnextendrFnType) -> (f: Self)
        requires
            forall|i: int| 0 <= i < inputs.len() ==> input_supported(#[trigger] inputs@[i]),
        ensures
            f.docs@ == docs@,
            f.fn_name@ == fn_name@,
            f.fn_type == fn_type,
            args_view(f.args@) == declared_args(inputs@),
            f.has_result == has_output,
    {
        let mut args: Vec<UnextendrFnArg> = Vec::new();
        let mut i: usize = 0;
        while i < inputs.len()
            invariant
                i <= inputs.len(),
                forall|j: int| 0 <= j < inputs.len() ==> input_supported(#[trigger] inputs@[j]),
                args_view(args@) == declared_args(inputs@.take(i as int)),
            decreases inputs.len() - i,
        {
            assert(inputs@.take(i + 1).drop_last() =~= inputs@.take(i as int));
            assert(inputs@.take(i + 1).last() == inputs@[i as int]);
            match &inputs[i] {
                FnInputShape::Receiver => {},
                FnInputShape::Typed(pat, ty) => {
                    assert(input_supported(inputs@[i as int]));
                    let ty = UnextendrSupportedTypes::from_type(ty);
                    let pat = pat.as_ref().unwrap().clone();
                    let ghost before = args@;
                    args.push(UnextendrFnArg { pat, ty: ty.unwrap() });
                    assert(args_view(args@) =~= args_view(before).push(
                        (args@.last().pat@, args@.last().ty),
                    ));
                },
            }
            i = i + 1;
        }
        assert(inputs@.take(inputs.len() as int) =~= inputs@);
        UnextendrFn { docs, fn_name, fn_type, args, has_result: has_output }
    }

    /// The identifier of the type that the function belongs to, if any.
    pub fn get_self_ty_ident(&self) -> (r: Option<&String>)
        ensures
            match r {
                Some(s) => self_ty_ident(self.fn_type) == Some(s@),
                None => self_ty_ident(self.fn_type) is None,
            },
    {
        match &self.fn_type {
            UnextendrFnType::BareFunction => None,
            UnextendrFnType::Constructor(ty) => Some(ty),
            UnextendrFnType::Method(ty) => Some(ty),
            UnextendrFnType::AssociatedFunction(ty) => Some(ty),
        }
    }

    /// The name of the inner Rust function.
    pub fn fn_name_inner(&self) -> (s: String)
        ensures
            s@ == fn_name_inner_spec(*self),
    {
        proof {
            reveal_with_fuel(crate::text::concat_spec, 6);
        }
        match self.get_self_ty_ident() {
            Some(ty) => concat(&["unextendr_", ty.as_str(), "_", self.fn_name.as_str(), "_inner"]),
            None => concat(&["unextendr_", self.fn_name.as_str(), "_inner"]),
        }
    }

    /// The name of the C-callable function.
    pub fn fn_name_outer(&self) -> (s: String)
        ensures
            s@ == fn_name_outer_spec(*self),
    {
        proof {
            reveal_with_fuel(crate::text::concat_spec, 5);
        }
        match self.get_self_ty_ident() {
            Some(ty) => concat(&["unextendr_", ty.as_str(), "_", self.fn_name.as_str()]),
            None => concat(&["unextendr_", self.fn_name.as_str()]),
        }
    }

    /// The name of the R function.
    pub fn fn_name_r(&self) -> (s: String)
        ensures
            s@ == fn_name_r_spec(*self),
    {
        proof {
            reveal_with_fuel(crate::text::concat_spec, 4);
        }
        match self.get_self_ty_ident() {
            Some(ty) => {
                if str_equals(&self.fn_name, "new") {
                    ty.clone()
                } else {
                    concat(&[ty.as_str(), "_", self.fn_name.as_str()])
                }
            },
            None => self.fn_name.clone(),
        }
    }

    /// The arguments of the C function, as pairs of name and type.
    pub fn get_c_args(&self) -> (out: Vec<(String, String)>)
        ensures
            pair_views(out@) == c_args_spec(*self),
    {
        let mut out: Vec<(String, String)> = Vec::new();
        if let UnextendrFnType::Method(_) = &self.fn_type {
            out.push((String::from_str("self__"), String::from_str("SEXP")));
        }
        let ghost offset: int = out.len() as int;
        let mut i: usize = 0;
        while i < self.args.len()
            invariant
                i <= self.args.len(),
                offset == (if self.fn_type is Method { 1int } else { 0int }),
                out.len() == offset + i,
                offset == 1 ==> out@[0].0@ == "self__"@ && out@[0].1@ == "SEXP"@,
                forall|j: int| 0 <= j < i ==> (#[trigger] out@[offset + j]).0@ == self.args@[j].pat@
                    && out@[offset + j].1@ == "SEXP"@,
            decreases self.args.len() - i,
        {
            let pat = self.args[i].pat.clone();
            let ty = self.args[i].ty.to_c_type();
            out.push((pat, ty));
            i = i + 1;
        }
        assert forall|k: int| offset <= k < out.len() implies #[trigger] pair_views(out@)[k]
            == c_args_spec(*self)[k] by {
            assert(out@[offset + (k - offset)] == out@[k]);
        }
        assert(pair_views(out@) =~= c_args_spec(*self));
        out
    }

    /// The arguments of the R function.
    pub fn get_r_args(&self) -> (out: Vec<String>)
        ensures
            crate::text::views(out@) == r_args_spec(*self),
    {
        let mut out: Vec<String> = Vec::new();
        if let UnextendrFnType::Method(_) = &self.fn_type {
            out.push(String::from_str("self"));
        }
        let ghost offset: int = out.len() as int;
        let mut i: usize = 0;
        while i < self.args.len()
            invariant
                i <= self.args.len(),
                offset == (if self.fn_type is Method { 1int } else { 0int }),
                out.len() == offset + i,
                offset == 1 ==> out@[0]@ == "self"@,
                forall|j: int| 0 <= j < i ==> (#[trigger] out@[offset + j])@ == self.args@[j].pat@,
            decreases self.args.len() - i,
        {
            out.push(self.args[i].pat.clone());
            i = i + 1;
        }
        assert forall|k: int| offset <= k < out.len() implies #[trigger] crate::text::views(out@)[k]
            == r_args_spec(*self)[k] by {
            assert(out@[offset + (k - offset)] == out@[k]);
        }
        assert(crate::text::views(out@) =~= r_args_spec(*self));
        out
    }
}

/// `"{ty} {pat}"` for each argument.
fn format_c_params(args: &Vec<(String, String)>) -> (out: Vec<String>)
    ensures
        crate::text::views(out@) == c_params(pair_views(args@)),
{
    let mut out: Vec<String> = Vec::new();
    let mut i: usize = 0;
    while i < args.len()
        invariant
            i <= args.len(),
            out.len() == i,
            forall|j: int| 0 <= j < i ==> (#[trigger] out@[j])@ == args@[j].1@ + " "@ + args@[j].0@,
        decreases args.len() - i,
    {
        let p = concat(&[args[i].1.as_str(), " ", args[i].0.as_str()]);
        proof {
            reveal_with_fuel(crate::text::concat_spec, 4);
        }
        out.push(p);
        i = i + 1;
    }
    assert(crate::text::views(out@) =~= c_params(pair_views(args@)));
    out
}

/// The names of the arguments.
fn arg_names(args: &Vec<(String, String)>) -> (out: Vec<String>)
    ensures
        crate::text::views(out@) == c_arg_names(pair_views(args@)),
{
    let mut out: Vec<String> = Vec::new();
    let mut i: usize = 0;
    while i < args.len()
        invariant
            i <= args.len(),
            out.len() == i,
            forall|j: int| 0 <= j < i ==> (#[trigger] out@[j])@ == args@[j].0@,
        decreases args.len() - i,
    {
        out.push(args[i].0.clone());
        i = i + 1;
    }
    assert(crate::text::views(out@) =~= c_arg_names(pair_views(args@)));
    out
}

impl UnextendrFn {
    /// The declaration of the C function, for the header.
    pub fn to_c_function_for_header(&self) -> (s: String)
        ensures
            s@ == c_header_spec(*self),
    {
        let fn_name = self.fn_name_outer();
        let c_args = self.get_c_args();
        let params = format_c_params(&c_args);
        let args = join_strings(&params, ", ");
        proof {
            reveal_with_fuel(crate::text::concat_spec, 6);
        }
        concat(&["SEXP ", fn_name.as_str(), "(", args.as_str(), ");"])
    }

    /// The C wrapper, which checks the result of the Rust function.
    pub fn to_c_function_impl(&self) -> (s: String)
        ensures
            s@ == c_impl_spec(*self),
    {
        let fn_name = self.fn_name_outer();
        let c_args = self.get_c_args();
        let params = format_c_params(&c_args);
        let args_sig = join_strings(&params, ", ");
        let names = arg_names(&c_args);
        let args_call = join_strings(&names, ", ");
        proof {
            reveal_with_fuel(crate::text::concat_spec, 10);
        }
        concat(
            &[
                "\nSEXP ",
                fn_name.as_str(),
                "_wrapper(",
                args_sig.as_str(),
                ") {\n    SEXP res = ",
                fn_name.as_str(),
                "(",
                args_call.as_str(),
                ");\n    return handle_result(res);\n}",
            ],
        )
    }

    /// The entry of the C function in the table of registered routines.
    pub fn to_c_function_call_entry(&self) -> (s: String)
        ensures
            s@ == c_call_entry_spec(*self),
    {
        let fn_name = self.fn_name_outer();
        let n_args = self.get_c_args().len();
        let n = crate::text::usize_to_string(n_args);
        proof {
            reveal_with_fuel(crate::text::concat_spec, 8);
        }
        concat(
            &["    {\"", fn_name.as_str(), "\", (DL_FUNC) &", fn_name.as_str(), "_wrapper, ", n.as_str(), "},"],
        )
    }

    /// The R function that calls the C function.
    pub fn to_r_function(&self) -> (s: String)
        ensures
            s@ == r_function_spec(*self),
    {
        let fn_name = self.fn_name_r();
        let fn_name_c = self.fn_name_outer();
        let doc_comments = get_r_doc_comment(self.docs.as_slice());
        let c_args = self.get_c_args();
        let names = arg_names(&c_args);
        let args = join_strings(&names, ", ");
        proof {
            reveal_with_fuel(crate::text::concat_spec, 9);
        }
        let call = concat(&[".Call(", fn_name_c.as_str(), ", ", args.as_str(), ")"]);
        let body = if self.has_result {
            call
        } else {
            concat(&["invisible(", call.as_str(), ")"])
        };
        concat(
            &[
                doc_comments.as_str(),
                "\n",
                fn_name.as_str(),
                " <- function(",
                args.as_str(),
                ") {\n  ",
                body.as_str(),
                "\n}\n",
            ],
        )
    }
}

/// The forms of the inner Rust function that converts the arguments and
/// calls the user's function.
#[derive(Clone, Copy, Debug, PartialEq, Eq, Structural)]
pub enum InnerFnTemplate {
    /// A top-level function whose value is returned.
    BareWithResult,
    /// A top-level function; a dummy value is returned.
    BareWithoutResult,
    /// A method called on the object behind `self__`, whose value is returned.
    MethodWithResult,
    /// A method called on the object behind `self__`; a dummy value is returned.
    MethodWithoutResult,
    /// An associated function whose value is returned.
    AssociatedWithResult,
    /// An associated function; a dummy value is returned.
    AssociatedWithoutResult,
    /// A constructor, whose value is returned as an external pointer.
    Constructor,
}

/// The form of the inner function, by the kind of the function and whether
/// it returns a value.
pub open spec fn inner_fn_template_spec(fn_type: UnextendrFnType, has_result: bool) -> InnerFnTemplate {
    match fn_type {
        UnextendrFnType::BareFunction => if has_result {
            InnerFnTemplate::BareWithResult
        } else {
            InnerFnTemplate::BareWithoutResult
        },
        UnextendrFnType::Method(_) => if has_result {
            InnerFnTemplate::MethodWithResult
        } else {
            InnerFnTemplate::MethodWithoutResult
        },
        UnextendrFnType::AssociatedFunction(_) => if has_result {
            InnerFnTemplate::AssociatedWithResult
        } else {
            InnerFnTemplate::AssociatedWithoutResult
        },
        UnextendrFnType::Constructor(_) => InnerFnTemplate::Constructor,
    }
}

impl UnextendrFn {
    /// The form of the inner function.
    pub fn inner_fn_template(&self) -> (t: InnerFnTemplate)
        ensures
            t == inner_fn_template_spec(self.fn_type, self.has_result),
    {
        match &self.fn_type {
            UnextendrFnType::BareFunction => if self.has_result {
                InnerFnTemplate::BareWithResult
            } else {
                InnerFnTemplate::BareWithoutResult
            },
            UnextendrFnType::Method(_) => if self.has_result {
                InnerFnTemplate::MethodWithResult
            } else {
                InnerFnTemplate::MethodWithoutResult
            },
            UnextendrFnType::AssociatedFunction(_) => if self.has_result {
                InnerFnTemplate::AssociatedWithResult
            } else {
                InnerFnTemplate::AssociatedWithoutResult
            },
            UnextendrFnType::Constructor(_) => InnerFnTemplate::Constructor,
        }
    }

    /// Whether the outer function takes the object as `self__` first: only a method does.
    pub fn takes_self(&self) -> (r: bool)
        ensures
            r == (self.fn_type is Method),
    {
        match &self.fn_type {
            UnextendrFnType::Method(_) => true,
            _ => false,
        }
    }
}

/// A method's C function takes the object as `self__` before the declared
/// arguments, and its R function takes it as `self`; any other function takes
/// just the declared arguments, in order. Every C argument is a `SEXP`.
pub proof fn law_method_takes_self_first(f: UnextendrFn)
    ensures
        f.fn_type is Method ==> c_args_spec(f).len() == f.args@.len() + 1 && c_args_spec(f)[0] == (
        "self__"@, "SEXP"@) && r_args_spec(f)[0] == "self"@,
        !(f.fn_type is Method) ==> c_args_spec(f).len() == f.args@.len(),
        f.fn_type is Method ==> forall|i: int|
            0 <= i < f.args@.len() ==> #[trigger] c_args_spec(f)[i + 1] == (f.args@[i].pat@, "SEXP"@),
        !(f.fn_type is Method) ==> forall|i: int|
            0 <= i < f.args@.len() ==> #[trigger] c_args_spec(f)[i] == (f.args@[i].pat@, "SEXP"@),
        forall|i: int| 0 <= i < c_args_spec(f).len() ==> #[trigger] c_args_spec(f)[i].1 == "SEXP"@,
{
}

/// A constructor, method or associated function named `new` is called in R by
/// the name of its type; any other function of a type by the type's name, an
/// underscore and its own name.
pub proof fn law_r_name_of_type_functions(f: UnextendrFn)
    requires
        !(f.fn_type is BareFunction),
    ensures
        f.fn_name@ == "new"@ ==> fn_name_r_spec(f) == self_ty_ident(f.fn_type).unwrap(),
        f.fn_name@ != "new"@ ==> fn_name_r_spec(f) == self_ty_ident(f.fn_type).unwrap() + "_"@
            + f.fn_name@,
{
}

/// The parameters of a function's C wrapper and C function: the object
/// `self__` first for a method, then the declared arguments in order.
pub open spec fn c_param_names(f: UnextendrFn) -> Seq<Seq<char>> {
    let declared = Seq::new(f.args@.len(), |i: int| f.args@[i].pat@);
    if f.fn_type is Method {
        seq!["self__"@] + declared
    } else {
        declared
    }
}

/// Each parameter declared as a `SEXP`.
pub open spec fn sexp_params(names: Seq<Seq<char>>) -> Seq<Seq<char>> {
    Seq::new(names.len(), |i: int| "SEXP"@ + " "@ + names[i])
}

/// The C code of one function agrees with itself: the header declares the C
/// function with one `SEXP` parameter per name of `c_param_names` (the object
/// first for a method, then the declared arguments); the wrapper takes the
/// same parameters and passes each of them, in order, to the C function; and
/// the routine-registration entry gives as the number of arguments the
/// number of those parameters.
pub proof fn law_c_wrapper_passes_its_parameters(f: UnextendrFn)
    ensures
        ({
            let name = fn_name_outer_spec(f);
            let names = c_param_names(f);
            let params = crate::text::join(sexp_params(names), ", "@);
            &&& c_header_spec(f) == "SEXP "@ + name + "("@ + params + ");"@
            &&& c_impl_spec(f) == "\nSEXP "@ + name + "_wrapper("@ + params + ") {\n    SEXP res = "@
                + name + "("@ + crate::text::join(names, ", "@)
                + ");\n    return handle_result(res);\n}"@
            &&& c_call_entry_spec(f) == "    {\""@ + name + "\", (DL_FUNC) &"@ + name + "_wrapper, "@
                + crate::text::decimal(names.len()) + "},"@
            &&& names.len() == f.args@.len() + (if f.fn_type is Method { 1int } else { 0int })
        }),
{
    let names = c_param_names(f);
    let a = c_args_spec(f);
    assert(c_arg_names(a) =~= names);
    assert(c_params(a) =~= sexp_params(names));
    assert(a.len() == names.len());
}

/// The name by which each supported type is written as the last segment of
/// a path type (`&str` is written as a reference to `str`).
pub open spec fn supported_type_name(t: UnextendrSupportedTypes) -> Seq<char> {
    match t {
        UnextendrSupportedTypes::IntegerSxp => "IntegerSxp"@,
        UnextendrSupportedTypes::RealSxp => "RealSxp"@,
        UnextendrSupportedTypes::LogicalSxp => "LogicalSxp"@,
        UnextendrSupportedTypes::StringSxp => "StringSxp"@,
        UnextendrSupportedTypes::ListSxp => "ListSxp"@,
        UnextendrSupportedTypes::BareI32 => "i32"@,
        UnextendrSupportedTypes::BareF64 => "f64"@,
        UnextendrSupportedTypes::BareStr => "str"@,
        UnextendrSupportedTypes::BareBool => "bool"@,
    }
}

/// Whether a type shape is how the supported type `t` is written.
pub open spec fn writes_type(ty: TypeShape, t: UnextendrSupportedTypes) -> bool {
    match t {
        UnextendrSupportedTypes::BareStr => ty matches TypeShape::Reference(Some(id)) && id@
            == supported_type_name(t),
        _ => ty matches TypeShape::Path(id) && id@ == supported_type_name(t),
    }
}

/// Every supported type, written as it is written, is read back as itself:
/// `IntegerSxp`, `RealSxp`, `LogicalSxp`, `StringSxp`, `ListSxp`, `i32`,
/// `f64` and `bool` as the last segment of a path, and `&str`. No two of them
/// are read as the same type.
pub proof fn law_supported_types_read_back(ty: TypeShape, t: UnextendrSupportedTypes)
    requires
        writes_type(ty, t),
    ensures
        supported_type_of(ty) == Some(t),
{
    reveal_strlit("IntegerSxp");
    reveal_strlit("RealSxp");
    reveal_strlit("LogicalSxp");
    reveal_strlit("StringSxp");
    reveal_strlit("ListSxp");
    reveal_strlit("i32");
    reveal_strlit("f64");
    reveal_strlit("str");
    reveal_strlit("bool");
    match t {
        UnextendrSupportedTypes::IntegerSxp => {},
        UnextendrSupportedTypes::RealSxp => {
            assert("RealSxp"@ != "IntegerSxp"@) by { assert("RealSxp"@[0] != "IntegerSxp"@[0]); }
        },
        UnextendrSupportedTypes::LogicalSxp => {
            assert("LogicalSxp"@[0] != "IntegerSxp"@[0]);
            assert("LogicalSxp"@[0] != "RealSxp"@[0]);
        },
        UnextendrSupportedTypes::StringSxp => {
            assert("StringSxp"@[0] != "IntegerSxp"@[0]);
            assert("StringSxp"@[0] != "RealSxp"@[0]);
            assert("StringSxp"@[0] != "LogicalSxp"@[0]);
        },
        UnextendrSupportedTypes::ListSxp => {
            assert("ListSxp"@[0] != "IntegerSxp"@[0]);
            assert("ListSxp"@[0] != "RealSxp"@[0]);
            assert("ListSxp"@[1] != "LogicalSxp"@[1]);
            assert("ListSxp"@[0] != "StringSxp"@[0]);
        },
        UnextendrSupportedTypes::BareI32 => {
            assert("i32"@.len() != "IntegerSxp"@.len());
            assert("i32"@.len() != "RealSxp"@.len());
            assert("i32"@.len() != "LogicalSxp"@.len());
            assert("i32"@.len() != "StringSxp"@.len());
            assert("i32"@.len() != "ListSxp"@.len());
        },
        UnextendrSupportedTypes::BareF64 => {
            assert("f64"@.len() != "IntegerSxp"@.len());
            assert("f64"@.len() != "RealSxp"@.len());
            assert("f64"@.len() != "LogicalSxp"@.len());
            assert("f64"@.len() != "StringSxp"@.len());
            assert("f64"@.len() != "ListSxp"@.len());
            assert("f64"@[0] != "i32"@[0]);
        },
        UnextendrSupportedTypes::BareStr => {},
        UnextendrSupportedTypes::BareBool => {
            assert("bool"@.len() != "IntegerSxp"@.len());
            assert("bool"@.len() != "RealSxp"@.len());
            assert("bool"@.len() != "LogicalSxp"@.len());
            assert("bool"@.len() != "StringSxp"@.len());
            assert("bool"@.len() != "ListSxp"@.len());
            assert("bool"@.len() != "i32"@.len());
            assert("bool"@.len() != "f64"@.len());
        },
    }
}

/// Only those spellings are read as supported types: a type shape read as
/// the supported type `t` is how `t` is written.
pub proof fn law_only_written_types_read(ty: TypeShape, t: UnextendrSupportedTypes)
    requires
        supported_type_of(ty) == Some(t),
    ensures
        writes_type(ty, t),
{
}

} // verus!
