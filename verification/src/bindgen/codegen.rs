//! The files of generated code: the C header, the C implementation with the
//! routine registration, and the R wrappers.

use vstd::prelude::*;
use crate::text;
use crate::text::{join_strings, concat, str_equals};
use super::unextendr_fn as uf;
use super::unextendr_fn::{UnextendrFn, UnextendrFnType, get_r_doc_comment};

verus! {

/// The exported methods and associated functions of one type.
#[derive(Debug)]
pub struct UnextendrImpl {
    /// Doc comments
    pub docs: Vec<String>,
    /// The identifier of the type
    pub ty: String,
    /// Methods and associated functions
    pub fns: Vec<UnextendrFn>,
}

/// What the generator reads from one source file.
#[derive(Debug)]
pub struct ParsedResult {
    pub bare_fns: Vec<UnextendrFn>,
    pub impls: Vec<UnextendrImpl>,
}

/// How a function of an impl block relates to its type: a function whose
/// first input is a receiver is a method, one that returns `Self` is a
/// constructor, any other is an associated function.
pub open spec fn is_impl_fn_type(is_method: bool, is_ctor: bool, ty: Seq<char>, t: UnextendrFnType) -> bool {
    match t {
        UnextendrFnType::Method(s) => is_method && !is_ctor && s@ == ty,
        UnextendrFnType::Constructor(s) => !is_method && is_ctor && s@ == ty,
        UnextendrFnType::AssociatedFunction(s) => !is_method && !is_ctor && s@ == ty,
        UnextendrFnType::BareFunction => false,
    }
}

/// Classifies a function of an impl block. A method cannot also be a constructor.
pub fn classify_impl_fn(is_method: bool, is_ctor: bool, ty: String) -> (t: UnextendrFnType)
    requires
        !(is_method && is_ctor),
    ensures
        is_impl_fn_type(is_method, is_ctor, ty@, t),
{
    if is_method {
        UnextendrFnType::Method(ty)
    } else if is_ctor {
        UnextendrFnType::Constructor(ty)
    } else {
        UnextendrFnType::AssociatedFunction(ty)
    }
}

/// The fixed beginning of the C implementation file.
pub const C_COMMON_PART: &'static str = r#"
#include <stdint.h>
#include <Rinternals.h>
#include "rust/api.h"

static uintptr_t TAGGED_POINTER_MASK = (uintptr_t)1;

SEXP handle_result(SEXP res_) {
    uintptr_t res = (uintptr_t)res_;

    // An error is indicated by tag.
    if ((res & TAGGED_POINTER_MASK) == 1) {
        // Remove tag
        SEXP res_aligned = (SEXP)(res & ~TAGGED_POINTER_MASK);

        // Currently, there are two types of error cases:
        //
        //   1. Error from Rust code
        //   2. Error from R's C API, which is caught by R_UnwindProtect()
        //
        if (TYPEOF(res_aligned) == CHARSXP) {
            // In case 1, the result is an error message that can be passed to
            // Rf_error() directly.
            Rf_error("%s", CHAR(res_aligned));
        } else {
            // In case 2, the result is the token to restart the
            // cleanup process on R's side.
            R_ContinueUnwind(res_aligned);
        }
    }

    return (SEXP)res;
}
"#;

/// The fixed end of the C implementation file: the end of the routine table
/// and the function that registers it.
pub const C_TRAILER: &'static str = "\n    {NULL, NULL, 0}\n};\n\nvoid R_init_unextendr(DllInfo *dll) {\n  R_registerRoutines(dll, NULL, CallEntries, NULL, NULL);\n  R_useDynamicSymbols(dll, FALSE);\n}\n";

/// The fixed beginning of the R wrapper file.
pub const R_HEADER: &'static str = "#' @useDynLib unextendr, .registration = TRUE\n#' @keywords internal\n\"_PACKAGE\"\n\n";

/// The header lines of a list of functions.
pub open spec fn headers_spec(fns: Seq<UnextendrFn>) -> Seq<char> {
    crate::text::join(Seq::new(fns.len(), |i: int| uf::c_header_spec(fns[i])), "\n"@)
}

/// The C wrappers of a list of functions.
pub open spec fn c_impls_spec(fns: Seq<UnextendrFn>) -> Seq<char> {
    crate::text::join(Seq::new(fns.len(), |i: int| uf::c_impl_spec(fns[i])), "\n"@)
}

/// The registration entries of a list of functions.
pub open spec fn call_entries_spec(fns: Seq<UnextendrFn>) -> Seq<char> {
    crate::text::join(Seq::new(fns.len(), |i: int| uf::c_call_entry_spec(fns[i])), "\n"@)
}

/// The R functions of a list of functions.
pub open spec fn r_functions_spec(fns: Seq<UnextendrFn>) -> Seq<char> {
    crate::text::join(Seq::new(fns.len(), |i: int| uf::r_function_spec(fns[i])), "\n"@)
}

/// A section of generated code for the functions of one type.
pub open spec fn impl_section(ty: Seq<char>, body: Seq<char>) -> Seq<char> {
    "\n// methods and associated functions for "@ + ty + "\n"@ + body
}

/// The sections for all impls, each holding one part of the C code for the
/// functions of its type.
pub open spec fn impl_sections(impls: Seq<UnextendrImpl>, kind: CSectionKind) -> Seq<char> {
    crate::text::join(
        Seq::new(impls.len(), |i: int| impl_section(impls[i].ty@, section_body(kind, impls[i].fns@))),
        "\n"@,
    )
}

/// The C header file.
pub open spec fn c_header_file_spec(p: ParsedResult) -> Seq<char> {
    headers_spec(p.bare_fns@) + "\n"@ + impl_sections(p.impls@, CSectionKind::Headers)
}

/// The fixed part of the C implementation file: the function that turns a
/// flagged result into an R error or a resumed unwinding.
pub open spec fn c_common_part() -> Seq<char> {
    C_COMMON_PART@
}

/// The C implementation file.
pub open spec fn c_impl_file_spec(p: ParsedResult) -> Seq<char> {
    c_common_part() + "\n"@ + c_impls_spec(p.bare_fns@) + "\n"@ + impl_sections(p.impls@, CSectionKind::Wrappers) + "\n\nstatic const R_CallMethodDef CallEntries[] = {\n"@ + call_entries_spec(p.bare_fns@)
        + "\n"@ + impl_sections(p.impls@, CSectionKind::CallEntries)
        + C_TRAILER@
}

/// The R wrapper file.
pub open spec fn r_impl_file_spec(p: ParsedResult) -> Seq<char> {
    R_HEADER@ + r_functions_spec(p.bare_fns@) + "\n"@ + crate::text::join(
        Seq::new(p.impls@.len(), |i: int| r_impl_for_impl_spec(p.impls@[i])),
        "\n"@,
    ) + "\n"@
}

/// Whether a function is a constructor.
pub open spec fn is_ctor(f: UnextendrFn) -> bool {
    f.fn_type is Constructor
}

/// The constructors among the functions of an impl.
pub open spec fn ctors_of(fns: Seq<UnextendrFn>) -> Seq<UnextendrFn> {
    fns.filter(|f: UnextendrFn| is_ctor(f))
}

/// The other functions of an impl.
pub open spec fn others_of(fns: Seq<UnextendrFn>) -> Seq<UnextendrFn> {
    fns.filter(|f: UnextendrFn| !is_ctor(f))
}

/// The arguments of an `.Call()`: the C function first.
pub open spec fn call_args(x: UnextendrFn) -> Seq<char> {
    crate::text::join(seq![uf::fn_name_outer_spec(x)] + uf::r_args_spec(x), ", "@)
}

/// The body of an R function: the call, made invisible where there is no result.
pub open spec fn call_body(x: UnextendrFn) -> Seq<char> {
    if x.has_result {
        ".Call("@ + call_args(x) + ")"@
    } else {
        "invisible(.Call("@ + call_args(x) + "))"@
    }
}

/// The R closure that binds a method or associated function to an object.
pub open spec fn closure_spec(x: UnextendrFn) -> Seq<char> {
    let args_r = crate::text::join(uf::r_args_spec(x).filter(|e: Seq<char>| e != "self"@), ", "@);
    uf::fn_name_r_spec(x) + " <- function(self) {\n  function("@ + args_r + ") {\n    "@ + call_body(x)
        + "\n  }\n}\n"@
}

/// The line that attaches a method to a new object.
pub open spec fn method_line(o: UnextendrFn) -> Seq<char> {
    "  e$"@ + o.fn_name@ + " <- "@ + uf::fn_name_r_spec(o) + "(self)"@
}

/// The R function that builds an object with a constructor.
pub open spec fn builder_spec(x: UnextendrFn, others: Seq<UnextendrFn>, class_r: Seq<char>) -> Seq<char> {
    let args_r = crate::text::join(uf::r_args_spec(x), ", "@);
    let methods = crate::text::join(Seq::new(others.len(), |i: int| method_line(others[i])), "\n"@);
    uf::fn_name_r_spec(x) + " <- function("@ + args_r
        + ") {\n  e <- new.env(parent = emptyenv())\n  self <- .Call("@ + call_args(x) + ")\n\n"@
        + methods + "\n\n  class(e) <- \""@ + class_r + "\"\n  e\n}\n"@
}

/// The R code for the functions of one type.
pub open spec fn r_impl_for_impl_spec(u: UnextendrImpl) -> Seq<char> {
    let ctors = ctors_of(u.fns@);
    let others = others_of(u.fns@);
    let closures = crate::text::join(Seq::new(others.len(), |i: int| closure_spec(others[i])), "\n"@);
    let builders = crate::text::join(
        Seq::new(ctors.len(), |i: int| builder_spec(ctors[i], others, u.ty@)),
        "\n"@,
    );
    uf::r_doc_comment_spec(text::views(u.docs@)) + "\n"@ + builders + "\n\n"@ + closures + "\n"@
}


/// The header lines of a list of functions, joined by line breaks.
fn make_c_headers(fns: &[UnextendrFn]) -> (s: String)
    ensures
        s@ == headers_spec(fns@),
{
    let mut out: Vec<String> = Vec::new();
    let mut i: usize = 0;
    while i < fns.len()
        invariant
            i <= fns.len(),
            out.len() == i,
            forall|j: int| 0 <= j < i ==> (#[trigger] out@[j])@ == uf::c_header_spec(fns@[j]),
        decreases fns.len() - i,
    {
        out.push(fns[i].to_c_function_for_header());
        i = i + 1;
    }
    assert(text::views(out@) =~= Seq::new(fns@.len(), |j: int| uf::c_header_spec(fns@[j])));
    join_strings(&out, "\n")
}

/// The C wrappers of a list of functions, joined by line breaks.
pub fn make_c_function_impl(fns: &[UnextendrFn]) -> (s: String)
    ensures
        s@ == c_impls_spec(fns@),
{
    let mut out: Vec<String> = Vec::new();
    let mut i: usize = 0;
    while i < fns.len()
        invariant
            i <= fns.len(),
            out.len() == i,
            forall|j: int| 0 <= j < i ==> (#[trigger] out@[j])@ == uf::c_impl_spec(fns@[j]),
        decreases fns.len() - i,
    {
        out.push(fns[i].to_c_function_impl());
        i = i + 1;
    }
    assert(text::views(out@) =~= Seq::new(fns@.len(), |j: int| uf::c_impl_spec(fns@[j])));
    join_strings(&out, "\n")
}

/// The registration entries of a list of functions, joined by line breaks.
pub fn make_c_function_call_entry(fns: &[UnextendrFn]) -> (s: String)
    ensures
        s@ == call_entries_spec(fns@),
{
    let mut out: Vec<String> = Vec::new();
    let mut i: usize = 0;
    while i < fns.len()
        invariant
            i <= fns.len(),
            out.len() == i,
            forall|j: int| 0 <= j < i ==> (#[trigger] out@[j])@ == uf::c_call_entry_spec(fns@[j]),
        decreases fns.len() - i,
    {
        out.push(fns[i].to_c_function_call_entry());
        i = i + 1;
    }
    assert(text::views(out@) =~= Seq::new(fns@.len(), |j: int| uf::c_call_entry_spec(fns@[j])));
    join_strings(&out, "\n")
}

/// The R functions of a list of functions, joined by line breaks.
fn make_r_functions(fns: &[UnextendrFn]) -> (s: String)
    ensures
        s@ == r_functions_spec(fns@),
{
    let mut out: Vec<String> = Vec::new();
    let mut i: usize = 0;
    while i < fns.len()
        invariant
            i <= fns.len(),
            out.len() == i,
            forall|j: int| 0 <= j < i ==> (#[trigger] out@[j])@ == uf::r_function_spec(fns@[j]),
        decreases fns.len() - i,
    {
        out.push(fns[i].to_r_function());
        i = i + 1;
    }
    assert(text::views(out@) =~= Seq::new(fns@.len(), |j: int| uf::r_function_spec(fns@[j])));
    join_strings(&out, "\n")
}

/// Which part of the C code a section of an impl holds.
pub enum CSectionKind {
    Headers,
    Wrappers,
    CallEntries,
}

/// The body of a section for the functions of one type.
pub open spec fn section_body(kind: CSectionKind, fns: Seq<UnextendrFn>) -> Seq<char> {
    match kind {
        CSectionKind::Headers => headers_spec(fns),
        CSectionKind::Wrappers => c_impls_spec(fns),
        CSectionKind::CallEntries => call_entries_spec(fns),
    }
}

/// The sections of all impls for one part of the C code.
fn make_impl_sections(impls: &[UnextendrImpl], kind: CSectionKind) -> (s: String)
    ensures
        s@ == impl_sections(impls@, kind),
{
    let mut out: Vec<String> = Vec::new();
    let mut i: usize = 0;
    while i < impls.len()
        invariant
            i <= impls.len(),
            out.len() == i,
            forall|j: int| 0 <= j < i ==> (#[trigger] out@[j])@ == impl_section(
                impls@[j].ty@,
                section_body(kind, impls@[j].fns@),
            ),
        decreases impls.len() - i,
    {
        let body = match kind {
            CSectionKind::Headers => make_c_headers(impls[i].fns.as_slice()),
            CSectionKind::Wrappers => make_c_function_impl(impls[i].fns.as_slice()),
            CSectionKind::CallEntries => make_c_function_call_entry(impls[i].fns.as_slice()),
        };
        proof {
            reveal_with_fuel(crate::text::concat_spec, 5);
        }
        out.push(
            concat(
                &["\n// methods and associated functions for ", impls[i].ty.as_str(), "\n", body.as_str()],
            ),
        );
        i = i + 1;
    }
    assert(text::views(out@) =~= Seq::new(
        impls@.len(),
        |j: int| impl_section(impls@[j].ty@, section_body(kind, impls@[j].fns@)),
    ));
    join_strings(&out, "\n")
}

/// The C header file.
pub fn make_c_header_file(parsed_result: &ParsedResult) -> (s: String)
    ensures
        s@ == c_header_file_spec(*parsed_result),
{
    let bare_fns = make_c_headers(parsed_result.bare_fns.as_slice());
    let impls = make_impl_sections(parsed_result.impls.as_slice(), CSectionKind::Headers);
    proof {
        reveal_with_fuel(crate::text::concat_spec, 4);
    }
    concat(&[bare_fns.as_str(), "\n", impls.as_str()])
}

/// The C implementation file: the result handler, the wrappers and the
/// registration of the routines.
pub fn make_c_impl_file(parsed_result: &ParsedResult) -> (s: String)
    ensures
        s@ == c_impl_file_spec(*parsed_result),
{
    let c_fns_bare = make_c_function_impl(parsed_result.bare_fns.as_slice());
    let c_fns_impl = make_impl_sections(parsed_result.impls.as_slice(), CSectionKind::Wrappers);
    let call_entries_bare = make_c_function_call_entry(parsed_result.bare_fns.as_slice());
    let call_entries_impl = make_impl_sections(
        parsed_result.impls.as_slice(),
        CSectionKind::CallEntries,
    );
    proof {
        reveal_with_fuel(crate::text::concat_spec, 11);
    }
    concat(
        &[
            C_COMMON_PART,
            "\n",
            c_fns_bare.as_str(),
            "\n",
            c_fns_impl.as_str(),
            "\n\nstatic const R_CallMethodDef CallEntries[] = {\n",
            call_entries_bare.as_str(),
            "\n",
            call_entries_impl.as_str(),
            C_TRAILER,
        ],
    )
}

/// The R file: the wrappers of the bare functions and the classes of the impls.
pub fn make_r_impl_file(parsed_result: &ParsedResult) -> (s: String)
    ensures
        s@ == r_impl_file_spec(*parsed_result),
{
    let r_fns = make_r_functions(parsed_result.bare_fns.as_slice());
    let mut out: Vec<String> = Vec::new();
    let mut i: usize = 0;
    while i < parsed_result.impls.len()
        invariant
            i <= parsed_result.impls.len(),
            out.len() == i,
            forall|j: int| 0 <= j < i ==> (#[trigger] out@[j])@ == r_impl_for_impl_spec(
                parsed_result.impls@[j],
            ),
        decreases parsed_result.impls.len() - i,
    {
        out.push(make_r_impl_for_impl(&parsed_result.impls[i]));
        i = i + 1;
    }
    assert(text::views(out@) =~= Seq::new(
        parsed_result.impls@.len(),
        |j: int| r_impl_for_impl_spec(parsed_result.impls@[j]),
    ));
    let r_impls = join_strings(&out, "\n");
    proof {
        reveal_with_fuel(crate::text::concat_spec, 6);
    }
    concat(&[R_HEADER, r_fns.as_str(), "\n", r_impls.as_str(), "\n"])
}

/// The arguments of an `.Call()`: the C function first.
fn make_call_args(x: &UnextendrFn) -> (s: String)
    ensures
        s@ == call_args(*x),
{
    let mut args = x.get_r_args();
    args.insert(0, x.fn_name_outer());
    assert(text::views(args@) =~= seq![uf::fn_name_outer_spec(*x)] + uf::r_args_spec(*x));
    join_strings(&args, ", ")
}

/// The body of an R function.
fn make_call_body(x: &UnextendrFn) -> (s: String)
    ensures
        s@ == call_body(*x),
{
    let args_call = make_call_args(x);
    proof {
        reveal_with_fuel(crate::text::concat_spec, 4);
    }
    if x.has_result {
        concat(&[".Call(", args_call.as_str(), ")"])
    } else {
        concat(&["invisible(.Call(", args_call.as_str(), "))"])
    }
}

/// The R closure of a method or associated function.
fn make_closure(x: &UnextendrFn) -> (s: String)
    ensures
        s@ == closure_spec(*x),
{
    let fn_name = x.fn_name_r();
    let args = x.get_r_args();
    let ghost pred = |e: Seq<char>| e != "self"@;
    let ghost vargs = text::views(args@);
    let mut kept: Vec<String> = Vec::new();
    let mut i: usize = 0;
    while i < args.len()
        invariant
            i <= args.len(),
            vargs == text::views(args@),
            pred == (|e: Seq<char>| e != "self"@),
            text::views(kept@) == vargs.take(i as int).filter(pred),
        decreases args.len() - i,
    {
        let ghost t1 = vargs.take(i + 1);
        assert(t1.drop_last() =~= vargs.take(i as int));
        assert(t1.last() == args@[i as int]@);
        assert(t1.filter(pred) == (if pred(t1.last()) {
            t1.drop_last().filter(pred).push(t1.last())
        } else {
            t1.drop_last().filter(pred)
        })) by {
            reveal_with_fuel(Seq::filter, 1);
        }
        let ghost before = kept@;
        if !str_equals(&args[i], "self") {
            kept.push(args[i].clone());
            assert(text::views(kept@) =~= text::views(before).push(args@[i as int]@));
        }
        i = i + 1;
    }
    assert(vargs.take(args.len() as int) =~= vargs);
    let args_r = join_strings(&kept, ", ");
    let body = make_call_body(x);
    proof {
        reveal_with_fuel(crate::text::concat_spec, 7);
    }
    concat(
        &[fn_name.as_str(), " <- function(self) {\n  function(", args_r.as_str(), ") {\n    ", body.as_str(), "\n  }\n}\n"],
    )
}

/// The R function that builds an object with the constructor `x`.
fn make_builder(x: &UnextendrFn, others: &Vec<&UnextendrFn>, class_r: &String) -> (s: String)
    ensures
        s@ == builder_spec(*x, others@.map_values(|o: &UnextendrFn| *o), class_r@),
{
    let fn_name = x.fn_name_r();
    let args = x.get_r_args();
    let args_r = join_strings(&args, ", ");
    let args_call = make_call_args(x);
    let ghost os = others@.map_values(|o: &UnextendrFn| *o);
    let mut lines: Vec<String> = Vec::new();
    let mut i: usize = 0;
    while i < others.len()
        invariant
            i <= others.len(),
            os == others@.map_values(|o: &UnextendrFn| *o),
            lines.len() == i,
            forall|j: int| 0 <= j < i ==> (#[trigger] lines@[j])@ == method_line(os[j]),
        decreases others.len() - i,
    {
        let o = others[i];
        let o_name_r = o.fn_name_r();
        proof {
            reveal_with_fuel(crate::text::concat_spec, 6);
        }
        lines.push(concat(&["  e$", o.fn_name.as_str(), " <- ", o_name_r.as_str(), "(self)"]));
        i = i + 1;
    }
    assert(text::views(lines@) =~= Seq::new(os.len(), |j: int| method_line(os[j])));
    let methods = join_strings(&lines, "\n");
    proof {
        reveal_with_fuel(crate::text::concat_spec, 11);
    }
    concat(
        &[
            fn_name.as_str(),
            " <- function(",
            args_r.as_str(),
            ") {\n  e <- new.env(parent = emptyenv())\n  self <- .Call(",
            args_call.as_str(),
            ")\n\n",
            methods.as_str(),
            "\n\n  class(e) <- \"",
            class_r.as_str(),
            "\"\n  e\n}\n",
        ],
    )
}

/// The R code for the functions of one type: a builder per constructor, which
/// attaches the other functions to the new object, and a closure per other
/// function.
pub fn make_r_impl_for_impl(unextendr_impl: &UnextendrImpl) -> (s: String)
    ensures
        s@ == r_impl_for_impl_spec(*unextendr_impl),
{
    let ghost fns = unextendr_impl.fns@;
    let mut ctors: Vec<&UnextendrFn> = Vec::new();
    let mut others: Vec<&UnextendrFn> = Vec::new();
    let mut i: usize = 0;
    while i < unextendr_impl.fns.len()
        invariant
            i <= unextendr_impl.fns.len(),
            fns == unextendr_impl.fns@,
            ctors@.map_values(|o: &UnextendrFn| *o) == fns.take(i as int).filter(|f: UnextendrFn| is_ctor(f)),
            others@.map_values(|o: &UnextendrFn| *o) == fns.take(i as int).filter(|f: UnextendrFn| !is_ctor(f)),
        decreases unextendr_impl.fns.len() - i,
    {
        proof {
            reveal_with_fuel(Seq::filter, 1);
        }
        assert(fns.take(i + 1).drop_last() =~= fns.take(i as int));
        let f = &unextendr_impl.fns[i];
        let ghost c0 = ctors@;
        let ghost o0 = others@;
        match f.fn_type {
            UnextendrFnType::Constructor(_) => {
                ctors.push(f);
                assert(ctors@.map_values(|o: &UnextendrFn| *o) =~= c0.map_values(|o: &UnextendrFn| *o).push(*f));
            },
            _ => {
                others.push(f);
                assert(others@.map_values(|o: &UnextendrFn| *o) =~= o0.map_values(|o: &UnextendrFn| *o).push(*f));
            },
        }
        i = i + 1;
    }
    assert(fns.take(fns.len() as int) =~= fns);
    let ghost cs = ctors@.map_values(|o: &UnextendrFn| *o);
    let ghost os = others@.map_values(|o: &UnextendrFn| *o);

    let mut closures_v: Vec<String> = Vec::new();
    let mut k: usize = 0;
    while k < others.len()
        invariant
            k <= others.len(),
            os == others@.map_values(|o: &UnextendrFn| *o),
            closures_v.len() == k,
            forall|j: int| 0 <= j < k ==> (#[trigger] closures_v@[j])@ == closure_spec(os[j]),
        decreases others.len() - k,
    {
        closures_v.push(make_closure(others[k]));
        k = k + 1;
    }
    assert(text::views(closures_v@) =~= Seq::new(os.len(), |j: int| closure_spec(os[j])));
    let closures = join_strings(&closures_v, "\n");

    let mut builders_v: Vec<String> = Vec::new();
    let mut k: usize = 0;
    while k < ctors.len()
        invariant
            k <= ctors.len(),
            cs == ctors@.map_values(|o: &UnextendrFn| *o),
            os == others@.map_values(|o: &UnextendrFn| *o),
            builders_v.len() == k,
            forall|j: int| 0 <= j < k ==> (#[trigger] builders_v@[j])@ == builder_spec(
                cs[j],
                os,
                unextendr_impl.ty@,
            ),
        decreases ctors.len() - k,
    {
        builders_v.push(make_builder(ctors[k], &others, &unextendr_impl.ty));
        k = k + 1;
    }
    assert(text::views(builders_v@) =~= Seq::new(cs.len(), |j: int| builder_spec(cs[j], os, unextendr_impl.ty@)));
    let builders = join_strings(&builders_v, "\n");
    let doc_comments = get_r_doc_comment(unextendr_impl.docs.as_slice());
    proof {
        reveal_with_fuel(crate::text::concat_spec, 7);
    }
    concat(&[doc_comments.as_str(), "\n", builders.as_str(), "\n\n", closures.as_str(), "\n"])
}

/// A constructor's R builder takes the constructor's declared arguments as
/// its parameters, and its `.Call()` passes the C function's name followed
/// by exactly those parameters, in order, before the methods are bound.
pub proof fn law_builder_passes_its_parameters(x: UnextendrFn, others: Seq<UnextendrFn>, class_r: Seq<char>)
    requires
        x.fn_type is Constructor,
    ensures
        ({
            let ps = Seq::new(x.args@.len(), |i: int| x.args@[i].pat@);
            (uf::fn_name_r_spec(x) + " <- function("@ + text::join(ps, ", "@)
                + ") {\n  e <- new.env(parent = emptyenv())\n  self <- .Call("@ + text::join(
                seq![uf::fn_name_outer_spec(x)] + ps,
                ", "@,
            ) + ")\n\n"@).is_prefix_of(builder_spec(x, others, class_r))
        }),
{
    let ps = Seq::new(x.args@.len(), |i: int| x.args@[i].pat@);
    assert(uf::r_args_spec(x) =~= ps);
    let prefix = uf::fn_name_r_spec(x) + " <- function("@ + text::join(ps, ", "@)
        + ") {\n  e <- new.env(parent = emptyenv())\n  self <- .Call("@ + text::join(
        seq![uf::fn_name_outer_spec(x)] + ps,
        ", "@,
    ) + ")\n\n"@;
    let b = builder_spec(x, others, class_r);
    let methods = text::join(Seq::new(others.len(), |i: int| method_line(others[i])), "\n"@);
    let rest = methods + "\n\n  class(e) <- \""@ + class_r + "\"\n  e\n}\n"@;
    assert(b =~= prefix + rest);
    assert(b.subrange(0, prefix.len() as int) =~= prefix);
}

} // verus!
