//! Reading the exported functions out of a Rust source file.
//!
//! `syn` parses the text; its syntax tree is handed over as plain values
//! (attributes, names, inputs, types), and the decisions of the generator
//! (which items carry the `#[unextendr]` marker, which attributes are doc
//! comments, which functions are methods or constructors) are made here.

use vstd::prelude::*;
use crate::text::{views, str_equals};
use super::unextendr_fn::{
    FnInputShape, TypeShape, UnextendrFn, UnextendrFnType, UnextendrSupportedTypes,
    supported_type_of, input_supported,
    declared_args, args_view, writes_type, law_supported_types_read_back,
};
use super::codegen::{ParsedResult, UnextendrImpl, classify_impl_fn, is_impl_fn_type};

verus! {

/// The kind of value that an attribute carries.
#[derive(Debug)]
pub enum AttrValue {
    /// A bare path, as in `#[inline]`.
    Bare,
    /// A `name = value` pair; the text of the value where it is a string
    /// literal (`#[doc = "..."]`, which is how a doc comment reaches the parser).
    NameValue(Option<String>),
    /// A list, as in `#[derive(Debug)]`.
    List,
}

/// An attribute, as far as the generator reads it.
#[derive(Debug)]
pub struct AttrShape {
    /// `#[..]` rather than `#![..]`.
    pub outer: bool,
    /// Whether the path starts with `::`.
    pub leading_colon: bool,
    /// The identifiers of the segments of the path.
    pub path: Vec<String>,
    pub value: AttrValue,
}

/// A function signature with its attributes.
#[derive(Debug)]
pub struct FnShape {
    pub attrs: Vec<AttrShape>,
    pub name: String,
    pub inputs: Vec<FnInputShape>,
    /// The declared return type; `None` where the signature has no `->`.
    pub output: Option<TypeShape>,
}

/// An item inside an impl block.
#[derive(Debug)]
pub enum ImplMember {
    Fn(FnShape),
    Other,
}

/// A top-level item of a source file.
#[derive(Debug)]
pub enum SourceItem {
    Fn(FnShape),
    Impl { attrs: Vec<AttrShape>, self_ty: TypeShape, members: Vec<ImplMember> },
    Other,
}

#[verifier::external_type_specification]
#[verifier::external_body]
pub struct ExSynItem(syn::Item);

#[verifier::external_type_specification]
#[verifier::external_body]
pub struct ExSynImplItem(syn::ImplItem);

#[verifier::external_type_specification]
#[verifier::external_body]
pub struct ExSynAttribute(syn::Attribute);

#[verifier::external_type_specification]
#[verifier::external_body]
pub struct ExSynSignature(syn::Signature);

#[verifier::external_type_specification]
#[verifier::external_body]
pub struct ExSynType(syn::Type);

#[verifier::external_type_specification]
#[verifier::external_body]
pub struct ExSynFnArg(syn::FnArg);

/// The items of the file that `text` holds, as `syn::parse_str::<syn::File>`
/// reads it; `None` where it refuses the text.
pub uninterp spec fn parsed_source(text: Seq<char>) -> Option<Seq<SourceItem>>;

/// Parses `text` with `syn::parse_str::<syn::File>` and hands the items over
/// as plain values, in the order of the file. The contract claims that the
/// outcome depends on the text alone: `None` exactly where `syn` refuses it,
/// and otherwise the items that `parsed_source` names. What `syn` accepts,
/// and how it reads each item, is `syn`'s and is not stated.
#[verifier::external_body]
fn parse_source(text: &str) -> (r: Option<Vec<SourceItem>>)
    ensures
        match r {
            Some(v) => parsed_source(text@) == Some(v@),
            None => parsed_source(text@) is None,
        },
{
    match syn::parse_str::<syn::File>(text) {
        Ok(file) => Some(file.items.iter().map(source_item).collect()),
        Err(_) => None,
    }
}

/// Converts a `syn::Item`: functions and impl blocks by their parts, any
/// other item to `Other`. Called only by `parse_source`; nothing is claimed.
#[verifier::external_body]
fn source_item(item: &syn::Item) -> SourceItem {
    match item {
        syn::Item::Fn(f) => SourceItem::Fn(fn_shape(&f.attrs, &f.sig)),
        syn::Item::Impl(i) => SourceItem::Impl {
            attrs: i.attrs.iter().map(attr_shape).collect(),
            self_ty: type_shape(&i.self_ty),
            members: i.items.iter().map(impl_member).collect(),
        },
        _ => SourceItem::Other,
    }
}

/// Converts a `syn::ImplItem`: functions by their parts, any other item to
/// `Other`. Called only by `source_item`; nothing is claimed.
#[verifier::external_body]
fn impl_member(item: &syn::ImplItem) -> ImplMember {
    match item {
        syn::ImplItem::Fn(f) => ImplMember::Fn(fn_shape(&f.attrs, &f.sig)),
        _ => ImplMember::Other,
    }
}

/// Converts the attributes and signature of a function: its name
/// (`Ident::to_string`), its inputs and its return type. Called only by the
/// conversions above; nothing is claimed.
#[verifier::external_body]
fn fn_shape(attrs: &Vec<syn::Attribute>, sig: &syn::Signature) -> FnShape {
    FnShape {
        attrs: attrs.iter().map(attr_shape).collect(),
        name: sig.ident.to_string(),
        inputs: sig.inputs.iter().map(input_shape).collect(),
        output: match &sig.output {
            syn::ReturnType::Default => None,
            syn::ReturnType::Type(_, ty) => Some(type_shape(ty)),
        },
    }
}

/// Converts a `syn::Attribute`: its style, its path and its value (the text
/// of a string literal, `LitStr::value`). Called only by the conversions
/// above; nothing is claimed.
#[verifier::external_body]
fn attr_shape(attr: &syn::Attribute) -> AttrShape {
    let path = attr.path();
    AttrShape {
        outer: matches!(attr.style, syn::AttrStyle::Outer),
        leading_colon: path.leading_colon.is_some(),
        path: path.segments.iter().map(|s| s.ident.to_string()).collect(),
        value: match &attr.meta {
            syn::Meta::Path(_) => AttrValue::Bare,
            syn::Meta::List(_) => AttrValue::List,
            syn::Meta::NameValue(nv) => AttrValue::NameValue(match &nv.value {
                syn::Expr::Lit(syn::ExprLit { lit: syn::Lit::Str(s), .. }) => Some(s.value()),
                _ => None,
            }),
        },
    }
}

/// Converts a `syn::Type`: a path type by the identifier of its last
/// segment, a reference by that of the referenced path type. Called only by
/// the conversions above; nothing is claimed.
#[verifier::external_body]
fn type_shape(ty: &syn::Type) -> TypeShape {
    let last = |p: &syn::Path| p.segments.last().map(|s| s.ident.to_string()).unwrap_or_default();
    match ty {
        syn::Type::Path(tp) => TypeShape::Path(last(&tp.path)),
        syn::Type::Reference(r) => TypeShape::Reference(match r.elem.as_ref() {
            syn::Type::Path(tp) => Some(last(&tp.path)),
            _ => None,
        }),
        _ => TypeShape::Other,
    }
}

/// Converts a `syn::FnArg`: a receiver, or a typed argument by the
/// identifier of its pattern (where it is one) and the shape of its type.
/// Called only by `fn_shape`; nothing is claimed.
#[verifier::external_body]
fn input_shape(arg: &syn::FnArg) -> FnInputShape {
    match arg {
        syn::FnArg::Receiver(_) => FnInputShape::Receiver,
        syn::FnArg::Typed(pt) => FnInputShape::Typed(
            match pt.pat.as_ref() {
                syn::Pat::Ident(p) => Some(p.ident.to_string()),
                _ => None,
            },
            type_shape(&pt.ty),
        ),
    }
}

/// Why a source file yields no bindings.
#[derive(Clone, Copy, Debug, PartialEq, Eq, Structural)]
pub enum SourceError {
    /// `syn` does not read the text as a Rust source file.
    Unparsable,
    /// An argument of an exported function is not bound by a plain identifier.
    NonIdentArgument,
    /// An argument of an exported function is of a type that is not supported.
    UnsupportedType,
    /// A function of an exported impl block both takes `self` and returns `Self`.
    MethodAndConstructor,
    /// An exported impl block with functions is not for a path type.
    UnexpectedSelfType,
}

/// The message of each error.
pub open spec fn source_error_message(e: SourceError) -> Seq<char> {
    match e {
        SourceError::Unparsable => "Failed to parse the specified file"@,
        SourceError::NonIdentArgument => "non-ident is not supported"@,
        SourceError::UnsupportedType => "the type is not supported"@,
        SourceError::MethodAndConstructor => "Should not happen"@,
        SourceError::UnexpectedSelfType => "Unexpected self type!"@,
    }
}

impl SourceError {
    /// The message of the error.
    pub fn to_string(&self) -> (s: String)
        ensures
            s@ == source_error_message(*self),
    {
        match self {
            SourceError::Unparsable => String::from_str("Failed to parse the specified file"),
            SourceError::NonIdentArgument => String::from_str("non-ident is not supported"),
            SourceError::UnsupportedType => String::from_str("the type is not supported"),
            SourceError::MethodAndConstructor => String::from_str("Should not happen"),
            SourceError::UnexpectedSelfType => String::from_str("Unexpected self type!"),
        }
    }
}

/// Whether a path is the single identifier `id`.
pub open spec fn is_single_ident(leading_colon: bool, path: Seq<String>, id: Seq<char>) -> bool {
    !leading_colon && path.len() == 1 && path[0]@ == id
}

/// The `#[unextendr]` marker: an outer attribute that is the bare path `unextendr`.
pub open spec fn is_marker(a: AttrShape) -> bool {
    a.outer && is_single_ident(a.leading_colon, a.path@, "unextendr"@) && a.value is Bare
}

/// Whether one of the attributes is the marker.
pub open spec fn is_marked(attrs: Seq<AttrShape>) -> bool {
    exists|i: int| 0 <= i < attrs.len() && is_marker(#[trigger] attrs[i])
}

/// The text of a doc comment: an attribute `doc = "..."` with a string literal.
pub open spec fn doc_text(a: AttrShape) -> Option<Seq<char>> {
    if is_single_ident(a.leading_colon, a.path@, "doc"@) {
        match a.value {
            AttrValue::NameValue(Some(s)) => Some(s@),
            _ => None,
        }
    } else {
        None
    }
}

/// The doc comments among the attributes, in their order.
pub open spec fn docs_of(attrs: Seq<AttrShape>) -> Seq<Seq<char>>
    decreases attrs.len(),
{
    if attrs.len() == 0 {
        Seq::empty()
    } else {
        let rest = docs_of(attrs.drop_last());
        match doc_text(attrs.last()) {
            Some(d) => rest.push(d),
            None => rest,
        }
    }
}

/// A method: the first input is a receiver.
pub open spec fn is_method(f: FnShape) -> bool {
    f.inputs@.len() > 0 && f.inputs@[0] is Receiver
}

/// A constructor: the declared return type is the path `Self`.
pub open spec fn is_ctor(f: FnShape) -> bool {
    match f.output {
        Some(TypeShape::Path(id)) => id@ == "Self"@,
        _ => false,
    }
}

/// The first error that `f` finds among the elements, in their order.
pub open spec fn first_error<A>(s: Seq<A>, f: spec_fn(A) -> Option<SourceError>) -> Option<SourceError>
    decreases s.len(),
{
    if s.len() == 0 {
        None
    } else {
        match first_error(s.drop_last(), f) {
            Some(e) => Some(e),
            None => f(s.last()),
        }
    }
}

/// What an input of an exported function is refused for, if anything.
pub open spec fn input_error(input: FnInputShape) -> Option<SourceError> {
    match input {
        FnInputShape::Receiver => None,
        FnInputShape::Typed(None, _) => Some(SourceError::NonIdentArgument),
        FnInputShape::Typed(Some(_), ty) => if supported_type_of(ty) is Some {
            None
        } else {
            Some(SourceError::UnsupportedType)
        },
    }
}

/// The first refused input of a function.
pub open spec fn input_check() -> spec_fn(FnInputShape) -> Option<SourceError> {
    |i: FnInputShape| input_error(i)
}

/// The first refused input of a function.
pub open spec fn inputs_error(f: FnShape) -> Option<SourceError> {
    first_error(f.inputs@, input_check())
}

/// What a top-level function is refused for: only marked ones are read.
pub open spec fn bare_fn_error(item: SourceItem) -> Option<SourceError> {
    match item {
        SourceItem::Fn(f) => if is_marked(f.attrs@) { inputs_error(f) } else { None },
        _ => None,
    }
}

/// What a function of an exported impl block is refused for.
pub open spec fn member_error(m: ImplMember) -> Option<SourceError> {
    match m {
        ImplMember::Fn(f) => if is_method(f) && is_ctor(f) {
            Some(SourceError::MethodAndConstructor)
        } else {
            inputs_error(f)
        },
        ImplMember::Other => None,
    }
}

/// `member_error` as a function value.
pub open spec fn member_check() -> spec_fn(ImplMember) -> Option<SourceError> {
    |m: ImplMember| member_error(m)
}

/// What an impl block is refused for, function by function: only marked ones are read.
pub open spec fn impl_error(item: SourceItem) -> Option<SourceError> {
    match item {
        SourceItem::Impl { attrs, members, .. } => if is_marked(attrs@) {
            first_error(members@, member_check())
        } else {
            None
        },
        _ => None,
    }
}

/// The functions among the items of an impl block, in their order.
pub open spec fn impl_fns(members: Seq<ImplMember>) -> Seq<FnShape>
    decreases members.len(),
{
    if members.len() == 0 {
        Seq::empty()
    } else {
        let rest = impl_fns(members.drop_last());
        match members.last() {
            ImplMember::Fn(f) => rest.push(f),
            ImplMember::Other => rest,
        }
    }
}

/// A marked impl block with functions whose type is not a path: the names
/// of its functions cannot be formed.
pub open spec fn self_type_error(item: SourceItem) -> Option<SourceError> {
    match item {
        SourceItem::Impl { attrs, self_ty, members } =>
            if is_marked(attrs@) && !(self_ty is Path) && impl_fns(members@).len() > 0 {
                Some(SourceError::UnexpectedSelfType)
            } else {
                None
            },
        _ => None,
    }
}

/// `bare_fn_error` as a function value.
pub open spec fn bare_fn_check() -> spec_fn(SourceItem) -> Option<SourceError> {
    |i: SourceItem| bare_fn_error(i)
}

/// `impl_error` as a function value.
pub open spec fn impl_check() -> spec_fn(SourceItem) -> Option<SourceError> {
    |i: SourceItem| impl_error(i)
}

/// `self_type_error` as a function value.
pub open spec fn self_type_check() -> spec_fn(SourceItem) -> Option<SourceError> {
    |i: SourceItem| self_type_error(i)
}

/// The error of a file: top-level functions are read first, then impl
/// blocks, then the names are formed.
pub open spec fn source_error(items: Seq<SourceItem>) -> Option<SourceError> {
    match first_error(items, bare_fn_check()) {
        Some(e) => Some(e),
        None => match first_error(items, impl_check()) {
            Some(e) => Some(e),
            None => first_error(items, self_type_check()),
        },
    }
}

/// The marked top-level functions, in the order of the file.
pub open spec fn marked_fns(items: Seq<SourceItem>) -> Seq<FnShape>
    decreases items.len(),
{
    if items.len() == 0 {
        Seq::empty()
    } else {
        let rest = marked_fns(items.drop_last());
        match items.last() {
            SourceItem::Fn(f) => if is_marked(f.attrs@) { rest.push(f) } else { rest },
            _ => rest,
        }
    }
}

/// Whether an item is a marked impl block.
pub open spec fn is_marked_impl(item: SourceItem) -> bool {
    match item {
        SourceItem::Impl { attrs, .. } => is_marked(attrs@),
        _ => false,
    }
}

/// The marked impl blocks, in the order of the file.
pub open spec fn marked_impls(items: Seq<SourceItem>) -> Seq<SourceItem>
    decreases items.len(),
{
    if items.len() == 0 {
        Seq::empty()
    } else {
        let rest = marked_impls(items.drop_last());
        if is_marked_impl(items.last()) { rest.push(items.last()) } else { rest }
    }
}

/// The identifier of the type of an impl block.
pub open spec fn impl_ty_name(self_ty: TypeShape) -> Seq<char> {
    match self_ty {
        TypeShape::Path(id) => id@,
        _ => "UNEXPETED"@,
    }
}

/// `u` describes the function `f`: its doc comments, name, arguments and
/// whether it returns a value.
pub open spec fn fn_described(u: UnextendrFn, f: FnShape) -> bool {
    &&& views(u.docs@) == docs_of(f.attrs@)
    &&& u.fn_name@ == f.name@
    &&& args_view(u.args@) == declared_args(f.inputs@)
    &&& u.has_result == f.output is Some
}

/// `u` describes the impl block `item`, each of its functions with its kind.
pub open spec fn impl_described(u: UnextendrImpl, item: SourceItem) -> bool {
    match item {
        SourceItem::Impl { attrs, self_ty, members } => impl_parts_described(u, attrs@, self_ty, members@),
        _ => false,
    }
}

/// `u` describes the impl block of the given attributes, type and items.
pub open spec fn impl_parts_described(
    u: UnextendrImpl,
    attrs: Seq<AttrShape>,
    self_ty: TypeShape,
    members: Seq<ImplMember>,
) -> bool {
    let fs = impl_fns(members);
    &&& views(u.docs@) == docs_of(attrs)
    &&& u.ty@ == impl_ty_name(self_ty)
    &&& u.fns@.len() == fs.len()
    &&& forall|j: int| 0 <= j < fs.len() ==> {
        &&& fn_described(#[trigger] u.fns@[j], fs[j])
        &&& is_impl_fn_type(is_method(fs[j]), is_ctor(fs[j]), u.ty@, u.fns@[j].fn_type)
    }
}

/// `p` holds the marked functions and impl blocks of the items, in their order.
pub open spec fn parsed_as(items: Seq<SourceItem>, p: ParsedResult) -> bool {
    let fs = marked_fns(items);
    let is = marked_impls(items);
    &&& p.bare_fns@.len() == fs.len()
    &&& forall|i: int| 0 <= i < fs.len() ==> {
        &&& fn_described(#[trigger] p.bare_fns@[i], fs[i])
        &&& p.bare_fns@[i].fn_type is BareFunction
    }
    &&& p.impls@.len() == is.len()
    &&& forall|i: int| 0 <= i < is.len() ==> impl_described(#[trigger] p.impls@[i], is[i])
}

/// Whether a path is the single identifier `id`.
fn single_ident(leading_colon: bool, path: &Vec<String>, id: &str) -> (r: bool)
    ensures
        r == is_single_ident(leading_colon, path@, id@),
{
    !leading_colon && path.len() == 1 && str_equals(&path[0], id)
}

/// Whether the attribute is the `#[unextendr]` marker.
pub fn is_marker_attr(attr: &AttrShape) -> (r: bool)
    ensures
        r == is_marker(*attr),
{
    let bare = match attr.value {
        AttrValue::Bare => true,
        _ => false,
    };
    attr.outer && single_ident(attr.leading_colon, &attr.path, "unextendr") && bare
}

/// Whether one of the attributes is the `#[unextendr]` marker.
pub fn has_marker(attrs: &Vec<AttrShape>) -> (r: bool)
    ensures
        r == is_marked(attrs@),
{
    let mut i: usize = 0;
    while i < attrs.len()
        invariant
            i <= attrs.len(),
            forall|j: int| 0 <= j < i ==> !is_marker(#[trigger] attrs@[j]),
        decreases attrs.len() - i,
    {
        if is_marker_attr(&attrs[i]) {
            return true;
        }
        i = i + 1;
    }
    false
}

/// The doc comments among the attributes (`#[doc = "..."]`), in their order.
pub fn extract_docs(attrs: &Vec<AttrShape>) -> (docs: Vec<String>)
    ensures
        views(docs@) == docs_of(attrs@),
{
    let mut docs: Vec<String> = Vec::new();
    let mut i: usize = 0;
    while i < attrs.len()
        invariant
            i <= attrs.len(),
            views(docs@) == docs_of(attrs@.take(i as int)),
        decreases attrs.len() - i,
    {
        assert(attrs@.take(i + 1).drop_last() =~= attrs@.take(i as int));
        let a = &attrs[i];
        if single_ident(a.leading_colon, &a.path, "doc") {
            match &a.value {
                AttrValue::NameValue(Some(d)) => {
                    let ghost before = docs@;
                    docs.push(d.clone());
                    assert(views(docs@) =~= views(before).push(d@));
                },
                _ => {},
            }
        }
        i = i + 1;
    }
    assert(attrs@.take(attrs.len() as int) =~= attrs@);
    docs
}

/// Whether the first input of the function is a receiver.
pub fn fn_is_method(f: &FnShape) -> (r: bool)
    ensures
        r == is_method(*f),
{
    if f.inputs.len() == 0 {
        false
    } else {
        match f.inputs[0] {
            FnInputShape::Receiver => true,
            _ => false,
        }
    }
}

/// Whether the function returns `Self`.
pub fn fn_is_ctor(f: &FnShape) -> (r: bool)
    ensures
        r == is_ctor(*f),
{
    match &f.output {
        Some(TypeShape::Path(id)) => str_equals(id, "Self"),
        _ => false,
    }
}

/// Where a `first_error` finds nothing, `f` finds nothing in any element.
proof fn lemma_first_error_none<A>(s: Seq<A>, f: spec_fn(A) -> Option<SourceError>)
    requires
        first_error(s, f) is None,
    ensures
        forall|i: int| 0 <= i < s.len() ==> (#[trigger] f(s[i])) is None,
    decreases s.len(),
{
    if s.len() > 0 {
        lemma_first_error_none(s.drop_last(), f);
        assert forall|i: int| 0 <= i < s.len() implies (#[trigger] f(s[i])) is None by {
            if i < s.len() - 1 {
                assert(s[i] == s.drop_last()[i]);
            }
        }
    }
}

fn input_error_of(input: &FnInputShape) -> (r: Option<SourceError>)
    ensures
        r == input_error(*input),
{
    match input {
        FnInputShape::Receiver => None,
        FnInputShape::Typed(None, _) => Some(SourceError::NonIdentArgument),
        FnInputShape::Typed(Some(_), ty) => if UnextendrSupportedTypes::from_type(ty).is_some() {
            None
        } else {
            Some(SourceError::UnsupportedType)
        },
    }
}

fn inputs_error_of(f: &FnShape) -> (r: Option<SourceError>)
    ensures
        r == inputs_error(*f),
{
    let mut err: Option<SourceError> = None;
    let mut i: usize = 0;
    while i < f.inputs.len()
        invariant
            i <= f.inputs.len(),
            err == first_error(f.inputs@.take(i as int), input_check()),
        decreases f.inputs.len() - i,
    {
        assert(f.inputs@.take(i + 1).drop_last() =~= f.inputs@.take(i as int));
        if err.is_none() {
            err = input_error_of(&f.inputs[i]);
        }
        i = i + 1;
    }
    assert(f.inputs@.take(f.inputs.len() as int) =~= f.inputs@);
    err
}

fn member_error_of(m: &ImplMember) -> (r: Option<SourceError>)
    ensures
        r == member_error(*m),
{
    match m {
        ImplMember::Fn(f) => if fn_is_method(f) && fn_is_ctor(f) {
            Some(SourceError::MethodAndConstructor)
        } else {
            inputs_error_of(f)
        },
        ImplMember::Other => None,
    }
}

fn members_error_of(members: &Vec<ImplMember>) -> (r: Option<SourceError>)
    ensures
        r == first_error(members@, member_check()),
{
    let mut err: Option<SourceError> = None;
    let mut i: usize = 0;
    while i < members.len()
        invariant
            i <= members.len(),
            err == first_error(members@.take(i as int), member_check()),
        decreases members.len() - i,
    {
        assert(members@.take(i + 1).drop_last() =~= members@.take(i as int));
        if err.is_none() {
            err = member_error_of(&members[i]);
        }
        i = i + 1;
    }
    assert(members@.take(members.len() as int) =~= members@);
    err
}

fn has_fn_member(members: &Vec<ImplMember>) -> (r: bool)
    ensures
        r == (impl_fns(members@).len() > 0),
{
    let mut found = false;
    let mut i: usize = 0;
    while i < members.len()
        invariant
            i <= members.len(),
            found == (impl_fns(members@.take(i as int)).len() > 0),
        decreases members.len() - i,
    {
        assert(members@.take(i + 1).drop_last() =~= members@.take(i as int));
        match &members[i] {
            ImplMember::Fn(_) => { found = true; },
            ImplMember::Other => {},
        }
        i = i + 1;
    }
    assert(members@.take(members.len() as int) =~= members@);
    found
}

fn bare_fn_error_of(item: &SourceItem) -> (r: Option<SourceError>)
    ensures
        r == bare_fn_error(*item),
{
    match item {
        SourceItem::Fn(f) => if has_marker(&f.attrs) { inputs_error_of(f) } else { None },
        _ => None,
    }
}

fn impl_error_of(item: &SourceItem) -> (r: Option<SourceError>)
    ensures
        r == impl_error(*item),
{
    match item {
        SourceItem::Impl { attrs, members, .. } => if has_marker(attrs) {
            members_error_of(members)
        } else {
            None
        },
        _ => None,
    }
}

fn self_type_error_of(item: &SourceItem) -> (r: Option<SourceError>)
    ensures
        r == self_type_error(*item),
{
    match item {
        SourceItem::Impl { attrs, self_ty, members } => {
            let is_path = match self_ty {
                TypeShape::Path(_) => true,
                _ => false,
            };
            if has_marker(attrs) && !is_path && has_fn_member(members) {
                Some(SourceError::UnexpectedSelfType)
            } else {
                None
            }
        },
        _ => None,
    }
}

/// The error of a file of items, if any: see `source_error`.
pub fn check_items(items: &Vec<SourceItem>) -> (r: Option<SourceError>)
    ensures
        r == source_error(items@),
{
    let mut fn_err: Option<SourceError> = None;
    let mut impl_err: Option<SourceError> = None;
    let mut ty_err: Option<SourceError> = None;
    let mut i: usize = 0;
    while i < items.len()
        invariant
            i <= items.len(),
            fn_err == first_error(items@.take(i as int), bare_fn_check()),
            impl_err == first_error(items@.take(i as int), impl_check()),
            ty_err == first_error(items@.take(i as int), self_type_check()),
        decreases items.len() - i,
    {
        assert(items@.take(i + 1).drop_last() =~= items@.take(i as int));
        if fn_err.is_none() {
            fn_err = bare_fn_error_of(&items[i]);
        }
        if impl_err.is_none() {
            impl_err = impl_error_of(&items[i]);
        }
        if ty_err.is_none() {
            ty_err = self_type_error_of(&items[i]);
        }
        i = i + 1;
    }
    assert(items@.take(items.len() as int) =~= items@);
    match fn_err {
        Some(e) => Some(e),
        None => match impl_err {
            Some(e) => Some(e),
            None => ty_err,
        },
    }
}

/// Describes a function from its attributes and signature. Every input but
/// a receiver must be named by an identifier and be of a supported type.
fn describe_fn(f: &FnShape, fn_type: UnextendrFnType) -> (u: UnextendrFn)
    requires
        inputs_error(*f) is None,
    ensures
        fn_described(u, *f),
        u.fn_type == fn_type,
{
    proof {
        lemma_first_error_none(f.inputs@, input_check());
        assert forall|i: int| 0 <= i < f.inputs@.len() implies input_supported(#[trigger] f.inputs@[i]) by {
            assert(input_check()(f.inputs@[i]) is None);
        }
    }
    let docs = extract_docs(&f.attrs);
    UnextendrFn::new(docs, f.name.clone(), &f.inputs, f.output.is_some(), fn_type)
}

/// The description of a marked top-level function; `None` for any other item.
pub fn parse_unextendr_fn(item: &SourceItem) -> (r: Option<UnextendrFn>)
    requires
        bare_fn_error(*item) is None,
    ensures
        r is Some <==> (*item matches SourceItem::Fn(f) && is_marked(f.attrs@)),
        r matches Some(u) ==> (*item matches SourceItem::Fn(f) && fn_described(u, f)
            && u.fn_type is BareFunction),
{
    match item {
        SourceItem::Fn(f) => if has_marker(&f.attrs) {
            Some(describe_fn(f, UnextendrFnType::BareFunction))
        } else {
            None
        },
        _ => None,
    }
}

impl UnextendrImpl {
    /// Describes an impl block: its doc comments, the identifier of its type
    /// (`UNEXPETED` where the type is not a path) and its functions, each as
    /// a method, a constructor or an associated function.
    pub fn new(attrs: &Vec<AttrShape>, self_ty: &TypeShape, members: &Vec<ImplMember>) -> (u: Self)
        requires
            first_error(members@, member_check()) is None,
        ensures
            impl_parts_described(u, attrs@, *self_ty, members@),
    {
        proof {
            lemma_first_error_none(members@, member_check());
        }
        let docs = extract_docs(attrs);
        let ty = match self_ty {
            TypeShape::Path(id) => id.clone(),
            _ => String::from_str("UNEXPETED"),
        };
        proof {
            reveal_strlit("UNEXPETED");
        }
        let mut fns: Vec<UnextendrFn> = Vec::new();
        let mut i: usize = 0;
        while i < members.len()
            invariant
                i <= members.len(),
                forall|k: int| 0 <= k < members.len() ==> (#[trigger] member_check()(members@[k])) is None,
                ty@ == impl_ty_name(*self_ty),
                fns@.len() == impl_fns(members@.take(i as int)).len(),
                forall|j: int| 0 <= j < fns@.len() ==> {
                    &&& fn_described(#[trigger] fns@[j], impl_fns(members@.take(i as int))[j])
                    &&& is_impl_fn_type(
                        is_method(impl_fns(members@.take(i as int))[j]),
                        is_ctor(impl_fns(members@.take(i as int))[j]),
                        ty@,
                        fns@[j].fn_type,
                    )
                },
            decreases members.len() - i,
        {
            assert(members@.take(i + 1).drop_last() =~= members@.take(i as int));
            assert(member_check()(members@[i as int]) is None);
            match &members[i] {
                ImplMember::Fn(f) => {
                    let m = fn_is_method(f);
                    let c = fn_is_ctor(f);
                    let fn_type = classify_impl_fn(m, c, ty.clone());
                    let u = describe_fn(f, fn_type);
                    fns.push(u);
                },
                ImplMember::Other => {},
            }
            i = i + 1;
        }
        assert(members@.take(members.len() as int) =~= members@);
        UnextendrImpl { docs, ty, fns }
    }
}

/// The description of a marked impl block; `None` for any other item.
pub fn parse_unextendr_impl(item: &SourceItem) -> (r: Option<UnextendrImpl>)
    requires
        impl_error(*item) is None,
    ensures
        r is Some <==> is_marked_impl(*item),
        r matches Some(u) ==> impl_described(u, *item),
{
    match item {
        SourceItem::Impl { attrs, self_ty, members } => if has_marker(attrs) {
            Some(UnextendrImpl::new(attrs, self_ty, members))
        } else {
            None
        },
        _ => None,
    }
}

/// Reads the marked functions and impl blocks of a file's items, or the
/// first reason why the file yields no bindings.
pub fn parse_items(items: &Vec<SourceItem>) -> (r: Result<ParsedResult, SourceError>)
    ensures
        match source_error(items@) {
            Some(e) => r == Err::<ParsedResult, SourceError>(e),
            None => r matches Ok(p) && parsed_as(items@, p),
        },
{
    if let Some(e) = check_items(items) {
        return Err(e);
    }
    proof {
        lemma_first_error_none(items@, bare_fn_check());
        lemma_first_error_none(items@, impl_check());
    }
    let mut bare_fns: Vec<UnextendrFn> = Vec::new();
    let mut impls: Vec<UnextendrImpl> = Vec::new();
    let mut i: usize = 0;
    while i < items.len()
        invariant
            i <= items.len(),
            forall|k: int| 0 <= k < items.len() ==> (#[trigger] bare_fn_check()(items@[k])) is None,
            forall|k: int| 0 <= k < items.len() ==> (#[trigger] impl_check()(items@[k])) is None,
            bare_fns@.len() == marked_fns(items@.take(i as int)).len(),
            forall|j: int| 0 <= j < bare_fns@.len() ==> {
                &&& fn_described(#[trigger] bare_fns@[j], marked_fns(items@.take(i as int))[j])
                &&& bare_fns@[j].fn_type is BareFunction
            },
            impls@.len() == marked_impls(items@.take(i as int)).len(),
            forall|j: int| 0 <= j < impls@.len() ==>
                impl_described(#[trigger] impls@[j], marked_impls(items@.take(i as int))[j]),
        decreases items.len() - i,
    {
        assert(items@.take(i + 1).drop_last() =~= items@.take(i as int));
        assert(bare_fn_check()(items@[i as int]) is None);
        assert(impl_check()(items@[i as int]) is None);
        if let Some(u) = parse_unextendr_fn(&items[i]) {
            bare_fns.push(u);
        }
        if let Some(u) = parse_unextendr_impl(&items[i]) {
            impls.push(u);
        }
        i = i + 1;
    }
    assert(items@.take(items.len() as int) =~= items@);
    Ok(ParsedResult { bare_fns, impls })
}

/// Reads the marked functions and impl blocks of a Rust source file: `Err`
/// where `syn` refuses the text, or where a marked function cannot be bound
/// (see `source_error`).
pub fn parse_file_contents(text: &str) -> (r: Result<ParsedResult, SourceError>)
    ensures
        match parsed_source(text@) {
            None => r == Err::<ParsedResult, SourceError>(SourceError::Unparsable),
            Some(items) => match source_error(items) {
                Some(e) => r == Err::<ParsedResult, SourceError>(e),
                None => r matches Ok(p) && parsed_as(items, p),
            },
        },
{
    match parse_source(text) {
        Some(items) => parse_items(&items),
        None => Err(SourceError::Unparsable),
    }
}

/// Where `f` finds nothing in any element, `first_error` finds nothing.
proof fn lemma_first_error_all_none<A>(s: Seq<A>, f: spec_fn(A) -> Option<SourceError>)
    requires
        forall|i: int| 0 <= i < s.len() ==> (#[trigger] f(s[i])) is None,
    ensures
        first_error(s, f) is None,
    decreases s.len(),
{
    if s.len() > 0 {
        assert forall|i: int| 0 <= i < s.drop_last().len() implies (#[trigger] f(s.drop_last()[i])) is None by {
            assert(s.drop_last()[i] == s[i]);
        }
        lemma_first_error_all_none(s.drop_last(), f);
        assert(f(s[s.len() - 1]) is None);
    }
}

/// An input that is a receiver, or an argument named by an identifier and
/// written as one of the supported types.
pub open spec fn input_of_supported_type(input: FnInputShape) -> bool {
    match input {
        FnInputShape::Receiver => true,
        FnInputShape::Typed(pat, ty) => pat is Some && exists|t: UnextendrSupportedTypes| #[trigger] writes_type(ty, t),
    }
}

/// A typed input written as the supported type `t`.
pub open spec fn typed_as(input: FnInputShape, t: UnextendrSupportedTypes) -> bool {
    match input {
        FnInputShape::Typed(_, ty) => writes_type(ty, t),
        FnInputShape::Receiver => false,
    }
}

/// The type of a typed input (`Other` for a receiver).
pub open spec fn input_type(input: FnInputShape) -> TypeShape {
    match input {
        FnInputShape::Typed(_, ty) => ty,
        FnInputShape::Receiver => TypeShape::Other,
    }
}

/// A top-level function all of whose inputs are of supported types; any
/// other item.
pub open spec fn fn_item_supported(item: SourceItem) -> bool {
    match item {
        SourceItem::Fn(f) => forall|i: int|
            0 <= i < f.inputs@.len() ==> input_of_supported_type(#[trigger] f.inputs@[i]),
        _ => true,
    }
}

/// A function whose inputs are all receivers or identifiers of supported
/// types (`IntegerSxp`, `RealSxp`, `LogicalSxp`, `StringSxp`, `ListSxp`,
/// `i32`, `f64`, `bool`, `&str`) is accepted: no input is refused, and each
/// argument is read as the type it is written as.
pub proof fn law_supported_inputs_accepted(f: FnShape)
    requires
        forall|i: int| 0 <= i < f.inputs@.len() ==> input_of_supported_type(#[trigger] f.inputs@[i]),
    ensures
        inputs_error(f) is None,
        forall|i: int, t: UnextendrSupportedTypes|
            0 <= i < f.inputs@.len() && #[trigger] typed_as(f.inputs@[i], t) ==> input_error(
                f.inputs@[i],
            ) is None && supported_type_of(input_type(f.inputs@[i])) == Some(t),
{
    assert forall|i: int, t: UnextendrSupportedTypes|
        0 <= i < f.inputs@.len() && #[trigger] typed_as(f.inputs@[i], t) implies input_error(
            f.inputs@[i],
        ) is None && supported_type_of(input_type(f.inputs@[i])) == Some(t) by {
        if let FnInputShape::Typed(_, ty) = f.inputs@[i] {
            law_supported_types_read_back(ty, t);
        }
    }
    assert forall|i: int| 0 <= i < f.inputs@.len() implies (#[trigger] input_check()(f.inputs@[i])) is None by {
        assert(input_of_supported_type(f.inputs@[i]));
        if let FnInputShape::Typed(_, ty) = f.inputs@[i] {
            let t = choose|t: UnextendrSupportedTypes| #[trigger] writes_type(ty, t);
            law_supported_types_read_back(ty, t);
        }
    }
    lemma_first_error_all_none(f.inputs@, input_check());
}

/// A file whose marked functions take only receivers and identifiers of
/// supported types, and which has no marked impl block, parses without
/// error.
pub proof fn law_supported_file_accepted(items: Seq<SourceItem>)
    requires
        forall|k: int| 0 <= k < items.len() ==> !is_marked_impl(#[trigger] items[k]),
        forall|k: int| 0 <= k < items.len() ==> fn_item_supported(#[trigger] items[k]),
    ensures
        source_error(items) is None,
{
    assert forall|k: int| 0 <= k < items.len() implies (#[trigger] bare_fn_check()(items[k])) is None by {
        assert(fn_item_supported(items[k]));
        if let SourceItem::Fn(f) = items[k] {
            law_supported_inputs_accepted(f);
        }
    }
    assert forall|k: int| 0 <= k < items.len() implies (#[trigger] impl_check()(items[k])) is None by {
        assert(!is_marked_impl(items[k]));
    }
    assert forall|k: int| 0 <= k < items.len() implies (#[trigger] self_type_check()(items[k])) is None by {
        assert(!is_marked_impl(items[k]));
    }
    lemma_first_error_all_none(items, bare_fn_check());
    lemma_first_error_all_none(items, impl_check());
    lemma_first_error_all_none(items, self_type_check());
}

} // verus!
