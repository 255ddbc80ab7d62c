use savvy::bindgen::codegen::{
    classify_impl_fn, make_c_header_file, make_c_impl_file, make_r_impl_file,
    make_r_impl_for_impl, ParsedResult, UnextendrImpl, C_COMMON_PART,
};
use savvy::bindgen::source::{parse_file_contents, SourceError};
use savvy::bindgen::unextendr_fn::{
    get_r_doc_comment, FnInputShape, InnerFnTemplate, TypeShape, UnextendrFn, UnextendrFnType,
    UnextendrSupportedTypes,
};

fn s(x: &str) -> String {
    x.to_string()
}

fn to_upper_fn() -> UnextendrFn {
    let inputs = vec![FnInputShape::Typed(Some(s("x")), TypeShape::Path(s("StringSxp")))];
    UnextendrFn::new(
        vec![s(" Convert to Upper-case"), s(""), s(" @param x A character vector."), s(" @export")],
        s("to_upper"),
        &inputs,
        true,
        UnextendrFnType::BareFunction,
    )
}

fn person_impl() -> UnextendrImpl {
    let new_fn = UnextendrFn::new(
        vec![],
        s("new"),
        &vec![],
        true,
        classify_impl_fn(false, true, s("Person")),
    );
    let set_name = UnextendrFn::new(
        vec![],
        s("set_name"),
        &vec![
            FnInputShape::Receiver,
            FnInputShape::Typed(Some(s("name")), TypeShape::Reference(Some(s("str")))),
        ],
        false,
        classify_impl_fn(true, false, s("Person")),
    );
    let name = UnextendrFn::new(
        vec![],
        s("name"),
        &vec![FnInputShape::Receiver],
        true,
        classify_impl_fn(true, false, s("Person")),
    );
    UnextendrImpl { docs: vec![s(" A person")], ty: s("Person"), fns: vec![new_fn, set_name, name] }
}

#[test]
fn supported_types() {
    assert_eq!(
        UnextendrSupportedTypes::from_type(&TypeShape::Path(s("IntegerSxp"))),
        Some(UnextendrSupportedTypes::IntegerSxp)
    );
    assert_eq!(
        UnextendrSupportedTypes::from_type(&TypeShape::Path(s("f64"))),
        Some(UnextendrSupportedTypes::BareF64)
    );
    assert_eq!(
        UnextendrSupportedTypes::from_type(&TypeShape::Reference(Some(s("str")))),
        Some(UnextendrSupportedTypes::BareStr)
    );
    assert_eq!(UnextendrSupportedTypes::from_type(&TypeShape::Path(s("String"))), None);
    assert_eq!(UnextendrSupportedTypes::from_type(&TypeShape::Reference(None)), None);
    assert_eq!(UnextendrSupportedTypes::from_type(&TypeShape::Other), None);
    assert_eq!(UnextendrSupportedTypes::BareBool.to_c_type(), "SEXP");
}

#[test]
fn function_names() {
    let f = to_upper_fn();
    assert_eq!(f.fn_name_inner(), "unextendr_to_upper_inner");
    assert_eq!(f.fn_name_outer(), "unextendr_to_upper");
    assert_eq!(f.fn_name_r(), "to_upper");
    let p = person_impl();
    assert_eq!(p.fns[0].fn_name_r(), "Person");
    assert_eq!(p.fns[0].fn_name_outer(), "unextendr_Person_new");
    assert_eq!(p.fns[1].fn_name_inner(), "unextendr_Person_set_name_inner");
    assert_eq!(p.fns[1].fn_name_r(), "Person_set_name");
    assert_eq!(p.fns[1].get_c_args(), vec![(s("self__"), s("SEXP")), (s("name"), s("SEXP"))]);
    assert_eq!(p.fns[1].get_r_args(), vec![s("self"), s("name")]);
    assert_eq!(p.fns[1].args.len(), 1);
}

#[test]
fn c_pieces_of_a_function() {
    let f = to_upper_fn();
    assert_eq!(f.to_c_function_for_header(), "SEXP unextendr_to_upper(SEXP x);");
    assert_eq!(
        f.to_c_function_impl(),
        "\nSEXP unextendr_to_upper_wrapper(SEXP x) {\n    SEXP res = unextendr_to_upper(x);\n    return handle_result(res);\n}"
    );
    assert_eq!(
        f.to_c_function_call_entry(),
        "    {\"unextendr_to_upper\", (DL_FUNC) &unextendr_to_upper_wrapper, 1},"
    );
    let p = person_impl();
    assert_eq!(
        p.fns[1].to_c_function_for_header(),
        "SEXP unextendr_Person_set_name(SEXP self__, SEXP name);"
    );
    assert_eq!(
        p.fns[0].to_c_function_call_entry(),
        "    {\"unextendr_Person_new\", (DL_FUNC) &unextendr_Person_new_wrapper, 0},"
    );
}

#[test]
fn r_function_of_a_function() {
    let f = to_upper_fn();
    assert_eq!(
        f.to_r_function(),
        "#' Convert to Upper-case\n#'\n#' @param x A character vector.\n#' @export\nto_upper <- function(x) {\n  .Call(unextendr_to_upper, x)\n}\n"
    );
    let g = UnextendrFn::new(vec![], s("hello"), &vec![], false, UnextendrFnType::BareFunction);
    assert_eq!(g.to_r_function(), "\nhello <- function() {\n  invisible(.Call(unextendr_hello, ))\n}\n");
    assert_eq!(get_r_doc_comment(&[s(" a"), s(" b")]), "#' a\n#' b");
    assert_eq!(get_r_doc_comment(&[]), "");
}

#[test]
fn r_code_of_an_impl() {
    let p = person_impl();
    let expected = "#' A person\n\
Person <- function() {\n  e <- new.env(parent = emptyenv())\n  self <- .Call(unextendr_Person_new)\n\n  e$set_name <- Person_set_name(self)\n  e$name <- Person_name(self)\n\n  class(e) <- \"Person\"\n  e\n}\n\
\n\n\
Person_set_name <- function(self) {\n  function(name) {\n    invisible(.Call(unextendr_Person_set_name, self, name))\n  }\n}\n\
\n\
Person_name <- function(self) {\n  function() {\n    .Call(unextendr_Person_name, self)\n  }\n}\n\
\n";
    assert_eq!(make_r_impl_for_impl(&p), expected);
}

#[test]
fn generated_files() {
    let parsed = ParsedResult { bare_fns: vec![to_upper_fn()], impls: vec![person_impl()] };
    assert_eq!(
        make_c_header_file(&parsed),
        "SEXP unextendr_to_upper(SEXP x);\n\n// methods and associated functions for Person\nSEXP unextendr_Person_new();\nSEXP unextendr_Person_set_name(SEXP self__, SEXP name);\nSEXP unextendr_Person_name(SEXP self__);"
    );
    let c = make_c_impl_file(&parsed);
    assert!(c.starts_with(C_COMMON_PART));
    assert!(c.contains("static const R_CallMethodDef CallEntries[] = {\n    {\"unextendr_to_upper\", (DL_FUNC) &unextendr_to_upper_wrapper, 1},\n\n// methods and associated functions for Person\n    {\"unextendr_Person_new\", (DL_FUNC) &unextendr_Person_new_wrapper, 0},"));
    assert!(c.ends_with("    {NULL, NULL, 0}\n};\n\nvoid R_init_unextendr(DllInfo *dll) {\n  R_registerRoutines(dll, NULL, CallEntries, NULL, NULL);\n  R_useDynamicSymbols(dll, FALSE);\n}\n"));
    let r = make_r_impl_file(&parsed);
    assert!(r.starts_with("#' @useDynLib unextendr, .registration = TRUE\n#' @keywords internal\n\"_PACKAGE\"\n\n#' Convert to Upper-case\n"));
    assert!(r.ends_with("    .Call(unextendr_Person_name, self)\n  }\n}\n\n\n"));
}

#[test]
fn classify() {
    assert!(matches!(classify_impl_fn(true, false, s("T")), UnextendrFnType::Method(ref t) if t == "T"));
    assert!(matches!(classify_impl_fn(false, true, s("T")), UnextendrFnType::Constructor(_)));
    assert!(matches!(classify_impl_fn(false, false, s("T")), UnextendrFnType::AssociatedFunction(_)));
}

const SOURCE: &str = r#"
/// Convert to Upper-case
///
/// @export
#[unextendr]
fn to_upper(x: StringSxp) -> unextendr::Result<unextendr::SEXP> {
    todo!()
}

fn not_exported(x: Vec<i32>) {}

#[unextendr::unextendr]
fn other_marker(x: Vec<i32>) {}

#[unextendr(skip)]
fn marker_with_args(x: Vec<i32>) {}

#[unextendr]
fn print_it(x: &str, y: bool) {}

/// A person
#[unextendr]
impl Person {
    fn new() -> Self {
        Self {}
    }
    fn set_name(&mut self, name: &str) {}
    fn name(&self) -> unextendr::Result<unextendr::SEXP> {
        todo!()
    }
    fn count(n: i32) -> i32 {
        n
    }
    const X: i32 = 1;
}

impl NotExported {
    fn f(&self) -> Self {
        todo!()
    }
}
"#;

fn arg_pairs(f: &UnextendrFn) -> Vec<(String, UnextendrSupportedTypes)> {
    f.args.iter().map(|a| (a.pat.clone(), a.ty)).collect()
}

#[test]
fn parse_source_file() {
    let p = parse_file_contents(SOURCE).unwrap();
    assert_eq!(p.bare_fns.len(), 2);
    let f = &p.bare_fns[0];
    assert_eq!(f.fn_name, "to_upper");
    assert_eq!(f.docs, vec![s(" Convert to Upper-case"), s(""), s(" @export")]);
    assert_eq!(arg_pairs(f), vec![(s("x"), UnextendrSupportedTypes::StringSxp)]);
    assert!(f.has_result);
    assert!(matches!(f.fn_type, UnextendrFnType::BareFunction));
    let g = &p.bare_fns[1];
    assert_eq!(g.fn_name, "print_it");
    assert!(g.docs.is_empty());
    assert_eq!(
        arg_pairs(g),
        vec![(s("x"), UnextendrSupportedTypes::BareStr), (s("y"), UnextendrSupportedTypes::BareBool)]
    );
    assert!(!g.has_result);

    assert_eq!(p.impls.len(), 1);
    let i = &p.impls[0];
    assert_eq!(i.ty, "Person");
    assert_eq!(i.docs, vec![s(" A person")]);
    let names: Vec<&str> = i.fns.iter().map(|f| f.fn_name.as_str()).collect();
    assert_eq!(names, vec!["new", "set_name", "name", "count"]);
    assert!(matches!(&i.fns[0].fn_type, UnextendrFnType::Constructor(t) if t == "Person"));
    assert!(matches!(&i.fns[1].fn_type, UnextendrFnType::Method(t) if t == "Person"));
    assert!(matches!(&i.fns[2].fn_type, UnextendrFnType::Method(t) if t == "Person"));
    assert!(matches!(&i.fns[3].fn_type, UnextendrFnType::AssociatedFunction(t) if t == "Person"));
    assert_eq!(arg_pairs(&i.fns[1]), vec![(s("name"), UnextendrSupportedTypes::BareStr)]);
    assert_eq!(arg_pairs(&i.fns[3]), vec![(s("n"), UnextendrSupportedTypes::BareI32)]);
    assert!(!i.fns[1].has_result);
}

#[test]
fn parsed_file_gives_the_same_code_as_its_description() {
    let p = parse_file_contents(SOURCE).unwrap();
    let header = make_c_header_file(&p);
    assert!(header.contains("SEXP unextendr_to_upper(SEXP x);"));
    assert!(header.contains("SEXP unextendr_Person_set_name(SEXP self__, SEXP name);"));
    let r = make_r_impl_file(&p);
    assert!(r.contains("#' Convert to Upper-case\n#'\n#' @export\nto_upper <- function(x) {\n  .Call(unextendr_to_upper, x)\n}\n"));
    assert!(r.contains("print_it <- function(x, y) {\n  invisible(.Call(unextendr_print_it, x, y))\n}\n"));
}

#[test]
fn parse_errors() {
    assert_eq!(parse_file_contents("fn {").unwrap_err(), SourceError::Unparsable);
    assert_eq!(SourceError::Unparsable.to_string(), "Failed to parse the specified file");
    let e = parse_file_contents("#[unextendr] fn f((a, b): (i32, i32)) {}").unwrap_err();
    assert_eq!(e, SourceError::NonIdentArgument);
    assert_eq!(e.to_string(), "non-ident is not supported");
    let e = parse_file_contents("#[unextendr] fn f(x: Vec<i32>) {}").unwrap_err();
    assert_eq!(e, SourceError::UnsupportedType);
    assert_eq!(e.to_string(), "the type is not supported");
    let e = parse_file_contents("#[unextendr] impl Foo { fn f(&self) -> Self { todo!() } }").unwrap_err();
    assert_eq!(e, SourceError::MethodAndConstructor);
    assert_eq!(e.to_string(), "Should not happen");
    let e = parse_file_contents("#[unextendr] impl Foo for &Bar { fn f() {} }").unwrap_err();
    assert_eq!(e, SourceError::UnexpectedSelfType);
    assert_eq!(e.to_string(), "Unexpected self type!");
}

#[test]
fn parse_error_order_and_empty_impls() {
    // Top-level functions are read before impl blocks.
    let src = "#[unextendr] impl Foo { fn f(&self) -> Self { todo!() } }\n#[unextendr] fn g(x: u8) {}";
    assert_eq!(parse_file_contents(src).unwrap_err(), SourceError::UnsupportedType);
    // Inputs are read in order.
    let src = "#[unextendr] fn g(x: u8, (a, b): (i32, i32)) {}";
    assert_eq!(parse_file_contents(src).unwrap_err(), SourceError::UnsupportedType);
    // An impl block without functions names its type `UNEXPETED` where it is not a path.
    let p = parse_file_contents("#[unextendr] impl Foo for &Bar { const X: i32 = 1; }").unwrap();
    assert_eq!(p.impls.len(), 1);
    assert_eq!(p.impls[0].ty, "UNEXPETED");
    assert!(p.impls[0].fns.is_empty());
    let p = parse_file_contents("").unwrap();
    assert!(p.bare_fns.is_empty() && p.impls.is_empty());
}

#[test]
fn inner_fn_templates() {
    let f = to_upper_fn();
    assert_eq!(f.inner_fn_template(), InnerFnTemplate::BareWithResult);
    assert!(!f.takes_self());
    let i = person_impl();
    assert_eq!(i.fns[0].inner_fn_template(), InnerFnTemplate::Constructor);
    assert_eq!(i.fns[1].inner_fn_template(), InnerFnTemplate::MethodWithoutResult);
    assert_eq!(i.fns[2].inner_fn_template(), InnerFnTemplate::MethodWithResult);
    assert!(i.fns[1].takes_self());
    let g = UnextendrFn::new(vec![], s("g"), &vec![], false, classify_impl_fn(false, false, s("T")));
    assert_eq!(g.inner_fn_template(), InnerFnTemplate::AssociatedWithoutResult);
}
