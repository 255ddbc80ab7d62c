use savvy::altrep::{
    copy_range_ok, copy_to, dataptr_source, materialize_action, AltrepClassCatalogue,
    DataptrSource, MaterializeAction,
};
use savvy::error::{Error, UnextendrError};
use savvy::eval::{assert_invalid_r_code, check_parse_result};
use savvy::io::{r_print_text, r_stderr, r_stdout, r_warn_text};
use savvy::panic_hook::{contains_str, panic_message, shorten_backtrace, NO_BACKTRACE};
use savvy::protect::{PreservedList, ANCHOR, NIL};
use savvy::sexp::external_pointer::get_external_pointer_addr;
use savvy::sexp::numeric::try_cast_i32_to_usize;
use savvy::sexp::scalar::{
    bool_try_from_values, i32_try_from_values, str_try_from_values, u8_try_from_values,
    usize_try_from_values,
};
use savvy::sexp::sexptype::{get_human_readable_type_name, into_typed_kind, TypedKind};
use savvy::sexp::utils::{assert_len, dim_from_i32, dim_to_i32};
use savvy::tagged::{
    handle_error, is_tagged, tag_pointer, untag_pointer, unwind_protect_result, wrapper,
    ErrorReply,
};
use savvy::text::{join_strings, usize_to_string};
use savvy::unextendr_demo::{flip_logical_inner, times_two_int_inner, to_upper_inner};

fn general(e: Error) -> String {
    match e {
        Error::GeneralError(m) => m,
        other => panic!("unexpected error {:?}", other),
    }
}

#[test]
fn decimal_rendering() {
    assert_eq!(usize_to_string(0), "0");
    assert_eq!(usize_to_string(7), "7");
    assert_eq!(usize_to_string(10), "10");
    assert_eq!(usize_to_string(1234567890), "1234567890");
    assert_eq!(usize_to_string(usize::MAX), usize::MAX.to_string());
}

#[test]
fn joining() {
    assert_eq!(join_strings(&vec![], ", "), "");
    assert_eq!(join_strings(&vec!["a".to_string()], ", "), "a");
    assert_eq!(
        join_strings(&vec!["a".to_string(), "b".to_string(), "c".to_string()], ", "),
        "a, b, c"
    );
}

#[test]
fn error_messages() {
    let e = Error::UnexpectedType { expected: "numeric".to_string(), actual: "character".to_string() };
    assert_eq!(e.to_string(), "Must be numeric, not character");
    assert_eq!(Error::NotScalar.to_string(), "Must be length 1 of non-missing value");
    assert_eq!(Error::Aborted(5).to_string(), "Aborted due to some error");
    assert_eq!(
        Error::InvalidPointer.to_string(),
        "This external pointer is already consumed or deleted"
    );
    assert_eq!(Error::InvalidRCode("foo(".to_string()).to_string(), "Failed to parse R code: foo(");
    assert_eq!(Error::new("oops").to_string(), "oops");
}

#[test]
fn error_with_arg_name() {
    let e = Error::UnexpectedType { expected: "numeric".to_string(), actual: "character".to_string() };
    assert_eq!(general(e.with_arg_name("x")), "Argument `x` must be numeric, not character");
    assert_eq!(
        general(Error::NotScalar.with_arg_name("y")),
        "Argument `y` must be be length 1 of non-missing value"
    );
    assert_eq!(
        general(Error::InvalidPointer.with_arg_name("z")),
        "Argument `z` is already consumed or deleted"
    );
    assert_eq!(general(Error::new("keep").with_arg_name("x")), "keep");
    assert!(matches!(Error::Aborted(3).with_arg_name("x"), Error::Aborted(3)));
}

#[test]
fn unextendr_error_messages() {
    assert_eq!(UnextendrError::UnexpectedType("x".to_string()).to_string(), "Unexpected type: x");
    assert_eq!(UnextendrError::Unknown.to_string(), "Unknown error happened");
}

#[test]
fn assert_len_messages() {
    assert!(assert_len(3, 2).is_ok());
    assert_eq!(
        general(assert_len(3, 3).unwrap_err()),
        "index out of bounds: the length is 3 but the index is 3"
    );
    assert_eq!(
        general(assert_len(0, 12).unwrap_err()),
        "index out of bounds: the length is 0 but the index is 12"
    );
}

#[test]
fn tagged_pointers() {
    let addr: usize = 0x1000;
    let tagged = tag_pointer(addr);
    assert_eq!(tagged, 0x1001);
    assert!(is_tagged(tagged));
    assert!(!is_tagged(addr));
    assert_eq!(untag_pointer(tagged), addr);
    assert_eq!(untag_pointer(addr), addr);
    assert!(matches!(unwind_protect_result(tagged), Err(Error::Aborted(0x1001))));
    assert!(matches!(unwind_protect_result(addr), Ok(0x1000)));
}

#[test]
fn error_replies() {
    assert!(matches!(handle_error(Error::Aborted(0x2001)), ErrorReply::Token(0x2001)));
    match handle_error(Error::NotScalar) {
        ErrorReply::Message(m) => assert_eq!(m, "Must be length 1 of non-missing value"),
        _ => panic!("expected a message"),
    }
    assert!(matches!(wrapper(Ok(0x3000)), Ok(0x3000)));
    assert!(matches!(wrapper(Err(Error::Aborted(0x3001))), Err(ErrorReply::Token(0x3001))));
    match wrapper(Err(Error::new("bad"))) {
        Err(ErrorReply::Message(m)) => assert_eq!(m, "bad"),
        _ => panic!("expected a message"),
    }
    // An aborted call keeps its token all the way to C.
    let res = tag_pointer(0x4000);
    assert!(matches!(wrapper(unwind_protect_result(res)), Err(ErrorReply::Token(0x4001))));
}

#[test]
fn preserved_list_tokens() {
    let mut list = PreservedList::new();
    assert_eq!(list.insert_to_preserved_list(NIL), NIL);
    let t1 = list.insert_to_preserved_list(100);
    let t2 = list.insert_to_preserved_list(200);
    let t3 = list.insert_to_preserved_list(300);
    assert_ne!(t1, NIL);
    assert_ne!(t1, t2);
    assert_ne!(t2, t3);
    list.release_from_preserved_list(t2);
    list.release_from_preserved_list(NIL);
    list.release_from_preserved_list(t1);
    let t4 = list.insert_to_preserved_list(400);
    assert_ne!(t4, t3);
    list.release_from_preserved_list(t4);
    list.release_from_preserved_list(t3);
}

/// The (token, object) pairs reached from the anchor by `cdr`, checking that
/// each cell's `car` leads back.
fn chain(list: &PreservedList) -> Vec<(usize, usize)> {
    let mut out = Vec::new();
    let mut prev = ANCHOR;
    let mut h = list.cell(ANCHOR).cdr;
    while h != NIL {
        let c = list.cell(h);
        assert_eq!(c.car, prev);
        out.push((h, c.tag));
        prev = h;
        h = c.cdr;
    }
    out
}

#[test]
fn preserved_list_chain_follows_the_calls() {
    let mut list = PreservedList::new();
    assert_eq!(chain(&list), vec![]);
    let t1 = list.insert_to_preserved_list(100);
    let t2 = list.insert_to_preserved_list(200);
    let t3 = list.insert_to_preserved_list(300);
    assert_eq!(chain(&list), vec![(t3, 300), (t2, 200), (t1, 100)]);
    list.release_from_preserved_list(t2);
    assert_eq!(chain(&list), vec![(t3, 300), (t1, 100)]);
    list.release_from_preserved_list(NIL);
    assert_eq!(chain(&list), vec![(t3, 300), (t1, 100)]);
    let t4 = list.insert_to_preserved_list(400);
    assert_eq!(chain(&list), vec![(t4, 400), (t3, 300), (t1, 100)]);
    list.release_from_preserved_list(t1);
    list.release_from_preserved_list(t4);
    assert_eq!(chain(&list), vec![(t3, 300)]);
    assert!(list.is_protected(t3));
    assert!(!list.is_protected(t1));
    assert!(!list.is_protected(NIL));
    list.release_from_preserved_list(t3);
    assert_eq!(chain(&list), vec![]);
    assert!(!list.is_protected(t3));
}

#[test]
fn altrep_materialization() {
    assert_eq!(materialize_action(true, true, false), MaterializeAction::UseCached);
    assert_eq!(materialize_action(true, true, true), MaterializeAction::UseCached);
    assert_eq!(materialize_action(true, false, true), MaterializeAction::Allocate { cache: true });
    assert_eq!(materialize_action(false, true, true), MaterializeAction::Allocate { cache: false });
    assert_eq!(materialize_action(true, false, false), MaterializeAction::GiveUp);
    assert_eq!(materialize_action(false, true, false), MaterializeAction::GiveUp);
    assert_eq!(dataptr_source(true), DataptrSource::Materialized);
    assert_eq!(dataptr_source(false), DataptrSource::OwnDataptr);
}

#[test]
fn altrep_copy_to() {
    assert!(copy_range_ok(1, 2, 3));
    assert!(!copy_range_ok(2, 2, 3));
    assert!(!copy_range_ok(usize::MAX, 2, 3));
    let data = [10, 20, 30, 40];
    let mut new = vec![0, 0];
    copy_to(&data, &mut new, 1);
    assert_eq!(new, vec![20, 30]);
    let mut new = vec![0, 0, 0];
    copy_to(&data, &mut new, 2);
    assert_eq!(new, vec![0, 0, 0]);
    let mut new = vec![0; 4];
    copy_to(&data, &mut new, 0);
    assert_eq!(new, vec![10, 20, 30, 40]);
}

#[test]
fn type_names_and_kinds() {
    assert_eq!(get_human_readable_type_name(0), "NULL");
    assert_eq!(get_human_readable_type_name(13), "integer");
    assert_eq!(get_human_readable_type_name(14), "real");
    assert_eq!(get_human_readable_type_name(16), "string");
    assert_eq!(get_human_readable_type_name(19), "a list");
    assert_eq!(get_human_readable_type_name(24), "raw vector");
    assert_eq!(get_human_readable_type_name(99), "Unknown");
    assert_eq!(into_typed_kind(13), TypedKind::Integer);
    assert_eq!(into_typed_kind(3), TypedKind::Function);
    assert_eq!(into_typed_kind(7), TypedKind::Function);
    assert_eq!(into_typed_kind(8), TypedKind::Function);
    assert_eq!(into_typed_kind(0), TypedKind::Null);
    assert_eq!(into_typed_kind(24), TypedKind::Other);
}

#[test]
fn integer_to_usize() {
    assert!(matches!(try_cast_i32_to_usize(3), Ok(3)));
    assert_eq!(general(try_cast_i32_to_usize(i32::MIN).unwrap_err()), "cannot convert NA to usize");
    let std_message = usize::try_from(-1i32).unwrap_err().to_string();
    assert_eq!(general(try_cast_i32_to_usize(-1).unwrap_err()), std_message);
}

#[test]
fn scalars() {
    assert!(matches!(i32_try_from_values(&[5]), Ok(5)));
    assert!(matches!(i32_try_from_values(&[i32::MIN]), Err(Error::NotScalar)));
    assert!(matches!(i32_try_from_values(&[1, 2]), Err(Error::NotScalar)));
    assert!(matches!(bool_try_from_values(&[1]), Ok(true)));
    assert!(matches!(bool_try_from_values(&[0]), Ok(false)));
    assert!(matches!(bool_try_from_values(&[i32::MIN]), Err(Error::NotScalar)));
    assert!(matches!(u8_try_from_values(&[9]), Ok(9)));
    assert!(matches!(u8_try_from_values(&[]), Err(Error::NotScalar)));
    assert!(matches!(usize_try_from_values(&[4]), Ok(4)));
    assert!(usize_try_from_values(&[-4]).is_err());
    assert_eq!(str_try_from_values(&[Some("a".to_string())]).unwrap(), "a");
    assert!(matches!(str_try_from_values(&[None]), Err(Error::NotScalar)));
}

#[test]
fn dims() {
    assert_eq!(dim_from_i32(&[2, 3]), vec![2usize, 3]);
    assert_eq!(dim_to_i32(&[4, 5]), vec![4, 5]);
}

#[test]
fn parse_results() {
    assert!(check_parse_result("1L", true, 1).is_ok());
    assert!(matches!(check_parse_result("foo(", false, 0), Err(Error::InvalidRCode(ref c)) if c == "foo("));
    assert_eq!(
        general(check_parse_result("1; 2; 3", true, 3).unwrap_err()),
        "eval_parse_text() accepts only a single expression, but got: 1; 2; 3"
    );
    let outcome: Result<(), Error> = Err(Error::InvalidRCode("<- a".to_string()));
    assert!(assert_invalid_r_code(&outcome));
    let other: Result<(), Error> = Err(Error::new("x"));
    assert!(!assert_invalid_r_code(&other));
    assert!(!assert_invalid_r_code(&Ok::<i32, Error>(1)));
}

#[test]
fn console_text() {
    let _ = r_stdout();
    let _ = r_stderr();
    assert_eq!(r_print_text("hi", true), "hi\n");
    assert_eq!(r_print_text("hi", false), "hi");
    assert_eq!(r_print_text("", true), "\n");
    assert_eq!(r_warn_text("careful"), "careful");
    assert_eq!(r_warn_text("a\0b"), "");
    assert_eq!(r_print_text("a\0b", true), "\n");
    assert_eq!(r_print_text("a\0b", false), "");
}

#[test]
fn altrep_catalogue() {
    let mut c = AltrepClassCatalogue::new();
    assert_eq!(general(c.get_class("MyAltInt").unwrap_err()), "Failed to get the ALTREP class");
    assert!(c.register_altrep_class("MyAltInt", 11).is_ok());
    assert!(c.register_altrep_class("MyAltStr", 12).is_ok());
    assert!(matches!(c.get_class("MyAltInt"), Ok(11)));
    assert_eq!(
        general(c.register_altrep_class("MyAltInt", 13).unwrap_err()),
        "[WARN] ALTREP class MyAltInt is already defined. Something seems wrong."
    );
    assert!(matches!(c.get_class("MyAltInt"), Ok(13)));
    assert!(matches!(c.get_class("MyAltStr"), Ok(12)));
}

#[test]
fn altrep_duplicate_class_message_names_the_class() {
    let mut c = AltrepClassCatalogue::new();
    assert!(c.register_altrep_class("Foo", 1).is_ok());
    assert_eq!(
        general(c.register_altrep_class("Foo", 2).unwrap_err()),
        "[WARN] ALTREP class Foo is already defined. Something seems wrong."
    );
    assert!(c.register_altrep_class("Bar", 3).is_ok());
}

#[test]
fn backtraces() {
    assert!(contains_str("at std::panic::catch_unwind here", "std::panic::catch_unwind"));
    assert!(!contains_str("abc", "abcd"));
    assert!(contains_str("abc", ""));
    let lines: Vec<String> = vec![
        "0: rust_begin_unwind",
        "1: std::panic::catch_unwind",
        "2: user::f",
        "3: <unknown>",
        "4: R_eval",
    ]
    .into_iter()
    .map(String::from)
    .collect();
    assert_eq!(
        shorten_backtrace(&lines, false),
        "    ...\n    1: std::panic::catch_unwind\n    2: user::f\n    ...\n\nnote: Run with `RUST_BACKTRACE=1` for a full backtrace.\n"
    );
    let full = "    0: rust_begin_unwind\n    1: std::panic::catch_unwind\n    2: user::f\n    3: <unknown>\n    4: R_eval";
    assert_eq!(shorten_backtrace(&lines, true), full);
    // Nothing kept: the full backtrace is shown.
    let no_catch: Vec<String> = vec!["a".to_string(), "b".to_string()];
    assert_eq!(shorten_backtrace(&no_catch, false), "    a\n    b");
    let info = vec!["panicked at src/lib.rs:1:1:".to_string(), "boom".to_string()];
    assert_eq!(
        panic_message(&info, NO_BACKTRACE),
        "panic occured!\n\nOriginal message:\n    panicked at src/lib.rs:1:1:\n    boom\n\nBacktrace:\n    (Backtrace is not available on the release build)\n"
    );
}

#[test]
fn demo_functions() {
    let x = vec![Some("a".to_string()), None, Some("c".to_string())];
    let out = to_upper_inner(&x).unwrap();
    assert_eq!(out.to_vec(), vec!["A", "NA", "C"]);
    assert!(out.is_na(1));
    let abc = vec![Some("a".to_string()), Some("b".to_string()), Some("c".to_string())];
    assert_eq!(to_upper_inner(&abc).unwrap().to_vec(), vec!["A", "B", "C"]);
    let t = times_two_int_inner(&[1, i32::MIN, -3]).unwrap();
    assert_eq!(t.as_slice(), &[2, i32::MIN, -6]);
    let f = flip_logical_inner(&[1, 0, i32::MIN]).unwrap();
    assert_eq!(f.to_vec(), vec![false, true, true]);
}

#[test]
fn external_pointer_addresses() {
    assert!(matches!(get_external_pointer_addr(0), Err(Error::InvalidPointer)));
    assert!(matches!(get_external_pointer_addr(0x5000), Ok(0x5000)));
}
