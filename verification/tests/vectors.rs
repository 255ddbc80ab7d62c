use savvy::sexp::integer::OwnedIntegerSexp;
use savvy::sexp::list::OwnedListSexp;
use savvy::sexp::logical::OwnedLogicalSexp;
use savvy::sexp::na::{NotAvailableValue, NA_INTEGER};
use savvy::sexp::raw::OwnedRawSexp;
use savvy::sexp::string::OwnedStringSexp;
use savvy::error::Error;

#[test]
fn test_raw() -> savvy::error::Result<()> {
    let mut x = OwnedRawSexp::new(3)?;
    assert_eq!(x.as_slice(), &[0, 0, 0]);

    // set_elt()
    x.set_elt(0, 1)?;
    assert_eq!(x.as_slice(), &[1, 0, 0]);

    // IndexMut
    x.as_mut_slice()[1] = 2;
    assert_eq!(x.as_slice(), &[1, 2, 0]);

    Ok(())
}

fn out_of_bounds_message(e: &Error) -> String {
    match e {
        Error::GeneralError(msg) => msg.clone(),
        _ => panic!("unexpected error"),
    }
}

#[test]
fn raw_set_elt_out_of_bounds() {
    let mut x = OwnedRawSexp::new(3).unwrap();
    let e = x.set_elt(3, 1).unwrap_err();
    assert_eq!(
        out_of_bounds_message(&e),
        "index out of bounds: the length is 3 but the index is 3"
    );
    assert_eq!(x.as_slice(), &[0, 0, 0]);
}

#[test]
fn raw_try_from_iter_shortens_to_the_items() {
    // `(0..10).filter(|x| x % 2 == 0)` reports an upper bound of 10.
    let items: Vec<u8> = (0..10).filter(|x| x % 2 == 0).collect();
    let x = OwnedRawSexp::try_from_iter(Some(10), &items).unwrap();
    assert_eq!(x.as_slice(), &[0, 2, 4, 6, 8]);
    assert_eq!(x.len(), 5);
}

#[test]
fn raw_try_from_iter_exact_and_unknown_hint() {
    let x = OwnedRawSexp::try_from_iter(Some(3), &[7, 8, 9]).unwrap();
    assert_eq!(x.to_vec(), vec![7, 8, 9]);
    let y = OwnedRawSexp::try_from_iter(None, &[]).unwrap();
    assert!(y.is_empty());
}

#[test]
fn raw_try_from_iter_refuses_items_past_the_hint() {
    let e = OwnedRawSexp::try_from_iter(Some(2), &[1, 2, 3]).unwrap_err();
    assert_eq!(
        out_of_bounds_message(&e),
        "index out of bounds: the length is 2 but the index is 2"
    );
}

#[test]
fn raw_scalar_and_slice() {
    let x = OwnedRawSexp::try_from_scalar(1).unwrap();
    assert_eq!(x.as_slice(), &[1]);
    let y = OwnedRawSexp::try_from_slice(&[1, 2, 3]).unwrap();
    assert_eq!(y.as_slice(), &[1, 2, 3]);
}

#[test]
fn integer_new_set_and_read() {
    let mut x = OwnedIntegerSexp::new(3).unwrap();
    assert_eq!(x.as_slice(), &[0, 0, 0]);
    x.set_elt(2, 42).unwrap();
    x.set_elt(0, i32::na()).unwrap();
    assert_eq!(x.to_vec(), vec![NA_INTEGER, 0, 42]);
    assert!(x.as_slice()[0].is_na());
    assert!(!x.as_slice()[2].is_na());
    assert!(x.set_elt(3, 1).is_err());
    x.as_mut_slice()[1] = -5;
    assert_eq!(x.as_slice(), &[NA_INTEGER, -5, 42]);
}

#[test]
fn integer_from_slice_and_scalar() {
    let x = OwnedIntegerSexp::try_from_slice(&[1, 2, 3]).unwrap();
    assert_eq!(x.as_slice(), &[1, 2, 3]);
    assert_eq!(x.len(), 3);
    assert!(!x.is_empty());
    let y = OwnedIntegerSexp::try_from_scalar(-1).unwrap();
    assert_eq!(y.as_slice(), &[-1]);
    let z = OwnedIntegerSexp::new_without_init(0).unwrap();
    assert!(z.is_empty());
}

#[test]
fn na_integer_is_the_smallest_i32() {
    assert_eq!(<i32>::na(), i32::MIN);
    assert!(<i32>::na().is_na());
    assert!(!0i32.is_na());
    assert!(!i32::MAX.is_na());
}

#[test]
fn logical_iter_and_to_vec() {
    let lgl = OwnedLogicalSexp::try_from_slice(&[true, true, false]).unwrap();
    let mut iter = lgl.iter();
    assert_eq!(iter.size_hint(), (3, Some(3)));
    assert_eq!(iter.next(), Some(true));
    assert_eq!(iter.next(), Some(true));
    assert_eq!(iter.next(), Some(false));
    assert_eq!(iter.next(), None);
    assert_eq!(iter.next(), None);
    assert_eq!(lgl.to_vec(), vec![true, true, false]);
    assert_eq!(lgl.as_slice_raw(), &[1, 1, 0]);
}

#[test]
fn logical_na_reads_as_false() {
    let mut lgl = OwnedLogicalSexp::new(3).unwrap();
    assert_eq!(lgl.to_vec(), vec![false, false, false]);
    lgl.set_elt(0, true).unwrap();
    lgl.set_na(1).unwrap();
    assert_eq!(lgl.as_slice_raw(), &[1, NA_INTEGER, 0]);
    assert_eq!(lgl.to_vec(), vec![true, false, false]);
    assert!(lgl.set_na(3).is_err());
    assert!(lgl.set_elt(5, true).is_err());
}

#[test]
fn logical_try_from_iter() {
    let x = OwnedLogicalSexp::try_from_iter(Some(4), &[true, false]).unwrap();
    assert_eq!(x.to_vec(), vec![true, false]);
    assert_eq!(x.len(), 2);
    let y = OwnedLogicalSexp::try_from_iter(None, &[false]).unwrap();
    assert_eq!(y.to_vec(), vec![false]);
    assert!(OwnedLogicalSexp::try_from_iter(Some(1), &[true, true]).is_err());
    let z = OwnedLogicalSexp::try_from_scalar(true).unwrap();
    assert_eq!(z.as_slice_raw(), &[1]);
}

#[test]
fn string_new_set_and_na() {
    let mut str_sexp = OwnedStringSexp::new(3).unwrap();
    assert_eq!(str_sexp.to_vec(), vec!["", "", ""]);
    str_sexp.set_elt(2, "foo").unwrap();
    assert_eq!(str_sexp.to_vec(), vec!["", "", "foo"]);
    str_sexp.set_na(1).unwrap();
    assert_eq!(str_sexp.to_vec(), vec!["", "NA", "foo"]);
    assert!(str_sexp.is_na(1));
    assert!(!str_sexp.is_na(2));
    assert!(str_sexp.set_elt(3, "x").is_err());
}

#[test]
fn string_from_slice_scalar_and_iter() {
    let str_sexp = OwnedStringSexp::try_from_slice(&["foo", "❤", "bar"]).unwrap();
    assert_eq!(str_sexp.to_vec(), vec!["foo", "❤", "bar"]);
    let s = OwnedStringSexp::try_from_scalar("❤").unwrap();
    assert_eq!(s.to_vec(), vec!["❤"]);
    let items: Vec<&str> = ["foo", "❤", "bar"].into_iter().filter(|x| x.is_ascii()).collect();
    let it = OwnedStringSexp::try_from_iter(Some(3), &items).unwrap();
    assert_eq!(it.to_vec(), vec!["foo", "bar"]);
    assert!(OwnedStringSexp::try_from_iter(Some(1), &["a", "b"]).is_err());
}

#[test]
fn list_names_and_values() {
    let mut l = OwnedListSexp::new(3, true).unwrap();
    assert_eq!(l.values_iter(), vec![0, 0, 0]);
    assert_eq!(l.names_iter(), vec!["", "", ""]);
    l.set_name_and_value(0, "a", 10).unwrap();
    l.set_name(1, "b").unwrap();
    l.set_value(1, 20).unwrap();
    l.set_name_and_value(2, "a", 30).unwrap();
    assert_eq!(l.get("a"), Some(10));
    assert_eq!(l.get("b"), Some(20));
    assert_eq!(l.get("c"), None);
    assert_eq!(l.get_by_index(2), Some(30));
    assert_eq!(l.get_by_index(3), None);
    assert!(l.set_value(3, 1).is_err());
    assert!(l.set_name(3, "z").is_err());
    assert_eq!(l.len(), 3);
}

#[test]
fn list_without_names() {
    let mut l = OwnedListSexp::new(2, false).unwrap();
    l.set_name(0, "a").unwrap();
    assert_eq!(l.names_iter(), vec!["", ""]);
    // Every element of an unnamed list has the empty name.
    assert_eq!(l.get(""), Some(0));
    assert_eq!(l.get("a"), None);
    let empty = OwnedListSexp::new(0, false).unwrap();
    assert!(empty.is_empty());
    assert_eq!(empty.get(""), None);
}

#[test]
fn try_from_iter_of_nothing_with_a_hint_is_empty() {
    let r = OwnedRawSexp::try_from_iter(Some(5), &[]).unwrap();
    assert_eq!(r.len(), 0);
    assert_eq!(r.as_slice(), &[] as &[u8]);
    let l = OwnedLogicalSexp::try_from_iter(Some(5), &[]).unwrap();
    assert_eq!(l.len(), 0);
    assert_eq!(l.to_vec(), Vec::<bool>::new());
    let s = OwnedStringSexp::try_from_iter(Some(5), &[]).unwrap();
    assert_eq!(s.len(), 0);
    let r0 = OwnedRawSexp::try_from_iter(Some(0), &[]).unwrap();
    assert_eq!(r0.len(), 0);
}
