//! Checks on R code that is parsed and evaluated from Rust.

use vstd::prelude::*;
use crate::error::Error;

verus! {

/// The message for text that holds more than one expression.
pub open spec fn not_single_expression_message(text: Seq<char>) -> Seq<char> {
    "eval_parse_text() accepts only a single expression, but got: "@ + text
}

/// Decides what parsing `text` gave: text that R could not parse is refused
/// as invalid R code, and text of more than one expression (or of none) is
/// refused too, since only a single expression is evaluated.
pub fn check_parse_result(text: &str, parse_ok: bool, n_exprs: usize) -> (r: Result<(), Error>)
    ensures
        !parse_ok ==> (r matches Err(e) && e is InvalidRCode && e->InvalidRCode_0@ == text@),
        parse_ok && n_exprs != 1 ==> (r matches Err(e) && e is GeneralError && e->GeneralError_0@
            == not_single_expression_message(text@)),
        parse_ok && n_exprs == 1 ==> r is Ok,
{
    if !parse_ok {
        return Err(Error::InvalidRCode(String::from_str(text)));
    }
    if n_exprs != 1 {
        let msg = crate::text::concat(
            &["eval_parse_text() accepts only a single expression, but got: ", text],
        );
        proof {
            reveal_with_fuel(crate::text::concat_spec, 3);
        }
        return Err(Error::GeneralError(msg));
    }
    Ok(())
}

/// Whether an evaluation was refused because its text is not valid R code.
pub fn assert_invalid_r_code<T>(outcome: &Result<T, Error>) -> (b: bool)
    ensures
        b == (outcome matches Err(e) && e is InvalidRCode),
{
    match outcome {
        Err(Error::InvalidRCode(_)) => true,
        _ => false,
    }
}

} // verus!
