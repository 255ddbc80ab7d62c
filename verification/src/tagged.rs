//! The protocol by which Rust reports a failure to the C side of a call.
//!
//! A call from R returns one pointer. R's objects are aligned, so the lowest
//! bit of a genuine result is always clear; a failure is reported by setting
//! that bit. The pointer then addresses either an error message (to be raised
//! with `Rf_error()`) or the token with which R resumes its own unwinding.

use vstd::prelude::*;
use crate::error::Error;

verus! {

/// The bit that flags a failure.
pub const TAGGED_POINTER_MASK: usize = 1;

/// An address as R hands it out: its lowest bit is clear.
pub open spec fn aligned(addr: usize) -> bool {
    addr % 2 == 0
}

/// Whether the lowest bit is set.
pub open spec fn spec_is_tagged(res: usize) -> bool {
    res % 2 == 1
}

/// An address with the failure flag set.
pub open spec fn spec_tag(addr: usize) -> usize {
    addr | TAGGED_POINTER_MASK
}

/// A result with the failure flag cleared.
pub open spec fn spec_untag(res: usize) -> usize {
    res & !TAGGED_POINTER_MASK
}

/// Sets the failure flag on an address.
pub fn tag_pointer(addr: usize) -> (res: usize)
    ensures
        res == spec_tag(addr),
        spec_is_tagged(res),
{
    let res = addr | TAGGED_POINTER_MASK;
    assert((addr | 1usize) % 2 == 1) by (bit_vector);
    res
}

/// Whether a result carries the failure flag.
pub fn is_tagged(res: usize) -> (b: bool)
    ensures
        b == spec_is_tagged(res),
{
    let b = (res & TAGGED_POINTER_MASK) == TAGGED_POINTER_MASK;
    assert(((res & 1usize) == 1usize) == (res % 2 == 1)) by (bit_vector);
    b
}

/// Clears the failure flag, giving back the address.
pub fn untag_pointer(res: usize) -> (addr: usize)
    ensures
        addr == spec_untag(res),
        aligned(addr),
{
    let addr = res & !TAGGED_POINTER_MASK;
    assert((res & !1usize) % 2 == 0) by (bit_vector);
    addr
}

/// What a call under R's unwind protection gives: a flagged result is an
/// error that keeps the flagged token.
pub open spec fn unwind_outcome(res: usize) -> Result<usize, Error> {
    if spec_is_tagged(res) {
        Err(Error::Aborted(res))
    } else {
        Ok(res)
    }
}

/// Reads the result of a call made under R's unwind protection: a flagged
/// result means that R raised an error, and it is kept as the token that
/// resumes R's unwinding.
pub fn unwind_protect_result(res: usize) -> (r: Result<usize, Error>)
    ensures
        r == unwind_outcome(res),
{
    if is_tagged(res) {
        Err(Error::Aborted(res))
    } else {
        Ok(res)
    }
}

/// What the Rust side hands back to C for an error.
#[derive(Debug)]
pub enum ErrorReply {
    /// A token of R's own, already flagged: it is passed on as it is.
    Token(usize),
    /// A message; the caller makes an R string of it and flags its address.
    Message(String),
}

/// Decides how an error travels back to R: an aborted call passes its token
/// on; any other error becomes its message.
pub fn handle_error(e: Error) -> (reply: ErrorReply)
    ensures
        match e {
            Error::Aborted(token) => reply == ErrorReply::Token(token),
            _ => reply is Message && reply->Message_0@ == crate::error::error_message(e),
        },
{
    match e {
        Error::Aborted(token) => ErrorReply::Token(token),
        other => {
            let msg = other.to_string();
            ErrorReply::Message(msg)
        },
    }
}

/// `reply` is what C gets for the result `r`.
pub open spec fn is_wrapper_reply(r: Result<usize, Error>, reply: Result<usize, ErrorReply>) -> bool {
    match r {
        Ok(res) => reply == Ok::<usize, ErrorReply>(res),
        Err(Error::Aborted(token)) => reply == Err::<usize, ErrorReply>(ErrorReply::Token(token)),
        Err(e) => reply matches Err(ErrorReply::Message(m)) && m@ == crate::error::error_message(e),
    }
}

/// The reply to C for the result of a Rust function: a result passes as it
/// is; an error travels as `handle_error` decides.
pub fn wrapper(r: Result<usize, Error>) -> (reply: Result<usize, ErrorReply>)
    ensures
        is_wrapper_reply(r, reply),
{
    match r {
        Ok(res) => Ok(res),
        Err(e) => Err(handle_error(e)),
    }
}

/// Flagging an aligned address and clearing the flag again gives the address
/// back; an aligned address never reads as flagged.
pub proof fn law_untag_undoes_tag(addr: usize)
    requires
        aligned(addr),
    ensures
        spec_is_tagged(spec_tag(addr)),
        spec_untag(spec_tag(addr)) == addr,
        !spec_is_tagged(addr),
{
    assert(addr % 2 == 0 ==> ((addr | 1usize) & !1usize) == addr) by (bit_vector);
    assert((addr | 1usize) % 2 == 1) by (bit_vector);
}

/// When R aborts a call, the flagged token it gives reaches C unchanged, so C
/// can resume R's unwinding; an unflagged result reaches C as it is.
pub proof fn law_abort_token_reaches_c(res: usize, reply: Result<usize, ErrorReply>)
    requires
        is_wrapper_reply(unwind_outcome(res), reply),
    ensures
        spec_is_tagged(res) ==> reply == Err::<usize, ErrorReply>(ErrorReply::Token(res)),
        !spec_is_tagged(res) ==> reply == Ok::<usize, ErrorReply>(res),
{
}

} // verus!
