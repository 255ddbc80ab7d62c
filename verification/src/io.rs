//! Writing to R's console.

use vstd::prelude::*;

verus! {

/// R's standard output. Text written to it goes through `Rprintf()`.
#[derive(Debug)]
pub struct RStdout {}

/// R's standard error. Text written to it goes through `REprintf()`.
#[derive(Debug)]
pub struct RStderr {}

/// A writer to R's standard output.
pub fn r_stdout() -> (w: RStdout)
    ensures
        w == (RStdout {}),
{
    RStdout {}
}

/// A writer to R's standard error.
pub fn r_stderr() -> (w: RStderr)
    ensures
        w == (RStderr {}),
{
    RStderr {}
}

/// What reaches R of a text passed as a C string: a text with a NUL
/// character cannot be one, and nothing of it is written.
pub open spec fn c_text(msg: Seq<char>) -> Seq<char> {
    if msg.contains('\0') {
        Seq::empty()
    } else {
        msg
    }
}

/// The text that printing `msg` sends to the console: the message, where it
/// can be passed as a C string, followed by a line break where one is asked
/// for (the line break is printed on its own, so it comes either way).
pub open spec fn printed_text(msg: Seq<char>, linebreak: bool) -> Seq<char> {
    if linebreak {
        c_text(msg) + "\n"@
    } else {
        c_text(msg)
    }
}

/// The text of `msg` as it reaches R through a C string.
fn c_string_text(msg: &str) -> (s: String)
    ensures
        s@ == c_text(msg@),
{
    let n = msg.unicode_len();
    let mut i: usize = 0;
    while i < n
        invariant
            n == msg@.len(),
            i <= n,
            forall|k: int| 0 <= k < i ==> msg@[k] != '\0',
        decreases n - i,
    {
        if msg.get_char(i) == '\0' {
            assert(msg@[i as int] == '\0');
            return String::new();
        }
        i = i + 1;
    }
    String::from_str(msg)
}

/// The text that `r_print()` and `r_eprint()` send to the console.
pub fn r_print_text(msg: &str, linebreak: bool) -> (s: String)
    ensures
        s@ == printed_text(msg@, linebreak),
{
    let mut s = c_string_text(msg);
    if linebreak {
        s.append("\n");
    }
    s
}

/// The text of a warning: a message that R cannot take as a C string (it
/// holds a NUL character) is replaced by the empty string.
pub fn r_warn_text(msg: &str) -> (s: String)
    ensures
        s@ == c_text(msg@),
{
    c_string_text(msg)
}

} // verus!
