//! The report of a panic that is shown in the R console.
//!
//! A full backtrace is deep, because of the many wrappers between R and the
//! user's function, so unless the user asks for the full one it is cut down to
//! the frames from the one that caught the panic up to the first frame that
//! Rust cannot name (the C frames of R).

use vstd::prelude::*;
use crate::text::{concat, join_strings};

verus! {

/// What the report shows in place of a backtrace on a release build.
pub const NO_BACKTRACE: &'static str = "    (Backtrace is not available on the release build)";

/// The frame where the shortened backtrace starts.
pub const CATCH_UNWIND_FRAME: &'static str = "std::panic::catch_unwind";

/// The frame where the shortened backtrace stops.
pub const UNKNOWN_FRAME: &'static str = "<unknown>";

/// Whether `needle` occurs in `hay`.
pub open spec fn contains_text(hay: Seq<char>, needle: Seq<char>) -> bool {
    exists|i: int|
        0 <= i && i + needle.len() <= hay.len() && #[trigger] hay.subrange(i, i + needle.len())
            == needle
}

/// The index of the first line at or after `from` in which `pat` occurs, or
/// the number of lines where there is none.
pub open spec fn first_containing(lines: Seq<Seq<char>>, pat: Seq<char>, from: int) -> int
    decreases lines.len() - from,
{
    if from >= lines.len() {
        lines.len() as int
    } else if contains_text(lines[from], pat) {
        from
    } else {
        first_containing(lines, pat, from + 1)
    }
}

/// A line indented by four spaces.
pub open spec fn indent(line: Seq<char>) -> Seq<char> {
    "    "@ + line
}

/// The lines indented, joined by line breaks.
pub open spec fn indented(lines: Seq<Seq<char>>) -> Seq<char> {
    crate::text::join(Seq::new(lines.len(), |i: int| indent(lines[i])), "\n"@)
}

/// The frames that the shortened backtrace keeps.
pub open spec fn short_frames(lines: Seq<Seq<char>>) -> Seq<Seq<char>> {
    let s = first_containing(lines, CATCH_UNWIND_FRAME@, 0);
    let e = first_containing(lines, UNKNOWN_FRAME@, s);
    lines.subrange(s, e)
}

/// The backtrace as the report shows it: the kept frames when the user did not
/// ask for the full backtrace and some frame is kept, otherwise every frame.
pub open spec fn backtrace_report(lines: Seq<Seq<char>>, show_full: bool) -> Seq<char> {
    if !show_full && short_frames(lines).len() > 0 {
        "    ...\n"@ + indented(short_frames(lines))
            + "\n    ...\n\nnote: Run with `RUST_BACKTRACE=1` for a full backtrace.\n"@
    } else {
        indented(lines)
    }
}

/// The report of a panic.
pub open spec fn panic_report(info_lines: Seq<Seq<char>>, backtrace: Seq<char>) -> Seq<char> {
    "panic occured!\n\nOriginal message:\n"@ + indented(info_lines) + "\n\nBacktrace:\n"@ + backtrace
        + "\n"@
}

/// Whether `needle` occurs in `hay`.
pub fn contains_str(hay: &str, needle: &str) -> (b: bool)
    ensures
        b == contains_text(hay@, needle@),
{
    let n = hay.unicode_len();
    let m = needle.unicode_len();
    if m > n {
        assert(!contains_text(hay@, needle@)) by {
            if contains_text(hay@, needle@) {
                let i = choose|i: int|
                    0 <= i && i + needle@.len() <= hay@.len() && #[trigger] hay@.subrange(
                        i,
                        i + needle@.len(),
                    ) == needle@;
            }
        }
        return false;
    }
    let mut i: usize = 0;
    while i <= n - m
        invariant
            n == hay@.len(),
            m == needle@.len(),
            m <= n,
            i <= n - m + 1,
            forall|k: int| 0 <= k < i ==> #[trigger] hay@.subrange(k, k + m) != needle@,
        decreases n - m + 1 - i,
    {
        let mut j: usize = 0;
        let mut same = true;
        while j < m
            invariant
                n == hay@.len(),
                m == needle@.len(),
                i + m <= n,
                j <= m,
                same == (forall|k: int| 0 <= k < j ==> hay@[i + k] == needle@[k]),
            decreases m - j,
        {
            if hay.get_char(i + j) != needle.get_char(j) {
                same = false;
            }
            j = j + 1;
        }
        if same {
            assert(hay@.subrange(i as int, i + m) =~= needle@);
            return true;
        }
        assert(hay@.subrange(i as int, i + m) != needle@) by {
            let k = choose|k: int| 0 <= k < m && hay@[i + k] != needle@[k];
            assert(hay@.subrange(i as int, i + m)[k] == hay@[i + k]);
        }
        i = i + 1;
    }
    assert(!contains_text(hay@, needle@)) by {
        if contains_text(hay@, needle@) {
            let k = choose|k: int|
                0 <= k && k + needle@.len() <= hay@.len() && #[trigger] hay@.subrange(
                    k,
                    k + needle@.len(),
                ) == needle@;
            assert(k < i);
        }
    }
    false
}

/// The index of the first line at or after `from` in which `pat` occurs.
fn find_first_containing(lines: &[String], pat: &str, from: usize) -> (r: usize)
    requires
        from <= lines@.len(),
    ensures
        r as int == first_containing(crate::text::views(lines@), pat@, from as int),
        from <= r <= lines@.len(),
{
    let ghost ls = crate::text::views(lines@);
    let mut i: usize = from;
    while i < lines.len()
        invariant
            from <= i <= lines@.len(),
            ls == crate::text::views(lines@),
            first_containing(ls, pat@, from as int) == first_containing(ls, pat@, i as int),
        decreases lines.len() - i,
    {
        if contains_str(lines[i].as_str(), pat) {
            return i;
        }
        i = i + 1;
    }
    i
}

/// The lines indented by four spaces and joined by line breaks.
pub fn indent_lines(lines: &[String]) -> (s: String)
    ensures
        s@ == indented(crate::text::views(lines@)),
{
    let mut out: Vec<String> = Vec::new();
    let mut i: usize = 0;
    while i < lines.len()
        invariant
            i <= lines.len(),
            out@.len() == i,
            forall|j: int| 0 <= j < i ==> (#[trigger] out@[j])@ == indent(lines@[j]@),
        decreases lines.len() - i,
    {
        proof {
            reveal_with_fuel(crate::text::concat_spec, 3);
        }
        out.push(concat(&["    ", lines[i].as_str()]));
        i = i + 1;
    }
    assert(crate::text::views(out@) =~= Seq::new(
        lines@.len(),
        |j: int| indent(crate::text::views(lines@)[j]),
    ));
    join_strings(&out, "\n")
}

/// The backtrace that the report shows, from the lines of the full one.
pub fn shorten_backtrace(lines: &[String], show_full: bool) -> (s: String)
    ensures
        s@ == backtrace_report(crate::text::views(lines@), show_full),
{
    let ghost ls = crate::text::views(lines@);
    if !show_full {
        let s = find_first_containing(lines, CATCH_UNWIND_FRAME, 0);
        let e = find_first_containing(lines, UNKNOWN_FRAME, s);
        if e > s {
            let kept = &lines[s..e];
            assert(crate::text::views(kept@) =~= short_frames(ls));
            let bt_short = indent_lines(kept);
            proof {
                reveal_with_fuel(crate::text::concat_spec, 4);
            }
            return concat(
                &["    ...\n", bt_short.as_str(), "\n    ...\n\nnote: Run with `RUST_BACKTRACE=1` for a full backtrace.\n"],
            );
        }
        assert(short_frames(ls).len() == 0);
    }
    indent_lines(lines)
}

/// The report of a panic: its message, indented, and the backtrace.
pub fn panic_message(info_lines: &[String], backtrace: &str) -> (s: String)
    ensures
        s@ == panic_report(crate::text::views(info_lines@), backtrace@),
{
    let indented_info = indent_lines(info_lines);
    proof {
        reveal_with_fuel(crate::text::concat_spec, 6);
    }
    concat(
        &["panic occured!\n\nOriginal message:\n", indented_info.as_str(), "\n\nBacktrace:\n", backtrace, "\n"],
    )
}

} // verus!
