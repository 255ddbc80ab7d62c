//! Text helpers: decimal rendering of integers and joining of strings.

use vstd::prelude::*;

verus! {

/// The character of a decimal digit.
pub open spec fn digit_char(d: nat) -> char {
    if d == 0 { '0' }
    else if d == 1 { '1' }
    else if d == 2 { '2' }
    else if d == 3 { '3' }
    else if d == 4 { '4' }
    else if d == 5 { '5' }
    else if d == 6 { '6' }
    else if d == 7 { '7' }
    else if d == 8 { '8' }
    else { '9' }
}

/// The decimal representation of a natural number, without sign or leading zeros.
pub open spec fn decimal(n: nat) -> Seq<char>
    decreases n,
{
    if n < 10 {
        seq![digit_char(n)]
    } else {
        decimal(n / 10).push(digit_char(n % 10))
    }
}

fn digit_str(d: usize) -> (s: &'static str)
    requires
        d < 10,
    ensures
        s@ == seq![digit_char(d as nat)],
{
    proof {
        reveal_strlit("0");
        reveal_strlit("1");
        reveal_strlit("2");
        reveal_strlit("3");
        reveal_strlit("4");
        reveal_strlit("5");
        reveal_strlit("6");
        reveal_strlit("7");
        reveal_strlit("8");
        reveal_strlit("9");
    }
    if d == 0 { "0" }
    else if d == 1 { "1" }
    else if d == 2 { "2" }
    else if d == 3 { "3" }
    else if d == 4 { "4" }
    else if d == 5 { "5" }
    else if d == 6 { "6" }
    else if d == 7 { "7" }
    else if d == 8 { "8" }
    else { "9" }
}

/// Renders `n` in decimal, as `format!("{}", n)` does.
pub fn usize_to_string(n: usize) -> (s: String)
    ensures
        s@ == decimal(n as nat),
{
    // Collect the digits, least significant first.
    let mut digits: Vec<usize> = Vec::new();
    let mut m: usize = n;
    loop
        invariant_except_break
            digits.len() > 0 ==> m > 0,
            digits.len() > 0 ==> decimal(n as nat) == decimal_prefix(m as nat) + rev_digits(
                digits@,
            ),
        invariant
            m <= n,
            forall|i: int| 0 <= i < digits.len() ==> #[trigger] digits[i] < 10,
            digits.len() == 0 ==> m == n,
        ensures
            decimal(n as nat) == rev_digits(digits@),
        decreases m,
    {
        let d = m % 10;
        proof {
            lemma_decimal_step(m as nat, digits@);
        }
        digits.push(d);
        m = m / 10;
        if m == 0 {
            assert(decimal(n as nat) == rev_digits(digits@));
            break;
        }
    }
    let mut s = String::new();
    let mut k: usize = digits.len();
    while k > 0
        invariant
            k <= digits.len(),
            forall|i: int| 0 <= i < digits.len() ==> #[trigger] digits[i] < 10,
            decimal(n as nat) == rev_digits(digits@),
            s@ == rev_digits(digits@.subrange(k as int, digits.len() as int)),
        decreases k,
    {
        k = k - 1;
        let piece = digit_str(digits[k]);
        proof {
            lemma_rev_digits_front(digits@.subrange(k as int, digits.len() as int));
            assert(digits@.subrange(k as int, digits.len() as int).drop_first() =~= digits@.subrange(
                k + 1,
                digits.len() as int,
            ));
        }
        s.append(piece);
    }
    assert(digits@.subrange(0, digits.len() as int) =~= digits@);
    s
}

/// The decimal digits of `n`, or nothing when `n` is zero.
pub open spec fn decimal_prefix(n: nat) -> Seq<char> {
    if n == 0 { Seq::empty() } else { decimal(n) }
}

/// The characters of digits stored least significant first, in reading order.
pub open spec fn rev_digits(ds: Seq<usize>) -> Seq<char>
    decreases ds.len(),
{
    if ds.len() == 0 {
        Seq::empty()
    } else {
        seq![digit_char(ds.last() as nat)] + rev_digits(ds.drop_last())
    }
}

proof fn lemma_decimal_step(m: nat, ds: Seq<usize>)
    requires
        m > 0 || ds.len() == 0,
    ensures
        (if ds.len() == 0 { decimal(m) } else { decimal_prefix(m) + rev_digits(ds) })
            =~= decimal_prefix(m / 10) + rev_digits(ds.push((m % 10) as usize)),
{
    let d = (m % 10) as usize;
    let ds2 = ds.push(d);
    assert(ds2.drop_last() =~= ds);
    assert(ds2.last() == d);
    assert(rev_digits(ds2) == seq![digit_char(d as nat)] + rev_digits(ds));
    assert(rev_digits(Seq::<usize>::empty()) =~= Seq::<char>::empty());
    if m < 10 {
        assert(decimal_prefix(m / 10) =~= Seq::<char>::empty());
        assert(decimal(m) == seq![digit_char(m)]);
    } else {
        assert(decimal(m) == decimal(m / 10).push(digit_char(m % 10)));
        assert(decimal_prefix(m / 10) == decimal(m / 10));
    }
}

proof fn lemma_rev_digits_front(s: Seq<usize>)
    requires
        s.len() > 0,
    ensures
        rev_digits(s) =~= rev_digits(s.drop_first()) + seq![digit_char(s[0] as nat)],
    decreases s.len(),
{
    if s.len() > 1 {
        lemma_rev_digits_front(s.drop_last());
        assert(s.drop_last().drop_first() =~= s.drop_first().drop_last());
        assert(s.drop_first().last() == s.last());
    } else {
        assert(s.drop_first() =~= Seq::<usize>::empty());
        assert(s.drop_last() =~= Seq::<usize>::empty());
    }
}

/// The views of a sequence of strings.
pub open spec fn views(v: Seq<String>) -> Seq<Seq<char>> {
    Seq::new(v.len(), |i: int| v[i]@)
}

/// The pieces joined with `sep` between each two of them, as `[..].join(sep)` does.
pub open spec fn join(pieces: Seq<Seq<char>>, sep: Seq<char>) -> Seq<char>
    decreases pieces.len(),
{
    if pieces.len() == 0 {
        Seq::empty()
    } else if pieces.len() == 1 {
        pieces[0]
    } else {
        join(pieces.drop_last(), sep) + sep + pieces.last()
    }
}

/// Joins strings with a separator.
pub fn join_strings(pieces: &Vec<String>, sep: &str) -> (s: String)
    ensures
        s@ == join(views(pieces@), sep@),
{
    let mut s = String::new();
    let ghost vs = views(pieces@);
    let mut i: usize = 0;
    while i < pieces.len()
        invariant
            i <= pieces.len(),
            vs == views(pieces@),
            s@ == join(vs.take(i as int), sep@),
        decreases pieces.len() - i,
    {
        assert(vs.take(i + 1).drop_last() =~= vs.take(i as int));
        assert(vs.take(i + 1).last() == pieces@[i as int]@);
        if i != 0 {
            s.append(sep);
        } else {
            assert(vs.take(0) =~= Seq::<Seq<char>>::empty());
            assert(s@ =~= Seq::<char>::empty());
        }
        s.append(pieces[i].as_str());
        i = i + 1;
    }
    assert(vs.take(pieces.len() as int) =~= vs);
    s
}

/// The concatenation of a sequence of texts.
pub open spec fn concat_spec(pieces: Seq<Seq<char>>) -> Seq<char>
    decreases pieces.len(),
{
    if pieces.len() == 0 {
        Seq::empty()
    } else {
        concat_spec(pieces.drop_last()) + pieces.last()
    }
}

/// Concatenation of pieces of text.
pub fn concat(pieces: &[&str]) -> (s: String)
    ensures
        s@ == concat_spec(pieces@.map_values(|p: &str| p@)),
{
    let mut s = String::new();
    let ghost vs = pieces@.map_values(|p: &str| p@);
    let mut i: usize = 0;
    while i < pieces.len()
        invariant
            i <= pieces.len(),
            vs == pieces@.map_values(|p: &str| p@),
            s@ == concat_spec(vs.take(i as int)),
        decreases pieces.len() - i,
    {
        assert(vs.take(i + 1).drop_last() =~= vs.take(i as int));
        s.append(pieces[i]);
        i = i + 1;
    }
    assert(vs.take(pieces.len() as int) =~= vs);
    s
}

/// Whether a string holds the given text.
pub fn str_equals(a: &String, b: &str) -> (r: bool)
    ensures
        r == (a@ == b@),
{
    let b_owned = String::from_str(b);
    *a == b_owned
}

} // verus!
