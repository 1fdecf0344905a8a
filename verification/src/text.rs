//! Text helpers shared by the error and rule modules: decimal formatting,
//! substring search, and character replacement.

use vstd::prelude::*;

verus! {

/// The character of a decimal digit.
pub open spec fn digit_char(d: nat) -> char {
    if d == 0 { '0' }
    else if d == 1 { '1' }
    else if d == 2 { '2' }
    else if d == 3 { '3' }
    else if d == 4 { '4' }
    else if d == 5 { '5' }
    else if d == 6 { '6' }
    else if d == 7 { '7' }
    else if d == 8 { '8' }
    else { '9' }
}

/// The decimal representation of a natural number, without leading zeros.
pub open spec fn nat_decimal(n: nat) -> Seq<char>
    decreases n,
{
    if n < 10 {
        seq![digit_char(n)]
    } else {
        nat_decimal(n / 10).push(digit_char(n % 10))
    }
}

/// The decimal representation of an integer, with a leading `-` when negative.
pub open spec fn int_decimal(i: int) -> Seq<char> {
    if i < 0 {
        seq!['-'] + nat_decimal((-i) as nat)
    } else {
        nat_decimal(i as nat)
    }
}

/// The number that a run of decimal digits denotes.
pub open spec fn digits_value(s: Seq<char>) -> int
    decreases s.len(),
{
    if s.len() == 0 {
        0
    } else {
        digits_value(s.drop_last()) * 10 + ((s.last() as int) - ('0' as int))
    }
}

/// The decimal text of a natural number is a run of decimal digits that denotes
/// the number, without a leading zero (but for zero itself, written `0`).
pub proof fn lemma_nat_decimal_denotes(n: nat)
    ensures
        nat_decimal(n).len() >= 1,
        forall|i: int| 0 <= i < nat_decimal(n).len() ==> '0' <= #[trigger] nat_decimal(n)[i] <= '9',
        digits_value(nat_decimal(n)) == n,
        nat_decimal(n)[0] == '0' ==> n == 0 && nat_decimal(n).len() == 1,
    decreases n,
{
    if n < 10 {
        assert(digits_value(nat_decimal(n).drop_last()) == 0) by {
            assert(nat_decimal(n).drop_last().len() == 0);
        }
    } else {
        lemma_nat_decimal_denotes(n / 10);
        let p = nat_decimal(n / 10);
        let d = (n % 10) as nat;
        assert(nat_decimal(n) == p.push(digit_char(d)));
        assert(nat_decimal(n).drop_last() =~= p);
        assert((digit_char(d) as int) - ('0' as int) == d);
        assert(nat_decimal(n)[0] == p[0]);
    }
}

/// The decimal text of a negative integer is `-` followed by the text of its
/// magnitude; that of any other integer is the text of the number itself.
pub proof fn lemma_int_decimal_sign(i: int)
    ensures
        i < 0 ==> int_decimal(i) == seq!['-'] + nat_decimal((-i) as nat),
        i >= 0 ==> int_decimal(i) == nat_decimal(i as nat),
        i < 0 ==> digits_value(int_decimal(i).skip(1)) == -i,
        i >= 0 ==> digits_value(int_decimal(i)) == i,
{
    if i < 0 {
        lemma_nat_decimal_denotes((-i) as nat);
        assert(int_decimal(i).skip(1) =~= nat_decimal((-i) as nat));
    } else {
        lemma_nat_decimal_denotes(i as nat);
    }
}

fn digit_str(d: u128) -> (r: &'static str)
    requires
        d < 10,
    ensures
        r@ == seq![digit_char(d as nat)],
{
    proof {
        reveal_strlit("0");
        reveal_strlit("1");
        reveal_strlit("2");
        reveal_strlit("3");
        reveal_strlit("4");
        reveal_strlit("5");
        reveal_strlit("6");
        reveal_strlit("7");
        reveal_strlit("8");
        reveal_strlit("9");
    }
    if d == 0 { "0" }
    else if d == 1 { "1" }
    else if d == 2 { "2" }
    else if d == 3 { "3" }
    else if d == 4 { "4" }
    else if d == 5 { "5" }
    else if d == 6 { "6" }
    else if d == 7 { "7" }
    else if d == 8 { "8" }
    else { "9" }
}

/// Appends the decimal representation of `n` to `s`.
pub fn push_decimal(s: &mut String, n: u128)
    ensures
        final(s)@ == old(s)@ + nat_decimal(n as nat),
    decreases n,
{
    if n >= 10 {
        push_decimal(s, n / 10);
    }
    let d = digit_str(n % 10);
    s.append(d);
    proof {
        assert(nat_decimal(n as nat) == if n < 10 {
            seq![digit_char(n as nat)]
        } else {
            nat_decimal((n / 10) as nat).push(digit_char((n % 10) as nat))
        });
    }
}


/// Appends the decimal representation of `i` (with a `-` sign when negative) to `s`.
pub fn push_signed_decimal(s: &mut String, i: i128)
    ensures
        final(s)@ == old(s)@ + int_decimal(i as int),
{
    if i < 0 {
        proof {
            reveal_strlit("-");
        }
        s.append("-");
        let m: u128 = ((-(i + 1)) as u128) + 1;
        assert(m as int == -(i as int));
        push_decimal(s, m);
        assert(old(s)@ + seq!['-'] + nat_decimal(m as nat) =~= old(s)@ + (seq!['-'] + nat_decimal(m as nat)));
    } else {
        push_decimal(s, i as u128);
    }
}

/// The decimal representation of an unsigned number as a new string.
pub fn unsigned_to_string(n: u128) -> (r: String)
    ensures
        r@ == nat_decimal(n as nat),
{
    let mut s = String::new();
    push_decimal(&mut s, n);
    assert(Seq::<char>::empty() + nat_decimal(n as nat) =~= nat_decimal(n as nat));
    s
}

/// The decimal representation of a signed number as a new string.
pub fn signed_to_string(i: i128) -> (r: String)
    ensures
        r@ == int_decimal(i as int),
{
    let mut s = String::new();
    push_signed_decimal(&mut s, i);
    assert(Seq::<char>::empty() + int_decimal(i as int) =~= int_decimal(i as int));
    s
}

/// A new string holding `a` followed by `b`.
pub fn concat_str(a: &str, b: &str) -> (r: String)
    ensures
        r@ == a@ + b@,
{
    let mut s = a.to_owned();
    s.append(b);
    s
}

/// The characters of `s`, in order.
pub fn chars_of(s: &str) -> (r: Vec<char>)
    ensures
        r@ == s@,
{
    let n = s.unicode_len();
    let mut v: Vec<char> = Vec::new();
    for i in 0..n
        invariant
            n == s@.len(),
            v@ == s@.subrange(0, i as int),
    {
        let c = s.get_char(i);
        v.push(c);
        assert(v@ =~= s@.subrange(0, i + 1));
    }
    assert(v@ =~= s@);
    v
}

/// `p` occurs in `s` starting at position `i`.
pub open spec fn occurs_at(s: Seq<char>, p: Seq<char>, i: int) -> bool {
    0 <= i && i + p.len() <= s.len() && s.subrange(i, i + p.len()) == p
}

/// `p` occurs somewhere in `s` as a contiguous run of characters.
pub open spec fn has_substring(s: Seq<char>, p: Seq<char>) -> bool {
    exists|i: int| occurs_at(s, p, i)
}

fn matches_at(s: &Vec<char>, p: &Vec<char>, i: usize) -> (r: bool)
    requires
        i + p@.len() <= s@.len(),
    ensures
        r == occurs_at(s@, p@, i as int),
{
    let m = p.len();
    let n = s.len();
    for j in 0..m
        invariant
            m == p@.len(),
            n == s@.len(),
            i + m <= n,
            forall|k: int| 0 <= k < j ==> s@[i + k] == p@[k],
    {
        if s[i + j] != p[j] {
            assert(s@.subrange(i as int, i + m)[j as int] != p@[j as int]);
            return false;
        }
    }
    assert(s@.subrange(i as int, i + m) =~= p@);
    true
}

/// Whether `pat` occurs in `s` (the empty pattern occurs in every string).
pub fn str_contains(s: &str, pat: &str) -> (r: bool)
    ensures
        r == has_substring(s@, pat@),
{
    let sv = chars_of(s);
    let pv = chars_of(pat);
    let n = sv.len();
    let m = pv.len();
    if m > n {
        assert forall|i: int| !occurs_at(s@, pat@, i) by {}
        return false;
    }
    let last = n - m;
    for i in 0..last
        invariant
            sv@ == s@,
            pv@ == pat@,
            n == s@.len(),
            m == pat@.len(),
            last == n - m,
            forall|k: int| 0 <= k < i ==> !occurs_at(s@, pat@, k),
    {
        if matches_at(&sv, &pv, i) {
            assert(occurs_at(s@, pat@, i as int));
            return true;
        }
    }
    if matches_at(&sv, &pv, last) {
        assert(occurs_at(s@, pat@, last as int));
        return true;
    }
    assert forall|k: int| !occurs_at(s@, pat@, k) by {
        if 0 <= k && k + m <= n {
            assert(k <= last);
        }
    }
    false
}

/// `s` with every `.` replaced by `-`.
pub open spec fn dots_to_dashes(s: Seq<char>) -> Seq<char> {
    s.map_values(|c: char| if c == '.' { '-' } else { c })
}

/// A new string equal to `s` with every `.` replaced by `-`.
pub fn replace_dots_with_dashes(s: &str) -> (r: String)
    ensures
        r@ == dots_to_dashes(s@),
{
    proof {
        reveal_strlit("-");
    }
    let n = s.unicode_len();
    let mut out = String::new();
    let mut start: usize = 0;
    let mut i: usize = 0;
    while i < n
        invariant
            n == s@.len(),
            start <= i <= n,
            out@ + s@.subrange(start as int, i as int) == dots_to_dashes(s@.subrange(0, i as int)),
            forall|k: int| start <= k < i ==> s@[k] != '.',
        decreases n - i,
    {
        let c = s.get_char(i);
        if c == '.' {
            let piece = s.substring_char(start, i);
            let ghost before = out@;
            proof {
                reveal_strlit("-");
            }
            out.append(piece);
            out.append("-");
            assert(out@ =~= (before + s@.subrange(start as int, i as int)).push('-'));
            assert(dots_to_dashes(s@.subrange(0, i + 1)) =~= dots_to_dashes(s@.subrange(0, i as int)).push('-'));
            start = i + 1;
            i = i + 1;
            assert(s@.subrange(start as int, i as int) =~= Seq::<char>::empty());
            assert(out@ + s@.subrange(start as int, i as int) =~= out@);
        } else {
            assert(dots_to_dashes(s@.subrange(0, i + 1)) =~= dots_to_dashes(s@.subrange(0, i as int)).push(c));
            assert(s@.subrange(start as int, i + 1) =~= s@.subrange(start as int, i as int).push(c));
            assert(out@ + s@.subrange(start as int, i as int).push(c) =~= (out@ + s@.subrange(start as int, i as int)).push(c));
            i = i + 1;
        }
    }
    let piece = s.substring_char(start, n);
    out.append(piece);
    assert(s@.subrange(0, n as int) =~= s@);
    out
}


/// Whether two strings hold the same characters.
pub fn str_eq(a: &str, b: &str) -> (r: bool)
    ensures
        r == (a@ == b@),
{
    let av = chars_of(a);
    let bv = chars_of(b);
    if av.len() != bv.len() {
        return false;
    }
    let n = av.len();
    for i in 0..n
        invariant
            n == av@.len(),
            n == bv@.len(),
            av@ == a@,
            bv@ == b@,
            forall|k: int| 0 <= k < i ==> av@[k] == bv@[k],
    {
        if av[i] != bv[i] {
            return false;
        }
    }
    assert(av@ =~= bv@);
    true
}

} // verus!
