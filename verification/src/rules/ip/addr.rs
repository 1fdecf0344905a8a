//! The text forms of IP addresses that the rule accepts: the grammar of
//! `std::net::Ipv4Addr`, `Ipv6Addr` and `IpAddr` parsing, stated over the
//! separator-delimited fields of the text, and a checker for each form.

use vstd::prelude::*;

verus! {

/// The fields of `s` between occurrences of `sep` (there is always at least one).
pub open spec fn split_fields(s: Seq<char>, sep: char) -> Seq<Seq<char>>
    decreases s.len(),
{
    if s.len() == 0 {
        seq![Seq::<char>::empty()]
    } else {
        let f = split_fields(s.drop_last(), sep);
        if s.last() == sep {
            f.push(Seq::<char>::empty())
        } else {
            f.update(f.len() - 1, f.last().push(s.last()))
        }
    }
}

pub proof fn lemma_split_fields_nonempty(s: Seq<char>, sep: char)
    ensures
        split_fields(s, sep).len() >= 1,
    decreases s.len(),
{
    if s.len() > 0 {
        lemma_split_fields_nonempty(s.drop_last(), sep);
    }
}

/// A decimal digit.
pub open spec fn is_dec_digit(c: char) -> bool {
    '0' <= c && c <= '9'
}

/// A hexadecimal digit, in either case.
pub open spec fn is_hex_digit(c: char) -> bool {
    ||| '0' <= c && c <= '9'
    ||| 'a' <= c && c <= 'f'
    ||| 'A' <= c && c <= 'F'
}

/// The value of a decimal digit.
pub open spec fn digit_value(c: char) -> int {
    (c as int) - ('0' as int)
}

/// The value of a run of decimal digits.
pub open spec fn dec_value(s: Seq<char>) -> int
    decreases s.len(),
{
    if s.len() == 0 {
        0
    } else {
        dec_value(s.drop_last()) * 10 + digit_value(s.last())
    }
}

/// One to three decimal digits without a leading zero (except `0` itself), of value at most 255.
pub open spec fn is_dec_octet(s: Seq<char>) -> bool {
    &&& 1 <= s.len() <= 3
    &&& forall|i: int| 0 <= i < s.len() ==> is_dec_digit(#[trigger] s[i])
    &&& (s.len() == 1 || s[0] != '0')
    &&& dec_value(s) <= 255
}

/// One to four hexadecimal digits.
pub open spec fn is_h16(s: Seq<char>) -> bool {
    &&& 1 <= s.len() <= 4
    &&& forall|i: int| 0 <= i < s.len() ==> is_hex_digit(#[trigger] s[i])
}

/// A dotted IPv4 address: four decimal octets separated by dots.
pub open spec fn is_ipv4(s: Seq<char>) -> bool {
    let f = split_fields(s, '.');
    f.len() == 4 && forall|i: int| 0 <= i < 4 ==> is_dec_octet(#[trigger] f[i])
}

/// Every field is one to four hexadecimal digits.
pub open spec fn all_h16(fs: Seq<Seq<char>>) -> bool {
    forall|i: int| 0 <= i < fs.len() ==> is_h16(#[trigger] fs[i])
}

/// No field is empty.
pub open spec fn no_empty(fs: Seq<Seq<char>>) -> bool {
    forall|i: int| 0 <= i < fs.len() ==> (#[trigger] fs[i]).len() > 0
}

/// The number of 16-bit groups that a run of colon-separated fields stands for, when
/// the run is well formed: each hexadecimal field is one group, and a dotted IPv4
/// address, allowed only as the last field, is two.
pub open spec fn run_groups(fs: Seq<Seq<char>>) -> Option<nat> {
    if all_h16(fs) {
        Some(fs.len())
    } else if fs.len() > 0 && all_h16(fs.drop_last()) && is_ipv4(fs.last()) {
        Some(fs.len() + 1)
    } else {
        None
    }
}

/// An IPv6 address in its colon-separated text form, where `::` stands for one or
/// more groups of zeros and may occur once.
pub open spec fn is_ipv6(s: Seq<char>) -> bool {
    let f = split_fields(s, ':');
    let n = f.len();
    if no_empty(f) {
        // no `::`: all eight groups are written out
        run_groups(f) == Some(8nat)
    } else {
        // `::` alone
        ||| n == 3 && f[0].len() == 0 && f[1].len() == 0 && f[2].len() == 0
        // `::` then a tail
        ||| n >= 3 && f[0].len() == 0 && f[1].len() == 0 && no_empty(f.skip(2))
            && (run_groups(f.skip(2)) matches Some(t) && t <= 7)
        // a head then `::`
        ||| n >= 3 && f[n - 1].len() == 0 && f[n - 2].len() == 0 && no_empty(f.take(n - 2))
            && all_h16(f.take(n - 2)) && n - 2 <= 7
        // a head, `::`, then a tail
        ||| exists|j: int| 0 < j < n - 1 && (#[trigger] f[j]).len() == 0 && no_empty(f.take(j))
            && no_empty(f.skip(j + 1)) && all_h16(f.take(j))
            && (run_groups(f.skip(j + 1)) matches Some(t) && j + t <= 7)
    }
}

/// An IPv4 or an IPv6 address.
pub open spec fn is_ip(s: Seq<char>) -> bool {
    is_ipv4(s) || is_ipv6(s)
}

/// The fields as plain values.
pub open spec fn fields_view(fs: Seq<Vec<char>>) -> Seq<Seq<char>> {
    fs.map_values(|v: Vec<char>| v@)
}

/// Splits `s` into the fields between occurrences of `sep`.
pub fn split_on(s: &Vec<char>, sep: char) -> (r: Vec<Vec<char>>)
    ensures
        fields_view(r@) == split_fields(s@, sep),
{
    let n = s.len();
    let mut fields: Vec<Vec<char>> = Vec::new();
    fields.push(Vec::new());
    assert(s@.take(0) =~= Seq::<char>::empty());
    assert(fields_view(fields@) =~= split_fields(s@.take(0), sep));
    for i in 0..n
        invariant
            n == s@.len(),
            fields@.len() >= 1,
            fields_view(fields@) == split_fields(s@.take(i as int), sep),
    {
        let c = s[i];
        proof {
            assert(s@.take(i + 1).drop_last() =~= s@.take(i as int));
            assert(s@.take(i + 1).last() == c);
        }
        if c == sep {
            fields.push(Vec::new());
            assert(fields_view(fields@) =~= split_fields(s@.take(i + 1), sep));
        } else {
            let last = fields.len() - 1;
            let mut cur = fields.pop().unwrap();
            cur.push(c);
            fields.push(cur);
            assert(fields_view(fields@) =~= split_fields(s@.take(i + 1), sep));
        }
    }
    assert(s@.take(n as int) =~= s@);
    fields
}

fn is_dec_digit_exec(c: char) -> (r: bool)
    ensures
        r == is_dec_digit(c),
{
    '0' <= c && c <= '9'
}

fn is_hex_digit_exec(c: char) -> (r: bool)
    ensures
        r == is_hex_digit(c),
{
    ('0' <= c && c <= '9') || ('a' <= c && c <= 'f') || ('A' <= c && c <= 'F')
}

/// Whether `f` is a decimal octet.
pub fn is_dec_octet_exec(f: &Vec<char>) -> (r: bool)
    ensures
        r == is_dec_octet(f@),
{
    let n = f.len();
    if n == 0 || n > 3 {
        return false;
    }
    let mut v: u32 = 0;
    for i in 0..n
        invariant
            n == f@.len(),
            1 <= n <= 3,
            forall|k: int| 0 <= k < i ==> is_dec_digit(#[trigger] f@[k]),
            v == dec_value(f@.take(i as int)),
            i == 0 ==> v == 0,
            i == 1 ==> v <= 9,
            i == 2 ==> v <= 99,
            i == 3 ==> v <= 999,
    {
        let c = f[i];
        if !is_dec_digit_exec(c) {
            return false;
        }
        proof {
            assert(f@.take(i + 1).drop_last() =~= f@.take(i as int));
        }
        let d = (c as u32) - ('0' as u32);
        v = v * 10 + d;
    }
    assert(f@.take(n as int) =~= f@);
    if n > 1 && f[0] == '0' {
        return false;
    }
    v <= 255
}

/// Whether `f` is one to four hexadecimal digits.
pub fn is_h16_exec(f: &Vec<char>) -> (r: bool)
    ensures
        r == is_h16(f@),
{
    let n = f.len();
    if n == 0 || n > 4 {
        return false;
    }
    for i in 0..n
        invariant
            n == f@.len(),
            forall|k: int| 0 <= k < i ==> is_hex_digit(#[trigger] f@[k]),
    {
        if !is_hex_digit_exec(f[i]) {
            return false;
        }
    }
    true
}

/// Whether `s` is a dotted IPv4 address.
pub fn is_ipv4_exec(s: &Vec<char>) -> (r: bool)
    ensures
        r == is_ipv4(s@),
{
    let fields = split_on(s, '.');
    if fields.len() != 4 {
        return false;
    }
    for i in 0..4
        invariant
            fields@.len() == 4,
            fields_view(fields@) == split_fields(s@, '.'),
            forall|k: int| 0 <= k < i ==> is_dec_octet(#[trigger] split_fields(s@, '.')[k]),
    {
        assert(fields_view(fields@)[i as int] == fields@[i as int]@);
        if !is_dec_octet_exec(&fields[i]) {
            return false;
        }
    }
    true
}


/// Whether every field in `fs[lo..hi]` is one to four hexadecimal digits.
fn all_h16_range(fs: &Vec<Vec<char>>, lo: usize, hi: usize) -> (r: bool)
    requires
        lo <= hi <= fs@.len(),
    ensures
        r == all_h16(fields_view(fs@).subrange(lo as int, hi as int)),
{
    let ghost v = fields_view(fs@).subrange(lo as int, hi as int);
    let mut i = lo;
    while i < hi
        invariant
            lo <= i <= hi <= fs@.len(),
            v == fields_view(fs@).subrange(lo as int, hi as int),
            forall|k: int| 0 <= k < i - lo ==> is_h16(#[trigger] v[k]),
        decreases hi - i,
    {
        assert(v[i - lo] == fs@[i as int]@);
        if !is_h16_exec(&fs[i]) {
            return false;
        }
        i += 1;
    }
    true
}

/// Whether no field in `fs[lo..hi]` is empty.
fn no_empty_range(fs: &Vec<Vec<char>>, lo: usize, hi: usize) -> (r: bool)
    requires
        lo <= hi <= fs@.len(),
    ensures
        r == no_empty(fields_view(fs@).subrange(lo as int, hi as int)),
{
    let ghost v = fields_view(fs@).subrange(lo as int, hi as int);
    let mut i = lo;
    while i < hi
        invariant
            lo <= i <= hi <= fs@.len(),
            v == fields_view(fs@).subrange(lo as int, hi as int),
            forall|k: int| 0 <= k < i - lo ==> (#[trigger] v[k]).len() > 0,
        decreases hi - i,
    {
        assert(v[i - lo] == fs@[i as int]@);
        if fs[i].len() == 0 {
            return false;
        }
        i += 1;
    }
    true
}

/// The number of groups that the fields `fs[lo..hi]` stand for, if they are well formed.
fn run_groups_range(fs: &Vec<Vec<char>>, lo: usize, hi: usize) -> (r: Option<u128>)
    requires
        lo <= hi <= fs@.len(),
    ensures
        match r {
            Some(t) => run_groups(fields_view(fs@).subrange(lo as int, hi as int)) == Some(t as nat),
            None => run_groups(fields_view(fs@).subrange(lo as int, hi as int)) is None,
        },
{
    let ghost v = fields_view(fs@).subrange(lo as int, hi as int);
    if all_h16_range(fs, lo, hi) {
        return Some((hi - lo) as u128);
    }
    if hi > lo {
        proof {
            assert(v.drop_last() =~= fields_view(fs@).subrange(lo as int, hi - 1));
            assert(v.last() == fs@[hi - 1]@);
        }
        if all_h16_range(fs, lo, hi - 1) && is_ipv4_exec(&fs[hi - 1]) {
            return Some((hi - lo) as u128 + 1);
        }
    }
    None
}

/// Whether `s` is an IPv6 address.
pub fn is_ipv6_exec(s: &Vec<char>) -> (r: bool)
    ensures
        r == is_ipv6(s@),
{
    let fs = split_on(s, ':');
    let n = fs.len();
    let ghost f = split_fields(s@, ':');
    proof {
        lemma_split_fields_nonempty(s@, ':');
        assert(f.subrange(0, n as int) =~= f);
    }
    let mut e: usize = 0;
    while e < n && fs[e].len() > 0
        invariant
            e <= n,
            n == fs@.len(),
            fields_view(fs@) == f,
            forall|k: int| 0 <= k < e ==> (#[trigger] f[k]).len() > 0,
        decreases n - e,
    {
        assert(f[e as int] == fs@[e as int]@);
        e += 1;
    }
    if e == n {
        assert(no_empty(f));
        return match run_groups_range(&fs, 0, n) {
            Some(t) => t == 8,
            None => false,
        };
    }
    assert(f[e as int] == fs@[e as int]@);
    assert(f[e as int].len() == 0);
    assert(!no_empty(f));
    // Any empty field that a case names is the first one.
    assert forall|j: int| 0 <= j < n && (#[trigger] f[j]).len() == 0 && no_empty(f.take(j))
        implies j == e by {
        if j < e {
        } else if j > e {
            assert(f.take(j)[e as int] == f[e as int]);
        }
    }
    if n == 3 && e == 0 && fs[1].len() == 0 && fs[2].len() == 0 {
        assert(f[1] == fs@[1]@ && f[2] == fs@[2]@);
        return true;
    }
    if e == 0 {
        if n < 3 || fs[1].len() != 0 {
            proof {
                if n >= 3 {
                    assert(f[1] == fs@[1]@);
                }
            }
            return false;
        }
        assert(f[1] == fs@[1]@);
        if !no_empty_range(&fs, 2, n) {
            return false;
        }
        return match run_groups_range(&fs, 2, n) {
            Some(t) => t <= 7,
            None => false,
        };
    }
    if n - e == 2 {
        assert(f[n - 1] == fs@[n - 1]@);
        if fs[n - 1].len() == 0 {
            assert(f.take(e as int) =~= fields_view(fs@).subrange(0, e as int));
            return all_h16_range(&fs, 0, e) && e <= 7;
        }
    }
    if e + 1 < n {
        assert(f.take(e as int) =~= fields_view(fs@).subrange(0, e as int));
        assert(f.skip(e + 1) =~= fields_view(fs@).subrange(e + 1, n as int));
        if !no_empty_range(&fs, e + 1, n) || !all_h16_range(&fs, 0, e) {
            return false;
        }
        return match run_groups_range(&fs, e + 1, n) {
            Some(t) => (e as u128) + t <= 7,
            None => false,
        };
    }
    false
}

/// Whether `s` is an IPv4 or an IPv6 address.
pub fn is_ip_exec(s: &Vec<char>) -> (r: bool)
    ensures
        r == is_ip(s@),
{
    is_ipv4_exec(s) || is_ipv6_exec(s)
}

/// The text of `fs` joined with `sep` between consecutive fields.
pub open spec fn join_fields(fs: Seq<Seq<char>>, sep: char) -> Seq<char>
    decreases fs.len(),
{
    if fs.len() == 0 {
        Seq::<char>::empty()
    } else if fs.len() == 1 {
        fs[0]
    } else {
        join_fields(fs.drop_last(), sep) + seq![sep] + fs.last()
    }
}

/// Text without the separator extends the last field.
proof fn lemma_split_append_plain(x: Seq<char>, b: Seq<char>, sep: char)
    requires
        forall|i: int| 0 <= i < b.len() ==> b[i] != sep,
    ensures
        split_fields(x + b, sep) == split_fields(x, sep).update(
            split_fields(x, sep).len() - 1,
            split_fields(x, sep).last() + b,
        ),
    decreases b.len(),
{
    lemma_split_fields_nonempty(x, sep);
    let g = split_fields(x, sep);
    if b.len() == 0 {
        assert(x + b =~= x);
        assert(g.last() + b =~= g.last());
        assert(g.update(g.len() - 1, g.last() + b) =~= g);
    } else {
        let b0 = b.drop_last();
        lemma_split_append_plain(x, b0, sep);
        assert((x + b).drop_last() =~= x + b0);
        assert((x + b).last() == b.last());
        assert((g.last() + b0).push(b.last()) =~= g.last() + b);
        assert(split_fields(x + b, sep) =~= g.update(g.len() - 1, g.last() + b));
    }
}

/// Splitting fields that were joined with a separator they do not contain gives
/// the fields back.
pub proof fn lemma_split_join(fs: Seq<Seq<char>>, sep: char)
    requires
        fs.len() >= 1,
        forall|i: int, j: int| 0 <= i < fs.len() && 0 <= j < fs[i].len() ==> fs[i][j] != sep,
    ensures
        split_fields(join_fields(fs, sep), sep) == fs,
    decreases fs.len(),
{
    if fs.len() == 1 {
        lemma_split_append_plain(Seq::<char>::empty(), fs[0], sep);
        assert(Seq::<char>::empty() + fs[0] =~= fs[0]);
        assert(split_fields(Seq::<char>::empty(), sep) =~= seq![Seq::<char>::empty()]);
        assert(split_fields(fs[0], sep) =~= fs);
    } else {
        let d = fs.drop_last();
        lemma_split_join(d, sep);
        let p = join_fields(d, sep) + seq![sep];
        assert(p.drop_last() =~= join_fields(d, sep));
        assert(split_fields(p, sep) =~= d.push(Seq::<char>::empty()));
        lemma_split_append_plain(p, fs.last(), sep);
        assert(join_fields(fs, sep) == p + fs.last());
        assert(Seq::<char>::empty() + fs.last() =~= fs.last());
        assert(split_fields(join_fields(fs, sep), sep) =~= fs);
    }
}

/// Every character of `s` other than the separator lies in one of its fields.
proof fn lemma_split_covers(s: Seq<char>, sep: char, i: int)
    requires
        0 <= i < s.len(),
        s[i] != sep,
    ensures
        exists|k: int, m: int|
            0 <= k < split_fields(s, sep).len() && 0 <= m < split_fields(s, sep)[k].len()
                && #[trigger] split_fields(s, sep)[k][m] == s[i],
    decreases s.len(),
{
    let d = s.drop_last();
    lemma_split_fields_nonempty(d, sep);
    let g = split_fields(d, sep);
    let f = split_fields(s, sep);
    if i == s.len() - 1 {
        let k = g.len() - 1;
        assert(f[k] == g.last().push(s.last()));
        assert(f[k][g.last().len() as int] == s[i]);
    } else {
        assert(d[i] == s[i]);
        lemma_split_covers(d, sep, i);
        let (k, m) = choose|k: int, m: int|
            0 <= k < g.len() && 0 <= m < g[k].len() && #[trigger] g[k][m] == d[i];
        if s.last() == sep {
            assert(f[k][m] == s[i]);
        } else if k == g.len() - 1 {
            assert(f[k] == g[k].push(s.last()));
            assert(f[k][m] == s[i]);
        } else {
            assert(f[k][m] == s[i]);
        }
    }
}

/// A dotted IPv4 address is not empty, and each of its characters is a decimal
/// digit or a dot.
pub proof fn lemma_ipv4_characters(v: Seq<char>)
    requires
        is_ipv4(v),
    ensures
        v.len() > 0,
        forall|i: int| 0 <= i < v.len() ==> v[i] == '.' || is_dec_digit(#[trigger] v[i]),
{
    if v.len() == 0 {
        assert(split_fields(v, '.') =~= seq![Seq::<char>::empty()]);
    }
    assert forall|i: int| 0 <= i < v.len() implies v[i] == '.' || is_dec_digit(#[trigger] v[i]) by {
        if v[i] != '.' {
            lemma_split_covers(v, '.', i);
            let f = split_fields(v, '.');
            let (k, m) = choose|k: int, m: int| 0 <= k < f.len() && 0 <= m < f[k].len() && #[trigger] f[k][m] == v[i];
            assert(is_dec_octet(f[k]));
            assert(is_dec_digit(f[k][m]));
        }
    }
}

/// One to four hexadecimal digits, as written in an address.
pub open spec fn written_group(s: Seq<char>) -> bool {
    &&& 1 <= s.len() <= 4
    &&& forall|i: int| 0 <= i < s.len() ==> ('0' <= #[trigger] s[i] <= '9' || 'a' <= s[i] <= 'f' || 'A' <= s[i] <= 'F')
}

proof fn lemma_fields_without_colon(fs: Seq<Seq<char>>)
    requires
        forall|i: int| 0 <= i < fs.len() ==> written_group(#[trigger] fs[i]) || is_ipv4(fs[i]) || fs[i].len() == 0,
    ensures
        forall|i: int, j: int| 0 <= i < fs.len() && 0 <= j < fs[i].len() ==> fs[i][j] != ':',
{
    assert forall|i: int, j: int| 0 <= i < fs.len() && 0 <= j < fs[i].len() implies fs[i][j] != ':' by {
        if is_ipv4(fs[i]) {
            lemma_ipv4_characters(fs[i]);
            assert(fs[i][j] == '.' || is_dec_digit(fs[i][j]));
        } else {
            assert(written_group(fs[i]));
        }
    }
}

/// An address written as a head of hexadecimal groups, `::`, more hexadecimal
/// groups and a dotted IPv4 address is an IPv6 address when the groups it writes
/// out number at most seven, the IPv4 address counting as two.
pub proof fn lemma_ipv6_gap_then_embedded_ipv4(head: Seq<Seq<char>>, mid: Seq<Seq<char>>, v4: Seq<char>)
    requires
        head.len() >= 1,
        forall|i: int| 0 <= i < head.len() ==> written_group(#[trigger] head[i]),
        forall|i: int| 0 <= i < mid.len() ==> written_group(#[trigger] mid[i]),
        is_ipv4(v4),
        head.len() + mid.len() + 2 <= 7,
    ensures
        is_ipv6(join_fields(head + seq![Seq::<char>::empty()] + mid + seq![v4], ':')),
{
    let e = Seq::<char>::empty();
    let fs = head + seq![e] + mid + seq![v4];
    let j = head.len() as int;
    lemma_ipv4_characters(v4);
    assert forall|i: int| 0 <= i < fs.len() implies written_group(#[trigger] fs[i]) || is_ipv4(fs[i]) || fs[i].len() == 0 by {
        if i < j {
            assert(fs[i] == head[i]);
        } else if i == j {
        } else if i < fs.len() - 1 {
            assert(fs[i] == mid[i - j - 1]);
        } else {
            assert(fs[i] == v4);
        }
    }
    lemma_fields_without_colon(fs);
    lemma_split_join(fs, ':');
    let f = split_fields(join_fields(fs, ':'), ':');
    assert(f == fs);
    assert(f.take(j) =~= head);
    assert(f.skip(j + 1) =~= mid + seq![v4]);
    let t = mid + seq![v4];
    assert(t.drop_last() =~= mid);
    assert(no_empty(f.take(j)));
    assert(no_empty(f.skip(j + 1))) by {
        assert forall|i: int| 0 <= i < t.len() implies (#[trigger] t[i]).len() > 0 by {
            if i < mid.len() {
                assert(t[i] == mid[i]);
            }
        }
    }
    assert(all_h16(f.take(j)));
    assert(all_h16(t.drop_last()));
    assert(run_groups(t) matches Some(g) && j + g <= 7);
    assert(f[j].len() == 0);
    assert(!no_empty(f));
}

/// An address written as `::`, hexadecimal groups and a dotted IPv4 address is an
/// IPv6 address when the groups it writes out number at most seven, the IPv4
/// address counting as two.
pub proof fn lemma_ipv6_leading_gap_embedded_ipv4(mid: Seq<Seq<char>>, v4: Seq<char>)
    requires
        forall|i: int| 0 <= i < mid.len() ==> written_group(#[trigger] mid[i]),
        is_ipv4(v4),
        mid.len() + 2 <= 7,
    ensures
        is_ipv6(join_fields(seq![Seq::<char>::empty(), Seq::<char>::empty()] + mid + seq![v4], ':')),
{
    let e = Seq::<char>::empty();
    let fs = seq![e, e] + mid + seq![v4];
    lemma_ipv4_characters(v4);
    assert forall|i: int| 0 <= i < fs.len() implies written_group(#[trigger] fs[i]) || is_ipv4(fs[i]) || fs[i].len() == 0 by {
        if 2 <= i < fs.len() - 1 {
            assert(fs[i] == mid[i - 2]);
        }
    }
    lemma_fields_without_colon(fs);
    lemma_split_join(fs, ':');
    let f = split_fields(join_fields(fs, ':'), ':');
    assert(f == fs);
    let t = mid + seq![v4];
    assert(f.skip(2) =~= t);
    assert(t.drop_last() =~= mid);
    assert(no_empty(f.skip(2))) by {
        assert forall|i: int| 0 <= i < t.len() implies (#[trigger] t[i]).len() > 0 by {
            if i < mid.len() {
                assert(t[i] == mid[i]);
            }
        }
    }
    assert(all_h16(t.drop_last()));
    assert(run_groups(t) matches Some(g) && g <= 7);
    assert(f[0].len() == 0);
    assert(!no_empty(f));
}

/// Eight hexadecimal groups, or six and a dotted IPv4 address, written out in full
/// make an IPv6 address.
pub proof fn lemma_ipv6_full_forms(groups: Seq<Seq<char>>, six: Seq<Seq<char>>, v4: Seq<char>)
    requires
        groups.len() == 8,
        forall|i: int| 0 <= i < groups.len() ==> written_group(#[trigger] groups[i]),
        six.len() == 6,
        forall|i: int| 0 <= i < six.len() ==> written_group(#[trigger] six[i]),
        is_ipv4(v4),
    ensures
        is_ipv6(join_fields(groups, ':')),
        is_ipv6(join_fields(six + seq![v4], ':')),
{
    lemma_fields_without_colon(groups);
    lemma_split_join(groups, ':');
    assert(all_h16(groups));
    assert(no_empty(groups));
    let t = six + seq![v4];
    lemma_ipv4_characters(v4);
    assert forall|i: int| 0 <= i < t.len() implies written_group(#[trigger] t[i]) || is_ipv4(t[i]) || t[i].len() == 0 by {
        if i < 6 {
            assert(t[i] == six[i]);
        }
    }
    lemma_fields_without_colon(t);
    lemma_split_join(t, ':');
    assert(t.drop_last() =~= six);
    assert(no_empty(t)) by {
        assert forall|i: int| 0 <= i < t.len() implies (#[trigger] t[i]).len() > 0 by {
            if i < 6 {
                assert(t[i] == six[i]);
            }
        }
    }
    assert(all_h16(t.drop_last()));
    assert(run_groups(t) matches Some(g) && g == 8) by {
        if all_h16(t) {
            assert(t[6] == v4);
            assert(is_h16(v4));
            assert forall|i: int| 0 <= i < v4.len() implies v4[i] != '.' by {
                assert(is_hex_digit(v4[i]));
            }
            lemma_split_append_plain(Seq::<char>::empty(), v4, '.');
            assert(Seq::<char>::empty() + v4 =~= v4);
            assert(split_fields(Seq::<char>::empty(), '.') =~= seq![Seq::<char>::empty()]);
            assert(split_fields(v4, '.').len() == 1);
        }
    }
}

/// Four decimal numbers from 0 to 255, each written without a leading zero and
/// joined by dots, make an IPv4 address; with a fifth number they do not.
pub proof fn lemma_ipv4_dotted_quad(octets: Seq<Seq<char>>, extra: Seq<char>)
    requires
        octets.len() == 4,
        forall|k: int| 0 <= k < 4 ==> 1 <= (#[trigger] octets[k]).len() <= 3,
        forall|k: int, i: int| 0 <= k < 4 && 0 <= i < octets[k].len() ==> '0' <= #[trigger] octets[k][i] <= '9',
        forall|k: int| 0 <= k < 4 ==> (#[trigger] octets[k]).len() == 1 || octets[k][0] != '0',
        forall|k: int| 0 <= k < 4 ==> dec_value(#[trigger] octets[k]) <= 255,
        forall|i: int| 0 <= i < extra.len() ==> extra[i] != '.',
    ensures
        is_ipv4(join_fields(octets, '.')),
        !is_ipv4(join_fields(octets.push(extra), '.')),
{
    lemma_split_join(octets, '.');
    let f = split_fields(join_fields(octets, '.'), '.');
    assert forall|i: int| 0 <= i < 4 implies is_dec_octet(#[trigger] f[i]) by {
        assert(f[i] == octets[i]);
    }
    let o5 = octets.push(extra);
    assert forall|k: int, i: int| 0 <= k < o5.len() && 0 <= i < o5[k].len() implies o5[k][i] != '.' by {
        if k < 4 {
            assert(o5[k] == octets[k]);
            assert('0' <= octets[k][i] <= '9');
        }
    }
    lemma_split_join(o5, '.');
}

} // verus!
