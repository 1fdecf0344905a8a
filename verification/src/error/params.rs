//! Named parameters attached to an error, used to fill message templates.

use vstd::prelude::*;

use crate::text::str_eq;

verus! {

/// A parameter value.
///
/// `Float` holds the IEEE 754 bit pattern of an `f64`: the library carries it
/// through unchanged, and compares two of them as `f64` values compare.
#[derive(Debug)]
pub enum ParamValue {
    String(String),
    Integer(i64),
    Unsigned(u64),
    Float(u64),
    Bool(bool),
}

/// The mathematical value of a [`ParamValue`]: strings are taken as their characters.
pub enum ParamValueView {
    String(Seq<char>),
    Integer(i64),
    Unsigned(u64),
    Float(u64),
    Bool(bool),
}

impl View for ParamValue {
    type V = ParamValueView;

    open spec fn view(&self) -> ParamValueView {
        match self {
            ParamValue::String(s) => ParamValueView::String(s@),
            ParamValue::Integer(i) => ParamValueView::Integer(*i),
            ParamValue::Unsigned(u) => ParamValueView::Unsigned(*u),
            ParamValue::Float(f) => ParamValueView::Float(*f),
            ParamValue::Bool(b) => ParamValueView::Bool(*b),
        }
    }
}

/// The `f64` with bit pattern `bits` is a NaN: all exponent bits set and a non-zero fraction.
pub open spec fn f64_bits_is_nan(bits: u64) -> bool {
    (bits >> 52u64) & 0x7ffu64 == 0x7ffu64 && bits & 0xf_ffff_ffff_ffffu64 != 0
}

/// The `f64` with bit pattern `bits` is `0.0` or `-0.0`.
pub open spec fn f64_bits_is_zero(bits: u64) -> bool {
    bits & 0x7fff_ffff_ffff_ffffu64 == 0
}

/// Whether the `f64` values with bit patterns `a` and `b` are equal under `==`: no
/// NaN equals anything, `0.0` equals `-0.0`, and other values are equal when their
/// bits are.
pub open spec fn f64_bits_eq(a: u64, b: u64) -> bool {
    !f64_bits_is_nan(a) && !f64_bits_is_nan(b) && (a == b || (f64_bits_is_zero(a) && f64_bits_is_zero(b)))
}

/// Whether two parameter values are equal under `==`: the same variant with equal
/// contents, floats compared as `f64` values.
pub open spec fn param_value_eq(a: ParamValueView, b: ParamValueView) -> bool {
    match (a, b) {
        (ParamValueView::String(x), ParamValueView::String(y)) => x == y,
        (ParamValueView::Integer(x), ParamValueView::Integer(y)) => x == y,
        (ParamValueView::Unsigned(x), ParamValueView::Unsigned(y)) => x == y,
        (ParamValueView::Float(x), ParamValueView::Float(y)) => f64_bits_eq(x, y),
        (ParamValueView::Bool(x), ParamValueView::Bool(y)) => x == y,
        _ => false,
    }
}

fn float_bits_eq(a: u64, b: u64) -> (r: bool)
    ensures
        r == f64_bits_eq(a, b),
{
    let a_nan = (a >> 52u64) & 0x7ffu64 == 0x7ffu64 && a & 0xf_ffff_ffff_ffffu64 != 0;
    let b_nan = (b >> 52u64) & 0x7ffu64 == 0x7ffu64 && b & 0xf_ffff_ffff_ffffu64 != 0;
    let both_zero = a & 0x7fff_ffff_ffff_ffffu64 == 0 && b & 0x7fff_ffff_ffff_ffffu64 == 0;
    !a_nan && !b_nan && (a == b || both_zero)
}

impl PartialEq for ParamValue {
    fn eq(&self, other: &Self) -> (r: bool) {
        match (self, other) {
            (ParamValue::String(x), ParamValue::String(y)) => str_eq(x.as_str(), y.as_str()),
            (ParamValue::Integer(x), ParamValue::Integer(y)) => *x == *y,
            (ParamValue::Unsigned(x), ParamValue::Unsigned(y)) => *x == *y,
            (ParamValue::Float(x), ParamValue::Float(y)) => float_bits_eq(*x, *y),
            (ParamValue::Bool(x), ParamValue::Bool(y)) => *x == *y,
            _ => false,
        }
    }
}

impl vstd::std_specs::cmp::PartialEqSpecImpl for ParamValue {
    open spec fn obeys_eq_spec() -> bool {
        true
    }

    open spec fn eq_spec(&self, other: &ParamValue) -> bool {
        param_value_eq(self@, other@)
    }
}

impl From<String> for ParamValue {
    fn from(v: String) -> (r: Self) {
        ParamValue::String(v)
    }
}

impl vstd::std_specs::convert::FromSpecImpl<String> for ParamValue {
    open spec fn obeys_from_spec() -> bool {
        true
    }

    open spec fn from_spec(v: String) -> ParamValue {
        ParamValue::String(v)
    }
}

impl From<i64> for ParamValue {
    fn from(v: i64) -> (r: Self) {
        ParamValue::Integer(v)
    }
}

impl vstd::std_specs::convert::FromSpecImpl<i64> for ParamValue {
    open spec fn obeys_from_spec() -> bool {
        true
    }

    open spec fn from_spec(v: i64) -> ParamValue {
        ParamValue::Integer(v)
    }
}

impl From<i32> for ParamValue {
    fn from(v: i32) -> (r: Self) {
        ParamValue::Integer(v as i64)
    }
}

impl vstd::std_specs::convert::FromSpecImpl<i32> for ParamValue {
    open spec fn obeys_from_spec() -> bool {
        true
    }

    open spec fn from_spec(v: i32) -> ParamValue {
        ParamValue::Integer(v as i64)
    }
}

impl From<u64> for ParamValue {
    fn from(v: u64) -> (r: Self) {
        ParamValue::Unsigned(v)
    }
}

impl vstd::std_specs::convert::FromSpecImpl<u64> for ParamValue {
    open spec fn obeys_from_spec() -> bool {
        true
    }

    open spec fn from_spec(v: u64) -> ParamValue {
        ParamValue::Unsigned(v)
    }
}

impl From<usize> for ParamValue {
    fn from(v: usize) -> (r: Self) {
        ParamValue::Unsigned(v as u64)
    }
}

impl vstd::std_specs::convert::FromSpecImpl<usize> for ParamValue {
    open spec fn obeys_from_spec() -> bool {
        true
    }

    open spec fn from_spec(v: usize) -> ParamValue {
        ParamValue::Unsigned(v as u64)
    }
}

impl From<bool> for ParamValue {
    fn from(v: bool) -> (r: Self) {
        ParamValue::Bool(v)
    }
}

impl vstd::std_specs::convert::FromSpecImpl<bool> for ParamValue {
    open spec fn obeys_from_spec() -> bool {
        true
    }

    open spec fn from_spec(v: bool) -> ParamValue {
        ParamValue::Bool(v)
    }
}

impl Clone for ParamValue {
    fn clone(&self) -> (r: Self)
        ensures
            r@ == self@,
    {
        match self {
            ParamValue::String(s) => ParamValue::String(s.clone()),
            ParamValue::Integer(i) => ParamValue::Integer(*i),
            ParamValue::Unsigned(u) => ParamValue::Unsigned(*u),
            ParamValue::Float(f) => ParamValue::Float(*f),
            ParamValue::Bool(b) => ParamValue::Bool(*b),
        }
    }
}

/// The value that the last entry with key `key` holds, if any.
pub open spec fn lookup(entries: Seq<(Seq<char>, ParamValueView)>, key: Seq<char>) -> Option<ParamValueView>
    decreases entries.len(),
{
    if entries.len() == 0 {
        None
    } else if entries.last().0 == key {
        Some(entries.last().1)
    } else {
        lookup(entries.drop_last(), key)
    }
}

/// The map that a sequence of entries stands for, later entries taking precedence.
pub open spec fn entries_map(entries: Seq<(Seq<char>, ParamValueView)>) -> Map<Seq<char>, ParamValueView> {
    Map::new(|k: Seq<char>| lookup(entries, k) is Some, |k: Seq<char>| lookup(entries, k)->0)
}

/// Entries as plain values.
pub open spec fn entries_view(v: Seq<(String, ParamValue)>) -> Seq<(Seq<char>, ParamValueView)> {
    v.map_values(|e: (String, ParamValue)| (e.0@, e.1@))
}

/// No two entries have the same key.
pub open spec fn distinct_keys(entries: Seq<(Seq<char>, ParamValueView)>) -> bool {
    forall|i: int, j: int| 0 <= i < j < entries.len() ==> entries[i].0 != entries[j].0
}

/// Dynamic parameters of an error, keyed by name.
#[derive(Debug)]
pub struct Params {
    inner: Vec<(String, ParamValue)>,
}

impl Params {
    /// The entries as plain values, in the order in which they were first inserted.
    pub closed spec fn entries(&self) -> Seq<(Seq<char>, ParamValueView)> {
        entries_view(self.inner@)
    }

    /// Each key is held once.
    #[verifier::type_invariant]
    spec fn keys_held_once(self) -> bool {
        distinct_keys(self.entries())
    }
}

impl Clone for Params {
    fn clone(&self) -> (r: Self)
        ensures
            r@ == self@,
    {
        proof {
            use_type_invariant(self);
        }
        let n = self.inner.len();
        let mut inner: Vec<(String, ParamValue)> = Vec::new();
        for i in 0..n
            invariant
                n == self.inner@.len(),
                inner@.len() == i,
                forall|j: int| 0 <= j < i ==> (#[trigger] inner@[j]).0@ == self.inner@[j].0@
                    && inner@[j].1@ == self.inner@[j].1@,
        {
            let k = self.inner[i].0.clone();
            let v = self.inner[i].1.clone();
            inner.push((k, v));
        }
        assert(entries_view(inner@) =~= self.entries());
        Params { inner }
    }
}

impl PartialEq for Params {
    fn eq(&self, other: &Self) -> (r: bool) {
        proof {
            use_type_invariant(self);
            use_type_invariant(other);
            lemma_dom_len(self.entries());
            lemma_dom_len(other.entries());
        }
        let n = self.inner.len();
        if n != other.inner.len() {
            return false;
        }
        for i in 0..n
            invariant
                n == self.inner@.len(),
                distinct_keys(self.entries()),
                forall|j: int| 0 <= j < i ==> other@.dom().contains(#[trigger] self.entries()[j].0)
                    && param_value_eq(self.entries()[j].1, other@[self.entries()[j].0]),
        {
            let key = self.inner[i].0.as_str();
            assert(self.entries()[i as int] == (self.inner@[i as int].0@, self.inner@[i as int].1@));
            match other.get(key) {
                Some(w) => {
                    if !(self.inner[i].1 == *w) {
                        proof {
                            lemma_lookup_found(self.entries(), i as int);
                            assert(self@.dom().contains(key@));
                            assert(self@[key@] == self.inner@[i as int].1@);
                            assert(!param_value_eq(self@[key@], other@[key@]));
                        }
                        return false;
                    }
                },
                None => {
                    proof {
                        lemma_lookup_found(self.entries(), i as int);
                        assert(self@.dom().contains(key@));
                        assert(!other@.dom().contains(key@));
                    }
                    return false;
                },
            }
        }
        proof {
            assert forall|k: Seq<char>| #[trigger] self@.dom().contains(k) implies other@.dom().contains(k)
                && param_value_eq(self@[k], other@[k]) by {
                lemma_lookup_some_has_entry(self.entries(), k);
                let j = choose|j: int| 0 <= j < self.entries().len() && self.entries()[j].0 == k
                    && self.entries()[j].1 == lookup(self.entries(), k)->0;
                assert(other@.dom().contains(self.entries()[j].0));
            }
        }
        true
    }
}

impl vstd::std_specs::cmp::PartialEqSpecImpl for Params {
    open spec fn obeys_eq_spec() -> bool {
        true
    }

    open spec fn eq_spec(&self, other: &Params) -> bool {
        params_eq(self@, other@)
    }
}

impl Default for Params {
    fn default() -> (r: Self)
        ensures
            r@ == Map::<Seq<char>, ParamValueView>::empty(),
            r@.dom().finite(),
    {
        Params::new()
    }
}

impl View for Params {
    type V = Map<Seq<char>, ParamValueView>;

    closed spec fn view(&self) -> Map<Seq<char>, ParamValueView> {
        entries_map(self.entries())
    }
}

proof fn lemma_entries_map_insert(
    before: Seq<(Seq<char>, ParamValueView)>,
    after: Seq<(Seq<char>, ParamValueView)>,
    k: Seq<char>,
    v: ParamValueView,
)
    requires
        forall|q: Seq<char>| #![auto] lookup(after, q) == if q == k { Some(v) } else { lookup(before, q) },
    ensures
        entries_map(after) =~= entries_map(before).insert(k, v),
{
    assert forall|q: Seq<char>| #![auto] entries_map(after).dom().contains(q) == entries_map(before).insert(k, v).dom().contains(q) by {
        assert(lookup(after, q) == if q == k { Some(v) } else { lookup(before, q) });
    }
    assert forall|q: Seq<char>| #![auto] entries_map(after).dom().contains(q) implies entries_map(after)[q] == entries_map(before).insert(k, v)[q] by {
        assert(lookup(after, q) == if q == k { Some(v) } else { lookup(before, q) });
    }
}

proof fn lemma_lookup_push(entries: Seq<(Seq<char>, ParamValueView)>, k: Seq<char>, v: ParamValueView, q: Seq<char>)
    ensures
        lookup(entries.push((k, v)), q) == if q == k { Some(v) } else { lookup(entries, q) },
{
    assert(entries.push((k, v)).drop_last() =~= entries);
}

proof fn lemma_lookup_update(
    entries: Seq<(Seq<char>, ParamValueView)>,
    i: int,
    v: ParamValueView,
    q: Seq<char>,
)
    requires
        0 <= i < entries.len(),
        forall|j: int| i < j < entries.len() ==> entries[j].0 != entries[i].0,
    ensures
        lookup(entries.update(i, (entries[i].0, v)), q) == if q == entries[i].0 {
            Some(v)
        } else {
            lookup(entries, q)
        },
    decreases entries.len(),
{
    let u = entries.update(i, (entries[i].0, v));
    if i == entries.len() - 1 {
        assert(u.drop_last() =~= entries.drop_last());
    } else {
        assert(u.drop_last() =~= entries.drop_last().update(i, (entries[i].0, v)));
        lemma_lookup_update(entries.drop_last(), i, v, q);
    }
}

proof fn lemma_lookup_found(entries: Seq<(Seq<char>, ParamValueView)>, i: int)
    requires
        0 <= i < entries.len(),
        forall|j: int| i < j < entries.len() ==> entries[j].0 != entries[i].0,
    ensures
        lookup(entries, entries[i].0) == Some(entries[i].1),
    decreases entries.len(),
{
    if i < entries.len() - 1 {
        lemma_lookup_found(entries.drop_last(), i);
    }
}

proof fn lemma_lookup_absent(entries: Seq<(Seq<char>, ParamValueView)>, q: Seq<char>)
    requires
        forall|j: int| 0 <= j < entries.len() ==> entries[j].0 != q,
    ensures
        lookup(entries, q) is None,
    decreases entries.len(),
{
    if entries.len() > 0 {
        lemma_lookup_absent(entries.drop_last(), q);
    }
}

proof fn lemma_lookup_some_has_entry(entries: Seq<(Seq<char>, ParamValueView)>, q: Seq<char>)
    requires
        lookup(entries, q) is Some,
    ensures
        exists|i: int| 0 <= i < entries.len() && entries[i].0 == q && entries[i].1 == lookup(entries, q)->0,
    decreases entries.len(),
{
    if entries.last().0 != q {
        lemma_lookup_some_has_entry(entries.drop_last(), q);
        let i = choose|i: int| 0 <= i < entries.drop_last().len() && entries.drop_last()[i].0 == q
            && entries.drop_last()[i].1 == lookup(entries.drop_last(), q)->0;
        assert(entries[i] == entries.drop_last()[i]);
    } else {
        assert(entries[entries.len() - 1] == entries.last());
    }
}

impl Params {
    /// Creates an empty set of parameters.
    pub fn new() -> (r: Self)
        ensures
            r@ == Map::<Seq<char>, ParamValueView>::empty(),
            r@.dom().finite(),
    {
        let r = Params { inner: Vec::new() };
        assert(r.entries() =~= Seq::<(Seq<char>, ParamValueView)>::empty());
        assert(r@ =~= Map::<Seq<char>, ParamValueView>::empty());
        r
    }

    /// Sets parameter `key` to `value`, replacing any earlier value of that key.
    pub fn insert(&mut self, key: String, value: ParamValue)
        ensures
            final(self)@ == old(self)@.insert(key@, value@),
            final(self)@.dom().finite(),
            final(self)@.dom().len() > 0,
    {
        proof {
            use_type_invariant(&*self);
        }
        let ghost old_entries = self.entries();
        let mut inner: Vec<(String, ParamValue)> = Vec::new();
        std::mem::swap(&mut inner, &mut self.inner);
        assert(entries_view(inner@) == old_entries);
        let n = inner.len();
        let mut i: usize = n;
        while i > 0
            invariant
                i <= n,
                n == inner@.len(),
                entries_view(inner@) == old_entries,
                old(self).entries() == old_entries,
                distinct_keys(old_entries),
                forall|j: int| i <= j < n ==> old_entries[j].0 != key@,
            decreases i,
        {
            let found = str_eq(inner[i - 1].0.as_str(), key.as_str());
            if found {
                let ghost idx = (i - 1) as int;
                let ghost pre = inner@;
                let k = inner[i - 1].0.clone();
                inner.set(i - 1, (k, value));
                proof {
                    assert(old_entries[idx].0 == pre[idx].0@);
                    assert(old_entries[idx].0 == key@);
                    assert(entries_view(inner@) =~= old_entries.update(idx, (old_entries[idx].0, value@)));
                    assert forall|q: Seq<char>| #![auto] lookup(entries_view(inner@), q) == if q == key@ {
                        Some(value@)
                    } else {
                        lookup(old_entries, q)
                    } by {
                        lemma_lookup_update(old_entries, idx, value@, q);
                    }
                    lemma_entries_map_insert(old_entries, entries_view(inner@), key@, value@);
                    lemma_dom_finite(entries_view(inner@));
                    assert(distinct_keys(entries_view(inner@)));
                }
                self.inner = inner;
                proof {
                    assert(self@.dom().contains(key@));
                }
                return;
            }
            i = i - 1;
        }
        let ghost kv = key@;
        inner.push((key, value));
        proof {
            assert(entries_view(inner@) =~= old_entries.push((kv, value@)));
            assert forall|q: Seq<char>| #![auto] lookup(entries_view(inner@), q) == if q == kv {
                Some(value@)
            } else {
                lookup(old_entries, q)
            } by {
                lemma_lookup_push(old_entries, kv, value@, q);
            }
            lemma_entries_map_insert(old_entries, entries_view(inner@), kv, value@);
            lemma_dom_finite(entries_view(inner@));
            assert(distinct_keys(entries_view(inner@)));
        }
        self.inner = inner;
        proof {
            assert(self@.dom().contains(kv));
        }
    }

    /// The value of parameter `key`, if it is set.
    pub fn get(&self, key: &str) -> (r: Option<&ParamValue>)
        ensures
            r is Some <==> self@.dom().contains(key@),
            r matches Some(v) ==> v@ == self@[key@],
    {
        let n = self.inner.len();
        let mut i: usize = n;
        while i > 0
            invariant
                i <= n,
                n == self.inner@.len(),
                forall|j: int| i <= j < n ==> self.entries()[j].0 != key@,
            decreases i,
        {
            if str_eq(self.inner[i - 1].0.as_str(), key) {
                proof {
                    lemma_lookup_found(self.entries(), (i - 1) as int);
                }
                return Some(&self.inner[i - 1].1);
            }
            i = i - 1;
        }
        proof {
            lemma_lookup_absent(self.entries(), key@);
        }
        None
    }

    /// The entries, each key once; every set parameter appears among them with its value.
    pub fn iter(&self) -> (r: &[(String, ParamValue)])
        ensures
            forall|i: int| 0 <= i < r@.len() ==> #[trigger] self@.dom().contains(r@[i].0@),
            forall|i: int| 0 <= i < r@.len() ==> #[trigger] r@[i].1@ == self@[r@[i].0@],
            forall|i: int, j: int| 0 <= i < j < r@.len() ==> #[trigger] r@[i].0@ != #[trigger] r@[j].0@,
            forall|k: Seq<char>| #[trigger] self@.dom().contains(k) ==> exists|i: int|
                0 <= i < r@.len() && r@[i].0@ == k && r@[i].1@ == self@[k],
    {
        proof {
            use_type_invariant(self);
            assert forall|i: int| 0 <= i < self.inner@.len() implies #[trigger] self.inner@[i].1@ == self@[self.inner@[i].0@] by {
                assert(self.entries()[i] == (self.inner@[i].0@, self.inner@[i].1@));
                lemma_lookup_found(self.entries(), i);
            }
            assert forall|i: int, j: int| 0 <= i < j < self.inner@.len() implies #[trigger] self.inner@[i].0@ != #[trigger] self.inner@[j].0@ by {
                assert(self.entries()[i].0 == self.inner@[i].0@);
                assert(self.entries()[j].0 == self.inner@[j].0@);
            }
            assert forall|i: int| 0 <= i < self.inner@.len() implies #[trigger] self@.dom().contains(self.inner@[i].0@) by {
                assert(self.entries()[i].0 == self.inner@[i].0@);
                if lookup(self.entries(), self.inner@[i].0@) is None {
                    lemma_lookup_none_absent(self.entries(), self.inner@[i].0@, i);
                }
            }
            assert forall|k: Seq<char>| #[trigger] self@.dom().contains(k) implies exists|i: int|
                0 <= i < self.inner@.len() && self.inner@[i].0@ == k && self.inner@[i].1@ == self@[k] by {
                lemma_lookup_some_has_entry(self.entries(), k);
                let i = choose|i: int| 0 <= i < self.entries().len() && self.entries()[i].0 == k
                    && self.entries()[i].1 == lookup(self.entries(), k)->0;
                assert(self.entries()[i] == (self.inner@[i].0@, self.inner@[i].1@));
            }
        }
        self.inner.as_slice()
    }

    /// Only finitely many parameters are ever set.
    pub proof fn lemma_finite(&self)
        ensures
            self@.dom().finite(),
    {
        lemma_dom_finite(self.entries());
    }

    /// Whether no parameter is set.
    pub fn is_empty(&self) -> (r: bool)
        ensures
            r <==> self@.dom().len() == 0,
    {
        let r = self.inner.len() == 0;
        proof {
            if r {
                assert(self.entries().len() == 0);
                assert(self@.dom() =~= Set::<Seq<char>>::empty());
            } else {
                let k = self.inner@[0].0@;
                assert(self.entries()[0].0 == k);
                if lookup(self.entries(), k) is None {
                    lemma_lookup_none_absent(self.entries(), k, 0);
                }
                assert(self@.dom().contains(k));
                lemma_dom_finite(self.entries());
            }
        }
        r
    }
}

proof fn lemma_lookup_none_absent(entries: Seq<(Seq<char>, ParamValueView)>, q: Seq<char>, i: int)
    requires
        0 <= i < entries.len(),
        entries[i].0 == q,
    ensures
        lookup(entries, q) is Some,
    decreases entries.len(),
{
    if entries.last().0 != q {
        assert(i < entries.len() - 1);
        assert(entries.drop_last()[i] == entries[i]);
        lemma_lookup_none_absent(entries.drop_last(), q, i);
    }
}

proof fn lemma_dom_finite(entries: Seq<(Seq<char>, ParamValueView)>)
    ensures
        entries_map(entries).dom().finite(),
    decreases entries.len(),
{
    if entries.len() == 0 {
        assert(entries_map(entries).dom() =~= Set::<Seq<char>>::empty());
    } else {
        lemma_dom_finite(entries.drop_last());
        assert(entries_map(entries).dom() =~= entries_map(entries.drop_last()).dom().insert(entries.last().0));
    }
}

proof fn lemma_dom_len(entries: Seq<(Seq<char>, ParamValueView)>)
    requires
        distinct_keys(entries),
    ensures
        entries_map(entries).dom().len() == entries.len(),
    decreases entries.len(),
{
    if entries.len() == 0 {
        assert(entries_map(entries).dom() =~= Set::<Seq<char>>::empty());
    } else {
        let rest = entries.drop_last();
        assert(distinct_keys(rest));
        lemma_dom_len(rest);
        lemma_dom_finite(rest);
        assert forall|j: int| 0 <= j < rest.len() implies rest[j].0 != entries.last().0 by {
            assert(rest[j] == entries[j]);
        }
        lemma_lookup_absent(rest, entries.last().0);
        assert(entries_map(entries).dom() =~= entries_map(rest).dom().insert(entries.last().0));
    }
}

/// Whether two parameter maps are equal under `==`: as many parameters in each, and
/// each parameter of the first set in the second to an equal value.
pub open spec fn params_eq(a: Map<Seq<char>, ParamValueView>, b: Map<Seq<char>, ParamValueView>) -> bool {
    &&& a.dom().len() == b.dom().len()
    &&& forall|k: Seq<char>| #[trigger] a.dom().contains(k) ==> b.dom().contains(k) && param_value_eq(a[k], b[k])
}

/// After `insert(key, value)`, `get(key)` gives `value`, and `get` of any other key
/// gives what it gave before.
pub proof fn lemma_get_after_insert(
    params: Map<Seq<char>, ParamValueView>,
    key: Seq<char>,
    value: ParamValueView,
    other: Seq<char>,
)
    ensures
        params.insert(key, value).dom().contains(key),
        params.insert(key, value)[key] == value,
        other != key ==> (params.insert(key, value).dom().contains(other) == params.dom().contains(other)),
        other != key && params.dom().contains(other) ==> params.insert(key, value)[other] == params[other],
{
}

} // verus!
