//! Paths that locate an error within the validated value.

use vstd::prelude::*;

use crate::text::{nat_decimal, unsigned_to_string};

use smallvec::SmallVec;

verus! {

/// The components of a path, last one first, in a small vector that keeps up to
/// eight of them inline.
#[verifier::external_body]
pub struct PathComponents {
    inner: SmallVec<[(Kind, String); 8]>,
}

/// The components that a [`PathComponents`] holds, in order.
pub uninterp spec fn component_items(v: PathComponents) -> Seq<(Kind, Seq<char>)>;

/// `SmallVec::new`: an empty small vector.
///
/// Trusted: it holds no component.
#[verifier::external_body]
fn components_new() -> (r: PathComponents)
    ensures
        component_items(r) == Seq::<(Kind, Seq<char>)>::empty(),
{
    PathComponents { inner: SmallVec::new() }
}

/// `SmallVec::push`: appends a component.
///
/// Trusted: the component is added after the others, which stay as they were; the
/// `requires` leaves out a vector of `usize::MAX` items, on which `push` panics.
#[verifier::external_body]
fn components_push(v: &mut PathComponents, item: (Kind, String))
    requires
        component_items(*old(v)).len() < usize::MAX,
    ensures
        component_items(*final(v)) == component_items(*old(v)).push((item.0, item.1@)),
{
    v.inner.push(item)
}

impl PathComponents {
    /// `SmallVec::len`: the number of components.
    ///
    /// Trusted: it is the number of components held.
    #[verifier::external_body]
    pub fn len(&self) -> (r: usize)
        ensures
            r == component_items(*self).len(),
    {
        self.inner.len()
    }

    /// `SmallVec::into_vec`: the components, in order, in a `Vec`.
    ///
    /// Trusted: the `Vec` holds the same components in the same order.
    #[verifier::external_body]
    pub fn into_vec(self) -> (r: Vec<(Kind, String)>)
        ensures
            r@.len() == component_items(self).len(),
            forall|i: int| 0 <= i < r@.len() ==> (#[trigger] r@[i]).0 == component_items(self)[i].0
                && r@[i].1@ == component_items(self)[i].1,
    {
        self.inner.into_vec()
    }
}

/// How a path component is written: a field key, a list index, or nothing.
#[derive(Debug, Clone, Copy, PartialEq, Eq, Structural, PartialOrd, Ord, Hash)]
pub enum Kind {
    Empty,
    Key,
    Index,
}

/// A path component without a key, for containers that only ever hold a single value.
#[derive(Default)]
pub struct NoKey(());

/// A value that can be a path component: it knows its kind and its text.
pub trait PathComponentKind {
    /// The kind of component this type makes.
    spec fn spec_kind() -> Kind;

    /// The component's text.
    spec fn spec_component(&self) -> Seq<char>;

    fn component_kind() -> (k: Kind)
        ensures
            k == Self::spec_kind(),
    ;

    fn to_component_string(&self) -> (s: String)
        ensures
            s@ == self.spec_component(),
    ;
}

impl PathComponentKind for usize {
    open spec fn spec_kind() -> Kind {
        Kind::Index
    }

    open spec fn spec_component(&self) -> Seq<char> {
        nat_decimal(*self as nat)
    }

    fn component_kind() -> (k: Kind) {
        Kind::Index
    }

    fn to_component_string(&self) -> (s: String) {
        unsigned_to_string(*self as u128)
    }
}

impl<'a> PathComponentKind for &'a str {
    open spec fn spec_kind() -> Kind {
        Kind::Key
    }

    open spec fn spec_component(&self) -> Seq<char> {
        (*self)@
    }

    fn component_kind() -> (k: Kind) {
        Kind::Key
    }

    fn to_component_string(&self) -> (s: String) {
        (*self).to_owned()
    }
}

impl PathComponentKind for String {
    open spec fn spec_kind() -> Kind {
        Kind::Key
    }

    open spec fn spec_component(&self) -> Seq<char> {
        self@
    }

    fn component_kind() -> (k: Kind) {
        Kind::Key
    }

    fn to_component_string(&self) -> (s: String) {
        self.clone()
    }
}

impl PathComponentKind for NoKey {
    open spec fn spec_kind() -> Kind {
        Kind::Empty
    }

    open spec fn spec_component(&self) -> Seq<char> {
        Seq::empty()
    }

    fn component_kind() -> (k: Kind) {
        Kind::Empty
    }

    fn to_component_string(&self) -> (s: String) {
        String::new()
    }
}

/// The text of component `i` of a path (root first), including the brackets
/// of an index and the separator that introduces the next component.
pub open spec fn component_text(cs: Seq<(Kind, Seq<char>)>, i: int) -> Seq<char> {
    let open: Seq<char> = if i == 0 && cs[i].0 == Kind::Index { "["@ } else { Seq::empty() };
    let close: Seq<char> = if cs[i].0 == Kind::Index { "]"@ } else { Seq::empty() };
    let sep: Seq<char> = if i + 1 < cs.len() {
        match cs[i + 1].0 {
            Kind::Empty => Seq::empty(),
            Kind::Key => "."@,
            Kind::Index => "["@,
        }
    } else {
        Seq::empty()
    };
    open + cs[i].1 + close + sep
}

/// The text of the first `n` components of a path.
pub open spec fn path_text_upto(cs: Seq<(Kind, Seq<char>)>, n: nat) -> Seq<char>
    decreases n,
{
    if n == 0 {
        Seq::empty()
    } else {
        path_text_upto(cs, (n - 1) as nat) + component_text(cs, n - 1)
    }
}

/// A path as text, as in `a.b[0].c`: keys are separated by dots and indices are in brackets.
pub open spec fn path_text(cs: Seq<(Kind, Seq<char>)>) -> Seq<char> {
    path_text_upto(cs, cs.len())
}

proof fn lemma_path_text_upto_push(cs: Seq<(Kind, Seq<char>)>, x: (Kind, Seq<char>), n: nat)
    requires
        n < cs.len(),
    ensures
        path_text_upto(cs.push(x), n) == path_text_upto(cs, n),
    decreases n,
{
    if n > 0 {
        lemma_path_text_upto_push(cs, x, (n - 1) as nat);
        assert(component_text(cs.push(x), n - 1) == component_text(cs, n - 1));
    }
}

/// Joining a component appends its text: a `.` before a key that follows another
/// component, brackets around an index, and nothing around a component without a key.
pub proof fn lemma_path_text_join(cs: Seq<(Kind, Seq<char>)>, k: Kind, c: Seq<char>)
    ensures
        path_text(cs.push((k, c))) == path_text(cs) + match k {
            Kind::Empty => c,
            Kind::Key => if cs.len() == 0 { c } else { "."@ + c },
            Kind::Index => "["@ + c + "]"@,
        },
{
    let ps = cs.push((k, c));
    let n = cs.len();
    if n == 0 {
        assert(path_text_upto(ps, 0) == Seq::<char>::empty());
        assert(path_text(ps) == Seq::<char>::empty() + component_text(ps, 0));
        assert(path_text(ps) =~= path_text(cs) + match k {
            Kind::Empty => c,
            Kind::Key => c,
            Kind::Index => "["@ + c + "]"@,
        });
    } else {
        lemma_path_text_upto_push(cs, (k, c), (n - 1) as nat);
        assert(path_text_upto(ps, n) == path_text_upto(ps, (n - 1) as nat) + component_text(ps, n - 1));
        assert(path_text(cs) == path_text_upto(cs, (n - 1) as nat) + component_text(cs, n - 1));
        assert(path_text(ps) == path_text_upto(ps, n) + component_text(ps, n as int));
        assert(path_text(ps) =~= path_text(cs) + match k {
            Kind::Empty => c,
            Kind::Key => "."@ + c,
            Kind::Index => "["@ + c + "]"@,
        });
    }
}

/// The location of a value: a sequence of components from the root.
#[derive(Clone, Debug, PartialEq, Eq, PartialOrd, Ord, Hash)]
pub struct Path {
    components: Vec<(Kind, String)>,
}

impl View for Path {
    type V = Seq<(Kind, Seq<char>)>;

    closed spec fn view(&self) -> Seq<(Kind, Seq<char>)> {
        self.components@.map_values(|c: (Kind, String)| (c.0, c.1@))
    }
}

impl Path {
    /// The path with no components.
    pub fn empty() -> (r: Self)
        ensures
            r@ == Seq::<(Kind, Seq<char>)>::empty(),
    {
        let r = Path { components: Vec::new() };
        assert(r@ =~= Seq::<(Kind, Seq<char>)>::empty());
        r
    }

    /// The number of components.
    pub fn len(&self) -> (r: usize)
        ensures
            r == self@.len(),
    {
        self.components.len()
    }

    /// Whether the path has no components.
    pub fn is_empty(&self) -> (r: bool)
        ensures
            r <==> self@.len() == 0,
    {
        self.components.len() == 0
    }

    /// The path with the single component `component`.
    pub fn new<C: PathComponentKind>(component: C) -> (r: Self)
        ensures
            r@ == seq![(C::spec_kind(), component.spec_component())],
    {
        let mut components: Vec<(Kind, String)> = Vec::new();
        components.push((C::component_kind(), component.to_component_string()));
        let r = Path { components };
        assert(r@ =~= seq![(C::spec_kind(), component.spec_component())]);
        r
    }

    /// This path extended by `component`.
    pub fn join<C: PathComponentKind>(&self, component: C) -> (r: Self)
        ensures
            r@ == self@.push((C::spec_kind(), component.spec_component())),
    {
        let n = self.components.len();
        let mut components: Vec<(Kind, String)> = Vec::new();
        for i in 0..n
            invariant
                n == self.components@.len(),
                components@.len() == i,
                forall|j: int| 0 <= j < i ==> (#[trigger] components@[j]).0 == self.components@[j].0
                    && components@[j].1@ == self.components@[j].1@,
        {
            let k = self.components[i].0;
            let c = self.components[i].1.clone();
            components.push((k, c));
        }
        components.push((C::component_kind(), component.to_component_string()));
        let r = Path { components };
        assert(r@ =~= self@.push((C::spec_kind(), component.spec_component())));
        r
    }

    /// The components, last one first.
    pub fn __iter(&self) -> (r: PathComponents)
        ensures
            component_items(r).len() == self@.len(),
            forall|i: int| 0 <= i < self@.len() ==> #[trigger] component_items(r)[i] == self@[self@.len() - 1 - i],
    {
        let n = self.components.len();
        let mut out = components_new();
        let mut i = n;
        while i > 0
            invariant
                i <= n,
                n == self.components@.len(),
                n == self@.len(),
                component_items(out).len() == n - i,
                forall|j: int| 0 <= j < n - i ==> #[trigger] component_items(out)[j] == self@[n - 1 - j],
            decreases i,
        {
            i = i - 1;
            let k = self.components[i].0;
            let c = self.components[i].1.clone();
            let ghost before = component_items(out);
            components_push(&mut out, (k, c));
            assert(component_items(out)[n - 1 - i] == self@[i as int]);
        }
        out
    }

    /// The components, root first: what the path is written as when it is serialized.
    pub fn components(&self) -> (r: Vec<(Kind, String)>)
        ensures
            r@.map_values(|c: (Kind, String)| (c.0, c.1@)) == self@,
    {
        let n = self.components.len();
        let mut out: Vec<(Kind, String)> = Vec::new();
        for i in 0..n
            invariant
                n == self.components@.len(),
                out@.len() == i,
                forall|j: int| 0 <= j < i ==> (#[trigger] out@[j]).0 == self.components@[j].0
                    && out@[j].1@ == self.components@[j].1@,
        {
            let k = self.components[i].0;
            let c = self.components[i].1.clone();
            out.push((k, c));
        }
        assert(out@.map_values(|c: (Kind, String)| (c.0, c.1@)) =~= self@);
        out
    }

    /// The path whose components, root first, are `components`: what reading a
    /// serialized path gives.
    pub fn from_components(components: Vec<(Kind, String)>) -> (r: Self)
        ensures
            r@ == components@.map_values(|c: (Kind, String)| (c.0, c.1@)),
    {
        Path { components }
    }

    /// The path as text, as in `a.b[0].c`.
    pub fn to_string(&self) -> (r: String)
        ensures
            r@ == path_text(self@),
    {
        let n = self.components.len();
        let mut s = String::new();
        for i in 0..n
            invariant
                n == self@.len(),
                s@ == path_text_upto(self@, i as nat),
        {
            let ghost before = s@;
            proof {
                reveal_strlit("[");
                reveal_strlit("]");
                reveal_strlit(".");
            }
            let kind = self.components[i].0;
            if i == 0 && kind == Kind::Index {
                s.append("[");
            }
            s.append(self.components[i].1.as_str());
            if kind == Kind::Index {
                s.append("]");
            }
            if i + 1 < n {
                match self.components[i + 1].0 {
                    Kind::Empty => {},
                    Kind::Key => s.append("."),
                    Kind::Index => s.append("["),
                }
            }
            assert(s@ =~= before + component_text(self@, i as int));
        }
        s
    }
}

} // verus!
