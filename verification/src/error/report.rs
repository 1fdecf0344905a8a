//! A report: the errors gathered while validating a value, each at its path.

use vstd::prelude::*;

use super::path::{path_text, Kind, Path};
use super::{Error, ErrorView};

verus! {

/// The text of one report line: `path: message` (or only the message at the root), then a newline.
pub open spec fn report_line(path: Seq<(Kind, Seq<char>)>, error: ErrorView) -> Seq<char> {
    if path.len() == 0 {
        error.display_message() + "\n"@
    } else {
        path_text(path) + ": "@ + error.display_message() + "\n"@
    }
}

/// The text of the first `n` entries of a report.
pub open spec fn report_text_upto(entries: Seq<(Seq<(Kind, Seq<char>)>, ErrorView)>, n: nat) -> Seq<char>
    decreases n,
{
    if n == 0 {
        Seq::empty()
    } else {
        report_text_upto(entries, (n - 1) as nat) + report_line(entries[n - 1].0, entries[n - 1].1)
    }
}

proof fn lemma_report_text_upto_push(
    entries: Seq<(Seq<(Kind, Seq<char>)>, ErrorView)>,
    x: (Seq<(Kind, Seq<char>)>, ErrorView),
    n: nat,
)
    requires
        n <= entries.len(),
    ensures
        report_text_upto(entries.push(x), n) == report_text_upto(entries, n),
    decreases n,
{
    if n > 0 {
        lemma_report_text_upto_push(entries, x, (n - 1) as nat);
    }
}

/// Appending an error to a report adds its line at the end of the report's text and
/// leaves the earlier lines as they were.
pub proof fn lemma_report_text_append(
    entries: Seq<(Seq<(Kind, Seq<char>)>, ErrorView)>,
    path: Seq<(Kind, Seq<char>)>,
    error: ErrorView,
)
    ensures
        report_text_upto(entries.push((path, error)), entries.len() + 1) == report_text_upto(
            entries,
            entries.len(),
        ) + report_line(path, error),
{
    lemma_report_text_upto_push(entries, (path, error), entries.len());
}

/// A validation error report: a flat list of `(Path, Error)`, in the order in which
/// the errors were found. A single field may have any number of errors.
#[derive(Clone, Debug)]
pub struct Report {
    errors: Vec<(Path, Error)>,
}

impl View for Report {
    type V = Seq<(Seq<(Kind, Seq<char>)>, ErrorView)>;

    closed spec fn view(&self) -> Seq<(Seq<(Kind, Seq<char>)>, ErrorView)> {
        self.errors@.map_values(|e: (Path, Error)| (e.0@, e.1@))
    }
}

impl Report {
    /// Creates an empty report.
    pub fn new() -> (r: Self)
        ensures
            r@ == Seq::<(Seq<(Kind, Seq<char>)>, ErrorView)>::empty(),
    {
        let r = Report { errors: Vec::new() };
        assert(r@ =~= Seq::<(Seq<(Kind, Seq<char>)>, ErrorView)>::empty());
        r
    }

    /// Appends `error` at `path`.
    pub fn append(&mut self, path: Path, error: Error)
        ensures
            final(self)@ == old(self)@.push((path@, error@)),
    {
        let ghost entry = (path@, error@);
        self.errors.push((path, error));
        assert(self@ =~= old(self)@.push(entry));
    }

    /// All `(Path, Error)` pairs, in the order in which they were appended.
    pub fn iter(&self) -> (r: &[(Path, Error)])
        ensures
            r@.len() == self@.len(),
            forall|i: int| 0 <= i < r@.len() ==> (#[trigger] r@[i]).0@ == self@[i].0 && r@[i].1@ == self@[i].1,
    {
        self.errors.as_slice()
    }

    /// Whether the report holds no error.
    pub fn is_empty(&self) -> (r: bool)
        ensures
            r <==> self@.len() == 0,
    {
        self.errors.len() == 0
    }

    /// The errors, in the order in which they were appended.
    pub fn into_inner(self) -> (r: Vec<(Path, Error)>)
        ensures
            r@.len() == self@.len(),
            forall|i: int| 0 <= i < r@.len() ==> (#[trigger] r@[i]).0@ == self@[i].0 && r@[i].1@ == self@[i].1,
    {
        self.errors
    }

    /// The report as text: one line per error, `path: message`, or only the message
    /// for an error at the root.
    pub fn to_string(&self) -> (r: String)
        ensures
            r@ == report_text_upto(self@, self@.len()),
    {
        let n = self.errors.len();
        let mut s = String::new();
        for i in 0..n
            invariant
                n == self@.len(),
                s@ == report_text_upto(self@, i as nat),
        {
            let ghost before = s@;
            proof {
                reveal_strlit(": ");
                reveal_strlit("\n");
            }
            let path = &self.errors[i].0;
            let error = &self.errors[i].1;
            let msg = error.display_message();
            if path.is_empty() {
                s.append(msg.as_str());
            } else {
                let p = path.to_string();
                s.append(p.as_str());
                s.append(": ");
                s.append(msg.as_str());
            }
            s.append("\n");
            assert(s@ =~= before + report_line(self@[i as int].0, self@[i as int].1));
        }
        s
    }
}

} // verus!
