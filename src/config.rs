//! The history store: captured texts, trimmed, without duplicates, in the
//! order in which they were first captured.

use crate::text::{texts_view, trim_of, trimmed};
use vstd::prelude::*;

verus! {

/// Room reserved up front for the history; the store grows past it freely.
pub const CAPACITY_HINT: usize = 200;

/// The captured texts, oldest first.
pub struct Config {
    pub texts: Vec<String>,
}

impl View for Config {
    type V = Seq<Seq<char>>;

    open spec fn view(&self) -> Seq<Seq<char>> {
        texts_view(self.texts@)
    }
}

/// No text occurs twice.
pub open spec fn distinct(s: Seq<Seq<char>>) -> bool {
    forall|i: int, j: int| 0 <= i < j < s.len() ==> s[i] != s[j]
}

/// The history after capturing `t`: its trimmed form is appended unless it is
/// already there, in which case nothing changes.
pub open spec fn pushed(s: Seq<Seq<char>>, t: Seq<char>) -> Seq<Seq<char>> {
    if s.contains(trim_of(t)) {
        s
    } else {
        s.push(trim_of(t))
    }
}

/// The history after capturing each text of `ts`, in order.
pub open spec fn pushed_all(s: Seq<Seq<char>>, ts: Seq<Seq<char>>) -> Seq<Seq<char>>
    decreases ts.len(),
{
    if ts.len() == 0 {
        s
    } else {
        pushed(pushed_all(s, ts.drop_last()), ts.last())
    }
}

/// Captures never make a duplicate: from a history without duplicates, any
/// sequence of captures leaves a history without duplicates, keeps every
/// earlier entry at its position, and holds the trimmed form of every text
/// captured.
pub proof fn lemma_pushes_keep_history(s: Seq<Seq<char>>, ts: Seq<Seq<char>>)
    requires
        distinct(s),
    ensures
        distinct(pushed_all(s, ts)),
        pushed_all(s, ts).len() >= s.len(),
        forall|i: int| 0 <= i < s.len() ==> pushed_all(s, ts)[i] == s[i],
        forall|k: int| 0 <= k < ts.len() ==> pushed_all(s, ts).contains(trim_of(ts[k])),
    decreases ts.len(),
{
    if ts.len() > 0 {
        let prev = ts.drop_last();
        lemma_pushes_keep_history(s, prev);
        let p = pushed_all(s, prev);
        let r = pushed_all(s, ts);
        assert(r == pushed(p, ts.last()));
        assert forall|k: int| 0 <= k < ts.len() implies r.contains(trim_of(ts[k])) by {
            if k < ts.len() - 1 {
                assert(ts[k] == prev[k]);
                let j = choose|j: int| 0 <= j < p.len() && p[j] == trim_of(prev[k]);
                if !p.contains(trim_of(ts.last())) {
                    assert(r[j] == p[j]);
                }
            } else if !p.contains(trim_of(ts.last())) {
                assert(r[p.len() as int] == trim_of(ts.last()));
            }
        }
    }
}

impl Config {
    /// An empty history.
    pub fn new() -> (r: Config)
        ensures
            r@ == Seq::<Seq<char>>::empty(),
    {
        let texts: Vec<String> = Vec::with_capacity(CAPACITY_HINT);
        let r = Config { texts };
        assert(r@ =~= Seq::<Seq<char>>::empty());
        r
    }

    /// Whether `text` is one of the entries.
    pub fn contains_text(&self, text: &String) -> (r: bool)
        ensures
            r == self@.contains(text@),
    {
        let mut i: usize = 0;
        while i < self.texts.len()
            invariant
                i <= self.texts.len(),
                forall|j: int| 0 <= j < i ==> self@[j] != text@,
            decreases self.texts.len() - i,
        {
            if self.texts[i] == *text {
                assert(self@[i as int] == text@);
                return true;
            }
            i = i + 1;
        }
        false
    }

    /// Captures `text`: appends its trimmed form unless an equal entry is
    /// already there. Returns whether the history changed, that is whether it
    /// must be written out again.
    pub fn push_text(&mut self, text: String) -> (r: bool)
        ensures
            final(self)@ == pushed(old(self)@, text@),
            r == !old(self)@.contains(trim_of(text@)),
            distinct(old(self)@) ==> distinct(final(self)@),
    {
        let t = trimmed(text.as_str());
        if self.contains_text(&t) {
            false
        } else {
            let ghost before = self@;
            self.texts.push(t);
            assert(self@ =~= before.push(t@));
            true
        }
    }
}

impl Default for Config {
    fn default() -> (r: Config)
        ensures
            r@ == Seq::<Seq<char>>::empty(),
    {
        Config::new()
    }
}

} // verus!
