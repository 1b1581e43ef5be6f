//! Incremental typing in streaming mode: only the part of the newest text
//! that extends what was already typed is typed. When the engine revises
//! earlier text instead, the revision is kept aside, not typed.

use vstd::prelude::*;
use vstd::string::{StrSliceExecFns, StringExecFns};

verus! {

/// What to do with a newly transcribed full text.
#[derive(Debug)]
pub enum LiveTextAction {
    /// Nothing new.
    Nothing,
    /// Type this continuation, then confirm it with `mark_typed`.
    Type(String),
    /// The text no longer extends what was typed; it was kept aside.
    Correction,
}

/// Typed text and a pending revision of it.
pub struct LiveTextTracker {
    typed: String,
    pending: String,
}

impl LiveTextTracker {
    pub closed spec fn typed_spec(&self) -> Seq<char> {
        self.typed@
    }

    pub closed spec fn pending_spec(&self) -> Seq<char> {
        self.pending@
    }

    pub fn new() -> (r: LiveTextTracker)
        ensures
            r.typed_spec() == Seq::<char>::empty(),
            r.pending_spec() == Seq::<char>::empty(),
    {
        LiveTextTracker { typed: String::new(), pending: String::new() }
    }

    /// Clears both texts when a new recording starts.
    pub fn reset(&mut self)
        ensures
            final(self).typed_spec() == Seq::<char>::empty(),
            final(self).pending_spec() == Seq::<char>::empty(),
    {
        self.typed = String::new();
        self.pending = String::new();
    }

    /// Records that `text` is now what has been typed.
    pub fn mark_typed(&mut self, text: &str)
        ensures
            final(self).typed_spec() == text@,
            final(self).pending_spec() == old(self).pending_spec(),
    {
        self.typed = String::from_str(text);
    }

    /// The revision kept aside, if any.
    pub fn get_pending_corrections(&self) -> (r: Option<String>)
        ensures
            self.pending_spec().len() == 0 ==> r is None,
            self.pending_spec().len() > 0 ==> (r matches Some(p) && p@ == self.pending_spec()),
    {
        if self.pending.as_str().unicode_len() > 0 {
            Some(self.pending.clone())
        } else {
            None
        }
    }

    /// Decides what the newest full text calls for. Only a longer text
    /// matters: when it extends the typed text its continuation is to be
    /// typed, otherwise it is kept aside as a pending revision.
    pub fn process_live_text(&mut self, new_full_text: &str) -> (a: LiveTextAction)
        ensures
            final(self).typed_spec() == old(self).typed_spec(),
            new_full_text@.len() <= old(self).typed_spec().len() ==> (a is Nothing
                && final(self).pending_spec() == old(self).pending_spec()),
            new_full_text@.len() > old(self).typed_spec().len() && old(self).typed_spec().is_prefix_of(
                new_full_text@,
            ) ==> (a matches LiveTextAction::Type(d) && d@ == new_full_text@.skip(
                old(self).typed_spec().len() as int,
            ) && final(self).pending_spec() == old(self).pending_spec()),
            new_full_text@.len() > old(self).typed_spec().len() && !old(self).typed_spec().is_prefix_of(
                new_full_text@,
            ) ==> (a is Correction && final(self).pending_spec() == new_full_text@),
    {
        let typed = self.typed.as_str();
        let n = typed.unicode_len();
        let m = new_full_text.unicode_len();
        if m <= n {
            return LiveTextAction::Nothing;
        }
        let mut i: usize = 0;
        while i < n
            invariant
                n == typed@.len(),
                m == new_full_text@.len(),
                n < m,
                i <= n,
                typed@ == self.typed@,
                self.typed@ == old(self).typed@,
                self.pending@ == old(self).pending@,
                forall|j: int| 0 <= j < i ==> typed@[j] == new_full_text@[j],
            decreases n - i,
        {
            if typed.get_char(i) != new_full_text.get_char(i) {
                assert(!old(self).typed@.is_prefix_of(new_full_text@));
                self.pending = String::from_str(new_full_text);
                return LiveTextAction::Correction;
            }
            i = i + 1;
        }
        assert(self.typed@.is_prefix_of(new_full_text@));
        let rest = new_full_text.substring_char(n, m);
        assert(rest@ =~= new_full_text@.skip(n as int));
        LiveTextAction::Type(String::from_str(rest))
    }
}

} // verus!
