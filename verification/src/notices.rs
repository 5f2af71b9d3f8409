//! The errors shown to the operator: each one is recorded once under an
//! identifier of its own and stays until it is dismissed.

use vstd::prelude::*;

verus! {

/// The most entries that stay on show when the list is trimmed.
pub const SHOWN_AT_MOST: usize = 3;

/// One recorded error.
#[derive(Debug)]
pub struct UiError {
    pub id: u64,
    pub msg: String,
    /// The clock reading at which it was recorded.
    pub ts: u64,
}

/// The recorded errors, oldest first.
#[derive(Debug)]
pub struct ErrorLog {
    pub errors: Vec<UiError>,
    pub next_err_id: u64,
}

impl ErrorLog {
    /// Identifiers grow along the list and stay below the next one to be
    /// given out; so none occurs twice.
    pub open spec fn wf(&self) -> bool {
        &&& self.next_err_id >= 1
        &&& forall|i: int| 0 <= i < self.errors@.len() ==> self.errors@[i].id < self.next_err_id
        &&& forall|i: int, j: int|
            0 <= i < j < self.errors@.len() ==> self.errors@[i].id < self.errors@[j].id
    }

    /// An empty log; the first identifier is 1.
    pub fn new() -> (log: ErrorLog)
        ensures
            log.errors@.len() == 0,
            log.next_err_id == 1,
            log.wf(),
    {
        ErrorLog { errors: Vec::new(), next_err_id: 1 }
    }

    /// Records an error at the end of the list and returns its identifier.
    pub fn push_error(&mut self, msg: String, now: u64) -> (id: u64)
        requires
            old(self).next_err_id < u64::MAX,
        ensures
            id == old(self).next_err_id,
            final(self).next_err_id == old(self).next_err_id + 1,
            final(self).errors@ == old(self).errors@.push(UiError { id, msg, ts: now }),
            old(self).wf() ==> final(self).wf(),
    {
        let id = self.next_err_id;
        self.next_err_id = self.next_err_id + 1;
        self.errors.push(UiError { id, msg, ts: now });
        id
    }

    /// Whether `k` is the place of the first error with the given identifier.
    pub open spec fn is_first_with(&self, id: u64, k: int) -> bool {
        &&& 0 <= k < self.errors@.len()
        &&& self.errors@[k].id == id
        &&& forall|m: int| 0 <= m < k ==> self.errors@[m].id != id
    }

    /// Takes the error with the given identifier off the list; the others
    /// stay in their order. An identifier that is not on the list changes
    /// nothing.
    pub fn dismiss(&mut self, id: u64) -> (found: bool)
        ensures
            final(self).next_err_id == old(self).next_err_id,
            found == exists|k: int| 0 <= k < old(self).errors@.len() && old(self).errors@[k].id == id,
            forall|k: int|
                old(self).is_first_with(id, k) ==> final(self).errors@ == old(self).errors@.remove(
                    k,
                ),
            !found ==> final(self).errors@ == old(self).errors@,
            old(self).wf() ==> final(self).wf(),
    {
        let mut i: usize = 0;
        while i < self.errors.len()
            invariant
                i <= self.errors@.len(),
                *self == *old(self),
                forall|k: int| 0 <= k < i ==> self.errors@[k].id != id,
            decreases self.errors@.len() - i,
        {
            if self.errors[i].id == id {
                let _ = self.errors.remove(i);
                return true;
            }
            i = i + 1;
        }
        false
    }

    /// Takes every error off the list.
    pub fn dismiss_all(&mut self)
        ensures
            final(self).errors@.len() == 0,
            final(self).next_err_id == old(self).next_err_id,
            old(self).wf() ==> final(self).wf(),
    {
        self.errors.clear();
    }

    /// Trims the list to its latest entries, at most `SHOWN_AT_MOST` of them.
    pub fn keep_latest(&mut self)
        ensures
            final(self).next_err_id == old(self).next_err_id,
            old(self).errors@.len() <= SHOWN_AT_MOST ==> final(self).errors@ == old(self).errors@,
            old(self).errors@.len() > SHOWN_AT_MOST ==> final(self).errors@ == old(self).errors@.subrange(
                old(self).errors@.len() - SHOWN_AT_MOST,
                old(self).errors@.len() as int,
            ),
            old(self).wf() ==> final(self).wf(),
    {
        let len = self.errors.len();
        if len > SHOWN_AT_MOST {
            let tail = self.errors.split_off(len - SHOWN_AT_MOST);
            self.errors = tail;
        }
    }
}

} // verus!
