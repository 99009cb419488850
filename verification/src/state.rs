//! The executable sequence state.

use crate::model::StateView;
use vstd::prelude::*;

verus! {

/// Why a [`State`] could not be built.
#[derive(Clone, Copy, Debug, PartialEq, Eq, Structural)]
pub enum StateError {
    /// The committed index lies beyond the appended index.
    InvalidState,
}

/// The term and the two log indices of one node.
#[derive(Debug)]
pub struct State {
    aseq: u64,
    cseq: u64,
    term: u64,
}

impl View for State {
    type V = StateView;

    closed spec fn view(&self) -> StateView {
        StateView {
            term: self.term as nat,
            committed_index: self.cseq as nat,
            appended_index: self.aseq as nat,
        }
    }
}

impl State {
    /// Builds the state of a node from its term `term`, the index `cseq` of
    /// its last committed entry and the index `aseq` of its last appended
    /// entry. Counters that claim a commit beyond the last append are
    /// refused.
    pub fn new(term: u64, cseq: u64, aseq: u64) -> (built: Result<State, StateError>)
        ensures
            match built {
                Ok(state) => cseq <= aseq && state@ == (StateView {
                    term: term as nat,
                    committed_index: cseq as nat,
                    appended_index: aseq as nat,
                }),
                Err(error) => cseq > aseq && error == StateError::InvalidState,
            },
            built matches Ok(state) ==> state@.consistent(),
    {
        if cseq > aseq {
            Err(StateError::InvalidState)
        } else {
            Ok(State { aseq, cseq, term })
        }
    }

    /// Commits entry `index` if it is the one right after the last committed
    /// entry, and says whether it did. Any other index is refused and leaves
    /// the state as it was. Whether the entry has been appended is not
    /// looked at: that is for the caller to see to.
    pub fn commit(&mut self, index: u64) -> (committed: bool)
        ensures
            committed == old(self)@.can_commit(index as nat),
            final(self)@ == old(self)@.commit(index as nat),
            old(self)@.consistent() && index <= old(self)@.appended_index
                ==> final(self)@.consistent(),
    {
        if self.can_commit(index) {
            self.cseq += 1;
            true
        } else {
            false
        }
    }

    /// Appends entry `index` if it is the one right after the last appended
    /// entry, and says whether it did. An index further ahead, or one that is
    /// already in the log, is refused and leaves the state as it was.
    pub fn append(&mut self, index: u64) -> (appended: bool)
        ensures
            appended == old(self)@.accepts_append(index as nat),
            final(self)@ == old(self)@.append(index as nat),
            old(self)@.consistent() ==> final(self)@.consistent(),
    {
        if self.aseq < u64::MAX && index == self.aseq + 1 {
            self.aseq += 1;
            true
        } else {
            false
        }
    }

    /// Moves to `new_term` if it is later than the term known so far, and
    /// says whether it did. A term that is not later is refused and leaves
    /// the state as it was.
    pub fn new_term(&mut self, new_term: u64) -> (moved: bool)
        ensures
            moved == old(self)@.accepts_term(new_term as nat),
            final(self)@ == old(self)@.new_term(new_term as nat),
            old(self)@.consistent() ==> final(self)@.consistent(),
    {
        if new_term <= self.term {
            return false;
        }
        self.term = new_term;
        true
    }

    /// Whether entry `index` lies beyond every entry appended so far.
    pub fn can_append(&self, index: u64) -> (beyond: bool)
        ensures
            beyond == self@.can_append(index as nat),
    {
        index > self.aseq
    }

    /// Whether entry `index` is the one right after the last committed entry.
    pub fn can_commit(&self, index: u64) -> (next: bool)
        ensures
            next == self@.can_commit(index as nat),
    {
        self.cseq < u64::MAX && index == self.cseq + 1
    }

    /// The election term known to the node.
    pub fn term(&self) -> (term: u64)
        ensures
            term == self@.term,
    {
        self.term
    }

    /// The index of the last committed entry.
    pub fn committed_index(&self) -> (index: u64)
        ensures
            index == self@.committed_index,
    {
        self.cseq
    }

    /// The index of the last appended entry.
    pub fn appended_index(&self) -> (index: u64)
        ensures
            index == self@.appended_index,
    {
        self.aseq
    }
}

} // verus!
