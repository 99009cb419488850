//! The counters as mathematical values, and the rules by which they move.
//!
//! Every rule is a pair: a predicate that says when a request is accepted and
//! a function that gives the counters after the request. A request that is
//! not accepted leaves the counters as they were.

use vstd::prelude::*;

verus! {

/// The value of a [`State`](crate::state::State): its three counters as
/// unbounded naturals.
pub struct StateView {
    /// The election term known to the node.
    pub term: nat,
    /// The index of the last committed entry.
    pub committed_index: nat,
    /// The index of the last appended entry.
    pub appended_index: nat,
}

impl StateView {
    /// Nothing is committed that has not been appended.
    pub open spec fn consistent(self) -> bool {
        self.committed_index <= self.appended_index
    }

    /// `index` lies beyond every entry appended so far.
    pub open spec fn can_append(self, index: nat) -> bool {
        index > self.appended_index
    }

    /// `index` is the entry right after the last appended one: the only one
    /// that an append accepts.
    pub open spec fn accepts_append(self, index: nat) -> bool {
        index == self.appended_index + 1
    }

    /// The counters after a request to append entry `index`.
    pub open spec fn append(self, index: nat) -> StateView {
        if self.accepts_append(index) {
            StateView { appended_index: index, ..self }
        } else {
            self
        }
    }

    /// `index` is the entry right after the last committed one: the only one
    /// that a commit accepts.
    pub open spec fn can_commit(self, index: nat) -> bool {
        index == self.committed_index + 1
    }

    /// The counters after a request to commit entry `index`.
    pub open spec fn commit(self, index: nat) -> StateView {
        if self.can_commit(index) {
            StateView { committed_index: index, ..self }
        } else {
            self
        }
    }

    /// `term` is later than the term known so far.
    pub open spec fn accepts_term(self, term: nat) -> bool {
        term > self.term
    }

    /// The counters after a request to move to `term`.
    pub open spec fn new_term(self, term: nat) -> StateView {
        if self.accepts_term(term) {
            StateView { term: term, ..self }
        } else {
            self
        }
    }

    /// Whether `request` is accepted in this state.
    pub open spec fn accepts(self, request: Request) -> bool {
        match request {
            Request::Append(index) => self.accepts_append(index),
            Request::Commit(index) => self.can_commit(index),
            Request::NewTerm(term) => self.accepts_term(term),
        }
    }

    /// The counters after `request`.
    pub open spec fn apply(self, request: Request) -> StateView {
        match request {
            Request::Append(index) => self.append(index),
            Request::Commit(index) => self.commit(index),
            Request::NewTerm(term) => self.new_term(term),
        }
    }

    /// The counters after all of `requests`, made one after the other.
    pub open spec fn run(self, requests: Seq<Request>) -> StateView
        decreases requests.len(),
    {
        if requests.len() == 0 {
            self
        } else {
            self.run(requests.drop_last()).apply(requests.last())
        }
    }

    /// `request` does not commit an entry that this state has yet to append.
    /// A commit that is refused anyway commits nothing, whatever its index.
    pub open spec fn keeps_commit_behind(self, request: Request) -> bool {
        request matches Request::Commit(index) ==> (self.can_commit(index) ==> index
            <= self.appended_index)
    }
}

/// A request to move one of the counters.
pub enum Request {
    /// Append the entry with this index.
    Append(nat),
    /// Commit the entry with this index.
    Commit(nat),
    /// Move to this term.
    NewTerm(nat),
}

/// Terms only move forward. From a state, however it was built, a move to a
/// later term `second` and then to a still later term `third` is accepted both
/// times and leaves the term at `third` and the indices untouched; after that
/// a move to any term up to `third` is refused and changes nothing.
pub proof fn lemma_terms_only_advance(start: StateView, second: nat, third: nat, stale: nat)
    requires
        start.term < second < third,
        stale <= third,
    ensures
        ({
            let moved = start.new_term(second).new_term(third);
            &&& start.accepts_term(second)
            &&& start.new_term(second).accepts_term(third)
            &&& moved == (StateView { term: third, ..start })
            &&& !moved.accepts_term(stale)
            &&& moved.new_term(stale) == moved
        }),
{
}

/// Appends go one entry at a time. The entry right after the last appended
/// one is accepted and becomes the last appended entry, and nothing else
/// changes. Before that append the last appended entry and the entry two
/// ahead are refused. After it the entry two ahead has become the next one
/// and is accepted; the entry just appended, the one before it, and every
/// `other` entry are refused, each time leaving the state as it is.
pub proof fn lemma_append_only_next(start: StateView, other: nat)
    ensures
        ({
            let last = start.appended_index;
            let next = last + 1;
            let after = start.append(next);
            &&& start.accepts_append(next)
            &&& after == (StateView { appended_index: next, ..start })
            &&& !start.accepts_append(last) && start.append(last) == start
            &&& !start.accepts_append(next + 1) && start.append(next + 1) == start
            &&& !after.accepts_append(last) && after.append(last) == after
            &&& !after.accepts_append(next) && after.append(next) == after
            &&& after.accepts_append(next + 1)
            &&& other != next + 1 ==> !after.accepts_append(other) && after.append(other) == after
        }),
{
}

/// Commits go one entry at a time. The entry right after the last committed
/// one is accepted and becomes the last committed entry, and nothing else
/// changes; where the state was consistent and that entry had been appended,
/// the state stays consistent. Before that commit the last committed entry,
/// the entry two ahead, and every `other` entry but the next one are refused
/// and leave the state as it is. After it the entry just committed and the
/// one before it are refused in the same way.
pub proof fn lemma_commit_only_next(start: StateView, other: nat)
    ensures
        ({
            let last = start.committed_index;
            let next = last + 1;
            let after = start.commit(next);
            &&& start.can_commit(next)
            &&& after == (StateView { committed_index: next, ..start })
            &&& start.consistent() && next <= start.appended_index ==> after.consistent()
            &&& !start.can_commit(last) && start.commit(last) == start
            &&& !start.can_commit(next + 1) && start.commit(next + 1) == start
            &&& other != next ==> !start.can_commit(other) && start.commit(other) == start
            &&& !after.can_commit(last) && after.commit(last) == after
            &&& !after.can_commit(next) && after.commit(next) == after
        }),
{
}

/// Every request either is refused and changes nothing, or moves exactly one
/// counter forward: an append or a commit its index by one, a change of term
/// the term to a later one.
pub proof fn lemma_apply_moves_one_counter(state: StateView, request: Request)
    ensures
        !state.accepts(request) ==> state.apply(request) == state,
        state.accepts(request) ==> match request {
            Request::Append(_) => state.apply(request) == (StateView {
                appended_index: state.appended_index + 1,
                ..state
            }),
            Request::Commit(_) => state.apply(request) == (StateView {
                committed_index: state.committed_index + 1,
                ..state
            }),
            Request::NewTerm(term) => term > state.term && state.apply(request) == (StateView {
                term: term,
                ..state
            }),
        },
{
}

/// No counter ever moves back, whatever requests are made.
pub proof fn lemma_run_never_moves_back(start: StateView, requests: Seq<Request>)
    ensures
        start.term <= start.run(requests).term,
        start.committed_index <= start.run(requests).committed_index,
        start.appended_index <= start.run(requests).appended_index,
    decreases requests.len(),
{
    if requests.len() > 0 {
        lemma_run_never_moves_back(start, requests.drop_last());
    }
}

/// A consistent state stays consistent after every request of a run, as long
/// as no commit of the run is accepted for an entry that has yet to be
/// appended at that moment. `requests.take(made)` is the run up to its first
/// `made` requests.
pub proof fn lemma_run_stays_consistent(start: StateView, requests: Seq<Request>)
    requires
        start.consistent(),
        forall|made: int|
            0 <= made < requests.len() ==> #[trigger] start.run(
                requests.take(made),
            ).keeps_commit_behind(requests[made]),
    ensures
        forall|made: int|
            0 <= made <= requests.len() ==> #[trigger] start.run(requests.take(made)).consistent(),
    decreases requests.len(),
{
    if requests.len() == 0 {
        assert(requests.take(0) =~= requests);
    } else {
        let earlier = requests.drop_last();
        let count = earlier.len() as int;
        // A prefix of the shorter run is the same prefix of the whole run.
        assert forall|made: int| 0 <= made <= count implies #[trigger] earlier.take(made)
            == requests.take(made) by {
            assert(earlier.take(made) =~= requests.take(made));
        }
        lemma_run_stays_consistent(start, earlier);
        // The last request starts from a consistent state and keeps it so.
        assert(requests.take(count) == earlier);
        assert(earlier.take(count) == earlier);
        assert(requests.take(count + 1) =~= requests);
        assert(start.run(earlier).keeps_commit_behind(requests[count]));
        assert forall|made: int| 0 <= made <= requests.len() implies #[trigger] start.run(
            requests.take(made),
        ).consistent() by {
            if made <= count {
                assert(earlier.take(made) == requests.take(made));
            }
        }
    }
}

} // verus!
