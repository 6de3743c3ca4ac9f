use vstd::prelude::*;
use crate::table::Table;
use crate::uri::{Uri, UriPair};
use crate::vote_type::{delta_of, VoteType};

verus! {

/// A vote that could not be stored: the object's aggregate score would leave
/// the range of its counter.
#[derive(Clone, Copy, Debug, PartialEq, Eq, Structural)]
pub enum LedgerError {
    ScoreOutOfRange,
}

/// The abstract state of a ledger: the active vote of each (actor, object)
/// pair and the aggregate score of each object.
pub struct LedgerModel {
    pub votes: Map<(Seq<char>, Seq<char>), VoteType>,
    pub scores: Map<Seq<char>, int>,
}

/// The delta of the active vote of `actor` on `object`; `0` without one.
pub open spec fn active_delta(m: LedgerModel, actor: Seq<char>, object: Seq<char>) -> int {
    if m.votes.contains_key((actor, object)) {
        delta_of(m.votes[(actor, object)])
    } else {
        0
    }
}

/// The aggregate score of `object`; `0` before any vote on it.
pub open spec fn score_of(m: LedgerModel, object: Seq<char>) -> int {
    if m.scores.contains_key(object) {
        m.scores[object]
    } else {
        0
    }
}

/// The score of `object` once `actor`'s active vote on it is `v`: the old
/// vote's delta is taken back and the new one added.
pub open spec fn rescored(m: LedgerModel, actor: Seq<char>, object: Seq<char>, v: VoteType) -> int {
    score_of(m, object) - active_delta(m, actor, object) + delta_of(v)
}

/// The state after `actor` votes `v` on `object`: the vote replaces any
/// earlier one of the same actor on the same object.
pub open spec fn after_vote(m: LedgerModel, actor: Seq<char>, object: Seq<char>, v: VoteType) -> LedgerModel {
    LedgerModel {
        votes: m.votes.insert((actor, object), v),
        scores: m.scores.insert(object, rescored(m, actor, object, v)),
    }
}

/// Per-actor votes and per-object aggregate scores.
pub struct VoteLedger {
    votes: Table<UriPair, VoteType>,
    scores: Table<Uri, i64>,
}

impl View for VoteLedger {
    type V = LedgerModel;

    closed spec fn view(&self) -> LedgerModel {
        LedgerModel { votes: self.votes@, scores: self.scores@.map_values(|s: i64| s as int) }
    }
}

impl VoteLedger {
    pub closed spec fn wf(&self) -> bool {
        self.votes.wf() && self.scores.wf()
    }

    pub fn new() -> (r: VoteLedger)
        ensures
            r.wf(),
            r@.votes == Map::<(Seq<char>, Seq<char>), VoteType>::empty(),
            r@.scores == Map::<Seq<char>, int>::empty(),
    {
        let r = VoteLedger { votes: Table::new(), scores: Table::new() };
        assert(r@.scores =~= Map::<Seq<char>, int>::empty());
        r
    }

    /// The aggregate score of `object`.
    pub fn score(&self, object: &Uri) -> (r: i64)
        requires
            self.wf(),
        ensures
            r == score_of(self@, object@),
    {
        match self.scores.get(object) {
            Some(s) => *s,
            None => 0,
        }
    }

    /// The active vote of `actor` on `object`, if any.
    pub fn vote_of(&self, actor: &Uri, object: &Uri) -> (r: Option<VoteType>)
        requires
            self.wf(),
        ensures
            r == self@.votes.get((actor@, object@)),
    {
        let key = UriPair { first: actor.duplicate(), second: object.duplicate() };
        match self.votes.get(&key) {
            Some(v) => Some(*v),
            None => None,
        }
    }

    /// Records `actor`'s vote `kind` on `object`, replacing the actor's earlier
    /// vote there and moving the object's score by the difference. All or
    /// nothing: on an error nothing changes.
    pub fn apply_vote(&mut self, actor: &Uri, object: &Uri, kind: VoteType) -> (r: Result<(), LedgerError>)
        requires
            old(self).wf(),
        ensures
            final(self).wf(),
            r is Ok <==> i64::MIN <= rescored(old(self)@, actor@, object@, kind) <= i64::MAX,
            r is Ok ==> final(self)@ == after_vote(old(self)@, actor@, object@, kind),
            r is Err ==> r == Err::<(), LedgerError>(LedgerError::ScoreOutOfRange) && *final(self) == *old(self),
    {
        let previous: i64 = match self.vote_of(actor, object) {
            Some(v) => v.to_delta() as i64,
            None => 0,
        };
        let current = self.score(object);
        let net: i64 = kind.to_delta() as i64 - previous;
        let updated: i64 = match current.checked_add(net) {
            Some(s) => s,
            None => {
                return Err(LedgerError::ScoreOutOfRange);
            },
        };
        let ghost before = self@;
        self.votes.upsert(UriPair { first: actor.duplicate(), second: object.duplicate() }, kind);
        self.scores.upsert(object.duplicate(), updated);
        assert(self@.scores =~= before.scores.insert(object@, updated as int));
        Ok(())
    }
}

/// Casting the same vote twice leaves the same state as casting it once.
pub proof fn lemma_vote_idempotent(m: LedgerModel, actor: Seq<char>, object: Seq<char>, v: VoteType)
    ensures
        after_vote(after_vote(m, actor, object, v), actor, object, v) == after_vote(m, actor, object, v),
{
    let once = after_vote(m, actor, object, v);
    let twice = after_vote(once, actor, object, v);
    assert(twice.votes =~= once.votes);
    assert(twice.scores =~= once.scores);
}

/// A changed vote replaces the old one: from a score of `0` with no vote of
/// the actor, a like gives `1`, and a dislike of the same actor after it
/// gives `-1`.
pub proof fn lemma_vote_overwrite(m: LedgerModel, actor: Seq<char>, object: Seq<char>)
    requires
        score_of(m, object) == 0,
        !m.votes.contains_key((actor, object)),
    ensures
        score_of(after_vote(m, actor, object, VoteType::Like), object) == 1,
        score_of(
            after_vote(after_vote(m, actor, object, VoteType::Like), actor, object, VoteType::Dislike),
            object,
        ) == -1,
{
}

/// A vote moves the score of its object by the difference between the new
/// and the replaced vote, and leaves every other object's score as it was.
pub proof fn lemma_vote_net_delta(m: LedgerModel, actor: Seq<char>, object: Seq<char>, v: VoteType, other: Seq<char>)
    ensures
        score_of(after_vote(m, actor, object, v), object) == score_of(m, object) + delta_of(v)
            - active_delta(m, actor, object),
        other != object ==> score_of(after_vote(m, actor, object, v), other) == score_of(m, other),
{
}

} // verus!
