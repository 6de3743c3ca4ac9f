use vstd::prelude::*;
use crate::ledger::{after_vote, rescored, LedgerError, VoteLedger};
use crate::resolver::{CommunityId, Directory, Lookup, ObjectKind, RequestBudget, ResolveError};
use crate::uri::Uri;
use crate::vote_type::{kind_of_label, vote_name, VoteType};

verus! {

/// The public audience marker of an activity's `to` field.
#[derive(Clone, Copy, Debug, PartialEq, Eq, Structural)]
pub enum PublicUrl {
    Public,
}

/// A like or dislike of a post or comment, as exchanged between nodes.
#[derive(Debug)]
pub struct Vote {
    pub id: Uri,
    pub actor: Uri,
    pub to: PublicUrl,
    pub object: Uri,
    pub cc: Vec<Uri>,
    pub kind: VoteType,
}

/// Why an activity was rejected or could not be processed.
#[derive(Clone, Copy, Debug, PartialEq, Eq, Structural)]
pub enum ActivityError {
    MalformedActivity,
    DomainMismatch,
    UnauthorizedActor,
    RecursionBudgetExceeded,
    UnresolvableReference,
    UnsupportedActivityType,
    CommunityNotFound,
    Storage(LedgerError),
}

impl ActivityError {
    /// The activity error for a failed resolution.
    pub fn from_resolve(e: ResolveError) -> (r: ActivityError)
        ensures
            r == resolve_error(e),
    {
        match e {
            ResolveError::RecursionBudgetExceeded => ActivityError::RecursionBudgetExceeded,
            ResolveError::DomainMismatch => ActivityError::DomainMismatch,
        }
    }
}

/// A resolution failure as an activity error: the same failure.
pub open spec fn resolve_error(e: ResolveError) -> ActivityError {
    match e {
        ResolveError::RecursionBudgetExceeded => ActivityError::RecursionBudgetExceeded,
        ResolveError::DomainMismatch => ActivityError::DomainMismatch,
    }
}

/// The vote kind of an inbound activity's type name; a type this
/// dispatcher has no handler for is rejected.
pub fn dispatch_kind(name: &str) -> (r: Result<VoteType, ActivityError>)
    ensures
        match kind_of_label(name@) {
            Some(v) => r == Ok::<VoteType, ActivityError>(v),
            None => r == Err::<VoteType, ActivityError>(ActivityError::UnsupportedActivityType),
        },
{
    match VoteType::from_kind_name(name) {
        Some(v) => Ok(v),
        None => Err(ActivityError::UnsupportedActivityType),
    }
}

/// What processing an inbound activity needs next.
#[derive(Clone, Copy, Debug, PartialEq, Eq, Structural)]
pub enum Next {
    /// Processing is complete.
    Done,
    /// The activity's actor is to be fetched and stored, then the step rerun.
    FetchActor,
    /// The activity's object is to be fetched and stored, then the step rerun.
    FetchObject,
}

/// Every field is present: identifier, actor, object and a first `cc` entry.
pub open spec fn well_formed(v: Vote) -> bool {
    &&& v.id@.len() > 0
    &&& v.actor@.len() > 0
    &&& v.object@.len() > 0
    &&& v.cc@.len() > 0
    &&& v.cc@[0]@.len() > 0
}

/// A step that misses a local record: a fetch, when the budget allows one.
pub open spec fn need(budget: nat, fetch: Next) -> Result<Next, ActivityError> {
    if budget == 0 {
        Err(ActivityError::RecursionBudgetExceeded)
    } else {
        Ok(fetch)
    }
}

/// The outcome of verifying `v` against `dir` with `budget` fetches left.
pub open spec fn verify_result(v: Vote, dir: Directory, budget: nat) -> Result<Next, ActivityError> {
    if !well_formed(v) {
        Err(ActivityError::MalformedActivity)
    } else if !dir.actors@.contains_key(v.actor@) {
        need(budget, Next::FetchActor)
    } else if dir.is_member(v.actor@, v.cc@[0]@) {
        Ok(Next::Done)
    } else {
        Err(ActivityError::UnauthorizedActor)
    }
}

/// The outcome of receiving the verified `v`, before its vote is stored.
pub open spec fn receive_result(v: Vote, dir: Directory, budget: nat) -> Result<Next, ActivityError> {
    if !dir.actors@.contains_key(v.actor@) {
        need(budget, Next::FetchActor)
    } else if !dir.objects@.contains_key(v.object@) {
        need(budget, Next::FetchObject)
    } else {
        Ok(Next::Done)
    }
}

/// The budget after a step: one fetch less exactly when it asks for one.
pub open spec fn charged(r: Result<Next, ActivityError>, budget: nat) -> nat {
    match r {
        Ok(Next::FetchActor) | Ok(Next::FetchObject) => (budget - 1) as nat,
        _ => budget,
    }
}

/// The score range of a vote counter.
pub open spec fn in_counter_range(x: int) -> bool {
    i64::MIN <= x <= i64::MAX
}

/// The identifier minted for a vote: `<host>/activities/<kind>/<token>`.
pub open spec fn minted_id(host: Seq<char>, kind: VoteType, token: Seq<char>) -> Seq<char> {
    host + seq!['/', 'a', 'c', 't', 'i', 'v', 'i', 't', 'i', 'e', 's', '/'] + vote_name(kind) + seq!['/']
        + token
}

/// An assembled outbound activity and its direct recipients, for delivery.
#[derive(Debug)]
pub struct Outbound {
    pub activity: Vote,
    pub recipients: Vec<Uri>,
}

/// The state of one node: its records and the vote ledgers of its posts and
/// comments.
pub struct Node {
    pub host: String,
    pub directory: Directory,
    pub post_votes: VoteLedger,
    pub comment_votes: VoteLedger,
}

impl Node {
    pub open spec fn wf(&self) -> bool {
        self.directory.wf() && self.post_votes.wf() && self.comment_votes.wf()
    }

    /// The ledger that holds votes on objects of `kind`.
    pub open spec fn ledger(&self, kind: ObjectKind) -> VoteLedger {
        match kind {
            ObjectKind::Post => self.post_votes,
            ObjectKind::Comment => self.comment_votes,
        }
    }

    pub fn new(host: &str) -> (r: Node)
        ensures
            r.wf(),
            r.host@ == host@,
            r.directory.actors@.len() == 0,
            r.directory.objects@.len() == 0,
            r.directory.communities@.len() == 0,
            r.directory.members@.len() == 0,
            r.post_votes@.votes.len() == 0,
            r.post_votes@.scores.len() == 0,
            r.comment_votes@.votes.len() == 0,
            r.comment_votes@.scores.len() == 0,
    {
        Node {
            host: host.to_owned(),
            directory: Directory::new(),
            post_votes: VoteLedger::new(),
            comment_votes: VoteLedger::new(),
        }
    }

    /// Stores `actor`'s vote `kind` on the local object `object` of kind
    /// `object_kind`, in the ledger of that kind.
    fn apply(&mut self, object_kind: ObjectKind, actor: &Uri, object: &Uri, kind: VoteType) -> (r: Result<(), ActivityError>)
        requires
            old(self).wf(),
        ensures
            final(self).wf(),
            final(self).host == old(self).host,
            final(self).directory == old(self).directory,
            r is Ok <==> in_counter_range(rescored(old(self).ledger(object_kind)@, actor@, object@, kind)),
            r is Ok ==> final(self).ledger(object_kind)@ == after_vote(old(self).ledger(object_kind)@, actor@, object@, kind),
            r is Err ==> r == Err::<(), ActivityError>(ActivityError::Storage(LedgerError::ScoreOutOfRange))
                && final(self).ledger(object_kind) == old(self).ledger(object_kind),
            object_kind == ObjectKind::Post ==> final(self).comment_votes == old(self).comment_votes,
            object_kind == ObjectKind::Comment ==> final(self).post_votes == old(self).post_votes,
    {
        let res = match object_kind {
            ObjectKind::Post => self.post_votes.apply_vote(actor, object, kind),
            ObjectKind::Comment => self.comment_votes.apply_vote(actor, object, kind),
        };
        match res {
            Ok(()) => Ok(()),
            Err(e) => Err(ActivityError::Storage(e)),
        }
    }
}

/// How receiving `v` with `budget` fetches left took the node from `before`
/// to `after` with result `r`: a missing record stops it with a fetch or an
/// error and nothing stored; otherwise the vote is stored in the ledger of
/// the object's kind, or, where the score would leave its counter's range,
/// nothing changes.
pub open spec fn received(v: Vote, before: Node, after: Node, budget: nat, r: Result<Next, ActivityError>) -> bool {
    let step = receive_result(v, before.directory, budget);
    if step != Ok::<Next, ActivityError>(Next::Done) {
        r == step && after.post_votes == before.post_votes && after.comment_votes == before.comment_votes
    } else {
        let k = before.directory.objects@[v.object@];
        let ledger = before.ledger(k)@;
        &&& (r is Ok <==> in_counter_range(rescored(ledger, v.actor@, v.object@, v.kind)))
        &&& r is Ok ==> r == Ok::<Next, ActivityError>(Next::Done) && after.ledger(k)@ == after_vote(
            ledger,
            v.actor@,
            v.object@,
            v.kind,
        )
        &&& r is Err ==> r == Err::<Next, ActivityError>(ActivityError::Storage(LedgerError::ScoreOutOfRange))
            && after.ledger(k) == before.ledger(k)
        &&& k == ObjectKind::Post ==> after.comment_votes == before.comment_votes
        &&& k == ObjectKind::Comment ==> after.post_votes == before.post_votes
    }
}

/// How one processing step of `v` took the node from `before` to `after`,
/// and the budget from `budget` to `budget_after`, with result `r`: a step
/// that fails verification or asks for the actor stops there, with nothing
/// stored; otherwise the activity is received.
pub open spec fn handled(
    v: Vote,
    before: Node,
    after: Node,
    budget: nat,
    budget_after: nat,
    r: Result<Next, ActivityError>,
) -> bool {
    let check = verify_result(v, before.directory, budget);
    if check != Ok::<Next, ActivityError>(Next::Done) {
        &&& r == check
        &&& budget_after == charged(r, budget)
        &&& after.post_votes == before.post_votes
        &&& after.comment_votes == before.comment_votes
    } else {
        &&& budget_after == charged(receive_result(v, before.directory, budget), budget)
        &&& received(v, before, after, budget, r)
    }
}

impl Vote {
    /// Checks that every field is present.
    pub fn is_well_formed(&self) -> (r: bool)
        ensures
            r == well_formed(*self),
    {
        !self.id.is_empty() && !self.actor.is_empty() && !self.object.is_empty() && self.cc.len() > 0
            && !self.cc[0].is_empty()
    }

    /// Verifies the activity before anything is applied: its structure, its
    /// actor (resolved first) and that the actor belongs to the community
    /// named by the first `cc` entry.
    pub fn verify(&self, dir: &Directory, budget: &mut RequestBudget) -> (r: Result<Next, ActivityError>)
        requires
            dir.wf(),
        ensures
            r == verify_result(*self, *dir, old(budget)@),
            final(budget)@ == charged(r, old(budget)@),
    {
        if !self.is_well_formed() {
            return Err(ActivityError::MalformedActivity);
        }
        match dir.lookup_actor(&self.actor, budget) {
            Err(e) => Err(ActivityError::from_resolve(e)),
            Ok(Lookup::Fetch) => Ok(Next::FetchActor),
            Ok(Lookup::Local) => {
                if dir.is_member_of(&self.actor, &self.cc[0]) {
                    Ok(Next::Done)
                } else {
                    Err(ActivityError::UnauthorizedActor)
                }
            },
        }
    }

    /// Applies a verified activity: resolves its actor and its object, then
    /// stores the vote in the ledger of the object's kind.
    pub fn receive(&self, node: &mut Node, budget: &mut RequestBudget) -> (r: Result<Next, ActivityError>)
        requires
            old(node).wf(),
        ensures
            final(node).wf(),
            final(node).host == old(node).host,
            final(node).directory == old(node).directory,
            final(budget)@ == charged(receive_result(*self, old(node).directory, old(budget)@), old(budget)@),
            received(*self, *old(node), *final(node), old(budget)@, r),
    {
        match node.directory.lookup_actor(&self.actor, budget) {
            Err(e) => {
                return Err(ActivityError::from_resolve(e));
            },
            Ok(Lookup::Fetch) => {
                return Ok(Next::FetchActor);
            },
            Ok(Lookup::Local) => {},
        }
        match node.directory.lookup_object(&self.object, budget) {
            Err(e) => {
                return Err(ActivityError::from_resolve(e));
            },
            Ok(Lookup::Fetch) => {
                return Ok(Next::FetchObject);
            },
            Ok(Lookup::Local) => {},
        }
        let object_kind = match node.directory.object_kind(&self.object) {
            Some(k) => k,
            None => {
                return Err(ActivityError::UnresolvableReference);
            },
        };
        match node.apply(object_kind, &self.actor, &self.object, self.kind) {
            Ok(()) => Ok(Next::Done),
            Err(e) => Err(e),
        }
    }

    /// One processing step of an inbound activity: verification, and only
    /// once it has passed, receipt. A step that returns a fetch is rerun
    /// after the fetched document has been stored.
    pub fn handle(&self, node: &mut Node, budget: &mut RequestBudget) -> (r: Result<Next, ActivityError>)
        requires
            old(node).wf(),
        ensures
            final(node).wf(),
            final(node).host == old(node).host,
            final(node).directory == old(node).directory,
            handled(*self, *old(node), *final(node), old(budget)@, final(budget)@, r),
    {
        match self.verify(&node.directory, budget) {
            Ok(Next::Done) => {},
            other => {
                return other;
            },
        }
        self.receive(node, budget)
    }

    /// Builds the outbound vote of the local `actor` on the local `object`,
    /// addressed to the public and to the community `community_id`, with an
    /// identifier minted from the node's host, the vote kind and the fresh
    /// `token`, and stores its vote locally. The result is handed to delivery
    /// with no direct recipients: the community relays it.
    pub fn send(
        node: &mut Node,
        object: &Uri,
        actor: &Uri,
        community_id: CommunityId,
        kind: VoteType,
        token: &str,
    ) -> (r: Result<Outbound, ActivityError>)
        requires
            old(node).wf(),
        ensures
            final(node).wf(),
            final(node).host == old(node).host,
            final(node).directory == old(node).directory,
            sent(*old(node), *final(node), object@, actor@, community_id, kind, token@, r),
    {
        let community = match node.directory.community_uri(community_id) {
            Some(c) => c,
            None => {
                return Err(ActivityError::CommunityNotFound);
            },
        };
        let object_kind = match node.directory.object_kind(object) {
            Some(k) => k,
            None => {
                return Err(ActivityError::UnresolvableReference);
            },
        };
        let id = mint_id(&node.host, kind, token);
        let mut cc: Vec<Uri> = Vec::new();
        cc.push(community);
        let activity = Vote {
            id: Uri { text: id },
            actor: actor.duplicate(),
            to: PublicUrl::Public,
            object: object.duplicate(),
            cc,
            kind,
        };
        match node.apply(object_kind, actor, object, kind) {
            Ok(()) => Ok(Outbound { activity, recipients: Vec::new() }),
            Err(e) => Err(e),
        }
    }
}

/// The identifier of a new vote activity of this node.
pub fn mint_id(host: &String, kind: VoteType, token: &str) -> (r: String)
    ensures
        r@ == minted_id(host@, kind, token@),
{
    let mut id = host.clone();
    proof {
        reveal_strlit("/activities/");
        reveal_strlit("/");
    }
    id.append("/activities/");
    id.append(kind.name());
    id.append("/");
    id.append(token);
    id
}

/// How sending took the node from `before` to `after` with result `r`.
pub open spec fn sent(
    before: Node,
    after: Node,
    object: Seq<char>,
    actor: Seq<char>,
    community_id: CommunityId,
    kind: VoteType,
    token: Seq<char>,
    r: Result<Outbound, ActivityError>,
) -> bool {
    if !before.directory.communities@.contains_key(community_id@) {
        r == Err::<Outbound, ActivityError>(ActivityError::CommunityNotFound) && after == before
    } else if !before.directory.objects@.contains_key(object) {
        r == Err::<Outbound, ActivityError>(ActivityError::UnresolvableReference) && after == before
    } else {
        let k = before.directory.objects@[object];
        let ledger = before.ledger(k)@;
        &&& (r is Ok <==> in_counter_range(rescored(ledger, actor, object, kind)))
        &&& r is Ok ==> {
            let out = r->Ok_0;
            &&& out.activity.id@ == minted_id(before.host@, kind, token)
            &&& out.activity.actor@ == actor
            &&& out.activity.to == PublicUrl::Public
            &&& out.activity.object@ == object
            &&& out.activity.cc@.len() == 1
            &&& out.activity.cc@[0]@ == before.directory.communities@[community_id@]@
            &&& out.activity.kind == kind
            &&& out.recipients@.len() == 0
            &&& after.ledger(k)@ == after_vote(ledger, actor, object, kind)
        }
        &&& r is Err ==> r == Err::<Outbound, ActivityError>(ActivityError::Storage(LedgerError::ScoreOutOfRange))
            && after.ledger(k) == before.ledger(k)
        &&& k == ObjectKind::Post ==> after.comment_votes == before.comment_votes
        &&& k == ObjectKind::Comment ==> after.post_votes == before.post_votes
    }
}

/// An actor outside the community named by the first `cc` entry is
/// rejected as unauthorized, and no score changes.
pub proof fn lemma_unauthorized_rejected(
    v: Vote,
    before: Node,
    after: Node,
    budget: nat,
    budget_after: nat,
    r: Result<Next, ActivityError>,
)
    requires
        handled(v, before, after, budget, budget_after, r),
        well_formed(v),
        before.directory.actors@.contains_key(v.actor@),
        !before.directory.is_member(v.actor@, v.cc@[0]@),
    ensures
        r == Err::<Next, ActivityError>(ActivityError::UnauthorizedActor),
        after.post_votes == before.post_votes,
        after.comment_votes == before.comment_votes,
{
}

/// With the budget spent, a step that needs one more fetch fails with
/// `RecursionBudgetExceeded`, and no vote is stored.
pub proof fn lemma_budget_exhausted(
    v: Vote,
    before: Node,
    after: Node,
    budget_after: nat,
    r: Result<Next, ActivityError>,
)
    requires
        handled(v, before, after, 0, budget_after, r),
        well_formed(v),
        !before.directory.actors@.contains_key(v.actor@) || (before.directory.is_member(v.actor@, v.cc@[0]@)
            && !before.directory.objects@.contains_key(v.object@)),
    ensures
        r == Err::<Next, ActivityError>(ActivityError::RecursionBudgetExceeded),
        budget_after == 0,
        after.post_votes == before.post_votes,
        after.comment_votes == before.comment_votes,
{
}

/// Every step charges at most one fetch, and charges one exactly when it
/// asks for a fetch: a run that starts with `n` fetches asks for at most `n`.
pub proof fn lemma_step_charge(
    v: Vote,
    before: Node,
    after: Node,
    budget: nat,
    budget_after: nat,
    r: Result<Next, ActivityError>,
)
    requires
        handled(v, before, after, budget, budget_after, r),
    ensures
        (r == Ok::<Next, ActivityError>(Next::FetchActor) || r == Ok::<Next, ActivityError>(Next::FetchObject))
            ==> budget > 0 && budget_after == budget - 1,
        !(r == Ok::<Next, ActivityError>(Next::FetchActor) || r == Ok::<Next, ActivityError>(Next::FetchObject))
            ==> budget_after == budget,
{
}

} // verus!
