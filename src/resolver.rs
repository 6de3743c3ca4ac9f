use vstd::prelude::*;
use crate::table::{Table, TableKey};
use crate::uri::{Uri, UriPair};

verus! {

/// The local identifier of a community.
#[derive(Clone, Copy, Debug, PartialEq, Eq, Structural)]
pub struct CommunityId(pub u64);

impl View for CommunityId {
    type V = u64;

    open spec fn view(&self) -> u64 {
        self.0
    }
}

impl TableKey for CommunityId {
    fn same_key(&self, other: &CommunityId) -> (r: bool) {
        self.0 == other.0
    }
}

/// The kind of a referenced object.
#[derive(Clone, Copy, Debug, PartialEq, Eq, Structural)]
pub enum ObjectKind {
    Post,
    Comment,
}

/// What a fetch of an actor returned: the identity it declares and its
/// profile.
#[derive(Debug)]
pub struct ActorDocument {
    pub id: Uri,
    pub name: String,
}

/// What a fetch of a post or comment returned.
#[derive(Debug)]
pub struct ObjectDocument {
    pub id: Uri,
    pub kind: ObjectKind,
}

/// How many remote fetches one processing run may still make.
#[derive(Debug)]
pub struct RequestBudget {
    remaining: u32,
}

impl View for RequestBudget {
    type V = nat;

    closed spec fn view(&self) -> nat {
        self.remaining as nat
    }
}

impl RequestBudget {
    pub fn new(limit: u32) -> (r: RequestBudget)
        ensures
            r@ == limit,
    {
        RequestBudget { remaining: limit }
    }

    pub fn remaining(&self) -> (r: u32)
        ensures
            r == self@,
    {
        self.remaining
    }

    /// Takes one fetch from the budget, or fails when none is left.
    pub fn charge(&mut self) -> (r: Result<(), ResolveError>)
        ensures
            old(self)@ > 0 ==> r is Ok && final(self)@ == old(self)@ - 1,
            old(self)@ == 0 ==> r == Err::<(), ResolveError>(ResolveError::RecursionBudgetExceeded)
                && final(self)@ == 0,
    {
        if self.remaining == 0 {
            Err(ResolveError::RecursionBudgetExceeded)
        } else {
            self.remaining = self.remaining - 1;
            Ok(())
        }
    }
}

/// Why a reference could not be resolved to a local record.
#[derive(Clone, Copy, Debug, PartialEq, Eq, Structural)]
pub enum ResolveError {
    /// The run has no fetch left.
    RecursionBudgetExceeded,
    /// The fetched document declares another identity than the one asked for.
    DomainMismatch,
}

/// The next step of resolving a reference.
#[derive(Clone, Copy, Debug, PartialEq, Eq, Structural)]
pub enum Lookup {
    /// A local record exists; nothing was charged.
    Local,
    /// No local record: one fetch was charged, and the document is to be
    /// fetched and handed back to the matching `store_` method.
    Fetch,
}

/// The lookup of a reference against a table: a hit costs nothing, a miss
/// charges one fetch or fails when the budget is spent.
pub open spec fn lookup_outcome(present: bool, budget: nat) -> Result<Lookup, ResolveError> {
    if present {
        Ok(Lookup::Local)
    } else if budget == 0 {
        Err(ResolveError::RecursionBudgetExceeded)
    } else {
        Ok(Lookup::Fetch)
    }
}

/// The budget left after a lookup.
pub open spec fn budget_after(present: bool, budget: nat) -> nat {
    if present || budget == 0 {
        budget
    } else {
        (budget - 1) as nat
    }
}

fn lookup<P>(table: &Table<Uri, P>, uri: &Uri, budget: &mut RequestBudget) -> (r: Result<Lookup, ResolveError>)
    requires
        table.wf(),
    ensures
        r == lookup_outcome(table@.contains_key(uri@), old(budget)@),
        final(budget)@ == budget_after(table@.contains_key(uri@), old(budget)@),
{
    if table.contains(uri) {
        Ok(Lookup::Local)
    } else {
        match budget.charge() {
            Ok(()) => Ok(Lookup::Fetch),
            Err(e) => Err(e),
        }
    }
}

/// A community as this node knows it.
#[derive(Debug)]
pub struct CommunityRecord {
    pub uri: Uri,
}

/// The records this node keeps of actors, objects and communities.
pub struct Directory {
    pub actors: Table<Uri, String>,
    pub objects: Table<Uri, ObjectKind>,
    pub communities: Table<CommunityId, Uri>,
    pub members: Table<UriPair, ()>,
}

impl Directory {
    pub open spec fn wf(&self) -> bool {
        self.actors.wf() && self.objects.wf() && self.communities.wf() && self.members.wf()
    }

    /// Whether `actor` belongs to the community with identifier `community`.
    pub open spec fn is_member(&self, actor: Seq<char>, community: Seq<char>) -> bool {
        self.members@.contains_key((actor, community))
    }

    pub fn new() -> (r: Directory)
        ensures
            r.wf(),
            r.actors@ == Map::<Seq<char>, String>::empty(),
            r.objects@ == Map::<Seq<char>, ObjectKind>::empty(),
            r.communities@ == Map::<u64, Uri>::empty(),
            r.members@ == Map::<(Seq<char>, Seq<char>), ()>::empty(),
    {
        Directory { actors: Table::new(), objects: Table::new(), communities: Table::new(), members: Table::new() }
    }

    /// Registers a local community under `id` and `uri`.
    pub fn add_community(&mut self, id: CommunityId, uri: Uri)
        requires
            old(self).wf(),
        ensures
            final(self).wf(),
            final(self).communities@ == old(self).communities@.insert(id@, uri),
            final(self).actors@ == old(self).actors@,
            final(self).objects@ == old(self).objects@,
            final(self).members@ == old(self).members@,
    {
        self.communities.upsert(id, uri);
    }

    /// Records that `actor` belongs to `community`.
    pub fn add_member(&mut self, actor: &Uri, community: &Uri)
        requires
            old(self).wf(),
        ensures
            final(self).wf(),
            final(self).members@ == old(self).members@.insert((actor@, community@), ()),
            final(self).actors@ == old(self).actors@,
            final(self).objects@ == old(self).objects@,
            final(self).communities@ == old(self).communities@,
    {
        self.members.upsert(UriPair { first: actor.duplicate(), second: community.duplicate() }, ());
    }

    pub fn is_member_of(&self, actor: &Uri, community: &Uri) -> (r: bool)
        requires
            self.wf(),
        ensures
            r == self.is_member(actor@, community@),
    {
        self.members.contains(&UriPair { first: actor.duplicate(), second: community.duplicate() })
    }

    /// The identifier of the community with local id `id`.
    pub fn community_uri(&self, id: CommunityId) -> (r: Option<Uri>)
        requires
            self.wf(),
        ensures
            match r {
                Some(u) => self.communities@.contains_key(id@) && u@ == self.communities@[id@]@,
                None => !self.communities@.contains_key(id@),
            },
    {
        match self.communities.get(&id) {
            Some(u) => Some(u.duplicate()),
            None => None,
        }
    }

    /// The kind of the local object `uri`, if it is known.
    pub fn object_kind(&self, uri: &Uri) -> (r: Option<ObjectKind>)
        requires
            self.wf(),
        ensures
            r == self.objects@.get(uri@),
    {
        match self.objects.get(uri) {
            Some(k) => Some(*k),
            None => None,
        }
    }

    /// First step of resolving the actor `uri`.
    pub fn lookup_actor(&self, uri: &Uri, budget: &mut RequestBudget) -> (r: Result<Lookup, ResolveError>)
        requires
            self.wf(),
        ensures
            r == lookup_outcome(self.actors@.contains_key(uri@), old(budget)@),
            final(budget)@ == budget_after(self.actors@.contains_key(uri@), old(budget)@),
    {
        lookup(&self.actors, uri, budget)
    }

    /// First step of resolving the post or comment `uri`.
    pub fn lookup_object(&self, uri: &Uri, budget: &mut RequestBudget) -> (r: Result<Lookup, ResolveError>)
        requires
            self.wf(),
        ensures
            r == lookup_outcome(self.objects@.contains_key(uri@), old(budget)@),
            final(budget)@ == budget_after(self.objects@.contains_key(uri@), old(budget)@),
    {
        lookup(&self.objects, uri, budget)
    }

    /// Last step of resolving the actor `requested`: the fetched document is
    /// stored, creating or refreshing the record, unless it claims another
    /// identity.
    pub fn store_actor(&mut self, requested: &Uri, doc: ActorDocument) -> (r: Result<(), ResolveError>)
        requires
            old(self).wf(),
        ensures
            final(self).wf(),
            r is Ok <==> doc.id@ == requested@,
            r is Ok ==> final(self).actors@ == old(self).actors@.insert(requested@, doc.name),
            r is Err ==> r == Err::<(), ResolveError>(ResolveError::DomainMismatch)
                && final(self).actors@ == old(self).actors@,
            final(self).objects@ == old(self).objects@,
            final(self).communities@ == old(self).communities@,
            final(self).members@ == old(self).members@,
    {
        if !doc.id.same(requested) {
            return Err(ResolveError::DomainMismatch);
        }
        self.actors.upsert(doc.id, doc.name);
        Ok(())
    }

    /// Last step of resolving the post or comment `requested`.
    pub fn store_object(&mut self, requested: &Uri, doc: ObjectDocument) -> (r: Result<(), ResolveError>)
        requires
            old(self).wf(),
        ensures
            final(self).wf(),
            r is Ok <==> doc.id@ == requested@,
            r is Ok ==> final(self).objects@ == old(self).objects@.insert(requested@, doc.kind),
            r is Err ==> r == Err::<(), ResolveError>(ResolveError::DomainMismatch)
                && final(self).objects@ == old(self).objects@,
            final(self).actors@ == old(self).actors@,
            final(self).communities@ == old(self).communities@,
            final(self).members@ == old(self).members@,
    {
        if !doc.id.same(requested) {
            return Err(ResolveError::DomainMismatch);
        }
        self.objects.upsert(doc.id, doc.kind);
        Ok(())
    }
}

} // verus!
