use vstd::prelude::*;
use crate::activity::Vote;
use crate::table::Table;
use crate::uri::Uri;

verus! {

/// The identifiers of a sequence of URIs.
pub open spec fn uri_views(s: Seq<Uri>) -> Seq<Seq<char>> {
    s.map_values(|u: Uri| u@)
}

/// Whether a relay whose ledger holds `forwarded` passes the activity `id` on.
pub open spec fn forwards(forwarded: Map<Seq<char>, ()>, id: Seq<char>) -> bool {
    !forwarded.contains_key(id)
}

/// The ledger after the activity `id` has been handled.
pub open spec fn after_forward(forwarded: Map<Seq<char>, ()>, id: Seq<char>) -> Map<Seq<char>, ()> {
    forwarded.insert(id, ())
}

/// Whether `community` is among the `cc` addressees of `v`.
pub open spec fn addressed_to(v: Vote, community: Seq<char>) -> bool {
    exists|i: int| 0 <= i < v.cc@.len() && v.cc@[i]@ == community
}

/// An accepted activity wrapped for redelivery by a community.
#[derive(Debug)]
pub struct Announce {
    pub actor: Uri,
    pub object: Vote,
    pub recipients: Vec<Uri>,
}

/// A community acting as a relay: its remote followers and the identifiers
/// of the activities it has forwarded.
pub struct Relay {
    pub community: Uri,
    pub followers: Vec<Uri>,
    pub forwarded: Table<Uri, ()>,
}

impl Relay {
    pub open spec fn wf(&self) -> bool {
        self.forwarded.wf()
    }

    pub open spec fn followers(&self) -> Seq<Seq<char>> {
        uri_views(self.followers@)
    }

    pub open spec fn forwarded(&self) -> Map<Seq<char>, ()> {
        self.forwarded@
    }

    pub fn new(community: Uri) -> (r: Relay)
        ensures
            r.wf(),
            r.community@ == community@,
            r.followers() == Seq::<Seq<char>>::empty(),
            r.forwarded() == Map::<Seq<char>, ()>::empty(),
    {
        let r = Relay { community, followers: Vec::new(), forwarded: Table::new() };
        assert(r.followers() =~= Seq::<Seq<char>>::empty());
        r
    }

    pub fn add_follower(&mut self, follower: Uri)
        requires
            old(self).wf(),
        ensures
            final(self).wf(),
            final(self).community == old(self).community,
            final(self).followers() == old(self).followers().push(follower@),
            final(self).forwarded() == old(self).forwarded(),
    {
        let ghost f = follower@;
        self.followers.push(follower);
        assert(self.followers() =~= old(self).followers().push(f));
    }

    /// Whether the activity `id` has been forwarded already.
    pub fn has_forwarded(&self, id: &Uri) -> (r: bool)
        requires
            self.wf(),
        ensures
            r == self.forwarded().contains_key(id@),
    {
        self.forwarded.contains(id)
    }

    fn follower_list(&self) -> (r: Vec<Uri>)
        ensures
            uri_views(r@) == self.followers(),
    {
        let mut out: Vec<Uri> = Vec::new();
        let mut i: usize = 0;
        while i < self.followers.len()
            invariant
                i <= self.followers@.len(),
                out@.len() == i,
                forall|j: int| 0 <= j < i ==> out@[j]@ == self.followers@[j]@,
            decreases self.followers@.len() - i,
        {
            out.push(self.followers[i].duplicate());
            i = i + 1;
        }
        assert(uri_views(out@) =~= uri_views(self.followers@));
        out
    }

    /// Whether `activity` names this community in `cc`.
    pub fn is_addressed(&self, activity: &Vote) -> (r: bool)
        ensures
            r == addressed_to(*activity, self.community@),
    {
        let mut i: usize = 0;
        while i < activity.cc.len()
            invariant
                i <= activity.cc@.len(),
                forall|j: int| 0 <= j < i ==> activity.cc@[j]@ != self.community@,
            decreases activity.cc@.len() - i,
        {
            if activity.cc[i].same(&self.community) {
                return true;
            }
            i = i + 1;
        }
        false
    }

    /// Wraps `activity`, when it is addressed to this community, for
    /// redelivery to every follower, the first time its identifier comes; a
    /// later delivery of the same identifier, from any peer, is not forwarded
    /// again.
    pub fn forward(&mut self, activity: Vote) -> (r: Option<Announce>)
        requires
            old(self).wf(),
        ensures
            final(self).wf(),
            final(self).community == old(self).community,
            final(self).followers() == old(self).followers(),
            !addressed_to(activity, old(self).community@) ==> r is None && final(self).forwarded()
                == old(self).forwarded(),
            addressed_to(activity, old(self).community@) ==> final(self).forwarded() == after_forward(
                old(self).forwarded(),
                activity.id@,
            ),
            r is Some <==> addressed_to(activity, old(self).community@) && forwards(
                old(self).forwarded(),
                activity.id@,
            ),
            r is Some ==> ({
                let a = r->Some_0;
                &&& a.actor@ == old(self).community@
                &&& a.object == activity
                &&& uri_views(a.recipients@) == old(self).followers()
            }),
    {
        if !self.is_addressed(&activity) {
            return None;
        }
        if self.forwarded.contains(&activity.id) {
            proof {
                assert(self.forwarded@ =~= after_forward(self.forwarded@, activity.id@));
            }
            return None;
        }
        self.forwarded.upsert(activity.id.duplicate(), ());
        let recipients = self.follower_list();
        Some(Announce { actor: self.community.duplicate(), object: activity, recipients })
    }
}

/// An activity is forwarded at most once: once its identifier has been
/// handled, a second delivery of it is not forwarded, whoever sends it.
pub proof fn lemma_forward_once(forwarded: Map<Seq<char>, ()>, id: Seq<char>)
    ensures
        !forwards(after_forward(forwarded, id), id),
        after_forward(after_forward(forwarded, id), id) == after_forward(forwarded, id),
{
    assert(after_forward(after_forward(forwarded, id), id) =~= after_forward(forwarded, id));
}

} // verus!
