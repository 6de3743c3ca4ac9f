use std::convert::TryFrom;

use apub_vote::activity::{dispatch_kind, mint_id, ActivityError, Next, Node, PublicUrl, Vote};
use apub_vote::ledger::VoteLedger;
use apub_vote::relay::Relay;
use apub_vote::resolver::{
    ActorDocument, CommunityId, Directory, Lookup, ObjectDocument, ObjectKind, RequestBudget, ResolveError,
};
use apub_vote::uri::Uri;
use apub_vote::vote_type::{InvalidVoteValue, VoteType};

const HOST: &str = "https://here.example";
const ACTOR: &str = "https://there.example/u/alice";
const COMMUNITY: &str = "https://here.example/c/rust";
const POST: &str = "https://here.example/post/7";
const COMMENT: &str = "https://here.example/comment/9";

fn u(s: &str) -> Uri {
    Uri::new(s)
}

fn vote(id: &str, actor: &str, object: &str, community: &str, kind: VoteType) -> Vote {
    Vote { id: u(id), actor: u(actor), to: PublicUrl::Public, object: u(object), cc: vec![u(community)], kind }
}

/// A node that knows the community, the actor as its member, a post and a
/// comment.
fn populated_node() -> Node {
    let mut node = Node::new(HOST);
    node.directory.add_community(CommunityId(3), u(COMMUNITY));
    node.directory.store_actor(&u(ACTOR), ActorDocument { id: u(ACTOR), name: "alice".to_string() }).unwrap();
    node.directory.add_member(&u(ACTOR), &u(COMMUNITY));
    node.directory.store_object(&u(POST), ObjectDocument { id: u(POST), kind: ObjectKind::Post }).unwrap();
    node.directory
        .store_object(&u(COMMENT), ObjectDocument { id: u(COMMENT), kind: ObjectKind::Comment })
        .unwrap();
    node
}

#[test]
fn vote_type_encodes_to_unit_deltas() {
    assert_eq!(VoteType::Like.to_delta(), 1);
    assert_eq!(VoteType::Dislike.to_delta(), -1);
    assert_eq!(i16::from(&VoteType::Like), 1);
    assert_eq!(i16::from(&VoteType::Dislike), -1);
}

#[test]
fn vote_type_round_trips() {
    for v in [VoteType::Like, VoteType::Dislike] {
        assert_eq!(VoteType::from_delta(v.to_delta()), Ok(v));
        assert_eq!(VoteType::try_from(i16::from(&v)), Ok(v));
    }
}

#[test]
fn vote_type_rejects_other_values() {
    for value in [0i16, 2, -2, 100, i16::MIN, i16::MAX] {
        assert_eq!(VoteType::from_delta(value), Err(InvalidVoteValue { value }));
        assert_eq!(VoteType::try_from(value), Err(InvalidVoteValue { value }));
    }
}

#[test]
fn same_vote_twice_counts_once() {
    let mut ledger = VoteLedger::new();
    ledger.apply_vote(&u(ACTOR), &u(POST), VoteType::Like).unwrap();
    assert_eq!(ledger.score(&u(POST)), 1);
    ledger.apply_vote(&u(ACTOR), &u(POST), VoteType::Like).unwrap();
    assert_eq!(ledger.score(&u(POST)), 1);
    assert_eq!(ledger.vote_of(&u(ACTOR), &u(POST)), Some(VoteType::Like));
}

#[test]
fn changed_vote_overwrites() {
    let mut ledger = VoteLedger::new();
    assert_eq!(ledger.score(&u(POST)), 0);
    ledger.apply_vote(&u(ACTOR), &u(POST), VoteType::Like).unwrap();
    assert_eq!(ledger.score(&u(POST)), 1);
    ledger.apply_vote(&u(ACTOR), &u(POST), VoteType::Dislike).unwrap();
    assert_eq!(ledger.score(&u(POST)), -1);
    assert_eq!(ledger.vote_of(&u(ACTOR), &u(POST)), Some(VoteType::Dislike));
}

#[test]
fn dislike_to_like_moves_score_by_two() {
    let mut ledger = VoteLedger::new();
    ledger.apply_vote(&u("https://a.example/u/b"), &u(POST), VoteType::Like).unwrap();
    ledger.apply_vote(&u(ACTOR), &u(POST), VoteType::Dislike).unwrap();
    assert_eq!(ledger.score(&u(POST)), 0);
    ledger.apply_vote(&u(ACTOR), &u(POST), VoteType::Like).unwrap();
    assert_eq!(ledger.score(&u(POST)), 2);
}

#[test]
fn votes_on_other_objects_are_independent() {
    let mut ledger = VoteLedger::new();
    ledger.apply_vote(&u(ACTOR), &u(POST), VoteType::Like).unwrap();
    ledger.apply_vote(&u(ACTOR), &u(COMMENT), VoteType::Dislike).unwrap();
    assert_eq!(ledger.score(&u(POST)), 1);
    assert_eq!(ledger.score(&u(COMMENT)), -1);
    assert_eq!(ledger.vote_of(&u(ACTOR), &u("https://here.example/post/8")), None);
}

#[test]
fn budget_is_charged_only_on_a_miss() {
    let mut dir = Directory::new();
    let mut budget = RequestBudget::new(1);
    assert_eq!(dir.lookup_actor(&u(ACTOR), &mut budget), Ok(Lookup::Fetch));
    assert_eq!(budget.remaining(), 0);
    assert_eq!(dir.lookup_actor(&u(ACTOR), &mut budget), Err(ResolveError::RecursionBudgetExceeded));
    dir.store_actor(&u(ACTOR), ActorDocument { id: u(ACTOR), name: "alice".to_string() }).unwrap();
    assert_eq!(dir.lookup_actor(&u(ACTOR), &mut budget), Ok(Lookup::Local));
    assert_eq!(budget.remaining(), 0);
}

#[test]
fn fetched_document_with_other_identity_is_rejected() {
    let mut dir = Directory::new();
    let doc = ActorDocument { id: u("https://evil.example/u/alice"), name: "alice".to_string() };
    assert_eq!(dir.store_actor(&u(ACTOR), doc), Err(ResolveError::DomainMismatch));
    assert!(!dir.actors.contains(&u(ACTOR)));
    let doc = ObjectDocument { id: u("https://evil.example/post/7"), kind: ObjectKind::Post };
    assert_eq!(dir.store_object(&u(POST), doc), Err(ResolveError::DomainMismatch));
    assert_eq!(dir.object_kind(&u(POST)), None);
}

#[test]
fn refetched_actor_is_refreshed() {
    let mut dir = Directory::new();
    dir.store_actor(&u(ACTOR), ActorDocument { id: u(ACTOR), name: "alice".to_string() }).unwrap();
    dir.store_actor(&u(ACTOR), ActorDocument { id: u(ACTOR), name: "Alice B".to_string() }).unwrap();
    assert_eq!(dir.actors.get(&u(ACTOR)).map(|s| s.as_str()), Some("Alice B"));
}

#[test]
fn malformed_activity_is_rejected() {
    let mut node = populated_node();
    let mut budget = RequestBudget::new(5);
    let mut v = vote("https://there.example/activities/like/1", ACTOR, POST, COMMUNITY, VoteType::Like);
    v.cc = vec![];
    assert!(!v.is_well_formed());
    assert_eq!(v.handle(&mut node, &mut budget), Err(ActivityError::MalformedActivity));
    let v = vote("", ACTOR, POST, COMMUNITY, VoteType::Like);
    assert_eq!(v.handle(&mut node, &mut budget), Err(ActivityError::MalformedActivity));
    assert_eq!(node.post_votes.score(&u(POST)), 0);
    assert_eq!(budget.remaining(), 5);
}

#[test]
fn non_member_is_unauthorized_and_nothing_changes() {
    let mut node = populated_node();
    let stranger = "https://there.example/u/mallory";
    node.directory.store_actor(&u(stranger), ActorDocument { id: u(stranger), name: "m".to_string() }).unwrap();
    let mut budget = RequestBudget::new(5);
    let v = vote("https://there.example/activities/like/2", stranger, POST, COMMUNITY, VoteType::Like);
    assert_eq!(v.verify(&node.directory, &mut budget), Err(ActivityError::UnauthorizedActor));
    assert_eq!(v.handle(&mut node, &mut budget), Err(ActivityError::UnauthorizedActor));
    assert_eq!(node.post_votes.score(&u(POST)), 0);
    assert_eq!(node.post_votes.vote_of(&u(stranger), &u(POST)), None);
}

#[test]
fn member_of_another_community_is_unauthorized() {
    let mut node = populated_node();
    let mut budget = RequestBudget::new(5);
    let v = vote("https://there.example/activities/like/3", ACTOR, POST, "https://here.example/c/go", VoteType::Like);
    assert_eq!(v.handle(&mut node, &mut budget), Err(ActivityError::UnauthorizedActor));
    assert_eq!(node.post_votes.score(&u(POST)), 0);
}

#[test]
fn budget_exhaustion_leaves_no_vote() {
    // The actor and the post are both unknown: two fetches, with one allowed.
    let remote_post = "https://there.example/post/1";
    let mut node = Node::new(HOST);
    node.directory.add_member(&u(ACTOR), &u(COMMUNITY));
    let mut budget = RequestBudget::new(1);
    let v = vote("https://there.example/activities/like/4", ACTOR, remote_post, COMMUNITY, VoteType::Like);
    assert_eq!(v.handle(&mut node, &mut budget), Ok(Next::FetchActor));
    assert_eq!(budget.remaining(), 0);
    node.directory.store_actor(&u(ACTOR), ActorDocument { id: u(ACTOR), name: "alice".to_string() }).unwrap();
    assert_eq!(v.handle(&mut node, &mut budget), Err(ActivityError::RecursionBudgetExceeded));
    assert_eq!(node.post_votes.score(&u(remote_post)), 0);
    assert_eq!(node.post_votes.vote_of(&u(ACTOR), &u(remote_post)), None);
}

#[test]
fn resolution_chain_within_budget_applies_vote() {
    let remote_post = "https://there.example/post/1";
    let mut node = Node::new(HOST);
    node.directory.add_member(&u(ACTOR), &u(COMMUNITY));
    let mut budget = RequestBudget::new(2);
    let v = vote("https://there.example/activities/dislike/5", ACTOR, remote_post, COMMUNITY, VoteType::Dislike);
    assert_eq!(v.handle(&mut node, &mut budget), Ok(Next::FetchActor));
    node.directory.store_actor(&u(ACTOR), ActorDocument { id: u(ACTOR), name: "alice".to_string() }).unwrap();
    assert_eq!(v.handle(&mut node, &mut budget), Ok(Next::FetchObject));
    node.directory
        .store_object(&u(remote_post), ObjectDocument { id: u(remote_post), kind: ObjectKind::Post })
        .unwrap();
    assert_eq!(v.handle(&mut node, &mut budget), Ok(Next::Done));
    assert_eq!(budget.remaining(), 0);
    assert_eq!(node.post_votes.score(&u(remote_post)), -1);
}

#[test]
fn received_vote_goes_to_the_ledger_of_its_object_kind() {
    let mut node = populated_node();
    let mut budget = RequestBudget::new(0);
    let v = vote("https://there.example/activities/like/6", ACTOR, COMMENT, COMMUNITY, VoteType::Like);
    assert_eq!(v.handle(&mut node, &mut budget), Ok(Next::Done));
    assert_eq!(node.comment_votes.score(&u(COMMENT)), 1);
    assert_eq!(node.post_votes.score(&u(COMMENT)), 0);
    // A redelivery changes nothing.
    assert_eq!(v.receive(&mut node, &mut budget), Ok(Next::Done));
    assert_eq!(node.comment_votes.score(&u(COMMENT)), 1);
}

#[test]
fn send_like_builds_addressed_activity() {
    let mut node = populated_node();
    let out = Vote::send(&mut node, &u(POST), &u(ACTOR), CommunityId(3), VoteType::Like, "0b1e").unwrap();
    assert_eq!(out.activity.to, PublicUrl::Public);
    assert_eq!(out.activity.cc, vec![u(COMMUNITY)]);
    assert_eq!(out.activity.object, u(POST));
    assert_eq!(out.activity.actor, u(ACTOR));
    assert_eq!(out.activity.kind, VoteType::Like);
    assert_eq!(out.activity.id.as_str(), "https://here.example/activities/like/0b1e");
    assert!(out.recipients.is_empty());
    assert_eq!(node.post_votes.score(&u(POST)), 1);
}

#[test]
fn send_ids_differ_by_token_and_kind() {
    let mut node = populated_node();
    let a = Vote::send(&mut node, &u(POST), &u(ACTOR), CommunityId(3), VoteType::Like, "a1").unwrap();
    let b = Vote::send(&mut node, &u(POST), &u(ACTOR), CommunityId(3), VoteType::Dislike, "a2").unwrap();
    assert_ne!(a.activity.id, b.activity.id);
    assert_eq!(b.activity.id.as_str(), "https://here.example/activities/dislike/a2");
    assert_eq!(node.post_votes.score(&u(POST)), -1);
}

#[test]
fn send_to_unknown_community_fails() {
    let mut node = populated_node();
    let r = Vote::send(&mut node, &u(POST), &u(ACTOR), CommunityId(4), VoteType::Like, "x");
    assert_eq!(r.err(), Some(ActivityError::CommunityNotFound));
    assert_eq!(node.post_votes.score(&u(POST)), 0);
}

#[test]
fn send_on_unknown_object_fails() {
    let mut node = populated_node();
    let r = Vote::send(&mut node, &u("https://here.example/post/99"), &u(ACTOR), CommunityId(3), VoteType::Like, "x");
    assert_eq!(r.err(), Some(ActivityError::UnresolvableReference));
}

#[test]
fn mint_id_joins_host_kind_and_token() {
    assert_eq!(mint_id(&HOST.to_string(), VoteType::Dislike, "42"), "https://here.example/activities/dislike/42");
}

#[test]
fn relay_forwards_each_id_once() {
    let mut relay = Relay::new(u(COMMUNITY));
    relay.add_follower(u("https://a.example/inbox"));
    relay.add_follower(u("https://b.example/inbox"));
    let first = vote("https://there.example/activities/like/8", ACTOR, POST, COMMUNITY, VoteType::Like);
    let announce = relay.forward(first).unwrap();
    assert_eq!(announce.actor, u(COMMUNITY));
    assert_eq!(announce.recipients, vec![u("https://a.example/inbox"), u("https://b.example/inbox")]);
    assert_eq!(announce.object.id, u("https://there.example/activities/like/8"));
    assert!(relay.has_forwarded(&u("https://there.example/activities/like/8")));
    // The same id again, delivered by another peer.
    let again = vote("https://there.example/activities/like/8", "https://b.example/u/bob", POST, COMMUNITY, VoteType::Like);
    assert!(relay.forward(again).is_none());
    let other = vote("https://there.example/activities/like/9", ACTOR, POST, COMMUNITY, VoteType::Like);
    assert!(relay.forward(other).is_some());
}

#[test]
fn activity_type_names_dispatch() {
    assert_eq!(VoteType::Like.kind_name(), "Like");
    assert_eq!(VoteType::Dislike.kind_name(), "Dislike");
    assert_eq!(VoteType::from_kind_name("Like"), Some(VoteType::Like));
    assert_eq!(VoteType::from_kind_name("Dislike"), Some(VoteType::Dislike));
    assert_eq!(VoteType::from_kind_name("like"), None);
    assert_eq!(dispatch_kind("Dislike"), Ok(VoteType::Dislike));
    assert_eq!(dispatch_kind("Follow"), Err(ActivityError::UnsupportedActivityType));
    assert_eq!(dispatch_kind(""), Err(ActivityError::UnsupportedActivityType));
}

#[test]
fn resolve_errors_map_to_activity_errors() {
    assert_eq!(
        ActivityError::from_resolve(ResolveError::RecursionBudgetExceeded),
        ActivityError::RecursionBudgetExceeded
    );
    assert_eq!(ActivityError::from_resolve(ResolveError::DomainMismatch), ActivityError::DomainMismatch);
}

#[test]
fn budget_charge_counts_down_to_zero() {
    let mut budget = RequestBudget::new(2);
    assert_eq!(budget.charge(), Ok(()));
    assert_eq!(budget.charge(), Ok(()));
    assert_eq!(budget.charge(), Err(ResolveError::RecursionBudgetExceeded));
    assert_eq!(budget.remaining(), 0);
}

#[test]
fn relay_ignores_activity_not_addressed_to_it() {
    let mut relay = Relay::new(u(COMMUNITY));
    relay.add_follower(u("https://a.example/inbox"));
    let v = vote("https://there.example/activities/like/10", ACTOR, POST, "https://here.example/c/go", VoteType::Like);
    assert!(!relay.is_addressed(&v));
    assert!(relay.forward(v).is_none());
    assert!(!relay.has_forwarded(&u("https://there.example/activities/like/10")));
}
