use vstd::prelude::*;

verus! {

/// The kind of a vote activity.
#[derive(Clone, Copy, Debug, PartialEq, Eq, Structural)]
pub enum VoteType {
    Like,
    Dislike,
}

/// A numeric vote value outside the two-value encoding.
#[derive(Clone, Copy, Debug, PartialEq, Eq, Structural)]
pub struct InvalidVoteValue {
    pub value: i16,
}

/// The score delta of a vote kind: `+1` for a like, `-1` for a dislike.
pub open spec fn delta_of(v: VoteType) -> int {
    match v {
        VoteType::Like => 1,
        VoteType::Dislike => -1,
    }
}

/// The vote kind encoded by an integer, if any: only `1` and `-1` encode one.
pub open spec fn decode_delta(value: int) -> Option<VoteType> {
    if value == 1 {
        Some(VoteType::Like)
    } else if value == -1 {
        Some(VoteType::Dislike)
    } else {
        None
    }
}

/// The result of decoding a vote value: the kind it encodes, or the value
/// itself as the error.
pub open spec fn decode_vote(value: i16) -> Result<VoteType, InvalidVoteValue> {
    match decode_delta(value as int) {
        Some(v) => Ok(v),
        None => Err(InvalidVoteValue { value }),
    }
}

impl VoteType {
    pub fn to_delta(&self) -> (r: i16)
        ensures
            r == delta_of(*self),
    {
        match self {
            VoteType::Like => 1,
            VoteType::Dislike => -1,
        }
    }

    /// Decodes a stored or received vote value; every value but `1` and `-1`
    /// is rejected.
    pub fn from_delta(value: i16) -> (r: Result<VoteType, InvalidVoteValue>)
        ensures
            r == decode_vote(value),
    {
        match value {
            1 => Ok(VoteType::Like),
            -1 => Ok(VoteType::Dislike),
            _ => Err(InvalidVoteValue { value }),
        }
    }

    /// The activity type name on the wire: `Like` or `Dislike`.
    pub fn kind_name(&self) -> (r: &'static str)
        ensures
            r@ == kind_label(*self),
    {
        match self {
            VoteType::Like => {
                proof {
                    reveal_strlit("Like");
                }
                "Like"
            },
            VoteType::Dislike => {
                proof {
                    reveal_strlit("Dislike");
                }
                "Dislike"
            },
        }
    }

    /// The vote kind with wire name `name`; any other name is none.
    pub fn from_kind_name(name: &str) -> (r: Option<VoteType>)
        ensures
            r == kind_of_label(name@),
    {
        let given = name.to_owned();
        if given == VoteType::Like.kind_name().to_owned() {
            Some(VoteType::Like)
        } else if given == VoteType::Dislike.kind_name().to_owned() {
            Some(VoteType::Dislike)
        } else {
            None
        }
    }

    /// The lower-case name used in activity identifiers.
    pub fn name(&self) -> (r: &'static str)
        ensures
            r@ == vote_name(*self),
    {
        match self {
            VoteType::Like => {
                proof {
                    reveal_strlit("like");
                }
                "like"
            },
            VoteType::Dislike => {
                proof {
                    reveal_strlit("dislike");
                }
                "dislike"
            },
        }
    }
}

/// The activity type name of a vote kind on the wire.
pub open spec fn kind_label(v: VoteType) -> Seq<char> {
    match v {
        VoteType::Like => seq!['L', 'i', 'k', 'e'],
        VoteType::Dislike => seq!['D', 'i', 's', 'l', 'i', 'k', 'e'],
    }
}

/// The vote kind whose wire name is `name`, if any.
pub open spec fn kind_of_label(name: Seq<char>) -> Option<VoteType> {
    if name == kind_label(VoteType::Like) {
        Some(VoteType::Like)
    } else if name == kind_label(VoteType::Dislike) {
        Some(VoteType::Dislike)
    } else {
        None
    }
}

/// The name of a vote kind inside an activity identifier.
pub open spec fn vote_name(v: VoteType) -> Seq<char> {
    match v {
        VoteType::Like => seq!['l', 'i', 'k', 'e'],
        VoteType::Dislike => seq!['d', 'i', 's', 'l', 'i', 'k', 'e'],
    }
}

impl From<&VoteType> for i16 {
    fn from(value: &VoteType) -> (r: i16) {
        value.to_delta()
    }
}

impl vstd::std_specs::convert::FromSpecImpl<&VoteType> for i16 {
    open spec fn obeys_from_spec() -> bool {
        true
    }

    open spec fn from_spec(v: &VoteType) -> i16 {
        delta_of(*v) as i16
    }
}

impl TryFrom<i16> for VoteType {
    type Error = InvalidVoteValue;

    fn try_from(value: i16) -> (r: Result<VoteType, InvalidVoteValue>) {
        VoteType::from_delta(value)
    }
}

impl vstd::std_specs::convert::TryFromSpecImpl<i16> for VoteType {
    open spec fn obeys_try_from_spec() -> bool {
        true
    }

    open spec fn try_from_spec(value: i16) -> Result<VoteType, InvalidVoteValue> {
        decode_vote(value)
    }
}

/// Encoding a vote kind and decoding the result gives the kind back, and
/// decoding never accepts a value other than the encodings of the two kinds.
pub proof fn lemma_delta_round_trip(v: VoteType, value: int)
    ensures
        decode_delta(delta_of(v)) == Some(v),
        decode_delta(value) is Some ==> delta_of(decode_delta(value)->Some_0) == value,
        decode_delta(value) is None <==> (value != 1 && value != -1),
        kind_of_label(kind_label(v)) == Some(v),
{
    assert(kind_label(VoteType::Like).len() != kind_label(VoteType::Dislike).len());
}

} // verus!
