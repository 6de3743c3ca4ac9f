use vstd::prelude::*;

verus! {

/// An identifier of an actor, object, community or activity.
#[derive(Debug, Clone)]
pub struct Uri {
    pub text: String,
}

impl View for Uri {
    type V = Seq<char>;

    open spec fn view(&self) -> Seq<char> {
        self.text@
    }
}

impl Uri {
    pub fn new(s: &str) -> (r: Uri)
        ensures
            r@ == s@,
    {
        Uri { text: s.to_owned() }
    }

    pub fn as_str(&self) -> (r: &str)
        ensures
            r@ == self@,
    {
        self.text.as_str()
    }

    pub fn is_empty(&self) -> (r: bool)
        ensures
            r == (self@.len() == 0),
    {
        self.text.as_str().is_empty()
    }

    /// A copy with the same text.
    pub fn duplicate(&self) -> (r: Uri)
        ensures
            r@ == self@,
    {
        Uri { text: self.text.clone() }
    }

    pub fn same(&self, other: &Uri) -> (r: bool)
        ensures
            r == (self@ == other@),
    {
        self.text == other.text
    }
}

impl crate::table::TableKey for Uri {
    fn same_key(&self, other: &Uri) -> (r: bool) {
        self.same(other)
    }
}

impl PartialEq for Uri {
    fn eq(&self, other: &Uri) -> (r: bool) {
        self.text == other.text
    }
}

impl vstd::std_specs::cmp::PartialEqSpecImpl for Uri {
    open spec fn obeys_eq_spec() -> bool {
        true
    }

    open spec fn eq_spec(&self, other: &Uri) -> bool {
        self@ == other@
    }
}

/// Two identifiers kept together as one key: an actor and the object it voted
/// on, or an actor and a community it belongs to.
#[derive(Debug, Clone)]
pub struct UriPair {
    pub first: Uri,
    pub second: Uri,
}

impl View for UriPair {
    type V = (Seq<char>, Seq<char>);

    open spec fn view(&self) -> (Seq<char>, Seq<char>) {
        (self.first@, self.second@)
    }
}

impl crate::table::TableKey for UriPair {
    fn same_key(&self, other: &UriPair) -> (r: bool) {
        self.first.same(&other.first) && self.second.same(&other.second)
    }
}

} // verus!
