//! Names that the client's users hand to it.

use vstd::prelude::*;

verus! {

/// The id of a subscription, as the server chose it.
#[derive(Debug, PartialEq)]
pub struct SubscriptionId(String);

impl View for SubscriptionId {
    type V = Seq<char>;

    closed spec fn view(&self) -> Seq<char> {
        self.0@
    }
}

impl SubscriptionId {
    /// The subscription with id `id`.
    pub fn new(id: String) -> (r: SubscriptionId)
        ensures
            r@ == id@,
    {
        SubscriptionId(id)
    }

    /// The id as text.
    pub fn as_str(&self) -> (r: &str)
        ensures
            r@ == self@,
    {
        self.0.as_str()
    }

    /// Whether this id and `other` are the same.
    pub fn same_as(&self, other: &SubscriptionId) -> (r: bool)
        ensures
            r == (self@ == other@),
    {
        self.0 == other.0
    }

    /// A copy of this id.
    pub fn duplicate(&self) -> (r: SubscriptionId)
        ensures
            r@ == self@,
    {
        SubscriptionId(self.0.clone())
    }
}

} // verus!
