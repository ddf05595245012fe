//! Subscriptions of an endpoint on a topic.

use super::hash::{Multihash, MultihashView};
use vstd::prelude::*;

verus! {

/// A request to receive all future messages on a topic.
#[derive(Debug, PartialEq, Eq, Hash)]
pub struct Subscription {
    pub topic: Multihash,
}

impl View for Subscription {
    type V = MultihashView;

    open spec fn view(&self) -> MultihashView {
        self.topic@
    }
}

impl Subscription {
    /// A subscription on `topic`.
    pub fn new(topic: Multihash) -> (s: Subscription)
        ensures
            s@ == topic@,
    {
        Subscription { topic }
    }
}

impl Clone for Subscription {
    fn clone(&self) -> (s: Self)
        ensures
            s@ == self@,
    {
        Subscription { topic: self.topic.clone() }
    }
}

} // verus!
