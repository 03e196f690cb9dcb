//! Ordering policy.

use vstd::prelude::*;

verus! {

/// How messages within a topic are ordered.
#[derive(Debug, Clone, PartialEq, Eq, Structural)]
pub enum OrderingPolicy {
    /// No ordering guarantee.
    Unordered,
    /// Ordered within a single connection.
    Connection,
    /// Ordered within a single publisher.
    Publisher,
    /// Globally ordered within a topic (the default).
    Topic,
    /// Ordered by `ordering_key`.
    Key,
    /// Causally ordered (requires vector metadata).
    Causal,
}

/// The lower-case name of each policy.
pub open spec fn ordering_name(p: OrderingPolicy) -> Seq<char> {
    match p {
        OrderingPolicy::Unordered => "none"@,
        OrderingPolicy::Connection => "connection"@,
        OrderingPolicy::Publisher => "publisher"@,
        OrderingPolicy::Topic => "topic"@,
        OrderingPolicy::Key => "key"@,
        OrderingPolicy::Causal => "causal"@,
    }
}

impl OrderingPolicy {
    /// The lower-case name used when the policy is displayed.
    pub fn name(&self) -> (r: &'static str)
        ensures
            r@ == ordering_name(*self),
    {
        proof {
            reveal_strlit("none");
            reveal_strlit("connection");
            reveal_strlit("publisher");
            reveal_strlit("topic");
            reveal_strlit("key");
            reveal_strlit("causal");
        }
        match self {
            OrderingPolicy::Unordered => "none",
            OrderingPolicy::Connection => "connection",
            OrderingPolicy::Publisher => "publisher",
            OrderingPolicy::Topic => "topic",
            OrderingPolicy::Key => "key",
            OrderingPolicy::Causal => "causal",
        }
    }
}

impl Default for OrderingPolicy {
    /// `Topic`.
    fn default() -> (r: OrderingPolicy)
        ensures
            r == OrderingPolicy::Topic,
    {
        OrderingPolicy::Topic
    }
}

} // verus!
