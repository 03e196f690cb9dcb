//! The Redis key space: every key and channel carries the configured
//! prefix.

use std::time::Duration;

use vstd::prelude::*;
use vstd::string::{StrSliceExecFns, StringExecFns};
use crate::time::duration_millis;

verus! {

/// `{prefix}:{suffix}`.
pub open spec fn key_text(prefix: Seq<char>, suffix: Seq<char>) -> Seq<char> {
    prefix + ":"@ + suffix
}

/// `{prefix}:{kind}:{topic}`.
pub open spec fn topic_key_text(prefix: Seq<char>, kind: Seq<char>, topic: Seq<char>) -> Seq<char> {
    prefix + ":"@ + kind + ":"@ + topic
}

/// The namespaced key `{prefix}:{suffix}`.
pub fn namespaced_key(prefix: &str, suffix: &str) -> (r: String)
    ensures
        r@ == key_text(prefix@, suffix@),
{
    let mut s = String::from_str(prefix);
    s.append(":");
    s.append(suffix);
    s
}

/// The topic-scoped key `{prefix}:{kind}:{topic}`.
pub fn topic_key(prefix: &str, kind: &str, topic: &str) -> (r: String)
    ensures
        r@ == topic_key_text(prefix@, kind@, topic@),
{
    let mut s = String::from_str(prefix);
    s.append(":");
    s.append(kind);
    s.append(":");
    s.append(topic);
    s
}

/// The key recording one message id of a topic for deduplication:
/// `{prefix}:dedupe:{topic}:{message_id}`.
pub fn dedupe_member_key(prefix: &str, topic: &str, message_id: &str) -> (r: String)
    ensures
        r@ == topic_key_text(prefix@, "dedupe"@, topic@) + ":"@ + message_id@,
{
    let mut s = topic_key(prefix, "dedupe", topic);
    s.append(":");
    s.append(message_id);
    s
}

/// The TTL, in whole seconds, that Redis is given for a record kept
/// `d`: its whole seconds, at least one.
pub open spec fn ttl_seconds(d: Duration) -> int {
    let secs = duration_millis(d) / 1000;
    if secs < 1 {
        1
    } else {
        secs as int
    }
}

/// The TTL in whole seconds for a record kept `d`, at least one second.
pub fn ttl_secs(d: Duration) -> (r: u64)
    ensures
        r == ttl_seconds(d),
{
    let secs = d.as_secs();
    if secs < 1 {
        1
    } else {
        secs
    }
}

/// The channel prefix of cross-instance fanout: `{prefix}:fanout:`.
pub open spec fn fanout_channel_prefix(prefix: Seq<char>) -> Seq<char> {
    prefix + ":fanout:"@
}

/// The pattern matching every fanout channel: `{prefix}:fanout:*`.
pub fn fanout_channel_pattern(prefix: &str) -> (r: String)
    ensures
        r@ == fanout_channel_prefix(prefix@) + "*"@,
{
    let mut s = String::from_str(prefix);
    s.append(":fanout:");
    s.append("*");
    s
}

/// The topic a fanout channel carries: the channel name after
/// `{prefix}:fanout:`, or the whole name when it lacks that prefix.
pub open spec fn channel_topic(prefix: Seq<char>, channel: Seq<char>) -> Seq<char> {
    let p = fanout_channel_prefix(prefix);
    if p.len() <= channel.len() && channel.take(p.len() as int) == p {
        channel.skip(p.len() as int)
    } else {
        channel
    }
}

/// The topic carried by the fanout channel `channel`.
pub fn fanout_topic_of_channel(prefix: &str, channel: &str) -> (r: String)
    ensures
        r@ == channel_topic(prefix@, channel@),
{
    let mut p = String::from_str(prefix);
    p.append(":fanout:");
    let pl = p.as_str().unicode_len();
    let cl = channel.unicode_len();
    if pl > cl {
        return String::from_str(channel);
    }
    let mut i: usize = 0;
    while i < pl
        invariant
            pl == p@.len(),
            cl == channel@.len(),
            pl <= cl,
            i <= pl,
            p@ == fanout_channel_prefix(prefix@),
            forall|j: int| 0 <= j < i ==> p@[j] == channel@[j],
        decreases pl - i,
    {
        if p.as_str().get_char(i) != channel.get_char(i) {
            assert(channel@.take(pl as int)[i as int] != p@[i as int]);
            return String::from_str(channel);
        }
        i = i + 1;
    }
    assert(channel@.take(pl as int) =~= p@);
    String::from_str(channel.substring_char(pl, cl))
}

} // verus!
