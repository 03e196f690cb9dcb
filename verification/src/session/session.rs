//! Session: a logical connection that can outlive a single transport
//! connection.

use std::time::Duration;
use vstd::prelude::*;
use vstd::string::{StringExecFns, StringSliceAdditionalSpecFns};
use crate::time::{clock_reading, duration_millis, now_ms};

verus! {

/// The Crockford base-32 digit of `d` (`0`..`9`, then `A`..`Z` without
/// `I`, `L`, `O` and `U`).
pub open spec fn crockford_digit(d: int) -> char {
    "0123456789ABCDEFGHJKMNPQRSTVWXYZ"@[d]
}

/// The `n` least significant base-32 digits of `v`, most significant
/// first.
pub open spec fn crockford_text(v: u128, n: nat) -> Seq<char>
    decreases n,
{
    if n == 0 {
        Seq::empty()
    } else {
        crockford_text(v / 32, (n - 1) as nat).push(crockford_digit((v % 32) as int))
    }
}

/// `ulid::Ulid::new()`: a fresh identifier from the clock and a random
/// number, handed out as its 128 bits. Nothing is stated of the value.
#[verifier::external_body]
pub(crate) fn generate_ulid() -> u128 {
    ulid::Ulid::new().0
}

/// The one-character text of the Crockford digit `d`.
fn crockford_digit_text(d: u128) -> (r: &'static str)
    requires
        d < 32,
    ensures
        r@ == seq![crockford_digit(d as int)],
{
    let alphabet: &'static str = "0123456789ABCDEFGHJKMNPQRSTVWXYZ";
    proof {
        reveal_strlit("0123456789ABCDEFGHJKMNPQRSTVWXYZ");
    }
    let i = d as usize;
    let r = alphabet.substring_char(i, i + 1);
    assert(r@ =~= seq![crockford_digit(d as int)]);
    r
}

/// The `n` least significant Crockford base-32 digits of `v`, most
/// significant first.
pub fn crockford_encode(v: u128, n: usize) -> (r: String)
    ensures
        r@ == crockford_text(v, n as nat),
    decreases n,
{
    if n == 0 {
        String::new()
    } else {
        let mut s = crockford_encode(v / 32, n - 1);
        s.append(crockford_digit_text(v % 32));
        assert(s@ =~= crockford_text(v / 32, (n - 1) as nat).push(crockford_digit((v % 32) as int)));
        s
    }
}

/// The text of a ULID: the 26 Crockford base-32 digits of its 128 bits,
/// most significant first, as `ulid::Ulid::to_string` writes them.
pub(crate) fn ulid_text(bits: u128) -> (r: String)
    ensures
        r@ == crockford_text(bits, 26),
{
    crockford_encode(bits, 26)
}

/// Unique session id (a ULID on the wire).
#[derive(Debug, Clone, PartialEq, Eq, Hash)]
pub struct SessionId(pub String);

impl SessionId {
    /// A fresh session id: the text of a new ULID.
    pub fn new() -> (r: SessionId)
        ensures
            exists|bits: u128| r.0@ == crockford_text(bits, 26),
    {
        let bits = generate_ulid();
        SessionId(ulid_text(bits))
    }

    /// The id as a string slice.
    pub fn as_str(&self) -> (r: &str)
        ensures
            r@ == self.0@,
    {
        self.0.as_str()
    }
}

impl Default for SessionId {
    /// A fresh session id.
    fn default() -> (r: SessionId)
        ensures
            exists|bits: u128| r.0@ == crockford_text(bits, 26),
    {
        SessionId::new()
    }
}

/// Long-lived client identity.
#[derive(Debug, Clone, PartialEq, Eq, Hash)]
pub struct ClientId(pub String);

impl ClientId {
    /// The client identity with the given text.
    pub fn new<S: Into<String>>(s: S) -> (r: ClientId)
        ensures
            <S as vstd::std_specs::convert::IntoSpec<String>>::obeys_into_spec() ==> r.0 == <S as vstd::std_specs::convert::IntoSpec<String>>::into_spec(s),
    {
        ClientId(s.into())
    }

    /// The identity as a string slice.
    pub fn as_str(&self) -> (r: &str)
        ensures
            r@ == self.0@,
    {
        self.0.as_str()
    }
}

/// Per-session lifecycle state.
#[derive(Debug, Clone, Copy, PartialEq, Eq, Structural)]
pub enum SessionState {
    /// Transport open.
    Open,
    /// Hello received.
    Hello,
    /// Authenticated.
    Authenticated,
    /// Resume in progress.
    Resuming,
    /// Ready sent.
    Ready,
    /// Exchanging messages.
    Active,
    /// Draining before close.
    Draining,
    /// Closed.
    Closed,
}

/// A logical session, one per authenticated client. Survives transport
/// reconnects through resume.
pub struct Session {
    /// Session id.
    pub id: SessionId,
    /// Owning client.
    pub client_id: ClientId,
    /// Epoch, bumped on every takeover; starts at 1.
    pub epoch: u32,
    /// Lifecycle state.
    pub state: SessionState,
    /// Creation time (ms since epoch).
    pub created_at: i64,
    /// Time of the last activity (ms since epoch).
    pub last_active: u64,
}

/// The idle time, in milliseconds, at clock reading `now` of a session
/// last active at `last`: the time elapsed, zero when the clock is
/// behind, and zero when the difference does not fit an `i64`.
pub open spec fn idle_millis(last: u64, now: i64) -> int {
    let d = now - (last as i64);
    if i64::MIN <= d <= i64::MAX && d > 0 {
        d
    } else {
        0
    }
}

/// After a touch at reading `t`, the idle time at a later reading `now`
/// is `now - t`, whenever the session was created; before `t` it is 0.
pub proof fn lemma_idle_after_touch(t: i64, now: i64)
    requires
        t >= 0,
    ensures
        now >= t ==> idle_millis(t as u64, now) == now - t,
        now < t ==> idle_millis(t as u64, now) == 0,
{
}

impl Session {
    /// A session created at time `now` (ms since epoch): epoch 1, state
    /// `Open`, last active at creation.
    pub fn new_at(id: SessionId, client_id: ClientId, now: i64) -> (r: Session)
        ensures
            r.id == id,
            r.client_id == client_id,
            r.epoch == 1,
            r.state == SessionState::Open,
            r.created_at == now,
            r.last_active == now as u64,
    {
        Session { id, client_id, epoch: 1, state: SessionState::Open, created_at: now, last_active: now as u64 }
    }

    /// A session created now: epoch 1, state `Open`.
    pub fn new(id: SessionId, client_id: ClientId) -> (r: Session)
        ensures
            r.id == id,
            r.client_id == client_id,
            r.epoch == 1,
            r.state == SessionState::Open,
            r.last_active == r.created_at as u64,
            call_ensures(now_ms, (), r.created_at),
    {
        Session::new_at(id, client_id, now_ms())
    }

    /// The lifecycle state.
    pub fn state(&self) -> (r: SessionState)
        ensures
            r == self.state,
    {
        self.state
    }

    /// Records activity at time `now`.
    pub fn touch_at(&mut self, now: i64)
        ensures
            final(self).last_active == now as u64,
            final(self).id == old(self).id,
            final(self).client_id == old(self).client_id,
            final(self).epoch == old(self).epoch,
            final(self).state == old(self).state,
            final(self).created_at == old(self).created_at,
    {
        self.last_active = now as u64;
    }

    /// Records activity now: the last activity becomes the clock reading.
    pub fn touch(&mut self)
        ensures
            exists|now: i64|
                #[trigger] clock_reading(now) && call_ensures(now_ms, (), now) && final(self).last_active
                    == now as u64,
            final(self).id == old(self).id,
            final(self).client_id == old(self).client_id,
            final(self).epoch == old(self).epoch,
            final(self).state == old(self).state,
            final(self).created_at == old(self).created_at,
    {
        let now = now_ms();
        self.touch_at(now);
        assert(clock_reading(now) && self.last_active == now as u64);
    }

    /// Moves to state `s` at time `now`, which counts as activity.
    pub fn set_state_at(&mut self, s: SessionState, now: i64)
        ensures
            final(self).state == s,
            final(self).last_active == now as u64,
            final(self).id == old(self).id,
            final(self).client_id == old(self).client_id,
            final(self).epoch == old(self).epoch,
            final(self).created_at == old(self).created_at,
    {
        self.state = s;
        self.touch_at(now);
    }

    /// Moves to state `s` now, which counts as activity.
    pub fn set_state(&mut self, s: SessionState)
        ensures
            final(self).state == s,
            exists|now: i64| call_ensures(now_ms, (), now) && final(self).last_active == now as u64,
            final(self).id == old(self).id,
            final(self).client_id == old(self).client_id,
            final(self).epoch == old(self).epoch,
            final(self).created_at == old(self).created_at,
    {
        self.set_state_at(s, now_ms());
    }

    /// The current epoch.
    pub fn current_epoch(&self) -> (r: u32)
        ensures
            r == self.epoch,
    {
        self.epoch
    }

    /// Advances the epoch by one and returns the new epoch.
    pub fn bump_epoch(&mut self) -> (r: u32)
        requires
            old(self).epoch < u32::MAX,
        ensures
            r == old(self).epoch + 1,
            final(self).epoch == r,
            final(self).id == old(self).id,
            final(self).client_id == old(self).client_id,
            final(self).state == old(self).state,
            final(self).created_at == old(self).created_at,
            final(self).last_active == old(self).last_active,
    {
        self.epoch = self.epoch + 1;
        self.epoch
    }

    /// A session is alive until it is closed.
    pub fn is_alive(&self) -> (r: bool)
        ensures
            r == (self.state != SessionState::Closed),
    {
        self.state != SessionState::Closed
    }

    /// Time since the last activity, at time `now`; zero when the last
    /// activity lies in the future.
    pub fn idle_at(&self, now: i64) -> (r: Duration)
        requires
            i64::MIN <= now - (self.last_active as i64) <= i64::MAX,
        ensures
            duration_millis(r) == (if now - (self.last_active as i64) > 0 {
                now - (self.last_active as i64)
            } else {
                0
            }),
    {
        let last = self.last_active as i64;
        let d = now - last;
        let ms: u64 = if d > 0 {
            d as u64
        } else {
            0
        };
        Duration::from_millis(ms)
    }

    /// Time since the last activity, measured now. Should the clock
    /// reading and the last activity be so far apart that the difference
    /// does not fit an `i64`, the result is zero.
    pub fn idle(&self) -> (r: Duration)
        ensures
            exists|now: i64|
                call_ensures(now_ms, (), now) && duration_millis(r) == #[trigger] idle_millis(
                    self.last_active,
                    now,
                ),
    {
        let now = now_ms();
        let last = self.last_active as i64;
        let r = if (last >= 0 && now >= i64::MIN + last) || (last < 0 && now <= i64::MAX + last) {
            self.idle_at(now)
        } else {
            Duration::from_millis(0)
        };
        assert(duration_millis(r) == idle_millis(self.last_active, now));
        r
    }
}

} // verus!
