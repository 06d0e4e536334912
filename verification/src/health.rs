//! Waiting for the server to come up.

use vstd::prelude::*;

verus! {

/// How long a player with something to show waits for the server, in seconds.
pub const OFFLINE_AFTER_SECONDS: u64 = 30;

/// How long a reply may take, in seconds, once the wait of a player with something to show is over.
pub const LAST_REPLY_SECONDS: u64 = 1;

/// What to do after the server was asked whether it is up.
#[derive(Clone, Copy, Debug, PartialEq, Eq, Structural)]
pub enum Verdict {
    /// The server is up.
    Ready,
    /// The server is not needed: play what was downloaded earlier.
    Offline,
    /// Ask again once `due_seconds` have passed since the player began to ask; at once if they have.
    Retry { due_seconds: u64 },
}

/// When to ask again after `retries` retries, in seconds since the player began to ask.
///
/// The first retry is due at once, and each further one a second after the one before it. A retry
/// that is overdue does not put off those that follow. A player with something to show asks no later
/// than at the end of its wait.
pub open spec fn retry_due(cached: bool, retries: u64) -> u64 {
    if cached && retries > OFFLINE_AFTER_SECONDS {
        OFFLINE_AFTER_SECONDS
    } else {
        retries
    }
}

/// What to do after the server has replied with `status`, or not at all, when the player has asked
/// again `retries` times and has waited for `waited_seconds` so far. `cached` says that there is
/// something to show without the server.
pub open spec fn verdict_on(
    status: Option<u16>,
    cached: bool,
    retries: u64,
    waited_seconds: u64,
) -> Verdict {
    if status == Some(200u16) {
        Verdict::Ready
    } else if cached && waited_seconds >= OFFLINE_AFTER_SECONDS {
        Verdict::Offline
    } else {
        Verdict::Retry { due_seconds: retry_due(cached, retries) }
    }
}

/// What to do after the server was asked whether it is up.
pub fn health_verdict(
    status: Option<u16>,
    cached: bool,
    retries: u64,
    waited_seconds: u64,
) -> (verdict: Verdict)
    ensures
        verdict == verdict_on(status, cached, retries, waited_seconds),
        verdict is Ready <==> status == Some(200u16),
        verdict is Offline <==> status != Some(200u16) && cached && waited_seconds >= 30,
        verdict matches Verdict::Retry { due_seconds } ==> due_seconds == (if cached && retries > 30 {
            30
        } else {
            retries
        }),
{
    if let Some(200) = status {
        return Verdict::Ready;
    }
    if !cached {
        return Verdict::Retry { due_seconds: retries };
    }
    if waited_seconds >= OFFLINE_AFTER_SECONDS {
        return Verdict::Offline;
    }
    Verdict::Retry {
        due_seconds: if retries < OFFLINE_AFTER_SECONDS {
            retries
        } else {
            OFFLINE_AFTER_SECONDS
        },
    }
}

/// How long a single reply may take, in seconds, if there is a limit. A player with something to
/// show gives it no more than what is left of its patience, and one second for the last time it
/// asks. One with nothing to show waits for the reply, however long it takes.
pub open spec fn reply_limit_of(cached: bool, waited_seconds: u64) -> Option<u64> {
    if !cached {
        None
    } else if waited_seconds < OFFLINE_AFTER_SECONDS {
        Some((OFFLINE_AFTER_SECONDS - waited_seconds) as u64)
    } else {
        Some(LAST_REPLY_SECONDS)
    }
}

/// How long a single reply may take, in seconds, if there is a limit.
pub fn reply_limit(cached: bool, waited_seconds: u64) -> (seconds: Option<u64>)
    ensures
        seconds == reply_limit_of(cached, waited_seconds),
        seconds is None <==> !cached,
        cached && waited_seconds < 30 ==> seconds->0 + waited_seconds == 30,
        cached && waited_seconds >= 30 ==> seconds->0 == 1,
{
    if !cached {
        None
    } else if waited_seconds < OFFLINE_AFTER_SECONDS {
        Some(OFFLINE_AFTER_SECONDS - waited_seconds)
    } else {
        Some(LAST_REPLY_SECONDS)
    }
}

/// A server that accepts a request and never answers cannot wear the patience of a player with
/// something to show out: a reply that is asked for within the half minute comes, or is given up,
/// within it. A player with nothing to show gives no reply up.
pub proof fn replies_are_bounded(cached: bool, waited_seconds: u64)
    ensures
        reply_limit_of(cached, waited_seconds) is None <==> !cached,
        cached ==> 0 < reply_limit_of(cached, waited_seconds)->0 <= OFFLINE_AFTER_SECONDS,
        cached && waited_seconds < OFFLINE_AFTER_SECONDS ==> waited_seconds + reply_limit_of(
            cached,
            waited_seconds,
        )->0 <= OFFLINE_AFTER_SECONDS,
        cached && waited_seconds < 30 ==> waited_seconds + reply_limit_of(cached, waited_seconds)->0
            == 30,
        cached && waited_seconds >= 30 ==> reply_limit_of(cached, waited_seconds) == Some(1u64),
{
}

/// A player with nothing to show waits until the server is up, however long that takes. One with
/// something to show waits half a minute and no longer.
pub proof fn patience(status: Option<u16>, cached: bool, retries: u64, waited_seconds: u64)
    ensures
        verdict_on(status, cached, retries, waited_seconds) == Verdict::Ready <==> status == Some(
            200u16,
        ),
        verdict_on(status, cached, retries, waited_seconds) == Verdict::Offline <==> status != Some(
            200u16,
        ) && cached && waited_seconds >= OFFLINE_AFTER_SECONDS,
        verdict_on(status, cached, retries, waited_seconds) is Offline <==> status != Some(200u16)
            && cached && waited_seconds >= 30,
        cached ==> retry_due(cached, retries) <= OFFLINE_AFTER_SECONDS,
        retries <= 30 ==> retry_due(cached, retries) == retries,
        retries > 30 ==> retry_due(true, retries) == 30 && retry_due(false, retries) == retries,
        verdict_on(status, cached, retries, waited_seconds) matches Verdict::Retry { due_seconds }
            ==> due_seconds == retry_due(cached, retries),
{
}

/// When the server is asked again does not depend on what it has replied, nor on how long the reply
/// has taken: at once for the first time, and from then on a second after the retry before was due.
pub proof fn retries_keep_time(
    status: Option<u16>,
    other_status: Option<u16>,
    retries: u64,
    waited_seconds: u64,
    other_waited_seconds: u64,
)
    requires
        status != Some(200u16),
        other_status != Some(200u16),
    ensures
        verdict_on(status, false, retries, waited_seconds) == verdict_on(
            other_status,
            false,
            retries,
            other_waited_seconds,
        ),
        retry_due(false, 0) == 0,
        retries < u64::MAX ==> retry_due(false, (retries + 1) as u64) == retry_due(false, retries)
            + 1,
{
}

} // verus!
