//! The keep-alive: once per period every session gets the position of its
//! agent.

use vstd::prelude::*;
use crate::agent::Agent;
use crate::clock::{is_due, period_over};
use crate::fleet::{announce, round_of, Notice};
use crate::message::Delivery;

verus! {

/// Remembers when the heartbeat last went out.
#[derive(Clone, Copy, Debug)]
pub struct HeartbeatTimer {
    last_time: u64,
}

impl HeartbeatTimer {
    /// The reading of the clock at which the heartbeat last went out.
    pub closed spec fn last(&self) -> int {
        self.last_time as int
    }

    /// A timer that counts from `now`.
    pub fn new(now: u64) -> (timer: HeartbeatTimer)
        ensures
            timer.last() == now,
    {
        HeartbeatTimer { last_time: now }
    }

    /// Computes [`Self::last`].
    pub fn last_time(&self) -> (last: u64)
        ensures
            last == self.last(),
    {
        self.last_time
    }
}

impl Default for HeartbeatTimer {
    /// A timer that counts from the clock's origin.
    fn default() -> (timer: HeartbeatTimer)
        ensures
            timer.last() == 0,
    {
        HeartbeatTimer { last_time: 0 }
    }
}

/// Sends the heartbeat if a period has passed since the last one: offers to
/// every session a `Heartbeat` with its agent's position, and counts the
/// next period from `now`. Before that it does nothing. The result has one
/// entry per agent when the heartbeat went out, and none otherwise.
pub fn system_heartbeat(timer: &mut HeartbeatTimer, now: u64, agents: &Vec<Agent>) -> (beats: Vec<
    Option<Delivery>,
>)
    ensures
        period_over(old(timer).last(), now as int) ==> final(timer).last() == now && round_of(
            Notice::Heartbeat,
            agents@,
            beats@,
        ),
        !period_over(old(timer).last(), now as int) ==> final(timer).last() == old(timer).last()
            && beats@.len() == 0,
{
    if is_due(timer.last_time, now) {
        let beats = announce(Notice::Heartbeat, agents);
        timer.last_time = now;
        beats
    } else {
        Vec::new()
    }
}

} // verus!
