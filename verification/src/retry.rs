//! Fixed-interval retry budgets, as the Modbus client uses them for commands and
//! for reconnects: a fixed base delay, handed out a fixed number of times.
use vstd::prelude::*;

verus! {

/// Base delay in milliseconds between two attempts (before random jitter is applied).
pub const RETRY_INTERVAL_MILLIS: u64 = 10;

/// How many times a failed command is tried again.
pub const COMMAND_RETRIES: u64 = 3;

/// How many times a failed connection attempt is tried again.
pub const CONNECT_RETRIES: u64 = 3;

/// The delays that `count` retries at a fixed interval of `millis` hand out.
pub open spec fn fixed_delays(millis: u64, count: nat) -> Seq<u64> {
    Seq::new(count, |i: int| millis)
}

/// What is left of a fixed-interval retry budget: the same base delay, a number of times.
pub struct FixedRetry {
    interval_millis: u64,
    remaining: u64,
}

impl View for FixedRetry {
    type V = Seq<u64>;

    /// The delays still to be handed out, in order.
    closed spec fn view(&self) -> Seq<u64> {
        fixed_delays(self.interval_millis, self.remaining as nat)
    }
}

impl FixedRetry {
    /// A budget of `retries` delays of `interval_millis` each.
    pub fn new(interval_millis: u64, retries: u64) -> (r: Self)
        ensures
            r@ == fixed_delays(interval_millis, retries as nat),
    {
        FixedRetry { interval_millis, remaining: retries }
    }

    /// The budget of a Modbus command: three retries, ten milliseconds apart.
    pub fn for_command() -> (r: Self)
        ensures
            r@ == fixed_delays(RETRY_INTERVAL_MILLIS, COMMAND_RETRIES as nat),
    {
        Self::new(RETRY_INTERVAL_MILLIS, COMMAND_RETRIES)
    }

    /// The budget of a reconnect: three retries, ten milliseconds apart.
    pub fn for_connect() -> (r: Self)
        ensures
            r@ == fixed_delays(RETRY_INTERVAL_MILLIS, CONNECT_RETRIES as nat),
    {
        Self::new(RETRY_INTERVAL_MILLIS, CONNECT_RETRIES)
    }

    /// How many retries are left.
    pub fn remaining(&self) -> (n: u64)
        ensures
            n == self@.len(),
    {
        self.remaining
    }

    /// Takes the next delay, or `None` when the budget is spent.
    pub fn next_delay(&mut self) -> (d: Option<u64>)
        ensures
            old(self)@.len() == 0 ==> d is None && final(self)@ == old(self)@,
            old(self)@.len() > 0 ==> d == Some(old(self)@[0]) && final(self)@
                == old(self)@.drop_first(),
    {
        if self.remaining == 0 {
            None
        } else {
            self.remaining = self.remaining - 1;
            proof {
                assert(self@ =~= old(self)@.drop_first());
            }
            Some(self.interval_millis)
        }
    }
}

} // verus!
