//! The BTC/USD oracle task: a bounded history of prices, newest first.
use std::collections::VecDeque;
use vstd::prelude::*;

verus! {

/// How many prices the history keeps.
pub const PRICE_HISTORY_CAPACITY: usize = 1000;

/// Recorded prices with the time (UNIX seconds) they were seen, newest first.
/// The price type is left open: the task records 32-bit floats.
#[derive(Debug)]
pub struct PriceHistory<P> {
    pub btcusd_prices: VecDeque<(u64, P)>,
}

/// The number of leading entries of `prices` seen at or after `since`.
pub open spec fn recent_prefix_len<P>(prices: Seq<(u64, P)>, since: u64, i: int) -> nat
    decreases prices.len() - i,
{
    if i < 0 || i >= prices.len() || prices[i].0 < since {
        0
    } else {
        1 + recent_prefix_len(prices, since, i + 1)
    }
}

impl<P> PriceHistory<P> {
    /// An empty history.
    pub fn new() -> (r: Self)
        ensures
            r.btcusd_prices@.len() == 0,
    {
        PriceHistory { btcusd_prices: VecDeque::new() }
    }

    /// Records the price seen at `now` in front, keeping at most
    /// [`PRICE_HISTORY_CAPACITY`] entries: the oldest fall off.
    pub fn record_latest_price(&mut self, now: u64, price: P)
        ensures
            final(self).btcusd_prices@ == seq![(now, price)].add(old(self).btcusd_prices@).take(
                if old(self).btcusd_prices@.len() + 1 > PRICE_HISTORY_CAPACITY {
                    PRICE_HISTORY_CAPACITY as int
                } else {
                    old(self).btcusd_prices@.len() + 1 as int
                },
            ),
    {
        self.btcusd_prices.push_front((now, price));
        let ghost pushed = self.btcusd_prices@;
        self.btcusd_prices.truncate(PRICE_HISTORY_CAPACITY);
        assert(pushed =~= seq![(now, price)].add(old(self).btcusd_prices@));
        assert(self.btcusd_prices@ =~= pushed.take(
            if pushed.len() > PRICE_HISTORY_CAPACITY {
                PRICE_HISTORY_CAPACITY as int
            } else {
                pushed.len() as int
            },
        ));
    }

    /// How many of the newest entries were seen at or after `since`: the run
    /// from the front that ends at the first older entry.
    pub fn recent_count(&self, since: u64) -> (n: usize)
        ensures
            n == recent_prefix_len(self.btcusd_prices@, since, 0),
            n <= self.btcusd_prices@.len(),
            forall|i: int| 0 <= i < n ==> self.btcusd_prices@[i].0 >= since,
            n < self.btcusd_prices@.len() ==> self.btcusd_prices@[n as int].0 < since,
    {
        let mut n: usize = 0;
        while n < self.btcusd_prices.len() && self.btcusd_prices[n].0 >= since
            invariant
                n <= self.btcusd_prices@.len(),
                forall|i: int| 0 <= i < n ==> self.btcusd_prices@[i].0 >= since,
                recent_prefix_len(self.btcusd_prices@, since, 0) == n + recent_prefix_len(
                    self.btcusd_prices@,
                    since,
                    n as int,
                ),
            decreases self.btcusd_prices@.len() - n,
        {
            n = n + 1;
        }
        n
    }
}

} // verus!
