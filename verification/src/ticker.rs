use vstd::prelude::*;

verus! {

use crate::counter::{SharedCounter, value_after_ticks, wrapping_inc};

/// What the ticker does after one observation of the shutdown flag: tick
/// once more and sleep out the interval, or stop for good.
#[derive(PartialEq, Eq, Structural)]
pub enum TickerAction {
    Tick,
    Stop,
}

/// One step of the ticker: it has just observed the shutdown flag. While
/// the flag is set it increments the counter and asks to sleep one
/// interval; once the flag is cleared it touches nothing and stops.
pub fn ticker_step(running: bool, counter: &mut SharedCounter) -> (a: TickerAction)
    ensures
        running ==> final(counter).value() == wrapping_inc(old(counter).value())
            && a == TickerAction::Tick,
        !running ==> *final(counter) == *old(counter) && a == TickerAction::Stop,
{
    if running {
        counter.increment();
        TickerAction::Tick
    } else {
        TickerAction::Stop
    }
}

/// How many increments the ticker performs when its successive observations
/// of the shutdown flag read as `obs`: one per observation that found the
/// flag still set, none from the first cleared observation on.
pub open spec fn ticker_increments(obs: Seq<bool>) -> nat
    decreases obs.len(),
{
    if obs.len() == 0 || !obs[0] {
        0
    } else {
        ticker_increments(obs.skip(1)) + 1
    }
}

/// The increment count is decided by the first cleared observation: when
/// every observation before index `k` found the flag set and `k` is the end
/// of the sequence or the first cleared one, exactly `k` ticks happen.
pub proof fn lemma_ticker_increments_prefix(obs: Seq<bool>, k: int)
    requires
        0 <= k <= obs.len(),
        forall|j: int| 0 <= j < k ==> obs[j],
        k == obs.len() || !obs[k],
    ensures
        ticker_increments(obs) == k,
    decreases k,
{
    if k == 0 {
    } else {
        assert(obs[0]);
        assert(forall|j: int| 0 <= j < k - 1 ==> obs.skip(1)[j] == obs[j + 1]);
        lemma_ticker_increments_prefix(obs.skip(1), k - 1);
    }
}

/// Once the shutdown flag is cleared it stays cleared, so from some index
/// `k` on every observation reads cleared; the ticker then performs at most
/// `k` increments in total. In particular, at most one further increment
/// can follow the clearing of the flag: the one belonging to an observation
/// already taken.
pub proof fn lemma_ticker_stops_after_clear(obs: Seq<bool>, k: int)
    requires
        0 <= k <= obs.len(),
        forall|i: int| k <= i < obs.len() ==> !obs[i],
    ensures
        ticker_increments(obs) <= k,
    decreases k,
{
    if obs.len() == 0 || !obs[0] {
    } else {
        assert(obs[0]);
        assert(k >= 1);
        assert(forall|i: int| k - 1 <= i < obs.skip(1).len() ==> obs.skip(1)[i] == obs[i + 1]);
        lemma_ticker_stops_after_clear(obs.skip(1), k - 1);
    }
}

/// Replays the ticker's control loop over a recorded sequence of flag
/// observations, with the sleeps elided: each observation that found the
/// flag set yields one increment, and the first cleared observation stops
/// the loop. The counter ends exactly `ticker_increments(obs)` wrapping
/// ticks past where it began.
pub fn run_ticks(counter: &mut SharedCounter, obs: &Vec<bool>)
    ensures
        final(counter).value() == value_after_ticks(
            old(counter).value(),
            ticker_increments(obs@),
        ),
{
    let mut i: usize = 0;
    loop
        invariant
            i <= obs.len(),
            forall|j: int| 0 <= j < i ==> obs@[j],
            counter.value() == value_after_ticks(old(counter).value(), i as nat),
        decreases obs.len() - i,
    {
        if i >= obs.len() {
            proof {
                lemma_ticker_increments_prefix(obs@, i as int);
            }
            return;
        }
        let running = obs[i];
        match ticker_step(running, counter) {
            TickerAction::Tick => {
                i = i + 1;
            },
            TickerAction::Stop => {
                proof {
                    lemma_ticker_increments_prefix(obs@, i as int);
                }
                return;
            },
        }
    }
}

} // verus!
