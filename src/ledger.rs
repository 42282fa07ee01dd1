use vstd::prelude::*;
use anchor_lang::prelude::Pubkey;
use crate::market::{Market, MarketView};

verus! {

/// The durable record of one validation vote, appended to the host's log.
/// It is the only place where the vote itself is kept.
#[derive(Debug)]
pub struct ValidationEvent {
    pub market: Pubkey,
    pub validator: Pubkey,
    pub is_valid: bool,
    pub timestamp: i64,
}

/// One validation call as the ledger receives it: the validating account,
/// its balance at the time of the call, the vote, and the logical clock.
pub struct Vote {
    pub validator: Pubkey,
    pub balance: u64,
    pub is_valid: bool,
    pub timestamp: i64,
}

/// The event that a vote on the market at `market_key` emits.
pub open spec fn vote_event(
    market_key: Pubkey,
    validator: Pubkey,
    is_valid: bool,
    timestamp: i64,
) -> ValidationEvent {
    ValidationEvent { market: market_key, validator, is_valid, timestamp }
}

/// The record after one vote from an account holding `balance`: one more
/// validation, the whole balance added to the stake, all else unchanged.
pub open spec fn tallied(m: MarketView, balance: nat) -> MarketView {
    MarketView {
        validation_count: m.validation_count + 1,
        total_stake: m.total_stake + balance,
        ..m
    }
}

/// Whether both tallies of `m` stay within `u64` after one more vote from
/// an account holding `balance`.
pub open spec fn fits_vote(m: MarketView, balance: nat) -> bool {
    &&& m.validation_count + 1 <= u64::MAX
    &&& m.total_stake + balance <= u64::MAX
}

/// The record and the event log after `votes` are cast, in order, against
/// the market `m` stored at `market_key`.
pub open spec fn replay(m: MarketView, market_key: Pubkey, votes: Seq<Vote>) -> (
    MarketView,
    Seq<ValidationEvent>,
)
    decreases votes.len(),
{
    if votes.len() == 0 {
        (m, Seq::empty())
    } else {
        let (before, log) = replay(m, market_key, votes.drop_last());
        let v = votes.last();
        (
            tallied(before, v.balance as nat),
            log.push(vote_event(market_key, v.validator, v.is_valid, v.timestamp)),
        )
    }
}

/// The sum of the balances that `votes` carry.
pub open spec fn balance_sum(votes: Seq<Vote>) -> nat
    decreases votes.len(),
{
    if votes.len() == 0 {
        0
    } else {
        balance_sum(votes.drop_last()) + votes.last().balance as nat
    }
}

/// Whether the tallies of the market `m` can take one more vote from an
/// account holding `balance`.
pub fn can_validate(market: &Market, balance: u64) -> (r: bool)
    ensures
        r == fits_vote(market@, balance as nat),
{
    market.validation_count < u64::MAX && balance <= u64::MAX - market.total_stake
}

/// Records one vote of `validator` on `market`, stored at `market_key`.
/// `balance` is the validator's current balance and `now` the logical clock,
/// both read by the host at the time of the call. The count grows by one and
/// the whole balance joins the stake; the returned event is the one to emit.
/// Neither the resolution date nor earlier votes of the same validator are
/// consulted.
pub fn validate_paper(
    market: &mut Market,
    market_key: Pubkey,
    validator: Pubkey,
    balance: u64,
    is_valid: bool,
    now: i64,
) -> (ev: ValidationEvent)
    requires
        fits_vote(old(market)@, balance as nat),
    ensures
        final(market)@ == tallied(old(market)@, balance as nat),
        final(market).validation_count == old(market).validation_count + 1,
        final(market).total_stake == old(market).total_stake + balance,
        ev == vote_event(market_key, validator, is_valid, now),
        old(market)@.well_formed() ==> final(market)@.well_formed(),
{
    market.validation_count = market.validation_count + 1;
    market.total_stake = market.total_stake + balance;
    ValidationEvent { market: market_key, validator, is_valid, timestamp: now }
}

/// After any run of votes against one market, the count has grown by
/// exactly the number of votes and the stake total by exactly the sum of the
/// voters' balances, while every other field is as it was. A freshly opened
/// market therefore holds a count of `votes.len()` and a stake of the sum.
pub proof fn lemma_tally_after_votes(m: MarketView, market_key: Pubkey, votes: Seq<Vote>)
    ensures
        replay(m, market_key, votes).0 == (MarketView {
            validation_count: m.validation_count + votes.len(),
            total_stake: m.total_stake + balance_sum(votes),
            ..m
        }),
        m.validation_count == 0 && m.total_stake == 0 ==> {
            &&& replay(m, market_key, votes).0.validation_count == votes.len()
            &&& replay(m, market_key, votes).0.total_stake == balance_sum(votes)
        },
    decreases votes.len(),
{
    if votes.len() > 0 {
        lemma_tally_after_votes(m, market_key, votes.drop_last());
    }
}

/// Every vote emits exactly one event, in the order of the votes, carrying
/// the market's identity and the vote's validator, vote and timestamp; after
/// `n` votes the log holds exactly `n` events.
pub proof fn lemma_one_event_per_vote(m: MarketView, market_key: Pubkey, votes: Seq<Vote>)
    ensures
        replay(m, market_key, votes).1.len() == votes.len(),
        forall|i: int|
            0 <= i < votes.len() ==> #[trigger] replay(m, market_key, votes).1[i] == vote_event(
                market_key,
                votes[i].validator,
                votes[i].is_valid,
                votes[i].timestamp,
            ),
    decreases votes.len(),
{
    if votes.len() > 0 {
        lemma_one_event_per_vote(m, market_key, votes.drop_last());
    }
}

} // verus!
