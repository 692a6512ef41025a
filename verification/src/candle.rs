//! The candle orchestrator: three legs in the caller's order, each against
//! a fresh snapshot of the pool, as one unit of work. A failure in any leg
//! ends the candle and leaves the holdings as they were before it began.

use crate::error::ErrorCode;
use crate::invoker::{input_is_wsol, spec_input_is_wsol};
use crate::price::{
    is_price_reached, price_reached, resolves_decreasing, spec_resolves_decreasing,
};
use crate::pubkey::Pubkey;
use vstd::prelude::*;

verus! {

/// One leg of a candle: the price to reach, and the caller's bounds, where
/// zero stands for no bound.
#[derive(Clone, Copy, Debug, PartialEq, Eq, Structural)]
pub struct SwapLeg {
    pub target_sqrt_price: u128,
    pub max_input: u64,
    pub min_output: u64,
}

/// What a leg has done, as read back after it.
#[derive(Clone, Copy, Debug, PartialEq, Eq, Structural)]
pub struct SwapResult {
    pub amount_in: u64,
    pub amount_out: u64,
    pub sqrt_price_x64: u128,
}

/// The three legs of a candle: open, extreme, close.
#[derive(Clone, Copy, Debug, PartialEq, Eq)]
pub struct CandlePattern {
    pub legs: [SwapLeg; 3],
}

/// The balances of the two holdings between which a candle trades.
#[derive(Clone, Copy, Debug, PartialEq, Eq, Structural)]
pub struct Holdings {
    /// The balance of the wrapped native currency.
    pub wsol: u64,
    /// The balance of the other token.
    pub token: u64,
}

/// Where a candle stands.
#[derive(Clone, Copy, Debug, PartialEq, Eq, Structural)]
pub enum CandleState {
    Leg1,
    Leg2,
    Leg3,
    /// All three legs have reached their targets; the work is committed.
    Done,
    /// A leg has failed; nothing of the candle remains.
    Aborted,
}

/// A leg that has begun and awaits its result.
#[derive(Clone, Copy, Debug, PartialEq, Eq, Structural)]
pub struct OpenLeg {
    pub leg: SwapLeg,
    /// The price of the pool as read before the leg.
    pub from_sqrt_price: u128,
    /// The direction: from A to B where the price is to fall.
    pub a_for_b: bool,
    /// Whether the leg takes the wrapped native currency in.
    pub wsol_in: bool,
}

/// The notice of a leg that has reached its target.
#[derive(Clone, Copy, Debug, PartialEq, Eq, Structural)]
pub struct SwapSqrt {
    pub from_sqrt_price: u128,
    pub to_sqrt_price: u128,
    pub actual_sqrt_price: u128,
}

/// A candle in progress.
#[derive(Debug, PartialEq, Eq)]
pub struct Candle {
    pub state: CandleState,
    pub pattern: CandlePattern,
    /// The leg that has begun and awaits its result, if any.
    pub open: Option<OpenLeg>,
    /// The holdings before the candle began.
    pub initial: Holdings,
    /// The holdings as the legs so far have left them.
    pub working: Holdings,
    /// The results of the legs so far, in their order.
    pub results: Vec<SwapResult>,
}

/// The number of legs that lie behind a state.
pub open spec fn legs_done(state: CandleState) -> nat {
    match state {
        CandleState::Leg1 => 0,
        CandleState::Leg2 => 1,
        CandleState::Leg3 => 2,
        CandleState::Done => 3,
        CandleState::Aborted => 0,
    }
}

/// The state that follows a leg that has reached its target.
pub open spec fn next_state(state: CandleState) -> CandleState {
    match state {
        CandleState::Leg1 => CandleState::Leg2,
        CandleState::Leg2 => CandleState::Leg3,
        CandleState::Leg3 => CandleState::Done,
        CandleState::Done => CandleState::Done,
        CandleState::Aborted => CandleState::Aborted,
    }
}

/// Whether a state is one of the three legs.
pub open spec fn is_leg(state: CandleState) -> bool {
    state is Leg1 || state is Leg2 || state is Leg3
}

/// What a leg that took `amount_in` in and gave `amount_out` out leaves of
/// the holdings, or why it cannot have taken place.
pub open spec fn traded(holdings: Holdings, wsol_in: bool, amount_in: u64, amount_out: u64) -> Result<
    Holdings,
    ErrorCode,
> {
    let input = if wsol_in {
        holdings.wsol
    } else {
        holdings.token
    };
    let output = if wsol_in {
        holdings.token
    } else {
        holdings.wsol
    };
    if input < amount_in {
        Err(ErrorCode::Underflow)
    } else if output + amount_out > u64::MAX {
        Err(ErrorCode::Overflow)
    } else if wsol_in {
        Ok(Holdings { wsol: (input - amount_in) as u64, token: (output + amount_out) as u64 })
    } else {
        Ok(Holdings { wsol: (output + amount_out) as u64, token: (input - amount_in) as u64 })
    }
}

/// Applies a leg's amounts to the holdings.
pub fn trade(holdings: &Holdings, wsol_in: bool, amount_in: u64, amount_out: u64) -> (after: Result<
    Holdings,
    ErrorCode,
>)
    ensures
        after == traded(*holdings, wsol_in, amount_in, amount_out),
{
    let (input, output): (u64, u64) = if wsol_in {
        (holdings.wsol, holdings.token)
    } else {
        (holdings.token, holdings.wsol)
    };
    if input < amount_in {
        return Err(ErrorCode::Underflow);
    }
    let raised: u64 = match output.checked_add(amount_out) {
        Some(raised) => raised,
        None => {
            return Err(ErrorCode::Overflow);
        },
    };
    if wsol_in {
        Ok(Holdings { wsol: input - amount_in, token: raised })
    } else {
        Ok(Holdings { wsol: raised, token: input - amount_in })
    }
}

impl Candle {
    /// The holdings that an observer sees: those before the candle, until
    /// all three legs are done.
    pub open spec fn spec_holdings(self) -> Holdings {
        if self.state is Done {
            self.working
        } else {
            self.initial
        }
    }

    /// The leg that the state stands at.
    pub open spec fn spec_current_leg(self) -> Option<SwapLeg> {
        match self.state {
            CandleState::Leg1 => Some(self.pattern.legs[0]),
            CandleState::Leg2 => Some(self.pattern.legs[1]),
            CandleState::Leg3 => Some(self.pattern.legs[2]),
            _ => None,
        }
    }

    /// A candle is well formed if it holds one result for each leg behind
    /// it, and a leg is open only while legs remain.
    pub open spec fn wf(self) -> bool {
        &&& !(self.state is Aborted) ==> self.results@.len() == legs_done(self.state)
        &&& self.open is Some ==> is_leg(self.state)
        &&& self.open matches Some(open) ==> self.spec_current_leg() == Some(open.leg)
    }

    /// Begins a candle over the given holdings.
    pub fn begin(pattern: CandlePattern, holdings: Holdings) -> (candle: Candle)
        ensures
            candle.state == CandleState::Leg1,
            candle.pattern == pattern,
            candle.open is None,
            candle.initial == holdings,
            candle.working == holdings,
            candle.results@.len() == 0,
            candle.wf(),
            candle.spec_holdings() == holdings,
    {
        Candle {
            state: CandleState::Leg1,
            pattern,
            open: None,
            initial: holdings,
            working: holdings,
            results: Vec::new(),
        }
    }

    /// The leg that the candle stands at, if legs remain.
    pub fn current_leg(&self) -> (leg: Option<SwapLeg>)
        ensures
            leg == self.spec_current_leg(),
    {
        match self.state {
            CandleState::Leg1 => Some(self.pattern.legs[0]),
            CandleState::Leg2 => Some(self.pattern.legs[1]),
            CandleState::Leg3 => Some(self.pattern.legs[2]),
            _ => None,
        }
    }

    /// The holdings that an observer sees.
    pub fn holdings(&self) -> (seen: Holdings)
        ensures
            seen == self.spec_holdings(),
    {
        match self.state {
            CandleState::Done => self.working,
            _ => self.initial,
        }
    }

    /// Whether all three legs have reached their targets.
    pub fn is_done(&self) -> (done: bool)
        ensures
            done == (self.state is Done),
    {
        match self.state {
            CandleState::Done => true,
            _ => false,
        }
    }

    /// Ends the candle without effect, unless it is done already.
    pub fn abort(&mut self)
        ensures
            final(self).state == (if old(self).state is Done {
                CandleState::Done
            } else {
                CandleState::Aborted
            }),
            final(self).open is None,
            final(self).pattern == old(self).pattern,
            final(self).initial == old(self).initial,
            final(self).working == old(self).working,
            final(self).results == old(self).results,
            final(self).spec_holdings() == old(self).spec_holdings(),
            old(self).wf() ==> final(self).wf(),
    {
        match self.state {
            CandleState::Done => {},
            _ => {
                self.state = CandleState::Aborted;
            },
        }
        self.open = None;
    }

    /// What `start_leg` opens at a price of the pool, where the candle stands at a
    /// leg and none is open.
    pub open spec fn spec_opened(self, current_sqrt_price: u128, token_mint_a: Pubkey) -> OpenLeg {
        let leg = self.spec_current_leg().unwrap();
        let a_for_b = spec_resolves_decreasing(current_sqrt_price, leg.target_sqrt_price);
        OpenLeg {
            leg,
            from_sqrt_price: current_sqrt_price,
            a_for_b,
            wsol_in: spec_input_is_wsol(token_mint_a, a_for_b),
        }
    }

    /// Begins the leg at which the candle stands, against the price of the
    /// pool as read just before: resolves the direction from that price to
    /// the leg's target, and with it the holding that the leg takes from.
    /// Asked for while a leg is open or when no leg remains, it is refused,
    /// and a candle that is not done is ended.
    pub fn start_leg(&mut self, current_sqrt_price: u128, token_mint_a: &Pubkey) -> (started: Result<
        OpenLeg,
        ErrorCode,
    >)
        ensures
            final(self).pattern == old(self).pattern,
            final(self).initial == old(self).initial,
            final(self).working == old(self).working,
            final(self).results == old(self).results,
            final(self).spec_holdings() == old(self).spec_holdings(),
            old(self).wf() ==> final(self).wf(),
            match started {
                Ok(open) => {
                    &&& is_leg(old(self).state)
                    &&& old(self).open is None
                    &&& open == old(self).spec_opened(current_sqrt_price, *token_mint_a)
                    &&& final(self).state == old(self).state
                    &&& final(self).open == Some(open)
                },
                Err(e) => {
                    &&& !is_leg(old(self).state) || old(self).open is Some
                    &&& e == ErrorCode::OutOfSequence
                    &&& final(self).open is None
                    &&& final(self).state == (if old(self).state is Done {
                        CandleState::Done
                    } else {
                        CandleState::Aborted
                    })
                },
            },
    {
        let leg = match self.current_leg() {
            Some(leg) => leg,
            None => {
                self.abort();
                return Err(ErrorCode::OutOfSequence);
            },
        };
        if self.open.is_some() {
            self.abort();
            return Err(ErrorCode::OutOfSequence);
        }
        let a_for_b = resolves_decreasing(current_sqrt_price, leg.target_sqrt_price);
        let open = OpenLeg {
            leg,
            from_sqrt_price: current_sqrt_price,
            a_for_b,
            wsol_in: input_is_wsol(token_mint_a, a_for_b),
        };
        self.open = Some(open);
        Ok(open)
    }

    /// Counts native currency that is wrapped into the holding before the
    /// open leg trades. Where the holding cannot record it, the candle is
    /// ended; asked for while no leg is open, it is refused likewise.
    pub fn wrap(&mut self, lamports: u64) -> (wrapped: Result<(), ErrorCode>)
        ensures
            final(self).pattern == old(self).pattern,
            final(self).initial == old(self).initial,
            final(self).results == old(self).results,
            final(self).spec_holdings() == old(self).spec_holdings(),
            old(self).wf() ==> final(self).wf(),
            match wrapped {
                Ok(()) => {
                    &&& old(self).open is Some
                    &&& is_leg(old(self).state)
                    &&& old(self).working.wsol + lamports <= u64::MAX
                    &&& final(self).state == old(self).state
                    &&& final(self).open == old(self).open
                    &&& final(self).working == (Holdings {
                        wsol: (old(self).working.wsol + lamports) as u64,
                        token: old(self).working.token,
                    })
                },
                Err(e) => {
                    &&& final(self).working == old(self).working
                    &&& final(self).open is None
                    &&& final(self).state == (if old(self).state is Done {
                        CandleState::Done
                    } else {
                        CandleState::Aborted
                    })
                    &&& e == (if old(self).open is Some && is_leg(old(self).state) {
                        ErrorCode::Overflow
                    } else {
                        ErrorCode::OutOfSequence
                    })
                    &&& e == ErrorCode::Overflow ==> old(self).working.wsol + lamports > u64::MAX
                },
            },
    {
        let standing = match self.state {
            CandleState::Leg1 | CandleState::Leg2 | CandleState::Leg3 => true,
            _ => false,
        };
        if self.open.is_none() || !standing {
            self.abort();
            return Err(ErrorCode::OutOfSequence);
        }
        match self.working.wsol.checked_add(lamports) {
            Some(wsol) => {
                self.working.wsol = wsol;
                Ok(())
            },
            None => {
                self.abort();
                Err(ErrorCode::Overflow)
            },
        }
    }

    /// What `finish_leg` decides of the open leg `open` and what was read
    /// back after it: the holdings after the leg, or why the candle ends.
    pub open spec fn spec_settled(self, open: OpenLeg, realized: SwapResult) -> Result<
        Holdings,
        ErrorCode,
    > {
        match traded(self.working, open.wsol_in, realized.amount_in, realized.amount_out) {
            Err(e) => Err(e),
            Ok(after) => if price_reached(realized.sqrt_price_x64, open.leg.target_sqrt_price) {
                Ok(after)
            } else {
                Err(ErrorCode::PriceNotReached)
            },
        }
    }

    /// Ends the open leg with what was read back after it. The leg counts
    /// if the holdings can bear its amounts and the realized price lies
    /// within the tolerance band of the target: then the candle moves on,
    /// and after the third leg it is done and the holdings are those that
    /// the legs have left. In every other case the candle is ended, and
    /// the holdings that an observer sees stay those before it began.
    pub fn finish_leg(&mut self, realized: &SwapResult) -> (finished: Result<SwapSqrt, ErrorCode>)
        ensures
            final(self).pattern == old(self).pattern,
            final(self).initial == old(self).initial,
            final(self).open is None,
            old(self).wf() ==> final(self).wf(),
            match finished {
                Ok(notice) => {
                    &&& old(self).open matches Some(open)
                    &&& is_leg(old(self).state)
                    &&& old(self).spec_settled(open, *realized) == Ok::<Holdings, ErrorCode>(
                        final(self).working,
                    )
                    &&& final(self).state == next_state(old(self).state)
                    &&& final(self).results@ == old(self).results@.push(*realized)
                    &&& notice == (SwapSqrt {
                        from_sqrt_price: open.from_sqrt_price,
                        to_sqrt_price: open.leg.target_sqrt_price,
                        actual_sqrt_price: realized.sqrt_price_x64,
                    })
                },
                Err(e) => {
                    &&& final(self).working == old(self).working
                    &&& final(self).results == old(self).results
                    &&& final(self).spec_holdings() == old(self).spec_holdings()
                    &&& final(self).state == (if old(self).state is Done {
                        CandleState::Done
                    } else {
                        CandleState::Aborted
                    })
                    &&& match old(self).open {
                        Some(open) => if is_leg(old(self).state) {
                            old(self).spec_settled(open, *realized) == Err::<Holdings, ErrorCode>(e)
                        } else {
                            e == ErrorCode::OutOfSequence
                        },
                        None => e == ErrorCode::OutOfSequence,
                    }
                },
            },
            !(final(self).state is Done) ==> final(self).spec_holdings() == old(self).initial,
    {
        let open = match self.open {
            Some(open) => open,
            None => {
                self.abort();
                return Err(ErrorCode::OutOfSequence);
            },
        };
        let next = match self.state {
            CandleState::Leg1 => CandleState::Leg2,
            CandleState::Leg2 => CandleState::Leg3,
            CandleState::Leg3 => CandleState::Done,
            _ => {
                self.abort();
                return Err(ErrorCode::OutOfSequence);
            },
        };
        let after = match trade(&self.working, open.wsol_in, realized.amount_in, realized.amount_out) {
            Ok(after) => after,
            Err(e) => {
                self.abort();
                return Err(e);
            },
        };
        if !is_price_reached(realized.sqrt_price_x64, open.leg.target_sqrt_price) {
            self.abort();
            return Err(ErrorCode::PriceNotReached);
        }
        self.working = after;
        self.results.push(*realized);
        self.open = None;
        self.state = next;
        Ok(
            SwapSqrt {
                from_sqrt_price: open.from_sqrt_price,
                to_sqrt_price: open.leg.target_sqrt_price,
                actual_sqrt_price: realized.sqrt_price_x64,
            },
        )
    }

    /// The results of the three legs, once the candle is done.
    pub fn outcome(&self) -> (results: Option<[SwapResult; 3]>)
        ensures
            match results {
                Some(r) => self.state is Done && self.results@.len() == 3 && r@ == self.results@,
                None => !(self.state is Done) || self.results@.len() != 3,
            },
    {
        if self.is_done() && self.results.len() == 3 {
            let r: [SwapResult; 3] = [self.results[0], self.results[1], self.results[2]];
            assert(r@ =~= self.results@);
            Some(r)
        } else {
            None
        }
    }
}

/// What was read of one leg: the price of the pool before it, and what it
/// has done.
#[derive(Clone, Copy, Debug, PartialEq, Eq, Structural)]
pub struct LegRecord {
    pub from_sqrt_price: u128,
    pub realized: SwapResult,
}

/// What one leg leaves of the holdings `working`, or why the candle ends
/// with it: the leg takes from the holding that its direction names, and
/// counts only if its realized price lies within the band of its target.
pub open spec fn leg_outcome(
    working: Holdings,
    leg: SwapLeg,
    token_mint_a: Pubkey,
    record: LegRecord,
) -> Result<Holdings, ErrorCode> {
    let a_for_b = spec_resolves_decreasing(record.from_sqrt_price, leg.target_sqrt_price);
    let wsol_in = spec_input_is_wsol(token_mint_a, a_for_b);
    match traded(working, wsol_in, record.realized.amount_in, record.realized.amount_out) {
        Err(e) => Err(e),
        Ok(after) => if price_reached(record.realized.sqrt_price_x64, leg.target_sqrt_price) {
            Ok(after)
        } else {
            Err(ErrorCode::PriceNotReached)
        },
    }
}

/// What a whole candle leaves of the holdings, or the failure of its
/// first leg that fails.
pub open spec fn candle_outcome(
    pattern: CandlePattern,
    holdings: Holdings,
    token_mint_a: Pubkey,
    records: [LegRecord; 3],
) -> Result<Holdings, ErrorCode> {
    match leg_outcome(holdings, pattern.legs[0], token_mint_a, records[0]) {
        Err(e) => Err(e),
        Ok(first) => match leg_outcome(first, pattern.legs[1], token_mint_a, records[1]) {
            Err(e) => Err(e),
            Ok(second) => leg_outcome(second, pattern.legs[2], token_mint_a, records[2]),
        },
    }
}

/// Runs a candle over what was read of its three legs, in their order.
/// Where all three legs count, the candle is done, its holdings are those
/// that the legs have left, and the three results are returned. Where a
/// leg fails, the candle is ended with that leg's failure, and its
/// holdings are those with which it began, whatever earlier legs did.
pub fn execute_candle_pattern(
    pattern: CandlePattern,
    holdings: Holdings,
    token_mint_a: &Pubkey,
    records: &[LegRecord; 3],
) -> (run: (Candle, Result<[SwapResult; 3], ErrorCode>))
    ensures
        run.0.pattern == pattern,
        run.0.initial == holdings,
        run.0.wf(),
        match run.1 {
            Ok(results) => {
                &&& run.0.state is Done
                &&& candle_outcome(pattern, holdings, *token_mint_a, *records) == Ok::<
                    Holdings,
                    ErrorCode,
                >(run.0.spec_holdings())
                &&& results@ == seq![records[0].realized, records[1].realized, records[2].realized]
                &&& run.0.results@ == results@
            },
            Err(e) => {
                &&& run.0.state is Aborted
                &&& run.0.spec_holdings() == holdings
                &&& candle_outcome(pattern, holdings, *token_mint_a, *records) == Err::<
                    Holdings,
                    ErrorCode,
                >(e)
            },
        },
{
    let mut candle = Candle::begin(pattern, holdings);
    let mut i: usize = 0;
    while i < 3
        invariant
            i <= 3,
            candle.pattern == pattern,
            candle.initial == holdings,
            candle.open is None,
            candle.wf(),
            candle.state == (if i == 0 {
                CandleState::Leg1
            } else if i == 1 {
                CandleState::Leg2
            } else if i == 2 {
                CandleState::Leg3
            } else {
                CandleState::Done
            }),
            candle.results@.len() == i,
            forall|j: int| 0 <= j < i ==> candle.results@[j] == records[j].realized,
            i == 0 ==> candle.working == holdings,
            i >= 1 ==> leg_outcome(holdings, pattern.legs[0], *token_mint_a, records[0]) == Ok::<
                Holdings,
                ErrorCode,
            >(
                if i == 1 {
                    candle.working
                } else {
                    leg_outcome(holdings, pattern.legs[0], *token_mint_a, records[0]).unwrap()
                },
            ),
            i >= 2 ==> leg_outcome(
                leg_outcome(holdings, pattern.legs[0], *token_mint_a, records[0]).unwrap(),
                pattern.legs[1],
                *token_mint_a,
                records[1],
            ) == Ok::<Holdings, ErrorCode>(
                if i == 2 {
                    candle.working
                } else {
                    leg_outcome(
                        leg_outcome(holdings, pattern.legs[0], *token_mint_a, records[0]).unwrap(),
                        pattern.legs[1],
                        *token_mint_a,
                        records[1],
                    ).unwrap()
                },
            ),
            i == 3 ==> candle_outcome(pattern, holdings, *token_mint_a, *records) == Ok::<
                Holdings,
                ErrorCode,
            >(candle.working),
        decreases 3 - i,
    {
        let record = records[i];
        match candle.start_leg(record.from_sqrt_price, token_mint_a) {
            Ok(_) => {},
            Err(e) => {
                return (candle, Err(e));
            },
        }
        match candle.finish_leg(&record.realized) {
            Ok(_) => {},
            Err(e) => {
                return (candle, Err(e));
            },
        }
        i += 1;
    }
    match candle.outcome() {
        Some(results) => {
            assert(results@ =~= seq![
                records[0].realized,
                records[1].realized,
                records[2].realized,
            ]);
            (candle, Ok(results))
        },
        None => (candle, Err(ErrorCode::OutOfSequence)),
    }
}

/// A candle that has not run through all three legs shows the holdings
/// with which it began: no leg leaves a partial effect.
pub proof fn law_no_partial_effect(candle: Candle)
    requires
        !(candle.state is Done),
    ensures
        candle.spec_holdings() == candle.initial,
{
}

} // verus!
