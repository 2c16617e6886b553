//! The monitored snapshot of both exchanges and the search for a crossing
//! between them.

use crate::book::{FetchError, VenueQuote};
use crate::pair::{Exchange, Pair};
use crate::price::{pow10, Price};
use vstd::prelude::*;

verus! {

/// Which way the trade goes.
#[derive(Clone, Copy, Debug, PartialEq, Eq, Structural)]
pub enum Direction {
    /// Buy at Coinbase's ask, sell at Binance's bid.
    BuyCoinbaseSellBinance,
    /// Buy at Binance's ask, sell at Coinbase's bid.
    BuyBinanceSellCoinbase,
}

impl Direction {
    /// The exchange bought on.
    pub open spec fn spec_buy_venue(self) -> Exchange {
        match self {
            Direction::BuyCoinbaseSellBinance => Exchange::Coinbase,
            Direction::BuyBinanceSellCoinbase => Exchange::Binance,
        }
    }

    /// The exchange sold on.
    pub open spec fn spec_sell_venue(self) -> Exchange {
        match self {
            Direction::BuyCoinbaseSellBinance => Exchange::Binance,
            Direction::BuyBinanceSellCoinbase => Exchange::Coinbase,
        }
    }

    /// The exchange bought on.
    pub fn buy_venue(&self) -> (r: Exchange)
        ensures
            r == self.spec_buy_venue(),
    {
        match self {
            Direction::BuyCoinbaseSellBinance => Exchange::Coinbase,
            Direction::BuyBinanceSellCoinbase => Exchange::Binance,
        }
    }

    /// The exchange sold on.
    pub fn sell_venue(&self) -> (r: Exchange)
        ensures
            r == self.spec_sell_venue(),
    {
        match self {
            Direction::BuyCoinbaseSellBinance => Exchange::Binance,
            Direction::BuyBinanceSellCoinbase => Exchange::Coinbase,
        }
    }
}

/// A bid on one exchange above the ask on the other.
#[derive(Clone, Copy, Debug)]
pub struct OpportunityEvent {
    pub direction: Direction,
    pub buy_price: Price,
    pub sell_price: Price,
    pub profit: Price,
}

/// Why a crossing could not be turned into an opportunity.
#[derive(Clone, Copy, Debug, PartialEq, Eq, Structural)]
pub enum ProfitError {
    /// The difference of the two prices overflows a decimal.
    Overflow,
    /// The difference of the two prices came out not greater than zero.
    NotPositive,
}

/// The pair that is monitored and the latest quote of each exchange.
#[derive(Clone, Copy, Debug)]
pub struct Arbitrage {
    pub pair: Pair,
    pub binance: VenueQuote,
    pub coinbase: VenueQuote,
}

impl Arbitrage {
    /// The quote of `venue`.
    pub open spec fn quote(self, venue: Exchange) -> VenueQuote {
        match venue {
            Exchange::Binance => self.binance,
            Exchange::Coinbase => self.coinbase,
        }
    }

    /// The price paid in a trade of this direction: the ask where one buys.
    pub open spec fn spec_buy_price(self, direction: Direction) -> Price {
        self.quote(direction.spec_buy_venue()).ask
    }

    /// The price received in a trade of this direction: the bid where one
    /// sells.
    pub open spec fn spec_sell_price(self, direction: Direction) -> Price {
        self.quote(direction.spec_sell_venue()).bid
    }

    /// Whether the bid where one sells is above the ask where one buys.
    pub open spec fn crosses(self, direction: Direction) -> bool {
        self.spec_sell_price(direction).spec_exceeds(self.spec_buy_price(direction))
    }

    /// The direction that fires: selling on Binance is looked at first.
    pub open spec fn spec_crossing(self) -> Option<Direction> {
        if self.crosses(Direction::BuyCoinbaseSellBinance) {
            Some(Direction::BuyCoinbaseSellBinance)
        } else if self.crosses(Direction::BuyBinanceSellCoinbase) {
            Some(Direction::BuyBinanceSellCoinbase)
        } else {
            None
        }
    }

    /// Sell price minus buy price, as the decimal arithmetic gives it.
    pub open spec fn spec_profit(self, direction: Direction) -> Option<Price> {
        self.spec_sell_price(direction).spec_minus(self.spec_buy_price(direction))
    }

    /// The failure, if any, of the profit of a trade in this direction.
    pub open spec fn spec_profit_error(self, direction: Direction) -> Option<ProfitError> {
        match self.spec_profit(direction) {
            None => Some(ProfitError::Overflow),
            Some(profit) => if profit.spec_exceeds(Price::of(0, 0)) {
                None
            } else {
                Some(ProfitError::NotPositive)
            },
        }
    }

    /// Where a direction fires, its profit exists and is greater than zero.
    pub open spec fn profit_sound(self) -> bool {
        match self.spec_crossing() {
            Some(direction) => self.spec_profit_error(direction).is_none(),
            None => true,
        }
    }

    /// The event of a trade in this direction with this profit.
    pub open spec fn spec_opportunity(self, direction: Direction, profit: Price) -> OpportunityEvent {
        OpportunityEvent {
            direction,
            buy_price: self.spec_buy_price(direction),
            sell_price: self.spec_sell_price(direction),
            profit,
        }
    }

    /// The opportunity in the snapshot, if a direction fires.
    pub open spec fn spec_detect(self) -> Option<OpportunityEvent> {
        match self.spec_crossing() {
            Some(direction) => Some(self.spec_opportunity(direction, self.spec_profit(direction).unwrap())),
            None => None,
        }
    }

    /// What a round of fetches makes of the snapshot: both quotes are
    /// replaced where both fetches succeeded, and none is otherwise.
    pub open spec fn spec_merged(
        self,
        binance: Result<VenueQuote, FetchError>,
        coinbase: Result<VenueQuote, FetchError>,
    ) -> Arbitrage {
        match (binance, coinbase) {
            (Ok(a), Ok(b)) => Arbitrage { pair: self.pair, binance: a, coinbase: b },
            _ => self,
        }
    }

    /// The error of a round of fetches: that of Binance where it failed,
    /// else that of Coinbase.
    pub open spec fn spec_round_error(
        binance: Result<VenueQuote, FetchError>,
        coinbase: Result<VenueQuote, FetchError>,
    ) -> Option<FetchError> {
        match (binance, coinbase) {
            (Err(e), _) => Some(e),
            (Ok(_), Err(e)) => Some(e),
            (Ok(_), Ok(_)) => None,
        }
    }

    /// The snapshot at the start of a session: every price is zero.
    pub open spec fn spec_new(pair: Pair) -> Arbitrage {
        let zero = VenueQuote { bid: Price::of(0, 0), ask: Price::of(0, 0) };
        Arbitrage { pair, binance: zero, coinbase: zero }
    }

    /// The snapshot at the start of a session: every price is zero.
    pub fn new(pair: Pair) -> (r: Arbitrage)
        ensures
            r == Arbitrage::spec_new(pair),
    {
        let zero = VenueQuote { bid: Price::zero(), ask: Price::zero() };
        Arbitrage { pair, binance: zero, coinbase: zero }
    }

    /// Takes in one round of fetches. Where both succeeded both quotes are
    /// replaced; where one failed the snapshot stays as it was and the error
    /// is handed on, Binance's first.
    pub fn update_prices(
        &mut self,
        binance: Result<VenueQuote, FetchError>,
        coinbase: Result<VenueQuote, FetchError>,
    ) -> (r: Result<(), FetchError>)
        ensures
            *final(self) == old(self).spec_merged(binance, coinbase),
            match Arbitrage::spec_round_error(binance, coinbase) {
                Some(e) => r == Err::<(), FetchError>(e),
                None => r.is_ok(),
            },
    {
        match binance {
            Err(e) => Err(e),
            Ok(a) => match coinbase {
                Err(e) => Err(e),
                Ok(b) => {
                    self.binance = a;
                    self.coinbase = b;
                    Ok(())
                },
            },
        }
    }

    /// The name under which the monitored pair is shown.
    pub fn pair_as_str(&self) -> (r: &'static str)
        ensures
            r@ == crate::pair::spec_pair_name(self.pair),
    {
        self.pair.as_str()
    }

    /// The price paid in a trade of this direction.
    pub fn buy_price(&self, direction: Direction) -> (r: Price)
        ensures
            r == self.spec_buy_price(direction),
    {
        match direction {
            Direction::BuyCoinbaseSellBinance => self.coinbase.ask,
            Direction::BuyBinanceSellCoinbase => self.binance.ask,
        }
    }

    /// The price received in a trade of this direction.
    pub fn sell_price(&self, direction: Direction) -> (r: Price)
        ensures
            r == self.spec_sell_price(direction),
    {
        match direction {
            Direction::BuyCoinbaseSellBinance => self.binance.bid,
            Direction::BuyBinanceSellCoinbase => self.coinbase.bid,
        }
    }

    /// The direction that fires, if one does: first Binance's bid against
    /// Coinbase's ask, then Coinbase's bid against Binance's ask. A bid equal
    /// to the ask does not fire.
    pub fn crossing(&self) -> (r: Option<Direction>)
        ensures
            r == self.spec_crossing(),
    {
        if self.binance.bid.exceeds(&self.coinbase.ask) {
            Some(Direction::BuyCoinbaseSellBinance)
        } else if self.coinbase.bid.exceeds(&self.binance.ask) {
            Some(Direction::BuyBinanceSellCoinbase)
        } else {
            None
        }
    }

    /// The event of a trade in this direction, given its profit.
    pub fn opportunity(&self, direction: Direction, profit: Price) -> (r: OpportunityEvent)
        ensures
            r == self.spec_opportunity(direction, profit),
    {
        OpportunityEvent {
            direction,
            buy_price: self.buy_price(direction),
            sell_price: self.sell_price(direction),
            profit,
        }
    }

    /// Looks for an opportunity in the snapshot. There is one exactly where
    /// a direction fires; it buys at the lower ask, sells at the higher bid,
    /// and its profit, the difference of the two, is greater than zero.
    pub fn detect(&self) -> (r: Option<OpportunityEvent>)
        requires
            self.profit_sound(),
        ensures
            r == self.spec_detect(),
            r.is_some() <==> self.spec_crossing().is_some(),
            r.is_some() ==> r.unwrap().profit.spec_exceeds(Price::of(0, 0)),
    {
        match self.crossing() {
            Some(direction) => {
                let sell = self.sell_price(direction);
                let buy = self.buy_price(direction);
                let profit = sell.checked_sub(&buy).unwrap();
                Some(self.opportunity(direction, profit))
            },
            None => None,
        }
    }

    /// Looks for an opportunity as `detect` does, on any snapshot: where the
    /// profit of the direction that fires overflows or is not greater than
    /// zero, that is the error.
    pub fn try_detect(&self) -> (r: Result<Option<OpportunityEvent>, ProfitError>)
        ensures
            self.profit_sound() ==> r == Ok::<Option<OpportunityEvent>, ProfitError>(self.spec_detect()),
            !self.profit_sound() ==> r == Err::<Option<OpportunityEvent>, ProfitError>(
                self.spec_profit_error(self.spec_crossing().unwrap()).unwrap(),
            ),
    {
        match self.crossing() {
            Some(direction) => {
                let sell = self.sell_price(direction);
                let buy = self.buy_price(direction);
                match sell.checked_sub(&buy) {
                    Some(profit) => {
                        let zero = Price::zero();
                        if profit.exceeds(&zero) {
                            Ok(self.detect())
                        } else {
                            Err(ProfitError::NotPositive)
                        }
                    },
                    None => Err(ProfitError::Overflow),
                }
            },
            None => Ok(self.detect()),
        }
    }
}

/// Where Binance's bid is above Coinbase's ask, the opportunity buys on
/// Coinbase at its ask and sells on Binance at its bid, and its profit is the
/// difference of the two and greater than zero.
pub proof fn lemma_detect_sell_binance(state: Arbitrage)
    requires
        state.binance.bid.spec_exceeds(state.coinbase.ask),
        state.profit_sound(),
    ensures
        state.spec_detect().is_some(),
        state.spec_detect().unwrap().direction == Direction::BuyCoinbaseSellBinance,
        state.spec_detect().unwrap().buy_price == state.coinbase.ask,
        state.spec_detect().unwrap().sell_price == state.binance.bid,
        Some(state.spec_detect().unwrap().profit) == state.binance.bid.spec_minus(state.coinbase.ask),
        state.spec_detect().unwrap().profit.spec_exceeds(Price::of(0, 0)),
{
}

/// Where neither bid is above the other exchange's ask there is no
/// opportunity; a bid equal to the ask is such a case.
pub proof fn lemma_detect_none(state: Arbitrage)
    requires
        !state.binance.bid.spec_exceeds(state.coinbase.ask),
        !state.coinbase.bid.spec_exceeds(state.binance.ask),
    ensures
        state.profit_sound(),
        state.spec_detect().is_none(),
{
}

/// Where Coinbase's bid is above Binance's ask and Binance's bid is not
/// above Coinbase's ask, the opportunity buys on Binance at its ask and sells
/// on Coinbase at its bid, and its profit is the difference of the two and
/// greater than zero.
pub proof fn lemma_detect_sell_coinbase(state: Arbitrage)
    requires
        !state.binance.bid.spec_exceeds(state.coinbase.ask),
        state.coinbase.bid.spec_exceeds(state.binance.ask),
        state.profit_sound(),
    ensures
        state.spec_detect().is_some(),
        state.spec_detect().unwrap().direction == Direction::BuyBinanceSellCoinbase,
        state.spec_detect().unwrap().buy_price == state.binance.ask,
        state.spec_detect().unwrap().sell_price == state.coinbase.bid,
        Some(state.spec_detect().unwrap().profit) == state.coinbase.bid.spec_minus(state.binance.ask),
        state.spec_detect().unwrap().profit.spec_exceeds(Price::of(0, 0)),
{
}

/// A round in which a fetch failed leaves the snapshot exactly as it was,
/// whatever the other fetch brought.
pub proof fn lemma_failed_round_keeps_snapshot(
    state: Arbitrage,
    binance: Result<VenueQuote, FetchError>,
    coinbase: Result<VenueQuote, FetchError>,
)
    requires
        binance.is_err() || coinbase.is_err(),
    ensures
        state.spec_merged(binance, coinbase) == state,
        Arbitrage::spec_round_error(binance, coinbase).is_some(),
{
}

/// Ten to any power is positive.
pub proof fn lemma_pow10_positive(n: nat)
    ensures
        pow10(n) > 0,
    decreases n,
{
    if n > 0 {
        lemma_pow10_positive((n - 1) as nat);
    }
}

/// The order of prices is transitive: a price above a second one, which is
/// not below a third, is above the third.
pub proof fn lemma_exceeds_transitive(a: Price, b: Price, c: Price)
    requires
        a.spec_exceeds(b),
        !c.spec_exceeds(b),
    ensures
        a.spec_exceeds(c),
{
    let pa = pow10(a.places());
    let pb = pow10(b.places());
    let pc = pow10(c.places());
    lemma_pow10_positive(a.places());
    lemma_pow10_positive(b.places());
    lemma_pow10_positive(c.places());
    let au = a.units();
    let bu = b.units();
    let cu = c.units();
    assert(au * pc > cu * pa) by (nonlinear_arith)
        requires
            au * pb > bu * pa,
            cu * pb <= bu * pc,
            pa > 0,
            pb > 0,
            pc > 0,
    {
        assert((au * pb) * pc > (bu * pa) * pc);
        assert((cu * pb) * pa <= (bu * pc) * pa);
        assert((au * pc) * pb > (cu * pa) * pb);
    }
}

/// Where on each exchange the ask is not below the bid, the two directions
/// cannot fire together.
pub proof fn lemma_directions_exclusive(state: Arbitrage)
    requires
        !state.binance.bid.spec_exceeds(state.binance.ask),
        !state.coinbase.bid.spec_exceeds(state.coinbase.ask),
    ensures
        !(state.crosses(Direction::BuyCoinbaseSellBinance) && state.crosses(Direction::BuyBinanceSellCoinbase)),
{
    if state.crosses(Direction::BuyCoinbaseSellBinance) && state.crosses(Direction::BuyBinanceSellCoinbase) {
        // binance.bid > coinbase.ask >= coinbase.bid > binance.ask >= binance.bid
        lemma_exceeds_transitive(state.binance.bid, state.coinbase.ask, state.coinbase.bid);
        lemma_exceeds_transitive(state.coinbase.bid, state.binance.ask, state.binance.bid);
    }
}

} // verus!
