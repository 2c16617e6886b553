//! What a cycle reports: an alert for an opportunity, a status line where
//! none was found and one is due, or nothing.

use crate::arbitrage::{Arbitrage, Direction, OpportunityEvent, ProfitError};
use crate::book::{FetchError, VenueQuote};
use crate::pair::{spec_exchange_name, spec_pair_name, Exchange, Pair};
use crate::price::Price;
use crate::throttle::{due, spec_due};
use vstd::prelude::*;
use vstd::string::*;

verus! {

/// What a cycle has to say.
#[derive(Clone, Copy, Debug)]
pub enum Report {
    /// An opportunity was found.
    Alert(OpportunityEvent),
    /// None was found and a status line is due: the snapshot to show.
    Status(Arbitrage),
    /// None was found and no status line is due.
    Silent,
}

/// Why a cycle ended the session.
#[derive(Clone, Debug, PartialEq, Eq)]
pub enum CycleError {
    /// A fetch failed.
    Fetch(FetchError),
    /// The profit of a crossing could not be had.
    Profit(ProfitError),
}

/// The alert for an opportunity on `pair`, under the given timestamp.
pub open spec fn spec_alert_message(event: OpportunityEvent, pair: Pair, timestamp: Seq<char>) -> Seq<char> {
    timestamp + "\nArbitrage opportunity found\nBuy: "@ + spec_pair_name(pair) + " at "@
        + event.buy_price.spec_text() + " on "@ + spec_exchange_name(event.direction.spec_buy_venue())
        + "\nSell: "@ + spec_pair_name(pair) + " at "@ + event.sell_price.spec_text() + " on "@
        + spec_exchange_name(event.direction.spec_sell_venue()) + "\nProfit: "@ + event.profit.spec_text()
}

/// The status line for a snapshot, under the given timestamp.
pub open spec fn spec_status_message(state: Arbitrage, timestamp: Seq<char>) -> Seq<char> {
    timestamp + "\nSeeking arbitrage opportunity... (None found)\npair: "@ + spec_pair_name(state.pair) + "\n"@
        + spec_exchange_name(Exchange::Binance) + " bid: "@ + state.binance.bid.spec_text() + "\n"@
        + spec_exchange_name(Exchange::Coinbase) + " ask: "@ + state.coinbase.ask.spec_text() + "\n"@
        + spec_exchange_name(Exchange::Coinbase) + " bid: "@ + state.coinbase.bid.spec_text() + "\n"@
        + spec_exchange_name(Exchange::Binance) + " ask: "@ + state.binance.ask.spec_text()
}

/// Writes the alert for an opportunity on `pair`.
pub fn alert_message(event: &OpportunityEvent, pair: Pair, timestamp: &str) -> (r: String)
    ensures
        r@ == spec_alert_message(*event, pair, timestamp@),
{
    let mut text = String::from_str(timestamp);
    text.append("\nArbitrage opportunity found\nBuy: ");
    text.append(pair.as_str());
    text.append(" at ");
    text.append(event.buy_price.to_text().as_str());
    text.append(" on ");
    text.append(event.direction.buy_venue().name());
    text.append("\nSell: ");
    text.append(pair.as_str());
    text.append(" at ");
    text.append(event.sell_price.to_text().as_str());
    text.append(" on ");
    text.append(event.direction.sell_venue().name());
    text.append("\nProfit: ");
    text.append(event.profit.to_text().as_str());
    text
}

/// Writes the status line for a snapshot.
pub fn status_message(state: &Arbitrage, timestamp: &str) -> (r: String)
    ensures
        r@ == spec_status_message(*state, timestamp@),
{
    let mut text = String::from_str(timestamp);
    text.append("\nSeeking arbitrage opportunity... (None found)\npair: ");
    text.append(state.pair.as_str());
    text.append("\n");
    text.append(Exchange::Binance.name());
    text.append(" bid: ");
    text.append(state.binance.bid.to_text().as_str());
    text.append("\n");
    text.append(Exchange::Coinbase.name());
    text.append(" ask: ");
    text.append(state.coinbase.ask.to_text().as_str());
    text.append("\n");
    text.append(Exchange::Coinbase.name());
    text.append(" bid: ");
    text.append(state.coinbase.bid.to_text().as_str());
    text.append("\n");
    text.append(Exchange::Binance.name());
    text.append(" ask: ");
    text.append(state.binance.ask.to_text().as_str());
    text
}

impl Report {
    /// The text of the report under the given timestamp; a silent report has
    /// none.
    pub open spec fn spec_text(self, pair: Pair, timestamp: Seq<char>) -> Option<Seq<char>> {
        match self {
            Report::Alert(event) => Some(spec_alert_message(event, pair, timestamp)),
            Report::Status(state) => Some(spec_status_message(state, timestamp)),
            Report::Silent => None,
        }
    }

    /// Writes the report, if it has anything to say.
    pub fn render(&self, pair: Pair, timestamp: &str) -> (r: Option<String>)
        ensures
            r.is_some() == self.spec_text(pair, timestamp@).is_some(),
            r.is_some() ==> r.unwrap()@ == self.spec_text(pair, timestamp@).unwrap(),
    {
        match self {
            Report::Alert(event) => Some(alert_message(event, pair, timestamp)),
            Report::Status(state) => Some(status_message(state, timestamp)),
            Report::Silent => None,
        }
    }
}

impl Arbitrage {
    /// What a snapshot reports `elapsed_ms` after the last status line: the
    /// opportunity where there is one, whatever the time; else the status
    /// line where it is due.
    pub open spec fn spec_report(self, interval_ms: u64, elapsed_ms: i64) -> Result<Report, ProfitError> {
        match self.spec_crossing() {
            Some(direction) => match self.spec_profit_error(direction) {
                Some(e) => Err(e),
                None => Ok(Report::Alert(self.spec_detect().unwrap())),
            },
            None => if spec_due(interval_ms, elapsed_ms) {
                Ok(Report::Status(self))
            } else {
                Ok(Report::Silent)
            },
        }
    }

    /// The outcome of a cycle: the error of the round of fetches where one
    /// failed, else what the merged snapshot reports.
    pub open spec fn spec_cycle(
        self,
        binance: Result<VenueQuote, FetchError>,
        coinbase: Result<VenueQuote, FetchError>,
        interval_ms: u64,
        elapsed_ms: i64,
    ) -> Result<Report, CycleError> {
        match Arbitrage::spec_round_error(binance, coinbase) {
            Some(e) => Err(CycleError::Fetch(e)),
            None => match self.spec_merged(binance, coinbase).spec_report(interval_ms, elapsed_ms) {
                Ok(report) => Ok(report),
                Err(e) => Err(CycleError::Profit(e)),
            },
        }
    }

    /// Decides what the snapshot reports `elapsed_ms` after the last status
    /// line. An opportunity is reported at once and the time is not looked
    /// at; without one a status line is reported where the interval has
    /// passed.
    pub fn report(&self, interval_ms: u64, elapsed_ms: i64) -> (r: Result<Report, ProfitError>)
        ensures
            r == self.spec_report(interval_ms, elapsed_ms),
    {
        match self.try_detect() {
            Err(e) => Err(e),
            Ok(Some(event)) => Ok(Report::Alert(event)),
            Ok(None) => if due(interval_ms, elapsed_ms) {
                Ok(Report::Status(*self))
            } else {
                Ok(Report::Silent)
            },
        }
    }

    /// One cycle: takes in the round of fetches, then decides what to
    /// report. A failed fetch ends the cycle with its error and leaves the
    /// snapshot as it was.
    pub fn cycle(
        &mut self,
        binance: Result<VenueQuote, FetchError>,
        coinbase: Result<VenueQuote, FetchError>,
        interval_ms: u64,
        elapsed_ms: i64,
    ) -> (r: Result<Report, CycleError>)
        ensures
            *final(self) == old(self).spec_merged(binance, coinbase),
            r == old(self).spec_cycle(binance, coinbase, interval_ms, elapsed_ms),
    {
        match self.update_prices(binance, coinbase) {
            Err(e) => Err(CycleError::Fetch(e)),
            Ok(()) => match self.report(interval_ms, elapsed_ms) {
                Ok(report) => Ok(report),
                Err(e) => Err(CycleError::Profit(e)),
            },
        }
    }
}

/// An opportunity is reported whatever the time since the last status line.
pub proof fn lemma_alert_whatever_the_time(state: Arbitrage, interval_ms: u64, elapsed_ms: i64, later_ms: i64)
    requires
        state.spec_crossing().is_some(),
    ensures
        state.spec_report(interval_ms, elapsed_ms) == state.spec_report(interval_ms, later_ms),
        state.profit_sound() ==> state.spec_report(interval_ms, elapsed_ms) == Ok::<Report, ProfitError>(
            Report::Alert(state.spec_detect().unwrap()),
        ),
{
}

/// Without an opportunity the status line is reported exactly where the time
/// since the last one has reached the interval, and nothing is reported
/// before that.
pub proof fn lemma_status_when_due(state: Arbitrage, interval_ms: u64, elapsed_ms: i64)
    requires
        state.spec_crossing().is_none(),
    ensures
        elapsed_ms >= interval_ms ==> state.spec_report(interval_ms, elapsed_ms) == Ok::<Report, ProfitError>(
            Report::Status(state),
        ),
        elapsed_ms < interval_ms ==> state.spec_report(interval_ms, elapsed_ms) == Ok::<Report, ProfitError>(
            Report::Silent,
        ),
{
}

/// Where Binance's bid is above Coinbase's ask, a cycle reports one thing
/// only, whatever the other two prices and whatever the time: the alert that
/// buys on Coinbase at its ask and sells on Binance at its bid, with the
/// difference of the two as its profit, greater than zero. The other
/// direction and the status line are never reported for such a snapshot; where
/// the difference cannot be had or is not above zero, the error says so.
pub proof fn lemma_report_sell_binance(state: Arbitrage, interval_ms: u64, elapsed_ms: i64)
    requires
        state.binance.bid.spec_exceeds(state.coinbase.ask),
    ensures
        match state.spec_report(interval_ms, elapsed_ms) {
            Ok(Report::Alert(event)) => {
                &&& state.profit_sound()
                &&& event.direction == Direction::BuyCoinbaseSellBinance
                &&& event.buy_price == state.coinbase.ask
                &&& event.sell_price == state.binance.bid
                &&& event.sell_price.spec_exceeds(event.buy_price)
                &&& Some(event.profit) == state.binance.bid.spec_minus(state.coinbase.ask)
                &&& event.profit.spec_exceeds(Price::of(0, 0))
            },
            Ok(_) => false,
            Err(e) => {
                &&& !state.profit_sound()
                &&& Some(e) == state.spec_profit_error(Direction::BuyCoinbaseSellBinance)
            },
        },
{
}

} // verus!
