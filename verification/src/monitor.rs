//! A monitoring session: the snapshot, the throttle of the status line, and
//! the step that one round of fetches drives.

use crate::arbitrage::Arbitrage;
use crate::book::{fetched_quote, spec_fetched_quote, OrderBook};
use crate::pair::{Exchange, Pair};
use crate::report::{CycleError, Report};
use crate::throttle::Throttle;
use vstd::prelude::*;

verus! {

/// The snapshot of a session and the throttle of its status line.
pub struct Monitor {
    state: Arbitrage,
    throttle: Throttle,
}

/// Whether `r` is what a step hands back for the outcome `decided` of its
/// cycle: the same error, or the text of the report under `timestamp`.
pub open spec fn renders(
    r: Result<Option<String>, CycleError>,
    decided: Result<Report, CycleError>,
    pair: Pair,
    timestamp: Seq<char>,
) -> bool {
    match decided {
        Err(e) => r == Err::<Option<String>, CycleError>(e),
        Ok(report) => match r {
            Ok(Some(text)) => report.spec_text(pair, timestamp) == Some(text@),
            Ok(None) => report.spec_text(pair, timestamp).is_none(),
            Err(_) => false,
        },
    }
}

impl Monitor {
    /// The snapshot.
    pub closed spec fn spec_state(&self) -> Arbitrage {
        self.state
    }

    /// The interval between two status lines.
    pub closed spec fn spec_interval_ms(&self) -> u64 {
        self.throttle.spec_interval_ms()
    }

    /// How many times the throttle has been started over.
    pub closed spec fn spec_restarts(&self) -> nat {
        self.throttle.spec_restarts()
    }

    /// The outcome of a cycle from this session where the clock reads
    /// `elapsed_ms` since the last status line.
    pub open spec fn spec_decided(
        &self,
        binance: Result<OrderBook, String>,
        coinbase: Result<OrderBook, String>,
        elapsed_ms: i64,
    ) -> Result<Report, CycleError> {
        self.spec_state().spec_cycle(
            spec_fetched_quote(Exchange::Binance, binance),
            spec_fetched_quote(Exchange::Coinbase, coinbase),
            self.spec_interval_ms(),
            elapsed_ms,
        )
    }

    /// How many restarts a step from this session adds where the clock reads
    /// `elapsed_ms`: one where the cycle reports the status line, none where
    /// it reports an alert, nothing, or an error.
    pub open spec fn spec_restarts_added(
        &self,
        binance: Result<OrderBook, String>,
        coinbase: Result<OrderBook, String>,
        elapsed_ms: i64,
    ) -> nat {
        match self.spec_decided(binance, coinbase, elapsed_ms) {
            Ok(Report::Status(_)) => 1,
            _ => 0,
        }
    }

    /// Whether a step from this session hands back `r` and leaves the count
    /// of restarts at `restarts` where the clock reads `elapsed_ms` since the
    /// last status line and `timestamp` as the time of day.
    pub open spec fn steps_to(
        &self,
        binance: Result<OrderBook, String>,
        coinbase: Result<OrderBook, String>,
        elapsed_ms: i64,
        timestamp: Seq<char>,
        r: Result<Option<String>, CycleError>,
        restarts: nat,
    ) -> bool {
        &&& renders(r, self.spec_decided(binance, coinbase, elapsed_ms), self.spec_state().pair, timestamp)
        &&& restarts == self.spec_restarts() + self.spec_restarts_added(binance, coinbase, elapsed_ms)
    }

    /// A session on `pair` whose snapshot holds zero prices and whose
    /// throttle starts now.
    pub fn new(pair: Pair, interval_ms: u64) -> (r: Monitor)
        ensures
            r.spec_interval_ms() == interval_ms,
            r.spec_state() == Arbitrage::spec_new(pair),
            r.spec_restarts() == 0,
    {
        Monitor { state: Arbitrage::new(pair), throttle: Throttle::new(interval_ms) }
    }

    /// The snapshot.
    pub fn state(&self) -> (r: Arbitrage)
        ensures
            r == self.spec_state(),
    {
        self.state
    }

    /// One step of the session, on what the two exchanges answered. The
    /// snapshot takes in the round; the step then hands back the text to
    /// print, if any, or the error that ends the session. The clock is read
    /// twice, for the time since the last status line and for the
    /// timestamp, and the outcome is that of the cycle under some such
    /// readings. The throttle starts over exactly where the cycle reports
    /// the status line: an alert, a silent cycle and an error leave it.
    pub fn step(&mut self, binance: Result<OrderBook, String>, coinbase: Result<OrderBook, String>) -> (r: Result<
        Option<String>,
        CycleError,
    >)
        ensures
            final(self).spec_interval_ms() == old(self).spec_interval_ms(),
            final(self).spec_state() == old(self).spec_state().spec_merged(
                spec_fetched_quote(Exchange::Binance, binance),
                spec_fetched_quote(Exchange::Coinbase, coinbase),
            ),
            exists|elapsed_ms: i64, timestamp: Seq<char>| #[trigger]
                old(self).steps_to(binance, coinbase, elapsed_ms, timestamp, r, final(self).spec_restarts()),
    {
        let pair = self.state.pair;
        let from_binance = fetched_quote(Exchange::Binance, binance);
        let from_coinbase = fetched_quote(Exchange::Coinbase, coinbase);
        let elapsed_ms: i64 = self.throttle.elapsed_ms();
        let interval_ms: u64 = self.throttle.interval_ms();
        let timestamp = local_timestamp();
        match self.state.cycle(from_binance, from_coinbase, interval_ms, elapsed_ms) {
            Err(e) => {
                assert(old(self).steps_to(
                    binance,
                    coinbase,
                    elapsed_ms,
                    timestamp@,
                    Err::<Option<String>, CycleError>(e),
                    self.spec_restarts(),
                ));
                Err(e)
            },
            Ok(report) => {
                match report {
                    Report::Status(_) => {
                        self.throttle.restart();
                    },
                    _ => {},
                }
                let text = report.render(pair, timestamp.as_str());
                assert(old(self).steps_to(binance, coinbase, elapsed_ms, timestamp@, Ok(text), self.spec_restarts()));
                Ok(text)
            },
        }
    }
}

/// `chrono::Local::now`, written out with the format `%c`: the local date
/// and time. It depends on the clock, so nothing is claimed of the text.
#[verifier::external_body]
fn local_timestamp() -> String {
    chrono::Local::now().format("%c").to_string()
}

} // verus!
