//! The supported trading pairs, the two exchanges, and the symbol under which
//! each exchange lists each pair.

use vstd::prelude::*;
use vstd::string::*;

verus! {

/// A trading pair that can be monitored.
#[derive(Clone, Copy, Debug, PartialEq, Eq, Structural)]
pub enum Pair {
    BtcEur,
    EthEur,
    BtcGbp,
}

/// One of the two exchanges whose order books are compared.
#[derive(Clone, Copy, Debug, PartialEq, Eq, Structural)]
pub enum Exchange {
    Binance,
    Coinbase,
}

/// The symbol under which `exchange` lists `pair`.
pub open spec fn spec_market_symbol(exchange: Exchange, pair: Pair) -> Seq<char> {
    match exchange {
        Exchange::Binance => match pair {
            Pair::BtcEur => "BTCEUR"@,
            Pair::EthEur => "ETHEUR"@,
            Pair::BtcGbp => "BTCGBP"@,
        },
        Exchange::Coinbase => match pair {
            Pair::BtcEur => "BTC-EUR"@,
            Pair::EthEur => "ETH-EUR"@,
            Pair::BtcGbp => "BTC-GBP"@,
        },
    }
}

/// The pair that `exchange` lists under `symbol`, if there is one.
pub open spec fn spec_pair_of_symbol(exchange: Exchange, symbol: Seq<char>) -> Option<Pair> {
    if symbol == spec_market_symbol(exchange, Pair::BtcEur) {
        Some(Pair::BtcEur)
    } else if symbol == spec_market_symbol(exchange, Pair::EthEur) {
        Some(Pair::EthEur)
    } else if symbol == spec_market_symbol(exchange, Pair::BtcGbp) {
        Some(Pair::BtcGbp)
    } else {
        None
    }
}

/// The name under which a pair is shown, whatever the exchange.
pub open spec fn spec_pair_name(pair: Pair) -> Seq<char> {
    match pair {
        Pair::BtcEur => "BTC-EUR"@,
        Pair::EthEur => "ETH-EUR"@,
        Pair::BtcGbp => "BTC-GBP"@,
    }
}

/// The pair that a choice from the menu stands for: `1`, `2` or `3`.
pub open spec fn spec_pair_of_choice(choice: Seq<char>) -> Option<Pair> {
    if choice == "1"@ {
        Some(Pair::BtcEur)
    } else if choice == "2"@ {
        Some(Pair::BtcGbp)
    } else if choice == "3"@ {
        Some(Pair::EthEur)
    } else {
        None
    }
}

/// The name under which an exchange is shown.
pub open spec fn spec_exchange_name(exchange: Exchange) -> Seq<char> {
    match exchange {
        Exchange::Binance => "binance"@,
        Exchange::Coinbase => "coinbase"@,
    }
}

impl Pair {
    /// Reads a choice from the menu: `1` is BTC-EUR, `2` is BTC-GBP, `3` is
    /// ETH-EUR; anything else is no pair.
    pub fn from_choice(choice: &str) -> (r: Option<Pair>)
        ensures
            r == spec_pair_of_choice(choice@),
    {
        let given = choice.to_owned();
        if given == String::from_str("1") {
            Some(Pair::BtcEur)
        } else if given == String::from_str("2") {
            Some(Pair::BtcGbp)
        } else if given == String::from_str("3") {
            Some(Pair::EthEur)
        } else {
            None
        }
    }

    /// The name under which the pair is shown.
    pub fn as_str(&self) -> (r: &'static str)
        ensures
            r@ == spec_pair_name(*self),
    {
        match self {
            Pair::BtcEur => "BTC-EUR",
            Pair::EthEur => "ETH-EUR",
            Pair::BtcGbp => "BTC-GBP",
        }
    }
}

impl Exchange {
    /// The name under which the exchange is shown.
    pub fn name(&self) -> (r: &'static str)
        ensures
            r@ == spec_exchange_name(*self),
    {
        match self {
            Exchange::Binance => "binance",
            Exchange::Coinbase => "coinbase",
        }
    }
}

/// The symbol under which `exchange` lists `pair`.
pub fn market_symbol(exchange: Exchange, pair: &Pair) -> (r: &'static str)
    ensures
        r@ == spec_market_symbol(exchange, *pair),
{
    match exchange {
        Exchange::Binance => match pair {
            Pair::BtcEur => "BTCEUR",
            Pair::EthEur => "ETHEUR",
            Pair::BtcGbp => "BTCGBP",
        },
        Exchange::Coinbase => match pair {
            Pair::BtcEur => "BTC-EUR",
            Pair::EthEur => "ETH-EUR",
            Pair::BtcGbp => "BTC-GBP",
        },
    }
}

/// The pair that `exchange` lists under `symbol`; `None` for a symbol that
/// the exchange lists no supported pair under.
pub fn pair_of_symbol(exchange: Exchange, symbol: &str) -> (r: Option<Pair>)
    ensures
        r == spec_pair_of_symbol(exchange, symbol@),
{
    let given = symbol.to_owned();
    if given == String::from_str(market_symbol(exchange, &Pair::BtcEur)) {
        Some(Pair::BtcEur)
    } else if given == String::from_str(market_symbol(exchange, &Pair::EthEur)) {
        Some(Pair::EthEur)
    } else if given == String::from_str(market_symbol(exchange, &Pair::BtcGbp)) {
        Some(Pair::BtcGbp)
    } else {
        None
    }
}

/// No exchange lists two pairs under one symbol.
pub proof fn lemma_symbols_distinct(exchange: Exchange, a: Pair, b: Pair)
    requires
        a != b,
    ensures
        spec_market_symbol(exchange, a) != spec_market_symbol(exchange, b),
{
    reveal_strlit("BTCEUR");
    reveal_strlit("ETHEUR");
    reveal_strlit("BTCGBP");
    reveal_strlit("BTC-EUR");
    reveal_strlit("ETH-EUR");
    reveal_strlit("BTC-GBP");
    let x = spec_market_symbol(exchange, a);
    let y = spec_market_symbol(exchange, b);
    assert(x[0] != y[0] || x[x.len() - 1] != y[y.len() - 1]);
}

/// Round trip: the symbol under which an exchange lists a pair is read back
/// as that pair.
pub proof fn lemma_symbol_round_trip(exchange: Exchange, pair: Pair)
    ensures
        spec_pair_of_symbol(exchange, spec_market_symbol(exchange, pair)) == Some(pair),
{
    if pair != Pair::BtcEur {
        lemma_symbols_distinct(exchange, pair, Pair::BtcEur);
    }
    if pair != Pair::EthEur {
        lemma_symbols_distinct(exchange, pair, Pair::EthEur);
    }
}

/// A request for the order book of one market on one exchange.
#[derive(Clone, Debug, PartialEq, Eq)]
pub struct OrderBookRequest {
    pub market_pair: String,
}

impl OrderBookRequest {
    /// The request for `pair` on `client`: it names the market by the symbol
    /// under which that exchange lists the pair.
    pub fn parse(client: Exchange, pair: &Pair) -> (r: OrderBookRequest)
        ensures
            r.market_pair@ == spec_market_symbol(client, *pair),
    {
        OrderBookRequest { market_pair: String::from_str(market_symbol(client, pair)) }
    }
}

} // verus!
