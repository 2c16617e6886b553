use arbitrage::arbitrage::{Arbitrage, Direction, ProfitError};
use arbitrage::book::VenueQuote;
use arbitrage::pair::Pair;
use arbitrage::price::{Price, MAX_UNITS};

fn price(units: i128, places: u32) -> Price {
    Price::new(units, places).expect("a price that a decimal can hold")
}

fn snapshot(binance: (i128, i128), coinbase: (i128, i128)) -> Arbitrage {
    let mut state = Arbitrage::new(Pair::BtcEur);
    state.binance = VenueQuote { bid: price(binance.0, 2), ask: price(binance.1, 2) };
    state.coinbase = VenueQuote { bid: price(coinbase.0, 2), ask: price(coinbase.1, 2) };
    state
}

#[test]
fn new_snapshot_holds_zero_prices() {
    let state = Arbitrage::new(Pair::EthEur);
    assert_eq!(state.pair, Pair::EthEur);
    for p in [state.binance.bid, state.binance.ask, state.coinbase.bid, state.coinbase.ask] {
        assert_eq!((p.mantissa(), p.scale()), (0, 0));
    }
    assert_eq!(state.pair_as_str(), "ETH-EUR");
    assert_eq!(state.crossing(), None);
    assert!(state.try_detect().unwrap().is_none());
}

#[test]
fn binance_bid_above_coinbase_ask_is_an_opportunity() {
    let state = snapshot((3105000, 3106000), (3101000, 3101500));
    let event = state.try_detect().unwrap().expect("an opportunity");
    assert_eq!(event.direction, Direction::BuyCoinbaseSellBinance);
    assert_eq!((event.buy_price.mantissa(), event.buy_price.scale()), (3101500, 2));
    assert_eq!((event.sell_price.mantissa(), event.sell_price.scale()), (3105000, 2));
    assert_eq!((event.profit.mantissa(), event.profit.scale()), (3500, 2));
    assert_eq!(event.profit.to_text(), "35.00");
    assert!(event.profit.exceeds(&Price::zero()));
    let direct = state.detect().expect("an opportunity");
    assert_eq!(direct.direction, Direction::BuyCoinbaseSellBinance);
    assert_eq!((direct.profit.mantissa(), direct.profit.scale()), (3500, 2));
}

#[test]
fn no_cross_in_either_direction_is_no_opportunity() {
    let state = snapshot((3100000, 3100500), (3100200, 3100800));
    assert_eq!(state.crossing(), None);
    assert!(state.try_detect().unwrap().is_none());
    assert!(state.detect().is_none());
}

#[test]
fn coinbase_bid_above_binance_ask_is_an_opportunity() {
    let state = snapshot((3100000, 3100500), (3102000, 3102500));
    let event = state.try_detect().unwrap().expect("an opportunity");
    assert_eq!(event.direction, Direction::BuyBinanceSellCoinbase);
    assert_eq!(event.direction.buy_venue().name(), "binance");
    assert_eq!(event.direction.sell_venue().name(), "coinbase");
    assert_eq!((event.buy_price.mantissa(), event.buy_price.scale()), (3100500, 2));
    assert_eq!((event.sell_price.mantissa(), event.sell_price.scale()), (3102000, 2));
    assert_eq!((event.profit.mantissa(), event.profit.scale()), (1500, 2));
}

#[test]
fn bid_equal_to_ask_is_no_opportunity() {
    let state = snapshot((3100000, 3100500), (3099000, 3100000));
    assert!(state.try_detect().unwrap().is_none());
    let state = snapshot((3099000, 3100000), (3100000, 3100500));
    assert!(state.try_detect().unwrap().is_none());
}

#[test]
fn bid_equal_to_ask_at_another_scale_is_no_opportunity() {
    let mut state = Arbitrage::new(Pair::BtcGbp);
    state.binance = VenueQuote { bid: price(310000, 1), ask: price(310100, 1) };
    state.coinbase = VenueQuote { bid: price(30990000, 3), ask: price(31000000, 3) };
    assert!(state.try_detect().unwrap().is_none());
}

#[test]
fn selling_on_binance_is_looked_at_first() {
    let state = snapshot((3105000, 3100000), (3104000, 3101000));
    let event = state.try_detect().unwrap().expect("an opportunity");
    assert_eq!(event.direction, Direction::BuyCoinbaseSellBinance);
    assert_eq!((event.profit.mantissa(), event.profit.scale()), (4000, 2));
}

#[test]
fn profit_that_overflows_is_an_error() {
    let mut state = Arbitrage::new(Pair::BtcEur);
    state.binance = VenueQuote { bid: price(MAX_UNITS, 0), ask: price(MAX_UNITS, 0) };
    state.coinbase = VenueQuote { bid: price(-MAX_UNITS, 0), ask: price(-MAX_UNITS, 0) };
    assert_eq!(state.crossing(), Some(Direction::BuyCoinbaseSellBinance));
    assert_eq!(state.try_detect().unwrap_err(), ProfitError::Overflow);
}

#[test]
fn prices_compare_by_value_across_scales() {
    assert!(price(15, 1).exceeds(&price(149, 2)));
    assert!(!price(149, 2).exceeds(&price(15, 1)));
    assert!(!price(150, 2).exceeds(&price(15, 1)));
    assert!(!price(15, 1).exceeds(&price(150, 2)));
    assert!(price(-1, 0).exceeds(&price(-11, 1)));
    assert!(price(1, 28).exceeds(&price(0, 0)));
    assert!(!price(5, 0).exceeds(&price(5, 0)));
}

#[test]
fn price_is_built_only_where_a_decimal_holds_it() {
    assert!(Price::new(MAX_UNITS, 28).is_some());
    assert!(Price::new(-MAX_UNITS, 0).is_some());
    assert!(Price::new(MAX_UNITS + 1, 0).is_none());
    assert!(Price::new(-MAX_UNITS - 1, 0).is_none());
    assert!(Price::new(1, 29).is_none());
    let p = price(-12345678, 7);
    assert_eq!(p.mantissa(), -12345678);
    assert_eq!(p.scale(), 7);
    assert_eq!(MAX_UNITS, 79_228_162_514_264_337_593_543_950_335);
}

#[test]
fn difference_and_text_come_from_the_decimal() {
    let d = price(3105000, 2).checked_sub(&price(31015, 0)).unwrap();
    assert_eq!((d.mantissa(), d.scale()), (3500, 2));
    assert_eq!(d.to_text(), "35.00");
    assert_eq!(price(3141, 3).to_text(), "3.141");
    assert_eq!(price(-5, 1).to_text(), "-0.5");
    assert_eq!(Price::zero().to_text(), "0");
    assert!(price(MAX_UNITS, 0).checked_sub(&price(-1, 0)).is_none());
    let e = price(1, 0).checked_sub(&price(3, 0)).unwrap();
    assert_eq!((e.mantissa(), e.scale()), (-2, 0));
}
