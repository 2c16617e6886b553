use arbitrage::pair::{market_symbol, pair_of_symbol, Exchange, OrderBookRequest, Pair};

#[test]
fn test_order_book_request_parse() {
    let binance_order_book = OrderBookRequest { market_pair: "BTCEUR".to_string() };
    assert_eq!(binance_order_book, OrderBookRequest::parse(Exchange::Binance, &Pair::BtcEur));

    let coinbase_order_book = OrderBookRequest { market_pair: "BTC-EUR".to_string() };
    assert_eq!(coinbase_order_book, OrderBookRequest::parse(Exchange::Coinbase, &Pair::BtcEur));
}

#[test]
fn every_pair_has_its_symbol_on_each_exchange() {
    assert_eq!(market_symbol(Exchange::Binance, &Pair::BtcEur), "BTCEUR");
    assert_eq!(market_symbol(Exchange::Binance, &Pair::EthEur), "ETHEUR");
    assert_eq!(market_symbol(Exchange::Binance, &Pair::BtcGbp), "BTCGBP");
    assert_eq!(market_symbol(Exchange::Coinbase, &Pair::BtcEur), "BTC-EUR");
    assert_eq!(market_symbol(Exchange::Coinbase, &Pair::EthEur), "ETH-EUR");
    assert_eq!(market_symbol(Exchange::Coinbase, &Pair::BtcGbp), "BTC-GBP");
}

#[test]
fn symbol_round_trip() {
    for exchange in [Exchange::Binance, Exchange::Coinbase] {
        for pair in [Pair::BtcEur, Pair::EthEur, Pair::BtcGbp] {
            assert_eq!(pair_of_symbol(exchange, market_symbol(exchange, &pair)), Some(pair));
            let request = OrderBookRequest::parse(exchange, &pair);
            assert_eq!(pair_of_symbol(exchange, &request.market_pair), Some(pair));
        }
    }
}

#[test]
fn unknown_symbol_has_no_pair() {
    assert_eq!(pair_of_symbol(Exchange::Binance, "BTC-EUR"), None);
    assert_eq!(pair_of_symbol(Exchange::Coinbase, "BTCEUR"), None);
    assert_eq!(pair_of_symbol(Exchange::Binance, ""), None);
    assert_eq!(pair_of_symbol(Exchange::Coinbase, "btc-eur"), None);
}

#[test]
fn names_as_shown() {
    assert_eq!(Pair::BtcEur.as_str(), "BTC-EUR");
    assert_eq!(Pair::EthEur.as_str(), "ETH-EUR");
    assert_eq!(Pair::BtcGbp.as_str(), "BTC-GBP");
    assert_eq!(Exchange::Binance.name(), "binance");
    assert_eq!(Exchange::Coinbase.name(), "coinbase");
}

#[test]
fn menu_choice_names_a_pair() {
    assert_eq!(Pair::from_choice("1"), Some(Pair::BtcEur));
    assert_eq!(Pair::from_choice("2"), Some(Pair::BtcGbp));
    assert_eq!(Pair::from_choice("3"), Some(Pair::EthEur));
    assert_eq!(Pair::from_choice("4"), None);
    assert_eq!(Pair::from_choice(""), None);
    assert_eq!(Pair::from_choice("1 "), None);
    assert_eq!(Pair::from_choice("BTC-EUR"), None);
}
