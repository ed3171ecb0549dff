use std::sync::mpsc::channel;

use haggl::binance::{parse_agg_trade, BinanceFeedActor, TradeConvError};
use haggl::decimal::{parse_decimal, Decimal, DecimalError};
use haggl::types::{BaseSymbol, QuoteSymbol, Symbol, Taker, ValidBaseSymInputs, Venue, SpotTrade};

fn feed_for(base: Symbol, quote: Symbol) -> BinanceFeedActor {
    let (tx, _rx) = channel();
    BinanceFeedActor::new(tx, BaseSymbol(base), QuoteSymbol(quote))
}

#[test]
fn decimal_integer() {
    let d = parse_decimal("100".as_bytes()).unwrap();
    assert_eq!(d, Decimal { mantissa: 100, scale: 0 });
}

#[test]
fn decimal_fraction() {
    let d = parse_decimal("100.5".as_bytes()).unwrap();
    assert_eq!(d, Decimal { mantissa: 1005, scale: 1 });
}

#[test]
fn decimal_leading_dot() {
    let d = parse_decimal(".5".as_bytes()).unwrap();
    assert_eq!(d, Decimal { mantissa: 5, scale: 1 });
}

#[test]
fn decimal_trailing_dot() {
    let d = parse_decimal("5.".as_bytes()).unwrap();
    assert_eq!(d, Decimal { mantissa: 5, scale: 0 });
}

#[test]
fn decimal_long_fraction() {
    let d = parse_decimal("0.00000001".as_bytes()).unwrap();
    assert_eq!(d, Decimal { mantissa: 1, scale: 8 });
}

#[test]
fn decimal_empty_is_malformed() {
    assert_eq!(parse_decimal("".as_bytes()), Err(DecimalError::Malformed));
}

#[test]
fn decimal_lone_dot_is_malformed() {
    assert_eq!(parse_decimal(".".as_bytes()), Err(DecimalError::Malformed));
}

#[test]
fn decimal_two_dots_is_malformed() {
    assert_eq!(parse_decimal("1.2.3".as_bytes()), Err(DecimalError::Malformed));
}

#[test]
fn decimal_sign_is_malformed() {
    assert_eq!(parse_decimal("-1".as_bytes()), Err(DecimalError::Malformed));
}

#[test]
fn decimal_letters_are_malformed() {
    assert_eq!(parse_decimal("12a".as_bytes()), Err(DecimalError::Malformed));
}

#[test]
fn decimal_u64_max_fits() {
    let d = parse_decimal("18446744073709551615".as_bytes()).unwrap();
    assert_eq!(d, Decimal { mantissa: u64::MAX, scale: 0 });
}

#[test]
fn decimal_past_u64_max_overflows() {
    assert_eq!(
        parse_decimal("18446744073709551616".as_bytes()),
        Err(DecimalError::Overflow)
    );
}

const FULL_PAYLOAD: &str = r#"{"e":"aggTrade","E":1700000000123,"s":"BTCUSDT","a":12345,"p":"100.5","q":"2.0","f":100,"l":105,"T":1700000000000,"m":true,"M":true}"#;

#[test]
fn agg_trade_full_payload_parses() {
    let rec = parse_agg_trade(FULL_PAYLOAD.as_bytes()).unwrap();
    assert_eq!(rec.p, "100.5".as_bytes().to_vec());
    assert_eq!(rec.q, "2.0".as_bytes().to_vec());
    assert_eq!(rec.t, 1700000000000);
    assert!(rec.m);
}

#[test]
fn agg_trade_minimal_payload_parses() {
    let rec = parse_agg_trade(r#"{"p":"1","q":"2","T":3,"m":false}"#.as_bytes()).unwrap();
    assert_eq!(rec.p, vec![b'1']);
    assert_eq!(rec.q, vec![b'2']);
    assert_eq!(rec.t, 3);
    assert!(!rec.m);
}

#[test]
fn agg_trade_whitespace_tolerated() {
    let rec =
        parse_agg_trade(" { \"p\" : \"1\" , \"q\" : \"2\" , \"T\" : 3 , \"m\" : true } ".as_bytes())
            .unwrap();
    assert_eq!(rec.t, 3);
    assert!(rec.m);
}

#[test]
fn agg_trade_missing_field_rejected() {
    assert!(parse_agg_trade(r#"{"p":"1","q":"2","T":3}"#.as_bytes()).is_none());
}

#[test]
fn agg_trade_duplicate_field_rejected() {
    assert!(parse_agg_trade(r#"{"p":"1","p":"4","q":"2","T":3,"m":true}"#.as_bytes()).is_none());
}

#[test]
fn agg_trade_wrong_type_rejected() {
    assert!(parse_agg_trade(r#"{"p":1,"q":"2","T":3,"m":true}"#.as_bytes()).is_none());
}

#[test]
fn agg_trade_trailing_garbage_rejected() {
    assert!(parse_agg_trade(r#"{"p":"1","q":"2","T":3,"m":true}x"#.as_bytes()).is_none());
}

#[test]
fn agg_trade_not_an_object_rejected() {
    assert!(parse_agg_trade(r#""p""#.as_bytes()).is_none());
    assert!(parse_agg_trade("".as_bytes()).is_none());
}

#[test]
fn agg_trade_nested_value_rejected() {
    assert!(parse_agg_trade(r#"{"p":"1","q":"2","T":3,"m":true,"x":{}}"#.as_bytes()).is_none());
}

#[test]
fn agg_trade_escaped_string_rejected() {
    assert!(parse_agg_trade(r#"{"p":"1\n","q":"2","T":3,"m":true}"#.as_bytes()).is_none());
}

#[test]
fn agg_trade_t_too_large_rejected() {
    assert!(
        parse_agg_trade(r#"{"p":"1","q":"2","T":18446744073709551616,"m":true}"#.as_bytes())
            .is_none()
    );
}

#[test]
fn record_round_trip_maker_flag_false_means_buyer() {
    let feed = feed_for(Symbol::BTC, Symbol::USDT);
    let rec = parse_agg_trade(r#"{"p":"100.5","q":"2.0","T":1700000000000,"m":false}"#.as_bytes())
        .unwrap();
    let tr = SpotTrade::try_from(&feed, &rec).unwrap();
    assert_eq!(tr.taker, Taker::Buyer);
}

#[test]
fn record_round_trip_maker_flag_true_means_seller() {
    let feed = feed_for(Symbol::BTC, Symbol::USDT);
    let rec = parse_agg_trade(r#"{"p":"100.5","q":"2.0","T":1700000000000,"m":true}"#.as_bytes())
        .unwrap();
    let tr = SpotTrade::try_from(&feed, &rec).unwrap();
    assert_eq!(tr.taker, Taker::Seller);
}

#[test]
fn record_round_trip_quote_qty_exact() {
    let feed = feed_for(Symbol::ETH, Symbol::USDT);
    let rec = parse_agg_trade(r#"{"p":"100.5","q":"2.0","T":1700000000000,"m":true}"#.as_bytes())
        .unwrap();
    let tr = SpotTrade::try_from(&feed, &rec).unwrap();
    let quote = tr.quote_qty();
    // 2.0 * 100.5 == 201.00 exactly: mantissa 20 * 1005, scale 1 + 1.
    assert_eq!(quote.mantissa, 20100);
    assert_eq!(quote.scale, 2);
}

#[test]
fn record_timestamp_is_epoch_millis() {
    let feed = feed_for(Symbol::BTC, Symbol::USDT);
    let rec = parse_agg_trade(r#"{"p":"100.5","q":"2.0","T":1700000000000,"m":false}"#.as_bytes())
        .unwrap();
    let tr = SpotTrade::try_from(&feed, &rec).unwrap();
    // T = 1700000000000 is exactly 1,700,000,000.000 s after the epoch.
    assert_eq!(tr.ts.millis, 1_700_000_000_000);
    assert_eq!(tr.ts.millis % 1000, 0);
    assert_eq!(tr.ts.millis / 1000, 1_700_000_000);
}

#[test]
fn record_carries_pair_and_venue() {
    let feed = feed_for(Symbol::SOL, Symbol::USDT);
    let rec = parse_agg_trade(r#"{"p":"1","q":"2","T":3,"m":false}"#.as_bytes()).unwrap();
    let tr = SpotTrade::try_from(&feed, &rec).unwrap();
    assert_eq!(tr.venue, Venue::BinanceSpot);
    assert_eq!(tr.base_sym, Symbol::SOL);
    assert_eq!(tr.quote_sym, Symbol::USDT);
}

#[test]
fn record_zero_price_rejected() {
    let feed = feed_for(Symbol::BTC, Symbol::USDT);
    let rec = parse_agg_trade(r#"{"p":"0.00","q":"2","T":3,"m":false}"#.as_bytes()).unwrap();
    assert_eq!(
        SpotTrade::try_from(&feed, &rec),
        Err(TradeConvError::NonPositivePrice)
    );
}

#[test]
fn record_bad_quantity_reported_first() {
    let feed = feed_for(Symbol::BTC, Symbol::USDT);
    let rec = parse_agg_trade(r#"{"p":"x","q":"y","T":3,"m":false}"#.as_bytes()).unwrap();
    assert_eq!(
        SpotTrade::try_from(&feed, &rec),
        Err(TradeConvError::Quantity(DecimalError::Malformed))
    );
}

#[test]
fn record_bad_price_reported() {
    let feed = feed_for(Symbol::BTC, Symbol::USDT);
    let rec = parse_agg_trade(r#"{"p":"x","q":"2","T":3,"m":false}"#.as_bytes()).unwrap();
    assert_eq!(
        SpotTrade::try_from(&feed, &rec),
        Err(TradeConvError::Price(DecimalError::Malformed))
    );
}

#[test]
fn record_timestamp_out_of_range_rejected() {
    let feed = feed_for(Symbol::BTC, Symbol::USDT);
    let rec =
        parse_agg_trade(r#"{"p":"1","q":"2","T":18446744073709551615,"m":false}"#.as_bytes())
            .unwrap();
    assert_eq!(
        SpotTrade::try_from(&feed, &rec),
        Err(TradeConvError::TimestampOutOfRange)
    );
}

#[test]
fn symbol_codes() {
    assert_eq!(Symbol::BTC.as_str(), "BTC");
    assert_eq!(Symbol::USDT.as_str(), "USDT");
    assert_eq!(Symbol::ETH.as_lower_str(), "eth");
    assert_eq!(Symbol::XRP.as_lower_str(), "xrp");
    assert_eq!(Symbol::SOL.as_lower_str(), "sol");
}

#[test]
fn base_symbol_inputs_map_to_symbols() {
    assert_eq!(Symbol::from(ValidBaseSymInputs::BTC), Symbol::BTC);
    assert_eq!(Symbol::from(ValidBaseSymInputs::ETH), Symbol::ETH);
    assert_eq!(Symbol::from(ValidBaseSymInputs::SOL), Symbol::SOL);
    assert_eq!(Symbol::from(ValidBaseSymInputs::XRP), Symbol::XRP);
}
