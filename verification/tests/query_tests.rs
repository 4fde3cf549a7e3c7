use velodata::params::Params;
use velodata::query::{join_with_commas, pairs_for};

fn svec(xs: &[&str]) -> Vec<String> {
    xs.iter().map(|s| s.to_string()).collect()
}

fn pair(k: &str, v: &str) -> (String, String) {
    (k.to_string(), v.to_string())
}

#[test]
fn rows_by_coin_round_trip() {
    let params = Params::RowsCoins {
        product_type: "futures".to_string(),
        exchanges: svec(&["binance-futures", "okex-swap"]),
        coins: svec(&["btc", "eth"]),
        columns: svec(&["funding_rate"]),
        start_timestamp_millis: 1000,
        end_timestamp_millis: 2000,
        resolution_mins: 60,
    };
    let pairs = pairs_for(&params);
    assert_eq!(
        pairs,
        vec![
            pair("type", "futures"),
            pair("exchanges", "binance-futures,okex-swap"),
            pair("coins", "btc,eth"),
            pair("columns", "funding_rate"),
            pair("begin", "1000"),
            pair("end", "2000"),
            pair("resolution", "60"),
        ]
    );
}

#[test]
fn rows_by_product_serializes_products() {
    let params = Params::RowsProducts {
        product_type: "futures".to_string(),
        exchanges: svec(&["bybit"]),
        products: svec(&["btcusdt", "ethusdt"]),
        columns: svec(&["premium", "funding_rate"]),
        start_timestamp_millis: 0,
        end_timestamp_millis: 340_282_366_920_938_463_463_374_607_431_768_211_455,
        resolution_mins: 1,
    };
    let pairs = pairs_for(&params);
    assert_eq!(pairs[2], pair("products", "btcusdt,ethusdt"));
    assert_eq!(pairs[3], pair("columns", "premium,funding_rate"));
    assert_eq!(pairs[5], pair("end", "340282366920938463463374607431768211455"));
}

#[test]
fn terms_serialize_to_one_pair() {
    let params = Params::Terms { coins: svec(&["btc", "eth"]) };
    assert_eq!(pairs_for(&params), vec![pair("coins", "btc,eth")]);
}

#[test]
fn caps_serialize_to_one_pair() {
    let params = Params::Caps { coins: svec(&["sol"]) };
    assert_eq!(pairs_for(&params), vec![pair("coins", "sol")]);
}

#[test]
fn join_handles_empty_and_single() {
    assert_eq!(join_with_commas(&svec(&[])), "");
    assert_eq!(join_with_commas(&svec(&["one"])), "one");
    assert_eq!(join_with_commas(&svec(&["a", "b", "c"])), "a,b,c");
}
