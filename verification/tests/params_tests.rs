use velodata::error::ApiError;
use velodata::params::Params;

fn svec(xs: &[&str]) -> Vec<String> {
    xs.iter().map(|s| s.to_string()).collect()
}

#[test]
fn rows_rejects_unknown_columns_futures() {
    let r = Params::new_rows_params(
        "futures".to_string(),
        svec(&["binance-futures"]),
        None,
        Some(svec(&["btc"])),
        svec(&["no_such_column"]),
        0,
        1,
        1,
    );
    assert!(matches!(r, Err(ApiError::InvalidInput)));
}

#[test]
fn rows_rejects_unknown_columns_spot() {
    let r = Params::new_rows_params(
        "spot".to_string(),
        svec(&["binance"]),
        None,
        Some(svec(&["btc"])),
        svec(&["no_such_column"]),
        0,
        1,
        1,
    );
    assert!(matches!(r, Err(ApiError::InvalidInput)));
}

#[test]
fn rows_rejects_unknown_columns_options() {
    let r = Params::new_rows_params(
        "options".to_string(),
        svec(&["deribit"]),
        None,
        Some(svec(&["btc"])),
        svec(&["no_such_column"]),
        0,
        1,
        1,
    );
    assert!(matches!(r, Err(ApiError::InvalidInput)));
}

#[test]
fn rows_rejects_unknown_exchanges_futures() {
    let r = Params::new_rows_params(
        "futures".to_string(),
        svec(&["no-such-exchange"]),
        None,
        Some(svec(&["btc"])),
        svec(&["funding_rate"]),
        0,
        1,
        1,
    );
    assert!(matches!(r, Err(ApiError::InvalidInput)));
}

#[test]
fn rows_rejects_unknown_exchanges_spot() {
    let r = Params::new_rows_params(
        "spot".to_string(),
        svec(&["no-such-exchange"]),
        None,
        Some(svec(&["btc"])),
        svec(&["dvol_open"]),
        0,
        1,
        1,
    );
    assert!(matches!(r, Err(ApiError::InvalidInput)));
}

#[test]
fn rows_rejects_unknown_exchanges_options() {
    // the spot exchange vocabulary does not carry over to options
    let r = Params::new_rows_params(
        "options".to_string(),
        svec(&["binance"]),
        None,
        Some(svec(&["btc"])),
        svec(&["open_price"]),
        0,
        1,
        1,
    );
    assert!(matches!(r, Err(ApiError::InvalidInput)));
}

#[test]
fn rows_rejects_unknown_product_type() {
    let r = Params::new_rows_params(
        "swaps".to_string(),
        svec(&["binance-futures"]),
        None,
        Some(svec(&["btc"])),
        svec(&["funding_rate"]),
        0,
        1,
        1,
    );
    assert!(matches!(r, Err(ApiError::InvalidInput)));
}

#[test]
fn rows_products_take_precedence_over_coins() {
    let r = Params::new_rows_params(
        "futures".to_string(),
        svec(&["binance-futures"]),
        Some(svec(&["btcusdt"])),
        Some(svec(&["btc"])),
        svec(&["funding_rate"]),
        0,
        1,
        1,
    );
    match r {
        Ok(Params::RowsProducts { products, .. }) => {
            assert_eq!(products, svec(&["btcusdt"]));
        }
        other => panic!("expected a by-product row query, got {:?}", other),
    }
}

#[test]
fn rows_with_neither_coins_nor_products_fails() {
    let r = Params::new_rows_params(
        "futures".to_string(),
        svec(&["binance-futures"]),
        None,
        None,
        svec(&["funding_rate"]),
        0,
        1,
        1,
    );
    assert!(matches!(r, Err(ApiError::InvalidInput)));
}

#[test]
fn rows_with_coins_only_builds_by_coin() {
    let r = Params::new_rows_params(
        "futures".to_string(),
        svec(&["binance-futures", "okex-swap"]),
        None,
        Some(svec(&["btc", "eth"])),
        svec(&["funding_rate", "coin_open_interest_close"]),
        1000,
        2000,
        60,
    );
    match r {
        Ok(Params::RowsCoins {
            product_type,
            exchanges,
            coins,
            columns,
            start_timestamp_millis,
            end_timestamp_millis,
            resolution_mins,
        }) => {
            assert_eq!(product_type, "futures");
            assert_eq!(exchanges, svec(&["binance-futures", "okex-swap"]));
            assert_eq!(coins, svec(&["btc", "eth"]));
            assert_eq!(columns, svec(&["funding_rate", "coin_open_interest_close"]));
            assert_eq!(start_timestamp_millis, 1000);
            assert_eq!(end_timestamp_millis, 2000);
            assert_eq!(resolution_mins, 60);
        }
        other => panic!("expected a by-coin row query, got {:?}", other),
    }
}

#[test]
fn rows_one_recognized_column_suffices() {
    // deliberately permissive: one valid column among unknown ones passes
    let r = Params::new_rows_params(
        "futures".to_string(),
        svec(&["bybit"]),
        None,
        Some(svec(&["btc"])),
        svec(&["made_up", "premium"]),
        0,
        1,
        1,
    );
    assert!(matches!(r, Ok(Params::RowsCoins { .. })));
}

#[test]
fn unified_constructor_terms() {
    let r = Params::new(
        "terms".to_string(),
        None,
        None,
        None,
        Some(svec(&["btc", "eth"])),
        None,
        None,
        None,
        None,
    );
    match r {
        Ok(Params::Terms { coins }) => assert_eq!(coins, svec(&["btc", "eth"])),
        other => panic!("expected a term-structure query, got {:?}", other),
    }
}

#[test]
fn unified_constructor_caps() {
    let r = Params::new(
        "caps".to_string(),
        None,
        None,
        None,
        Some(svec(&["btc"])),
        None,
        None,
        None,
        None,
    );
    assert!(matches!(r, Ok(Params::Caps { .. })));
}

#[test]
fn unified_constructor_rows_requires_every_field() {
    let r = Params::new(
        "rows".to_string(),
        Some("futures".to_string()),
        Some(svec(&["okex-swap"])),
        None,
        Some(svec(&["btc"])),
        Some(svec(&["funding_rate"])),
        Some(0),
        Some(1),
        None, // resolution missing
    );
    assert!(matches!(r, Err(ApiError::InvalidInput)));
}

#[test]
fn unified_constructor_rows_delegates() {
    let r = Params::new(
        "rows".to_string(),
        Some("futures".to_string()),
        Some(svec(&["okex-swap"])),
        None,
        Some(svec(&["btc", "eth", "sol"])),
        Some(svec(&["funding_rate", "coin_open_interest_close"])),
        Some(0),
        Some(3_600_000),
        Some(1),
    );
    assert!(matches!(r, Ok(Params::RowsCoins { .. })));
}

#[test]
fn unified_constructor_unknown_endpoint_fails() {
    let r = Params::new(
        "prices".to_string(),
        None,
        None,
        None,
        Some(svec(&["btc"])),
        None,
        None,
        None,
        None,
    );
    assert!(matches!(r, Err(ApiError::InvalidInput)));
}

#[test]
fn unified_constructor_terms_without_coins_fails() {
    let r = Params::new("terms".to_string(), None, None, None, None, None, None, None, None);
    assert!(matches!(r, Err(ApiError::InvalidInput)));
}

#[test]
fn terms_and_caps_constructors_never_fail() {
    let coins = svec(&[]);
    assert!(matches!(Params::new_terms_params(&coins), Ok(Params::Terms { .. })));
    assert!(matches!(Params::new_caps_params(&coins), Ok(Params::Caps { .. })));
}
