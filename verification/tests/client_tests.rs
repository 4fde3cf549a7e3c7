use velodata::error::ApiError;
use velodata::client::Client;
use velodata::params::Params;

fn svec(xs: &[&str]) -> Vec<String> {
    xs.iter().map(|s| s.to_string()).collect()
}

#[test]
fn new_rejects_empty_key() {
    let r = Client::new("".to_string());
    assert!(matches!(r, Err(ApiError::InvalidInput)));
}

#[test]
fn new_yields_disconnected_with_key() {
    let r = Client::new("k".to_string());
    match r {
        Ok(Client::Offline { api_key }) => assert_eq!(api_key, "k"),
        other => panic!("expected a disconnected client, got {:?}", other),
    }
}

#[test]
fn api_key_is_kept() {
    let c = Client::new("secret-key".to_string()).unwrap();
    assert_eq!(c.api_key(), "secret-key");
}

#[test]
fn timestamp_ms_after_epoch() {
    let c = Client::new("k".to_string()).unwrap();
    assert!(c.timestamp_ms() > 1698794827415);
}

#[test]
fn disconnected_get_futures_fails() {
    let c = Client::new("k".to_string()).unwrap();
    assert!(matches!(c.get_futures(), Err(ApiError::NotConnected)));
}

#[test]
fn disconnected_get_status_fails() {
    let c = Client::new("k".to_string()).unwrap();
    assert!(matches!(c.get_status(), Err(ApiError::NotConnected)));
}

#[test]
fn get_rows_rejects_terms_params() {
    let c = Client::new("k".to_string()).unwrap();
    let params = Params::Terms { coins: svec(&["btc"]) };
    assert!(matches!(c.get_rows(params), Err(ApiError::InvalidInput)));
}

#[test]
fn get_term_structure_rejects_caps_params() {
    let c = Client::new("k".to_string()).unwrap();
    let params = Params::Caps { coins: svec(&["btc"]) };
    assert!(matches!(c.get_term_structure(params), Err(ApiError::InvalidInput)));
}

#[test]
fn get_market_caps_rejects_rows_params() {
    let c = Client::new("k".to_string()).unwrap();
    let params = Params::RowsCoins {
        product_type: "futures".to_string(),
        exchanges: svec(&["bybit"]),
        coins: svec(&["btc"]),
        columns: svec(&["premium"]),
        start_timestamp_millis: 0,
        end_timestamp_millis: 1,
        resolution_mins: 1,
    };
    assert!(matches!(c.get_market_caps(params), Err(ApiError::InvalidInput)));
}

#[test]
fn resolve_connect_keeps_candidate_on_ok() {
    let candidate = Client::new("k".to_string()).unwrap();
    let r = Client::resolve_connect(Ok("ok".to_string()), candidate);
    match r {
        Client::Offline { api_key } => assert_eq!(api_key, "k"),
        other => panic!("expected the candidate back, got {:?}", other),
    }
}

#[test]
fn resolve_connect_falls_back_on_other_body() {
    let candidate = Client::new("k".to_string()).unwrap();
    let r = Client::resolve_connect(Ok("not ok".to_string()), candidate);
    match r {
        Client::Offline { api_key } => assert_eq!(api_key, "k"),
        other => panic!("expected a disconnected client, got {:?}", other),
    }
}

#[test]
fn resolve_connect_falls_back_on_failed_probe() {
    let candidate = Client::new("k".to_string()).unwrap();
    let r = Client::resolve_connect(Err(ApiError::InvalidInput), candidate);
    assert!(matches!(r, Client::Offline { .. }));
}

#[test]
fn connect_without_reachable_endpoint_stays_disconnected() {
    // the status probe cannot succeed here, so connect must fall back to a
    // disconnected client carrying the same credential, without failing
    let c = Client::new("k".to_string()).unwrap().connect();
    match c {
        Client::Offline { api_key } => assert_eq!(api_key, "k"),
        Client::Online { .. } => panic!("connect cannot have verified the probe"),
    }
}

#[test]
fn parse_params_of_none_is_empty() {
    let c = Client::new("k".to_string()).unwrap();
    let pairs = c.parse_params(None);
    assert!(pairs.is_empty());
}
