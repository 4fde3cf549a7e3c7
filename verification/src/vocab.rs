//! The fixed column and exchange vocabularies, one pair per product type.
//!
//! Validation is membership only: a row query passes when at least one
//! requested column and one requested exchange belong to the vocabulary of
//! its product type.
use vstd::prelude::*;
use crate::strutil::str_eq;

verus! {

/// Membership in the fixed futures exchanges vocabulary.
pub open spec fn in_futures_exchanges(s: Seq<char>) -> bool {
    s == "binance-futures"@
    || s == "bybit"@
    || s == "deribit"@
    || s == "okex-swap"@
}

/// Decides membership in the futures exchanges vocabulary.
pub fn check_futures_exchanges(s: &str) -> (r: bool)
    ensures
        r == in_futures_exchanges(s@),
{
    str_eq(s, "binance-futures")
    || str_eq(s, "bybit")
    || str_eq(s, "deribit")
    || str_eq(s, "okex-swap")
}

/// Membership in the fixed spot exchanges vocabulary.
pub open spec fn in_spot_exchanges(s: Seq<char>) -> bool {
    s == "binance"@
    || s == "coinbase"@
}

/// Decides membership in the spot exchanges vocabulary.
pub fn check_spot_exchanges(s: &str) -> (r: bool)
    ensures
        r == in_spot_exchanges(s@),
{
    str_eq(s, "binance")
    || str_eq(s, "coinbase")
}

/// Membership in the fixed options exchanges vocabulary.
pub open spec fn in_options_exchanges(s: Seq<char>) -> bool {
    s == "deribit"@
}

/// Decides membership in the options exchanges vocabulary.
pub fn check_options_exchanges(s: &str) -> (r: bool)
    ensures
        r == in_options_exchanges(s@),
{
    str_eq(s, "deribit")
}

/// Membership in the fixed futures columns vocabulary.
pub open spec fn in_futures_columns(s: Seq<char>) -> bool {
    s == "open_price"@
    || s == "high_price"@
    || s == "low_price"@
    || s == "close_price"@
    || s == "coin_volume"@
    || s == "dollar_volume"@
    || s == "buy_trades"@
    || s == "sell_trades"@
    || s == "total_trades"@
    || s == "buy_coin_volume"@
    || s == "sell_coin_volume"@
    || s == "buy_dollar_volume"@
    || s == "sell_dollar_volume"@
    || s == "coin_open_interest_high"@
    || s == "coin_open_interest_low"@
    || s == "coin_open_interest_close"@
    || s == "dollar_open_interest_high"@
    || s == "dollar_open_interest_low"@
    || s == "dollar_open_interest_close"@
    || s == "funding_rate"@
    || s == "premium"@
    || s == "buy_liquidations"@
    || s == "sell_liquidations"@
    || s == "buy_liquidations_coin_volume"@
    || s == "sell_liquidations_coin_volume"@
    || s == "liquidations_coin_volume"@
    || s == "buy_liquidations_dollar_volume"@
    || s == "sell_liquidations_dollar_volume"@
    || s == "liquidations_dollar_volume"@
}

/// Decides membership in the futures columns vocabulary.
pub fn check_futures_columns(s: &str) -> (r: bool)
    ensures
        r == in_futures_columns(s@),
{
    str_eq(s, "open_price")
    || str_eq(s, "high_price")
    || str_eq(s, "low_price")
    || str_eq(s, "close_price")
    || str_eq(s, "coin_volume")
    || str_eq(s, "dollar_volume")
    || str_eq(s, "buy_trades")
    || str_eq(s, "sell_trades")
    || str_eq(s, "total_trades")
    || str_eq(s, "buy_coin_volume")
    || str_eq(s, "sell_coin_volume")
    || str_eq(s, "buy_dollar_volume")
    || str_eq(s, "sell_dollar_volume")
    || str_eq(s, "coin_open_interest_high")
    || str_eq(s, "coin_open_interest_low")
    || str_eq(s, "coin_open_interest_close")
    || str_eq(s, "dollar_open_interest_high")
    || str_eq(s, "dollar_open_interest_low")
    || str_eq(s, "dollar_open_interest_close")
    || str_eq(s, "funding_rate")
    || str_eq(s, "premium")
    || str_eq(s, "buy_liquidations")
    || str_eq(s, "sell_liquidations")
    || str_eq(s, "buy_liquidations_coin_volume")
    || str_eq(s, "sell_liquidations_coin_volume")
    || str_eq(s, "liquidations_coin_volume")
    || str_eq(s, "buy_liquidations_dollar_volume")
    || str_eq(s, "sell_liquidations_dollar_volume")
    || str_eq(s, "liquidations_dollar_volume")
}

/// Membership in the fixed spot columns vocabulary.
pub open spec fn in_spot_columns(s: Seq<char>) -> bool {
    s == "iv_1w"@
    || s == "iv_1m"@
    || s == "iv_3m"@
    || s == "iv_6m"@
    || s == "skew_1w"@
    || s == "skew_1m"@
    || s == "skew_3m"@
    || s == "skew_6m"@
    || s == "vega_coins"@
    || s == "vega_dollars"@
    || s == "call_delta_coins"@
    || s == "call_delta_dollars"@
    || s == "put_delta_coins"@
    || s == "put_delta_dollars"@
    || s == "gamma_coins"@
    || s == "gamma_dollars"@
    || s == "call_volume"@
    || s == "call_premium"@
    || s == "call_notional"@
    || s == "put_volume"@
    || s == "put_premium"@
    || s == "put_notional"@
    || s == "dollar_volume"@
    || s == "dvol_open"@
    || s == "dvol_high"@
    || s == "dvol_low"@
    || s == "dvol_close"@
    || s == "index_price"@
}

/// Decides membership in the spot columns vocabulary.
pub fn check_spot_columns(s: &str) -> (r: bool)
    ensures
        r == in_spot_columns(s@),
{
    str_eq(s, "iv_1w")
    || str_eq(s, "iv_1m")
    || str_eq(s, "iv_3m")
    || str_eq(s, "iv_6m")
    || str_eq(s, "skew_1w")
    || str_eq(s, "skew_1m")
    || str_eq(s, "skew_3m")
    || str_eq(s, "skew_6m")
    || str_eq(s, "vega_coins")
    || str_eq(s, "vega_dollars")
    || str_eq(s, "call_delta_coins")
    || str_eq(s, "call_delta_dollars")
    || str_eq(s, "put_delta_coins")
    || str_eq(s, "put_delta_dollars")
    || str_eq(s, "gamma_coins")
    || str_eq(s, "gamma_dollars")
    || str_eq(s, "call_volume")
    || str_eq(s, "call_premium")
    || str_eq(s, "call_notional")
    || str_eq(s, "put_volume")
    || str_eq(s, "put_premium")
    || str_eq(s, "put_notional")
    || str_eq(s, "dollar_volume")
    || str_eq(s, "dvol_open")
    || str_eq(s, "dvol_high")
    || str_eq(s, "dvol_low")
    || str_eq(s, "dvol_close")
    || str_eq(s, "index_price")
}

/// Membership in the fixed options columns vocabulary.
pub open spec fn in_options_columns(s: Seq<char>) -> bool {
    s == "open_price"@
    || s == "high_price"@
    || s == "low_price"@
    || s == "close_price"@
    || s == "coin_volume"@
    || s == "dollar_volume"@
    || s == "buy_trades"@
    || s == "sell_trades"@
    || s == "total_trades"@
    || s == "buy_coin_volume"@
    || s == "sell_coin_volume"@
    || s == "buy_dollar_volume"@
    || s == "sell_dollar_volume"@
}

/// Decides membership in the options columns vocabulary.
pub fn check_options_columns(s: &str) -> (r: bool)
    ensures
        r == in_options_columns(s@),
{
    str_eq(s, "open_price")
    || str_eq(s, "high_price")
    || str_eq(s, "low_price")
    || str_eq(s, "close_price")
    || str_eq(s, "coin_volume")
    || str_eq(s, "dollar_volume")
    || str_eq(s, "buy_trades")
    || str_eq(s, "sell_trades")
    || str_eq(s, "total_trades")
    || str_eq(s, "buy_coin_volume")
    || str_eq(s, "sell_coin_volume")
    || str_eq(s, "buy_dollar_volume")
    || str_eq(s, "sell_dollar_volume")
}

/// A column name is in the vocabulary of the given product type.
pub open spec fn column_in_vocab(product_type: Seq<char>, c: Seq<char>) -> bool {
    if product_type == "futures"@ {
        in_futures_columns(c)
    } else if product_type == "spot"@ {
        in_spot_columns(c)
    } else if product_type == "options"@ {
        in_options_columns(c)
    } else {
        false
    }
}

/// An exchange name is in the vocabulary of the given product type.
pub open spec fn exchange_in_vocab(product_type: Seq<char>, e: Seq<char>) -> bool {
    if product_type == "futures"@ {
        in_futures_exchanges(e)
    } else if product_type == "spot"@ {
        in_spot_exchanges(e)
    } else if product_type == "options"@ {
        in_options_exchanges(e)
    } else {
        false
    }
}

/// At least one requested column is valid for the product type.
pub open spec fn columns_valid(product_type: Seq<char>, columns: Seq<Seq<char>>) -> bool {
    exists|i: int| 0 <= i < columns.len() && column_in_vocab(product_type, #[trigger] columns[i])
}

/// At least one requested exchange is valid for the product type.
pub open spec fn exchanges_valid(product_type: Seq<char>, exchanges: Seq<Seq<char>>) -> bool {
    exists|i: int| 0 <= i < exchanges.len() && exchange_in_vocab(product_type, #[trigger] exchanges[i])
}

/// Decides whether a column name is in the vocabulary of the product type.
pub fn check_column_in_vocab(product_type: &str, c: &str) -> (r: bool)
    ensures
        r == column_in_vocab(product_type@, c@),
{
    if str_eq(product_type, "futures") {
        check_futures_columns(c)
    } else if str_eq(product_type, "spot") {
        check_spot_columns(c)
    } else if str_eq(product_type, "options") {
        check_options_columns(c)
    } else {
        false
    }
}

/// Decides whether an exchange name is in the vocabulary of the product type.
pub fn check_exchange_in_vocab(product_type: &str, e: &str) -> (r: bool)
    ensures
        r == exchange_in_vocab(product_type@, e@),
{
    if str_eq(product_type, "futures") {
        check_futures_exchanges(e)
    } else if str_eq(product_type, "spot") {
        check_spot_exchanges(e)
    } else if str_eq(product_type, "options") {
        check_options_exchanges(e)
    } else {
        false
    }
}

/// Decides whether at least one column in the list is valid for the type.
pub fn check_columns_valid(product_type: &str, columns: &Vec<String>) -> (r: bool)
    ensures
        r == columns_valid(product_type@, crate::strutil::str_views(columns@)),
{
    let mut i: usize = 0;
    while i < columns.len()
        invariant
            i <= columns@.len(),
            forall|j: int| 0 <= j < i ==> !column_in_vocab(product_type@, #[trigger] crate::strutil::str_views(columns@)[j]),
        decreases columns@.len() - i,
    {
        if check_column_in_vocab(product_type, columns[i].as_str()) {
            proof {
                assert(crate::strutil::str_views(columns@)[i as int] == columns@[i as int]@);
            }
            return true;
        }
        i += 1;
    }
    false
}

/// Decides whether at least one exchange in the list is valid for the type.
pub fn check_exchanges_valid(product_type: &str, exchanges: &Vec<String>) -> (r: bool)
    ensures
        r == exchanges_valid(product_type@, crate::strutil::str_views(exchanges@)),
{
    let mut i: usize = 0;
    while i < exchanges.len()
        invariant
            i <= exchanges@.len(),
            forall|j: int| 0 <= j < i ==> !exchange_in_vocab(product_type@, #[trigger] crate::strutil::str_views(exchanges@)[j]),
        decreases exchanges@.len() - i,
    {
        if check_exchange_in_vocab(product_type, exchanges[i].as_str()) {
            proof {
                assert(crate::strutil::str_views(exchanges@)[i as int] == exchanges@[i as int]@);
            }
            return true;
        }
        i += 1;
    }
    false
}

} // verus!
