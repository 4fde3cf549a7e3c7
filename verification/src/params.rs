//! Validated query parameter sets.
//!
//! `Params` is a closed set of query shapes: row queries keyed by coin or by
//! product, term-structure queries, and market-cap queries. The validating
//! constructors reject invalid combinations before any network call is made.
use vstd::prelude::*;

use crate::error::ApiError;
use crate::strutil::{opt_str_views, str_eq, str_views};
use crate::vocab::{
    check_columns_valid, check_exchanges_valid, columns_valid, exchanges_valid,
};

verus! {

/// A validated query shape, immutable once constructed.
#[derive(Debug, Clone)]
pub enum Params {
    /// Time-series rows aggregated per coin.
    RowsCoins {
        product_type: String,
        exchanges: Vec<String>,
        coins: Vec<String>,
        columns: Vec<String>,
        start_timestamp_millis: u128,
        end_timestamp_millis: u128,
        resolution_mins: u32,
    },
    /// Time-series rows for specific exchange-listed products.
    RowsProducts {
        product_type: String,
        exchanges: Vec<String>,
        products: Vec<String>,
        columns: Vec<String>,
        start_timestamp_millis: u128,
        end_timestamp_millis: u128,
        resolution_mins: u32,
    },
    /// Implied-volatility term structure, per coin.
    Terms { coins: Vec<String> },
    /// Market capitalizations, per coin.
    Caps { coins: Vec<String> },
}

/// What the row-query constructor returns, for every combination of inputs:
/// with neither coins nor products it fails; with an unrecognized column or
/// exchange set it fails; otherwise products take precedence over coins.
pub open spec fn rows_outcome(
    r: Result<Params, ApiError>,
    product_type: Seq<char>,
    exchanges: Seq<Seq<char>>,
    products: Option<Seq<Seq<char>>>,
    coins: Option<Seq<Seq<char>>>,
    columns: Seq<Seq<char>>,
    start_ms: u128,
    end_ms: u128,
    resolution: u32,
) -> bool {
    let valid = columns_valid(product_type, columns) && exchanges_valid(product_type, exchanges);
    if coins is None && products is None {
        r == Err::<Params, ApiError>(ApiError::InvalidInput)
    } else if !valid {
        r == Err::<Params, ApiError>(ApiError::InvalidInput)
    } else if products is Some {
        &&& r is Ok
        &&& r->Ok_0 matches Params::RowsProducts {
            product_type: pt,
            exchanges: ex,
            products: pr,
            columns: co,
            start_timestamp_millis: st,
            end_timestamp_millis: en,
            resolution_mins: rm,
        }
        &&& pt@ == product_type
        &&& str_views(ex@) == exchanges
        &&& str_views(pr@) == products->0
        &&& str_views(co@) == columns
        &&& st == start_ms
        &&& en == end_ms
        &&& rm == resolution
    } else {
        &&& r is Ok
        &&& r->Ok_0 matches Params::RowsCoins {
            product_type: pt,
            exchanges: ex,
            coins: cs,
            columns: co,
            start_timestamp_millis: st,
            end_timestamp_millis: en,
            resolution_mins: rm,
        }
        &&& pt@ == product_type
        &&& str_views(ex@) == exchanges
        &&& str_views(cs@) == coins->0
        &&& str_views(co@) == columns
        &&& st == start_ms
        &&& en == end_ms
        &&& rm == resolution
    }
}

impl Params {
    /// Unified constructor: dispatches on the endpoint name and fails with
    /// `InvalidInput` on any unsupported combination.
    pub fn new(
        endpoint: String,
        product_type: Option<String>,
        exchanges: Option<Vec<String>>,
        products: Option<Vec<String>>,
        coins: Option<Vec<String>>,
        columns: Option<Vec<String>>,
        start_timestamp_millis: Option<u128>,
        end_timestamp_millis: Option<u128>,
        resolution_mins: Option<u32>,
    ) -> (r: Result<Params, ApiError>)
        ensures
            endpoint@ == "terms"@ && coins is Some ==> (r matches Ok(p) && (p matches Params::Terms { coins: c } && str_views(c@) == str_views(coins->0@))),
            endpoint@ == "caps"@ && coins is Some ==> (r matches Ok(p) && (p matches Params::Caps { coins: c } && str_views(c@) == str_views(coins->0@))),
            endpoint@ == "rows"@ ==> (
                if product_type is None || exchanges is None || columns is None
                    || start_timestamp_millis is None || end_timestamp_millis is None
                    || resolution_mins is None {
                    r == Err::<Params, ApiError>(ApiError::InvalidInput)
                } else {
                    rows_outcome(
                        r,
                        product_type->0@,
                        str_views(exchanges->0@),
                        opt_str_views(products),
                        opt_str_views(coins),
                        str_views(columns->0@),
                        start_timestamp_millis->0,
                        end_timestamp_millis->0,
                        resolution_mins->0,
                    )
                }
            ),
            endpoint@ != "terms"@ && endpoint@ != "caps"@ && endpoint@ != "rows"@
                ==> r == Err::<Params, ApiError>(ApiError::InvalidInput),
            (endpoint@ == "terms"@ || endpoint@ == "caps"@) && coins is None
                ==> r == Err::<Params, ApiError>(ApiError::InvalidInput),
    {
        proof {
            reveal_strlit("terms");
            reveal_strlit("caps");
            reveal_strlit("rows");
            assert("terms"@.len() == 5);
            assert("caps"@.len() == 4);
            assert("rows"@.len() == 4);
            assert("caps"@[0] == 'c');
            assert("rows"@[0] == 'r');
        }
        if str_eq(endpoint.as_str(), "terms") && coins.is_some() {
            match coins {
                Option::Some(c) => Self::new_terms_params(&c),
                Option::None => Err(ApiError::InvalidInput),
            }
        } else if str_eq(endpoint.as_str(), "caps") && coins.is_some() {
            match coins {
                Option::Some(c) => Self::new_caps_params(&c),
                Option::None => Err(ApiError::InvalidInput),
            }
        } else if str_eq(endpoint.as_str(), "rows") {
            match (product_type, exchanges, columns, start_timestamp_millis, end_timestamp_millis, resolution_mins) {
                (Option::Some(pt), Option::Some(ex), Option::Some(co), Option::Some(st), Option::Some(en), Option::Some(rm)) => {
                    Self::new_rows_params(pt, ex, products, coins, co, st, en, rm)
                },
                _ => Err(ApiError::InvalidInput),
            }
        } else {
            Err(ApiError::InvalidInput)
        }
    }

    /// Row-query constructor: checks that the columns and exchanges each
    /// intersect the vocabulary of the product type, and that at least one of
    /// coins or products is present; products take precedence over coins.
    pub fn new_rows_params(
        product_type: String,
        exchanges: Vec<String>,
        products: Option<Vec<String>>,
        coins: Option<Vec<String>>,
        columns: Vec<String>,
        start_timestamp_millis: u128,
        end_timestamp_millis: u128,
        resolution_mins: u32,
    ) -> (r: Result<Params, ApiError>)
        ensures
            rows_outcome(
                r,
                product_type@,
                str_views(exchanges@),
                opt_str_views(products),
                opt_str_views(coins),
                str_views(columns@),
                start_timestamp_millis,
                end_timestamp_millis,
                resolution_mins,
            ),
    {
        let cols_ok = check_columns_valid(product_type.as_str(), &columns);
        let exch_ok = check_exchanges_valid(product_type.as_str(), &exchanges);
        if coins.is_none() && products.is_none() {
            return Err(ApiError::InvalidInput);
        }
        if !(cols_ok && exch_ok) {
            return Err(ApiError::InvalidInput);
        }
        match products {
            Option::Some(pr) => Ok(Params::RowsProducts {
                product_type,
                exchanges,
                products: pr,
                columns,
                start_timestamp_millis,
                end_timestamp_millis,
                resolution_mins,
            }),
            Option::None => match coins {
                Option::Some(cs) => Ok(Params::RowsCoins {
                    product_type,
                    exchanges,
                    coins: cs,
                    columns,
                    start_timestamp_millis,
                    end_timestamp_millis,
                    resolution_mins,
                }),
                Option::None => Err(ApiError::InvalidInput),
            },
        }
    }

    /// Term-structure constructor: wraps the coin list; never fails.
    pub fn new_terms_params(coins: &Vec<String>) -> (r: Result<Params, ApiError>)
        ensures
            r matches Ok(p) && (p matches Params::Terms { coins: c } && str_views(c@) == str_views(coins@)),
    {
        Ok(Params::Terms { coins: coins.clone() })
    }

    /// Market-caps constructor: wraps the coin list; never fails.
    pub fn new_caps_params(coins: &Vec<String>) -> (r: Result<Params, ApiError>)
        ensures
            r matches Ok(p) && (p matches Params::Caps { coins: c } && str_views(c@) == str_views(coins@)),
    {
        Ok(Params::Caps { coins: coins.clone() })
    }
}

/// With both coins and products present and a valid column and exchange set,
/// the row-query constructor yields the by-product variant: products take
/// precedence over coins.
pub proof fn lemma_rows_product_precedence(
    r: Result<Params, ApiError>,
    product_type: Seq<char>,
    exchanges: Seq<Seq<char>>,
    products: Seq<Seq<char>>,
    coins: Seq<Seq<char>>,
    columns: Seq<Seq<char>>,
    start_ms: u128,
    end_ms: u128,
    resolution: u32,
)
    requires
        rows_outcome(r, product_type, exchanges, Some(products), Some(coins), columns, start_ms, end_ms, resolution),
        columns_valid(product_type, columns),
        exchanges_valid(product_type, exchanges),
    ensures
        r matches Ok(p) && p is RowsProducts,
{
}

/// With neither coins nor products, the row-query constructor fails with
/// `InvalidInput`, whatever the other arguments are.
pub proof fn lemma_rows_requires_subject(
    r: Result<Params, ApiError>,
    product_type: Seq<char>,
    exchanges: Seq<Seq<char>>,
    columns: Seq<Seq<char>>,
    start_ms: u128,
    end_ms: u128,
    resolution: u32,
)
    requires
        rows_outcome(r, product_type, exchanges, None, None, columns, start_ms, end_ms, resolution),
    ensures
        r == Err::<Params, ApiError>(ApiError::InvalidInput),
{
}

/// With a column list that misses the vocabulary of the product type, the
/// row-query constructor fails with `InvalidInput`, even when the exchange
/// list is valid.
pub proof fn lemma_rows_rejects_foreign_columns(
    r: Result<Params, ApiError>,
    product_type: Seq<char>,
    exchanges: Seq<Seq<char>>,
    products: Option<Seq<Seq<char>>>,
    coins: Option<Seq<Seq<char>>>,
    columns: Seq<Seq<char>>,
    start_ms: u128,
    end_ms: u128,
    resolution: u32,
)
    requires
        rows_outcome(r, product_type, exchanges, products, coins, columns, start_ms, end_ms, resolution),
        !columns_valid(product_type, columns),
    ensures
        r == Err::<Params, ApiError>(ApiError::InvalidInput),
{
}

/// With an exchange list that misses the vocabulary of the product type, the
/// row-query constructor fails with `InvalidInput`.
pub proof fn lemma_rows_rejects_foreign_exchanges(
    r: Result<Params, ApiError>,
    product_type: Seq<char>,
    exchanges: Seq<Seq<char>>,
    products: Option<Seq<Seq<char>>>,
    coins: Option<Seq<Seq<char>>>,
    columns: Seq<Seq<char>>,
    start_ms: u128,
    end_ms: u128,
    resolution: u32,
)
    requires
        rows_outcome(r, product_type, exchanges, products, coins, columns, start_ms, end_ms, resolution),
        !exchanges_valid(product_type, exchanges),
    ensures
        r == Err::<Params, ApiError>(ApiError::InvalidInput),
{
}

} // verus!
