//! Serialization of a parameter set into query key/value pairs.
//!
//! List values are comma-joined; timestamps and the resolution are rendered
//! as decimal strings.
use vstd::prelude::*;
use vstd::string::StringExecFns;

use crate::numfmt::{dec_str, u128_to_dec};
use crate::params::Params;
use crate::strutil::str_views;

verus! {

/// The comma-join of a sequence of strings, in order, with no trailing
/// separator.
pub open spec fn join_commas(items: Seq<Seq<char>>) -> Seq<char>
    decreases items.len(),
{
    if items.len() == 0 {
        Seq::empty()
    } else if items.len() == 1 {
        items[0]
    } else {
        items[0] + seq![','] + join_commas(items.skip(1))
    }
}

fn join_from(items: &Vec<String>, i: usize) -> (r: String)
    requires
        i <= items@.len(),
    ensures
        r@ == join_commas(str_views(items@).skip(i as int)),
    decreases items@.len() - i,
{
    if i == items.len() {
        proof {
            assert(str_views(items@).skip(i as int) =~= Seq::<Seq<char>>::empty());
        }
        String::new()
    } else if i + 1 == items.len() {
        let s = items[i].clone();
        proof {
            let sk = str_views(items@).skip(i as int);
            assert(sk[0] == str_views(items@)[i as int]);
        }
        s
    } else {
        let mut s: String = items[i].clone();
        s.append(",");
        let rest = join_from(items, i + 1);
        let out = s.concat(rest.as_str());
        proof {
            reveal_strlit(",");
            let sk = str_views(items@).skip(i as int);
            assert(sk[0] == str_views(items@)[i as int]);
            assert(sk.skip(1) =~= str_views(items@).skip((i + 1) as int));
            assert(","@ =~= seq![',']);
            assert(out@ =~= sk[0] + seq![','] + join_commas(sk.skip(1)));
        }
        out
    }
}

/// Joins a list of strings with commas.
pub fn join_with_commas(items: &Vec<String>) -> (r: String)
    ensures
        r@ == join_commas(str_views(items@)),
{
    let r = join_from(items, 0);
    proof {
        assert(str_views(items@).skip(0) =~= str_views(items@));
    }
    r
}

/// The query key/value pairs that a parameter set serializes to, in order.
pub open spec fn query_pairs(p: Params) -> Seq<(Seq<char>, Seq<char>)> {
    match p {
        Params::Terms { coins } => seq![("coins"@, join_commas(str_views(coins@)))],
        Params::Caps { coins } => seq![("coins"@, join_commas(str_views(coins@)))],
        Params::RowsCoins {
            product_type,
            exchanges,
            coins,
            columns,
            start_timestamp_millis,
            end_timestamp_millis,
            resolution_mins,
        } => seq![
            ("type"@, product_type@),
            ("exchanges"@, join_commas(str_views(exchanges@))),
            ("coins"@, join_commas(str_views(coins@))),
            ("columns"@, join_commas(str_views(columns@))),
            ("begin"@, dec_str(start_timestamp_millis as nat)),
            ("end"@, dec_str(end_timestamp_millis as nat)),
            ("resolution"@, dec_str(resolution_mins as nat)),
        ],
        Params::RowsProducts {
            product_type,
            exchanges,
            products,
            columns,
            start_timestamp_millis,
            end_timestamp_millis,
            resolution_mins,
        } => seq![
            ("type"@, product_type@),
            ("exchanges"@, join_commas(str_views(exchanges@))),
            ("products"@, join_commas(str_views(products@))),
            ("columns"@, join_commas(str_views(columns@))),
            ("begin"@, dec_str(start_timestamp_millis as nat)),
            ("end"@, dec_str(end_timestamp_millis as nat)),
            ("resolution"@, dec_str(resolution_mins as nat)),
        ],
    }
}

/// View of a list of string pairs: the pairs of their character sequences.
pub open spec fn pair_views(v: Seq<(String, String)>) -> Seq<(Seq<char>, Seq<char>)> {
    v.map_values(|p: (String, String)| (p.0@, p.1@))
}

/// Serializes a parameter set into its query key/value pairs.
pub fn pairs_for(p: &Params) -> (r: Vec<(String, String)>)
    ensures
        pair_views(r@) == query_pairs(*p),
{
    match p {
        Params::Terms { coins } => {
            let mut v: Vec<(String, String)> = Vec::new();
            v.push((String::from_str("coins"), join_with_commas(coins)));
            proof {
                assert(pair_views(v@) =~= query_pairs(*p));
            }
            v
        },
        Params::Caps { coins } => {
            let mut v: Vec<(String, String)> = Vec::new();
            v.push((String::from_str("coins"), join_with_commas(coins)));
            proof {
                assert(pair_views(v@) =~= query_pairs(*p));
            }
            v
        },
        Params::RowsCoins {
            product_type,
            exchanges,
            coins,
            columns,
            start_timestamp_millis,
            end_timestamp_millis,
            resolution_mins,
        } => {
            let mut v: Vec<(String, String)> = Vec::new();
            v.push((String::from_str("type"), product_type.clone()));
            v.push((String::from_str("exchanges"), join_with_commas(exchanges)));
            v.push((String::from_str("coins"), join_with_commas(coins)));
            v.push((String::from_str("columns"), join_with_commas(columns)));
            v.push((String::from_str("begin"), u128_to_dec(*start_timestamp_millis)));
            v.push((String::from_str("end"), u128_to_dec(*end_timestamp_millis)));
            v.push((String::from_str("resolution"), u128_to_dec(*resolution_mins as u128)));
            proof {
                assert(pair_views(v@) =~= query_pairs(*p));
            }
            v
        },
        Params::RowsProducts {
            product_type,
            exchanges,
            products,
            columns,
            start_timestamp_millis,
            end_timestamp_millis,
            resolution_mins,
        } => {
            let mut v: Vec<(String, String)> = Vec::new();
            v.push((String::from_str("type"), product_type.clone()));
            v.push((String::from_str("exchanges"), join_with_commas(exchanges)));
            v.push((String::from_str("products"), join_with_commas(products)));
            v.push((String::from_str("columns"), join_with_commas(columns)));
            v.push((String::from_str("begin"), u128_to_dec(*start_timestamp_millis)));
            v.push((String::from_str("end"), u128_to_dec(*end_timestamp_millis)));
            v.push((String::from_str("resolution"), u128_to_dec(*resolution_mins as u128)));
            proof {
                assert(pair_views(v@) =~= query_pairs(*p));
            }
            v
        },
    }
}

} // verus!
