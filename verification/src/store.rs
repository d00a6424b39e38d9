//! Storefront caching: the keys product lists and product pages are cached
//! under, and how long they are kept.

use vstd::prelude::*;
use vstd::string::*;
use crate::ids::{uuid_text, uuid_to_string};
use crate::text::{i64_to_decimal, signed_decimal, view_opt_str};

verus! {

/// Seconds a cached storefront answer is kept.
pub const STORE_CACHE_TTL_SECS: u64 = 300;

/// A storefront category with its number of live products.
pub struct CategoryResponse {
    pub name: String,
    pub product_count: i64,
}

/// What `format!("{:?}", s)` writes for a text (quoted, with escapes).
pub uninterp spec fn spec_debug_text(s: Seq<char>) -> Seq<char>;

/// Calls `format!("{:?}", s)`; the contract names the result, a function of
/// the characters alone.
#[verifier::external_body]
fn debug_text(s: &str) -> (r: String)
    ensures
        r@ == spec_debug_text(s@),
{
    format!("{:?}", s)
}

/// `Debug` text of an optional text: `None`, or `Some(...)` around its `Debug` text.
pub open spec fn debug_opt(s: Option<Seq<char>>) -> Seq<char> {
    match s {
        Some(s) => "Some("@ + spec_debug_text(s) + ")"@,
        None => "None"@,
    }
}

fn debug_opt_text(s: Option<&str>) -> (r: String)
    ensures
        r@ == debug_opt(view_opt_str(s)),
{
    match s {
        Some(s) => {
            let mut r = String::from_str("Some(");
            let d = debug_text(s);
            r.append(d.as_str());
            r.append(")");
            r
        },
        None => String::from_str("None"),
    }
}

/// Cache key of a storefront list page.
pub open spec fn list_cache_key_spec(page: int, limit: int, category: Option<Seq<char>>, search: Option<Seq<char>>) -> Seq<char> {
    "store:list:"@ + signed_decimal(page) + ":"@ + signed_decimal(limit) + ":"@ + debug_opt(category)
        + ":"@ + debug_opt(search)
}

/// Cache key of a storefront list page for the served page and page size
/// and the requested filters.
pub fn list_cache_key(page: i64, limit: i64, category: Option<&str>, search: Option<&str>) -> (r: String)
    ensures
        r@ == list_cache_key_spec(page as int, limit as int, view_opt_str(category), view_opt_str(search)),
{
    let mut r = String::from_str("store:list:");
    let p = i64_to_decimal(page);
    r.append(p.as_str());
    r.append(":");
    let l = i64_to_decimal(limit);
    r.append(l.as_str());
    r.append(":");
    let c = debug_opt_text(category);
    r.append(c.as_str());
    r.append(":");
    let s = debug_opt_text(search);
    r.append(s.as_str());
    r
}

/// Cache key of a storefront product page.
pub fn product_cache_key(product_id: u128) -> (r: String)
    ensures
        r@ == "store:product:"@ + uuid_text(product_id),
{
    let mut r = String::from_str("store:product:");
    let t = uuid_to_string(product_id);
    r.append(t.as_str());
    r
}

} // verus!
