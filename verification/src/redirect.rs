//! The affiliate redirect: which client address it counts, and when a
//! merchant link or variant is missing.

use vstd::prelude::*;
use vstd::string::*;
use crate::error::{AppError, ErrorView};
use crate::text::{chars_of, find_char_from, find_from, lemma_find_from, trim, trim_str};

verus! {

/// The first comma-separated entry of an `X-Forwarded-For` value, trimmed.
pub open spec fn first_forwarded_spec(v: Seq<char>) -> Seq<char> {
    trim(v.subrange(0, find_from(v, ',', 0)))
}

/// The first address of an `X-Forwarded-For` header, as text to be parsed.
pub fn first_forwarded_address(forwarded_for: &str) -> (r: &str)
    ensures
        r@ == first_forwarded_spec(forwarded_for@),
{
    let cs = chars_of(forwarded_for);
    let e = find_char_from(&cs, ',', 0);
    proof {
        lemma_find_from(cs@, ',', 0);
    }
    trim_str(forwarded_for.substring_char(0, e))
}

/// The address candidates of a request, in the order they are tried: the
/// first `X-Forwarded-For` entry, then the trimmed `X-Real-IP` value. The
/// first one that parses as an IP address is the client; else `0.0.0.0`.
pub fn client_ip_candidates<'a>(forwarded_for: Option<&'a str>, real_ip: Option<&'a str>) -> (r: Vec<&'a str>)
    ensures
        r@.len() == (if forwarded_for is Some { 1nat } else { 0nat }) + (if real_ip is Some {
            1nat
        } else {
            0nat
        }),
        forwarded_for is Some ==> r@[0]@ == first_forwarded_spec(forwarded_for->0@),
        real_ip is Some ==> r@[r@.len() - 1]@ == trim(real_ip->0@),
{
    let mut r: Vec<&'a str> = Vec::new();
    if let Some(f) = forwarded_for {
        r.push(first_forwarded_address(f));
    }
    if let Some(v) = real_ip {
        r.push(trim_str(v));
    }
    r
}

/// The affiliate URL a redirect goes to, or not found when the link is missing.
pub fn redirect_target(affiliate_url: Option<String>) -> (r: Result<String, AppError>)
    ensures
        match affiliate_url {
            Some(u) => r is Ok && r->Ok_0@ == u@,
            None => r is Err && r->Err_0@ == ErrorView::NotFound("Merchant link not found"@),
        },
{
    match affiliate_url {
        Some(u) => Ok(u),
        None => Err(AppError::not_found("Merchant link not found")),
    }
}

/// A requested variant must belong to the merchant link redirected to.
pub fn check_redirect_variant(variant_requested: bool, variant_belongs: bool) -> (r: Result<(), AppError>)
    ensures
        variant_requested && !variant_belongs ==> r is Err && r->Err_0@ == ErrorView::NotFound(
            "Variant not found for this merchant link"@,
        ),
        !(variant_requested && !variant_belongs) ==> r is Ok,
{
    if variant_requested && !variant_belongs {
        Err(AppError::not_found("Variant not found for this merchant link"))
    } else {
        Ok(())
    }
}

} // verus!
