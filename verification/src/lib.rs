//! Verified core of the TrendCart backend: request validation, error
//! mapping, cookie and session handling, pagination and the scraper registry.

pub mod text;
pub mod jwt;
pub mod cookies;
pub mod error;
pub mod ids;
pub mod auth;
pub mod pagination;
pub mod access;
pub mod products;
pub mod merchant_links;
pub mod conversions;
pub mod scrape;
pub mod registry;
pub mod cache;
pub mod redirect;
pub mod upload;
pub mod store;
