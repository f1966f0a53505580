//! Rows of the watchlist and position tables.
use vstd::prelude::*;

pub mod position;

verus! {

/// A watchlist group.
#[derive(Debug)]
pub struct WatchlistGroup {
    pub id: i64,
    pub name: String,
    pub sort_order: i64,
    pub created_at: i64,
    pub updated_at: i64,
}

/// A stock on a watchlist.
#[derive(Debug)]
pub struct WatchlistStock {
    pub id: i64,
    pub group_id: i64,
    pub secid: String,
    pub name: Option<String>,
    pub note: Option<String>,
    pub sort_order: i64,
    pub is_pinned: bool,
    pub created_at: i64,
}

/// A position (prices and quantities kept as decimal text).
#[derive(Debug)]
pub struct Position {
    pub id: i64,
    pub group_id: i64,
    pub secid: String,
    pub name: Option<String>,
    pub cost_price: String,
    pub quantity: String,
    pub sort_order: i64,
    pub created_at: i64,
    pub updated_at: i64,
}

} // verus!
