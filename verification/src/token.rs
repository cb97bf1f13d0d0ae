//! The token record and its descriptive metadata.

use vstd::prelude::*;
use crate::str_map::StrMap;
use crate::str_set::StrSet;

verus! {

/// One token record of the registry.  At creation the approval set is empty,
/// the approval counter is zero, and the royalty map sums to exactly 10000
/// basis points; only out-of-scope approval and transfer logic revisits the
/// first two fields, and nothing ever revisits the royalty map.
pub struct Token {
    /// The account that owns the token.
    pub owner_id: String,
    /// Accounts approved to transfer the token; empty at mint time.
    pub approved_account_ids: StrSet,
    /// Counter handed to the next approval; zero at mint time.
    pub next_approval_id: u64,
    /// Beneficiary account (or sentinel key) to basis-points share.
    pub royalty: StrMap<u32>,
}

/// Descriptive record stored beside a token.  The one field this core reads
/// is `extra`, which may carry a token-type tag consumed by the supply-cap
/// gate; the others are carried through untouched.
pub struct TokenMetadata {
    /// Display title of the token.
    pub title: Option<String>,
    /// Free-form description of the token.
    pub description: Option<String>,
    /// Optional token-type tag; a mint with a tag is counted against the
    /// configured hard cap of that type.
    pub extra: Option<String>,
}

} // verus!
