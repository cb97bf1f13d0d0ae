//! The storage accountant: measures the persistent-storage cost charged for
//! one mint and the payment it requires.
//!
//! The cost of a record is counted in characters of its string parts plus a
//! fixed width for its numeric parts: the token record costs its id, its
//! owner account, eight bytes for the approval counter and, per royalty
//! entry, the beneficiary key plus four bytes for the share; the metadata
//! record costs its id plus its text fields; the owner-index entry costs the
//! owner account plus the id; a type-set entry costs the id, plus the type
//! tag once when the set is created.  The required payment adds the
//! configured per-token baseline overhead.  Whether the attached payment
//! covers that amount is decided by [`reconcile_deposit`]; the refund of any
//! excess is owed to the payer by the surrounding environment.

use vstd::prelude::*;
use vstd::string::StrSliceExecFns;
use crate::error::MintError;
use crate::str_map::StrMap;
use crate::token::TokenMetadata;

verus! {

/// The character count of an optional text field.
pub open spec fn opt_str_len(o: Option<String>) -> int {
    match o {
        Some(s) => s@.len() as int,
        None => 0,
    }
}

/// The storage bytes of the royalty entries of a token record: each entry
/// costs its key plus four bytes for the basis-points share.
pub open spec fn royalty_bytes(s: Seq<(Seq<char>, u32)>) -> int
    decreases s.len(),
{
    if s.len() == 0 {
        0
    } else {
        royalty_bytes(s.drop_last()) + s.last().0.len() + 4
    }
}

/// The storage bytes of the optional type-set insert: nothing without a type
/// tag; else the id, plus the tag once when no set exists for the type yet.
pub open spec fn type_set_bytes(
    extra: Option<String>,
    type_set_exists: bool,
    id: Seq<char>,
) -> int {
    match extra {
        Some(t) => id.len() + if type_set_exists {
            0int
        } else {
            t@.len() as int
        },
        None => 0,
    }
}

/// The marginal storage bytes consumed by one mint: the token record, the
/// metadata record, the owner-index entry and the optional type-set entry.
pub open spec fn mint_storage_delta(
    id: Seq<char>,
    eff: Seq<char>,
    royalty: Seq<(Seq<char>, u32)>,
    metadata: TokenMetadata,
    type_set_exists: bool,
) -> int {
    (id.len() + eff.len() + 8 + royalty_bytes(royalty))  // token record
    + (id.len() + opt_str_len(metadata.title) + opt_str_len(metadata.description) + opt_str_len(
        metadata.extra,
    ))  // metadata record
    + (eff.len() + id.len())  // owner-index entry
    + type_set_bytes(metadata.extra, type_set_exists, id)
}

/// The payment one mint requires: the configured per-token baseline overhead
/// plus the marginal storage bytes of the mint.
pub open spec fn required_amount(
    extra_storage_per_token: u64,
    id: Seq<char>,
    eff: Seq<char>,
    royalty: Seq<(Seq<char>, u32)>,
    metadata: TokenMetadata,
    type_set_exists: bool,
) -> int {
    extra_storage_per_token + mint_storage_delta(id, eff, royalty, metadata, type_set_exists)
}

/// Appending a royalty entry adds its key length plus four to the byte count.
pub proof fn lemma_royalty_bytes_push(s: Seq<(Seq<char>, u32)>, e: (Seq<char>, u32))
    ensures
        royalty_bytes(s.push(e)) == royalty_bytes(s) + e.0.len() + 4,
{
    assert(s.push(e).drop_last() =~= s);
    assert(s.push(e).last() == e);
}

/// The character count of an optional text field, as a number.
fn opt_str_chars(o: &Option<String>) -> (r: u128)
    ensures
        r == opt_str_len(*o),
        r < 0x1_0000_0000_0000_0000,
{
    match o {
        Some(s) => s.as_str().unicode_len() as u128,
        None => 0,
    }
}

/// Computes the payment required for one mint.
///
/// The royalty map of a mint never exceeds eight entries (at most six
/// perpetual shares, the sentinel share and the contract's cut), which keeps
/// the byte count far below the range of the result.
pub fn compute_required_amount(
    extra_storage_per_token: u64,
    id: &String,
    eff: &String,
    royalty: &StrMap<u32>,
    metadata: &TokenMetadata,
    type_set_exists: bool,
) -> (r: u128)
    requires
        royalty@.len() <= 8,
    ensures
        r == required_amount(
            extra_storage_per_token,
            id@,
            eff@,
            royalty@,
            *metadata,
            type_set_exists,
        ),
{
    let id_len = id.as_str().unicode_len() as u128;
    let eff_len = eff.as_str().unicode_len() as u128;

    let n = royalty.len();
    let mut roy_bytes: u128 = 0;
    let mut i: usize = 0;
    while i < n
        invariant
            n == royalty@.len() <= 8,
            i <= n,
            roy_bytes == royalty_bytes(royalty@.subrange(0, i as int)),
            roy_bytes <= i * (0x1_0000_0000_0000_0000u128 + 4),
        decreases n - i,
    {
        let key_len = royalty.key_at(i).as_str().unicode_len() as u128;
        proof {
            assert(royalty@.subrange(0, i + 1 as int) =~= royalty@.subrange(0, i as int).push(
                royalty@[i as int],
            ));
            lemma_royalty_bytes_push(royalty@.subrange(0, i as int), royalty@[i as int]);
        }
        roy_bytes = roy_bytes + key_len + 4;
        i += 1;
    }
    proof {
        assert(royalty@.subrange(0, n as int) =~= royalty@);
    }

    let md_bytes: u128 = opt_str_chars(&metadata.title) + opt_str_chars(&metadata.description)
        + opt_str_chars(&metadata.extra);
    let type_bytes: u128 = match &metadata.extra {
        Some(t) => id_len + if type_set_exists {
            0
        } else {
            t.as_str().unicode_len() as u128
        },
        None => 0,
    };
    let token_bytes: u128 = id_len + eff_len + 8 + roy_bytes;
    let metadata_record_bytes: u128 = id_len + md_bytes;
    let owner_index_bytes: u128 = eff_len + id_len;
    (extra_storage_per_token as u128) + token_bytes + metadata_record_bytes + owner_index_bytes
        + type_bytes
}

/// Reconciles the attached payment of a mint against the required amount:
/// refuses the mint when the payment falls short, else reports the excess
/// owed back to the payer.
pub fn reconcile_deposit(required: u128, attached: u128) -> (r: Result<u128, MintError>)
    ensures
        attached < required <==> r == Err::<u128, MintError>(MintError::InsufficientDeposit),
        attached >= required ==> r == Ok::<u128, MintError>((attached - required) as u128),
{
    if attached < required {
        Err(MintError::InsufficientDeposit)
    } else {
        Ok(attached - required)
    }
}

} // verus!
