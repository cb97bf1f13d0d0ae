//! The token registry and the mint operation.
//!
//! All persistent state of the registry lives in the explicit [`Contract`]
//! store.  A mint either commits every one of its writes — token record,
//! metadata record, owner-index entry and optional type-set entry — or fails
//! with one tagged error and leaves the store exactly as it was.

use vstd::prelude::*;
use crate::error::MintError;
use crate::royalty::{
    compute_royalty, entries_sum, perp_view, royalty_entries, royalty_fits,
};
use crate::storage::{compute_required_amount, reconcile_deposit, required_amount};
use crate::str_map::{map_has, map_idx, map_insert, map_val, StrMap};
use crate::str_set::{set_insert, StrSet};
use crate::token::{Token, TokenMetadata};
use crate::token_id::{dec_str, dec_string_u128};

verus! {

/// The aggregate owning all token records, their metadata, the owner index,
/// the per-type issuance sets and the read-only configuration.
pub struct Contract {
    /// The account that owns the contract.
    pub owner_id: String,
    /// The contract-wide royalty cut in basis points, configured externally.
    pub contract_royalty: u32,
    /// Fixed per-token baseline storage overhead, configured externally.
    pub extra_storage_in_bytes_per_token: u64,
    /// Token records by token id; id uniqueness is a hard invariant.
    pub tokens_by_id: StrMap<Token>,
    /// Metadata records by token id; keyed exactly as `tokens_by_id`.
    pub token_metadata_by_id: StrMap<TokenMetadata>,
    /// Ids of the tokens issued to each owner.
    pub tokens_per_owner: StrMap<StrSet>,
    /// Ids of the tokens issued under each token type, created lazily.
    pub tokens_per_type: StrMap<StrSet>,
    /// Configured hard cap of each token type (read-only here, set elsewhere).
    pub hard_cap_by_type: StrMap<u64>,
}

/// The account the new token is minted to: the receiver override when one is
/// supplied, else the calling account.
pub open spec fn opt_owner(receiver_id: Option<String>, predecessor: Seq<char>) -> Seq<char> {
    match receiver_id {
        Some(r) => r@,
        None => predecessor,
    }
}

/// The entry sequence of an optional perpetual-royalty map.
pub open spec fn perp_entries(p: Option<StrMap<u32>>) -> Seq<(Seq<char>, u32)> {
    match p {
        Some(m) => m@,
        None => Seq::empty(),
    }
}

/// The issued supply of one token type: the size of its id set, zero when no
/// set exists yet.
pub open spec fn type_supply_of(tpt: Seq<(Seq<char>, StrSet)>, t: Seq<char>) -> nat {
    if map_has(tpt, t) {
        map_val(tpt, t)@.len()
    } else {
        0
    }
}

/// The id a mint resolves: the explicit id when one is supplied, else the
/// decimal string of (current registry size + 1).
pub open spec fn mint_final_id(c: Contract, token_id: Option<String>) -> Seq<char> {
    match token_id {
        Some(t) => t@,
        None => dec_str((c.token_metadata_by_id@.len() + 1) as nat),
    }
}

/// The royalty entries a mint produces.
pub open spec fn mint_royalty(
    c: Contract,
    perpetual_royalties: Option<StrMap<u32>>,
    receiver_id: Option<String>,
    predecessor_id: String,
) -> Seq<(Seq<char>, u32)> {
    royalty_entries(
        perp_entries(perpetual_royalties),
        opt_owner(receiver_id, predecessor_id@),
        c.owner_id@,
        c.contract_royalty,
    )
}

/// Whether the type tag of the metadata, if any, already has an id set.
pub open spec fn mint_type_set_exists(c: Contract, metadata: TokenMetadata) -> bool {
    match metadata.extra {
        Some(t) => map_has(c.tokens_per_type@, t@),
        None => false,
    }
}

/// The payment a mint requires.
pub open spec fn mint_required(
    c: Contract,
    token_id: Option<String>,
    metadata: TokenMetadata,
    perpetual_royalties: Option<StrMap<u32>>,
    receiver_id: Option<String>,
    predecessor_id: String,
) -> int {
    required_amount(
        c.extra_storage_in_bytes_per_token,
        mint_final_id(c, token_id),
        opt_owner(receiver_id, predecessor_id@),
        mint_royalty(c, perpetual_royalties, receiver_id, predecessor_id),
        metadata,
        mint_type_set_exists(c, metadata),
    )
}

/// The first violated invariant of a mint, in the order the checks run, or
/// `None` when the mint is owed success.
pub open spec fn mint_check(
    c: Contract,
    token_id: Option<String>,
    metadata: TokenMetadata,
    perpetual_royalties: Option<StrMap<u32>>,
    receiver_id: Option<String>,
    predecessor_id: String,
    attached_deposit: u128,
) -> Option<MintError> {
    let pv = perp_entries(perpetual_royalties);
    let roy = mint_royalty(c, perpetual_royalties, receiver_id, predecessor_id);
    let fid = mint_final_id(c, token_id);
    if pv.len() >= 7 {
        Some(MintError::TooManyRoyalties)
    } else if entries_sum(pv) >= 2001 {
        Some(MintError::RoyaltyTooHigh)
    } else if entries_sum(roy) != 10000 {
        Some(MintError::RoyaltyImbalance)
    } else if map_has(c.tokens_by_id@, fid) {
        Some(MintError::DuplicateToken)
    } else if match metadata.extra {
        Some(t) => !map_has(c.hard_cap_by_type@, t@),
        None => false,
    } {
        Some(MintError::UnknownTokenType)
    } else if match metadata.extra {
        Some(t) => type_supply_of(c.tokens_per_type@, t@) >= map_val(c.hard_cap_by_type@, t@),
        None => false,
    } {
        Some(MintError::SupplyExhausted)
    } else if attached_deposit < mint_required(
        c,
        token_id,
        metadata,
        perpetual_royalties,
        receiver_id,
        predecessor_id,
    ) {
        Some(MintError::InsufficientDeposit)
    } else {
        None
    }
}

/// The id set of one owner before a mint; empty when the owner has none yet.
pub open spec fn owner_items_before(c: Contract, eff: Seq<char>) -> Seq<Seq<char>> {
    if map_has(c.tokens_per_owner@, eff) {
        map_val(c.tokens_per_owner@, eff)@
    } else {
        Seq::empty()
    }
}

/// The id set of one token type before a mint; empty when none exists yet.
pub open spec fn type_items_before(c: Contract, t: Seq<char>) -> Seq<Seq<char>> {
    if map_has(c.tokens_per_type@, t) {
        map_val(c.tokens_per_type@, t)@
    } else {
        Seq::empty()
    }
}

/// Every write a successful mint commits, and that it commits nothing else.
pub open spec fn mint_commits(
    pre: Contract,
    post: Contract,
    fid: Seq<char>,
    eff: Seq<char>,
    roy: Seq<(Seq<char>, u32)>,
    metadata: TokenMetadata,
) -> bool {
    &&& post.tokens_by_id@.len() == pre.tokens_by_id@.len() + 1
    &&& post.tokens_by_id@ == pre.tokens_by_id@.push((fid, post.tokens_by_id@.last().1))
    &&& post.tokens_by_id@.last().1.owner_id@ == eff
    &&& post.tokens_by_id@.last().1.approved_account_ids@ == Seq::<Seq<char>>::empty()
    &&& post.tokens_by_id@.last().1.next_approval_id == 0
    &&& post.tokens_by_id@.last().1.royalty@ == roy
    &&& post.token_metadata_by_id@ == pre.token_metadata_by_id@.push((fid, metadata))
    &&& map_has(post.tokens_per_owner@, eff)
    &&& map_val(post.tokens_per_owner@, eff)@ == set_insert(owner_items_before(pre, eff), fid)
    &&& post.tokens_per_owner@ == map_insert(
        pre.tokens_per_owner@,
        eff,
        map_val(post.tokens_per_owner@, eff),
    )
    &&& match metadata.extra {
        Some(t) => {
            &&& map_has(post.tokens_per_type@, t@)
            &&& map_val(post.tokens_per_type@, t@)@ == set_insert(type_items_before(pre, t@), fid)
            &&& post.tokens_per_type@ == map_insert(
                pre.tokens_per_type@,
                t@,
                map_val(post.tokens_per_type@, t@),
            )
        },
        None => post.tokens_per_type@ == pre.tokens_per_type@,
    }
    &&& post.owner_id == pre.owner_id
    &&& post.contract_royalty == pre.contract_royalty
    &&& post.extra_storage_in_bytes_per_token == pre.extra_storage_in_bytes_per_token
    &&& post.hard_cap_by_type@ == pre.hard_cap_by_type@
}

impl Contract {
    /// The registry invariant: every map carries unique keys, token and
    /// metadata records are keyed alike, every recorded royalty map sums to
    /// exactly 10000 basis points, and the contract cut is a basis-points
    /// value.
    pub open spec fn wf(&self) -> bool {
        &&& self.contract_royalty <= 10000
        &&& self.tokens_by_id.wf()
        &&& self.token_metadata_by_id.wf()
        &&& self.tokens_per_owner.wf()
        &&& self.tokens_per_type.wf()
        &&& self.hard_cap_by_type.wf()
        &&& self.tokens_by_id@.len() == self.token_metadata_by_id@.len()
        &&& forall|i: int|
            0 <= i < self.tokens_by_id@.len() ==> (#[trigger] self.tokens_by_id@[i]).0
                == self.token_metadata_by_id@[i].0
        &&& forall|i: int|
            0 <= i < self.tokens_by_id@.len() ==> (#[trigger] self.tokens_by_id@[i]).1.royalty.wf()
                && entries_sum(self.tokens_by_id@[i].1.royalty@) == 10000
        &&& forall|i: int|
            0 <= i < self.tokens_per_owner@.len() ==> (#[trigger] self.tokens_per_owner@[
                i
            ]).1.wf()
        &&& forall|i: int|
            0 <= i < self.tokens_per_type@.len() ==> (#[trigger] self.tokens_per_type@[i]).1.wf()
    }

    /// An empty registry under the given configuration.
    pub fn new(
        owner_id: String,
        contract_royalty: u32,
        extra_storage_in_bytes_per_token: u64,
    ) -> (r: Contract)
        requires
            contract_royalty <= 10000,
        ensures
            r.wf(),
            r.owner_id == owner_id,
            r.contract_royalty == contract_royalty,
            r.extra_storage_in_bytes_per_token == extra_storage_in_bytes_per_token,
            r.tokens_by_id@ == Seq::<(Seq<char>, Token)>::empty(),
            r.token_metadata_by_id@ == Seq::<(Seq<char>, TokenMetadata)>::empty(),
            r.tokens_per_owner@ == Seq::<(Seq<char>, StrSet)>::empty(),
            r.tokens_per_type@ == Seq::<(Seq<char>, StrSet)>::empty(),
            r.hard_cap_by_type@ == Seq::<(Seq<char>, u64)>::empty(),
    {
        Contract {
            owner_id,
            contract_royalty,
            extra_storage_in_bytes_per_token,
            tokens_by_id: StrMap::new(),
            token_metadata_by_id: StrMap::new(),
            tokens_per_owner: StrMap::new(),
            tokens_per_type: StrMap::new(),
            hard_cap_by_type: StrMap::new(),
        }
    }

    /// Configures the hard cap of one token type.  Configuration is read-only
    /// for the mint itself and owed to out-of-scope initialization logic.
    pub fn set_hard_cap(&mut self, token_type: String, cap: u64)
        requires
            old(self).wf(),
        ensures
            final(self).wf(),
            final(self).hard_cap_by_type@ == map_insert(
                old(self).hard_cap_by_type@,
                token_type@,
                cap,
            ),
            final(self).owner_id == old(self).owner_id,
            final(self).contract_royalty == old(self).contract_royalty,
            final(self).extra_storage_in_bytes_per_token == old(
                self,
            ).extra_storage_in_bytes_per_token,
            final(self).tokens_by_id@ == old(self).tokens_by_id@,
            final(self).token_metadata_by_id@ == old(self).token_metadata_by_id@,
            final(self).tokens_per_owner@ == old(self).tokens_per_owner@,
            final(self).tokens_per_type@ == old(self).tokens_per_type@,
    {
        self.hard_cap_by_type.insert(token_type, cap);
    }

    /// The issued supply of one token type.
    pub fn nft_supply_for_type(&self, token_type: &String) -> (r: u64)
        requires
            self.wf(),
        ensures
            r == type_supply_of(self.tokens_per_type@, token_type@),
    {
        match self.tokens_per_type.get(token_type) {
            Some(s) => s.len() as u64,
            None => 0,
        }
    }

    /// The token record stored under an id, if any.
    pub fn token_by_id(&self, token_id: &String) -> (r: Option<&Token>)
        requires
            self.wf(),
        ensures
            match r {
                Some(t) => map_has(self.tokens_by_id@, token_id@) && *t == map_val(
                    self.tokens_by_id@,
                    token_id@,
                ),
                None => !map_has(self.tokens_by_id@, token_id@),
            },
    {
        self.tokens_by_id.get(token_id)
    }

    /// Mints one token: resolves the id, computes the royalty split, persists
    /// the token, its metadata and the owner-index entry, enforces the
    /// per-type supply cap when the metadata carries a type tag, and
    /// reconciles the required storage amount against the attached payment.
    ///
    /// The operation is all-or-nothing: on any failure the registry is left
    /// exactly as it was, and the first violated invariant (in check order)
    /// is reported.  On success the excess of the attached payment over the
    /// required amount is returned, owed back to the payer.
    ///
    /// The `royalty_fits` precondition keeps the owner-share subtraction of
    /// the splitter in machine range; a configuration that breaks it has
    /// no representable owner share at all, and this library's verified
    /// functions do not panic in its place.
    pub fn nft_mint(
        &mut self,
        token_id: Option<String>,
        metadata: TokenMetadata,
        perpetual_royalties: Option<StrMap<u32>>,
        receiver_id: Option<String>,
        predecessor_id: String,
        attached_deposit: u128,
    ) -> (r: Result<u128, MintError>)
        requires
            old(self).wf(),
            (perpetual_royalties matches Some(m) ==> m.wf()),
            royalty_fits(
                perp_entries(perpetual_royalties),
                opt_owner(receiver_id, predecessor_id@),
                old(self).owner_id@,
                old(self).contract_royalty,
            ),
        ensures
            final(self).wf(),
            (match mint_check(
                *old(self),
                token_id,
                metadata,
                perpetual_royalties,
                receiver_id,
                predecessor_id,
                attached_deposit,
            ) {
                Some(e) => r == Err::<u128, MintError>(e) && *final(self) == *old(self),
                None => {
                    &&& (r matches Ok(refund) && refund == attached_deposit - mint_required(
                        *old(self),
                        token_id,
                        metadata,
                        perpetual_royalties,
                        receiver_id,
                        predecessor_id,
                    ))
                    &&& mint_commits(
                        *old(self),
                        *final(self),
                        mint_final_id(*old(self), token_id),
                        opt_owner(receiver_id, predecessor_id@),
                        mint_royalty(*old(self), perpetual_royalties, receiver_id, predecessor_id),
                        metadata,
                    )
                },
            }),
    {
        let ghost pre = *self;
        let ghost fid = mint_final_id(pre, token_id);
        let ghost eff = opt_owner(receiver_id, predecessor_id@);
        let ghost roy = mint_royalty(pre, perpetual_royalties, receiver_id, predecessor_id);

        // Resolve the token id.
        let id_num: u128 = (self.token_metadata_by_id.len() as u128) + 1;
        let final_token_id: String = match token_id {
            Some(t) => t,
            None => dec_string_u128(id_num),
        };
        proof {
            assert(final_token_id@ == fid);
        }

        // Resolve the account the token is minted to.
        let effective_owner: String = match receiver_id {
            Some(rid) => rid,
            None => predecessor_id,
        };
        proof {
            assert(effective_owner@ == eff);
        }

        // Compute the royalty split.
        let perp_ref: Option<&StrMap<u32>> = perpetual_royalties.as_ref();
        proof {
            assert(perp_view(perp_ref) == perp_entries(perpetual_royalties));
        }
        let royalty_map: StrMap<u32> = match compute_royalty(
            &effective_owner,
            perp_ref,
            &self.owner_id,
            self.contract_royalty,
        ) {
            Ok(m) => m,
            Err(e) => {
                proof {
                    assert(mint_check(
                        pre,
                        token_id,
                        metadata,
                        perpetual_royalties,
                        receiver_id,
                        predecessor_id,
                        attached_deposit,
                    ) == Some(e));
                }
                return Err(e);
            },
        };

        // Refuse an id that is already taken.
        if self.tokens_by_id.contains_key(&final_token_id) {
            return Err(MintError::DuplicateToken);
        }

        // Enforce the per-type supply cap when the metadata carries a tag.
        if let Some(token_type) = &metadata.extra {
            let cap: u64 = match self.hard_cap_by_type.get(token_type) {
                Some(c) => *c,
                None => {
                    return Err(MintError::UnknownTokenType);
                },
            };
            let supply: u64 = self.nft_supply_for_type(token_type);
            if supply >= cap {
                return Err(MintError::SupplyExhausted);
            }
        }

        // Measure the storage cost and reconcile it against the payment.
        let type_set_exists: bool = match &metadata.extra {
            Some(t) => self.tokens_per_type.contains_key(t),
            None => false,
        };
        proof {
            assert(royalty_map@.len() <= 8);
        }
        let required: u128 = compute_required_amount(
            self.extra_storage_in_bytes_per_token,
            &final_token_id,
            &effective_owner,
            &royalty_map,
            &metadata,
            type_set_exists,
        );
        let refund: u128 = match reconcile_deposit(required, attached_deposit) {
            Ok(x) => x,
            Err(e) => {
                return Err(e);
            },
        };

        // Every check passed: stage the new records and commit them all.
        let token_owner: String = effective_owner.clone();
        let owner_items: StrSet = match self.tokens_per_owner.get(&effective_owner) {
            Some(s) => {
                proof {
                    crate::str_map::lemma_key_at_index(
                        self.tokens_per_owner@,
                        effective_owner@,
                        map_idx(self.tokens_per_owner@, effective_owner@),
                    );
                }
                s.with_inserted(&final_token_id)
            },
            None => {
                let fresh = StrSet::new();
                fresh.with_inserted(&final_token_id)
            },
        };
        let new_type_set: Option<(String, StrSet)> = match &metadata.extra {
            Some(t) => {
                let items: StrSet = match self.tokens_per_type.get(t) {
                    Some(s) => {
                        proof {
                            crate::str_map::lemma_key_at_index(
                                self.tokens_per_type@,
                                t@,
                                map_idx(self.tokens_per_type@, t@),
                            );
                        }
                        s.with_inserted(&final_token_id)
                    },
                    None => {
                        let fresh = StrSet::new();
                        fresh.with_inserted(&final_token_id)
                    },
                };
                Some((t.clone(), items))
            },
            None => None,
        };

        let token = Token {
            owner_id: token_owner,
            approved_account_ids: StrSet::new(),
            next_approval_id: 0,
            royalty: royalty_map,
        };
        self.tokens_by_id.insert(final_token_id.clone(), token);
        proof {
            assert(self.tokens_by_id@ =~= pre.tokens_by_id@.push(
                (fid, self.tokens_by_id@.last().1),
            ));
            assert(!map_has(pre.token_metadata_by_id@, fid)) by {
                if map_has(pre.token_metadata_by_id@, fid) {
                    let j = choose|j: int|
                        0 <= j < pre.token_metadata_by_id@.len() && (
                        #[trigger] pre.token_metadata_by_id@[j]).0 == fid;
                    assert(pre.tokens_by_id@[j].0 == fid);
                }
            }
        }
        self.token_metadata_by_id.insert(final_token_id.clone(), metadata);
        proof {
            assert(self.token_metadata_by_id@ =~= pre.token_metadata_by_id@.push((fid, metadata)));
        }
        self.tokens_per_owner.insert(effective_owner, owner_items);
        proof {
            crate::str_map::lemma_map_insert_props(pre.tokens_per_owner@, eff, owner_items);
        }
        if let Some((t, ts)) = new_type_set {
            let ghost pre_tpt = self.tokens_per_type@;
            self.tokens_per_type.insert(t, ts);
            proof {
                crate::str_map::lemma_map_insert_props(pre_tpt, t@, ts);
            }
        }

        proof {
            lemma_mint_commit_wf(pre, *self, fid, eff, roy, metadata);
        }
        Ok(refund)
    }
}

/// A registry that satisfied the invariant before a mint satisfies it after
/// the commit of that mint.
proof fn lemma_mint_commit_wf(
    pre: Contract,
    post: Contract,
    fid: Seq<char>,
    eff: Seq<char>,
    roy: Seq<(Seq<char>, u32)>,
    metadata: TokenMetadata,
)
    requires
        pre.wf(),
        post.tokens_by_id.wf(),
        post.token_metadata_by_id.wf(),
        post.tokens_per_owner.wf(),
        post.tokens_per_type.wf(),
        post.hard_cap_by_type.wf(),
        post.contract_royalty == pre.contract_royalty,
        mint_commits(pre, post, fid, eff, roy, metadata),
        entries_sum(roy) == 10000,
        crate::str_map::unique_keys(roy),
        map_val(post.tokens_per_owner@, eff).wf(),
        match metadata.extra {
            Some(t) => map_val(post.tokens_per_type@, t@).wf(),
            None => true,
        },
    ensures
        post.wf(),
{
    let tb = post.tokens_by_id@;
    let pb = pre.tokens_by_id@;
    assert forall|i: int| 0 <= i < tb.len() implies (#[trigger] tb[i]).0
        == post.token_metadata_by_id@[i].0 by {
        if i < pb.len() {
            assert(tb[i] == pb[i]);
            assert(post.token_metadata_by_id@[i] == pre.token_metadata_by_id@[i]);
        }
    }
    assert forall|i: int| 0 <= i < tb.len() implies (#[trigger] tb[i]).1.royalty.wf()
        && entries_sum(tb[i].1.royalty@) == 10000 by {
        if i < pb.len() {
            assert(tb[i] == pb[i]);
            assert(pb[i].1.royalty.wf() && entries_sum(pb[i].1.royalty@) == 10000);
        } else {
            assert(tb[i] == tb.last());
        }
    }
    lemma_insert_keeps_values(pre.tokens_per_owner@, post.tokens_per_owner@, eff, map_val(post.tokens_per_owner@, eff));
    assert forall|i: int| 0 <= i < post.tokens_per_owner@.len() implies (
    #[trigger] post.tokens_per_owner@[i]).1.wf() by {
        assert(map_has(pre.tokens_per_owner@, post.tokens_per_owner@[i].0)
            && post.tokens_per_owner@[i].1 == map_val(pre.tokens_per_owner@, post.tokens_per_owner@[i].0)
            || post.tokens_per_owner@[i].1 == map_val(post.tokens_per_owner@, eff));
        if map_has(pre.tokens_per_owner@, post.tokens_per_owner@[i].0)
            && post.tokens_per_owner@[i].1 == map_val(pre.tokens_per_owner@, post.tokens_per_owner@[i].0) {
            let j = map_idx(pre.tokens_per_owner@, post.tokens_per_owner@[i].0);
            assert(pre.tokens_per_owner@[j].1.wf());
        }
    }
    match metadata.extra {
        Some(t) => {
            lemma_insert_keeps_values(pre.tokens_per_type@, post.tokens_per_type@, t@, map_val(post.tokens_per_type@, t@));
            assert forall|i: int| 0 <= i < post.tokens_per_type@.len() implies (
            #[trigger] post.tokens_per_type@[i]).1.wf() by {
                if map_has(pre.tokens_per_type@, post.tokens_per_type@[i].0)
                    && post.tokens_per_type@[i].1 == map_val(pre.tokens_per_type@, post.tokens_per_type@[i].0) {
                    let j = map_idx(pre.tokens_per_type@, post.tokens_per_type@[i].0);
                    assert(pre.tokens_per_type@[j].1.wf());
                }
            }
        },
        None => {
            assert forall|i: int| 0 <= i < post.tokens_per_type@.len() implies (
            #[trigger] post.tokens_per_type@[i]).1.wf() by {
                assert(post.tokens_per_type@[i] == pre.tokens_per_type@[i]);
            }
        },
    }
}

/// After `map_insert`, every entry either kept its old value under its old
/// key, or is the inserted entry.
proof fn lemma_insert_keeps_values<V>(
    s: Seq<(Seq<char>, V)>,
    t: Seq<(Seq<char>, V)>,
    k: Seq<char>,
    v: V,
)
    requires
        crate::str_map::unique_keys(s),
        t == map_insert(s, k, v),
    ensures
        forall|i: int|
            0 <= i < t.len() ==> (map_has(s, (#[trigger] t[i]).0) && t[i].1 == map_val(
                s,
                t[i].0,
            )) || t[i].1 == v,
{
    assert forall|i: int|
        0 <= i < t.len() implies (map_has(s, (#[trigger] t[i]).0) && t[i].1 == map_val(
        s,
        t[i].0,
    )) || t[i].1 == v by {
        if map_has(s, k) {
            let j = map_idx(s, k);
            if i != j {
                assert(t[i] == s[i]);
                crate::str_map::lemma_key_at_index(s, s[i].0, i);
            }
        } else {
            if i < s.len() {
                assert(t[i] == s[i]);
                crate::str_map::lemma_key_at_index(s, s[i].0, i);
            }
        }
    }
}

/// Minting the same explicit id twice: a first successful mint records the
/// id in the registry, and a second mint of the same explicit id is refused
/// with `DuplicateToken`, whatever its other arguments, provided its own
/// royalty inputs pass the splitter's earlier checks.
pub proof fn lemma_remint_is_duplicate(
    pre: Contract,
    post: Contract,
    first_id: String,
    eff: Seq<char>,
    roy: Seq<(Seq<char>, u32)>,
    md: TokenMetadata,
    metadata2: TokenMetadata,
    perpetual_royalties2: Option<StrMap<u32>>,
    receiver_id2: Option<String>,
    predecessor_id2: String,
    attached_deposit2: u128,
)
    requires
        mint_commits(pre, post, first_id@, eff, roy, md),
        perp_entries(perpetual_royalties2).len() < 7,
        entries_sum(perp_entries(perpetual_royalties2)) < 2001,
        entries_sum(
            mint_royalty(post, perpetual_royalties2, receiver_id2, predecessor_id2),
        ) == 10000,
    ensures
        mint_check(
            post,
            Some(first_id),
            metadata2,
            perpetual_royalties2,
            receiver_id2,
            predecessor_id2,
            attached_deposit2,
        ) == Some(MintError::DuplicateToken),
{
    let tb = post.tokens_by_id@;
    assert(tb[tb.len() - 1].0 == first_id@);
    assert(map_has(tb, first_id@));
}

} // verus!
