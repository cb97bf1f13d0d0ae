//! The royalty splitter: turns (effective owner, optional perpetual-royalty
//! map, contract owner, contract royalty cut) into a validated royalty map
//! whose values sum to exactly 10000 basis points.
//!
//! The share of the minting owner is stored under the synthetic sentinel key
//! `"owner:" + <account>`, which shields it from being overwritten later by a
//! same-named beneficiary entry.  The scheme is kept exactly as configured
//! registries rely on it: a perpetual-royalty map that itself carries the
//! contract owner's account key, or a key textually equal to the sentinel,
//! collides with the inserted shares, and the defensive final sum check then
//! refuses the mint with `RoyaltyImbalance`.

use vstd::prelude::*;
use vstd::string::StringExecFns;
use crate::error::MintError;
use crate::str_map::{map_insert, StrMap};

verus! {

/// The sum of the basis-points values of an entry sequence.
pub open spec fn entries_sum(s: Seq<(Seq<char>, u32)>) -> int
    decreases s.len(),
{
    if s.len() == 0 {
        0
    } else {
        entries_sum(s.drop_last()) + s.last().1
    }
}

/// The sentinel royalty key reserving the minting owner's share.
pub open spec fn sentinel_key(account: Seq<char>) -> Seq<char> {
    "owner:"@ + account
}

/// The royalty entries produced for effective owner `eff`, perpetual entries
/// `p`, contract owner `owner` and contract royalty cut `cut`: the perpetual
/// entries, then the owner's share under the sentinel key, and, when the mint
/// is not a primary sale by the contract owner, the contract's cut under the
/// contract owner's real key.
pub open spec fn royalty_entries(
    p: Seq<(Seq<char>, u32)>,
    eff: Seq<char>,
    owner: Seq<char>,
    cut: u32,
) -> Seq<(Seq<char>, u32)> {
    let total = entries_sum(p);
    if eff != owner {
        map_insert(
            map_insert(p, sentinel_key(eff), (10000 - total - cut) as u32),
            owner,
            cut,
        )
    } else {
        map_insert(p, sentinel_key(owner), (10000 - total) as u32)
    }
}

/// The owner-share subtraction `10000 - total - cut` stays in `u32` range on
/// every path the splitter can reach.
pub open spec fn royalty_fits(
    p: Seq<(Seq<char>, u32)>,
    eff: Seq<char>,
    owner: Seq<char>,
    cut: u32,
) -> bool {
    (p.len() < 7 && entries_sum(p) < 2001 && eff != owner) ==> entries_sum(p) + cut <= 10000
}

/// A sum of basis-points values is never negative.
pub proof fn lemma_entries_sum_nonneg(s: Seq<(Seq<char>, u32)>)
    ensures
        entries_sum(s) >= 0,
    decreases s.len(),
{
    if s.len() > 0 {
        lemma_entries_sum_nonneg(s.drop_last());
    }
}

/// Appending an entry adds its value to the sum.
pub proof fn lemma_entries_sum_push(s: Seq<(Seq<char>, u32)>, e: (Seq<char>, u32))
    ensures
        entries_sum(s.push(e)) == entries_sum(s) + e.1,
{
    assert(s.push(e).drop_last() =~= s);
    assert(s.push(e).last() == e);
}

impl StrMap<u32> {
    /// The sum of all values of the map.
    pub fn values_sum(&self) -> (r: u64)
        requires
            self@.len() <= 0xFFFF_FFFF,
        ensures
            r == entries_sum(self@),
    {
        let n = self.len();
        let mut acc: u64 = 0;
        let mut i: usize = 0;
        while i < n
            invariant
                n == self@.len() <= 0xFFFF_FFFF,
                i <= n,
                acc == entries_sum(self@.subrange(0, i as int)),
                acc <= i * 0xFFFF_FFFFu64,
            decreases n - i,
        {
            let v = *self.val_at(i);
            proof {
                assert(self@.subrange(0, i + 1 as int) =~= self@.subrange(0, i as int).push(
                    self@[i as int],
                ));
                lemma_entries_sum_push(self@.subrange(0, i as int), self@[i as int]);
            }
            acc = acc + (v as u64);
            i += 1;
        }
        proof {
            assert(self@.subrange(0, n as int) =~= self@);
        }
        acc
    }
}

/// Computes the royalty map of a mint.
///
/// `effective_owner` is the receiver override when one was supplied, else the
/// calling account.  The result either is the validated royalty map, whose
/// values sum to exactly 10000 basis points, or names the first violated
/// invariant: too many perpetual entries, a perpetual sum at or above 2001,
/// or a final map that does not balance (possible only when a perpetual key
/// collides with the sentinel or contract-owner key).
///
/// The `royalty_fits` precondition keeps the owner-share subtraction in
/// machine range; a configuration that breaks it has no
/// representable owner share at all, and this library's verified functions
/// do not panic in its place.
pub fn compute_royalty(
    effective_owner: &String,
    perpetual_royalties: Option<&StrMap<u32>>,
    contract_owner: &String,
    contract_royalty: u32,
) -> (r: Result<StrMap<u32>, MintError>)
    requires
        (perpetual_royalties matches Some(m) ==> m.wf()),
        royalty_fits(perp_view(perpetual_royalties), effective_owner@, contract_owner@, contract_royalty),
    ensures
        (r matches Err(e) && e == MintError::TooManyRoyalties) <==> perp_view(
            perpetual_royalties,
        ).len() >= 7,
        (r matches Err(e) && e == MintError::RoyaltyTooHigh) <==> (perp_view(
            perpetual_royalties,
        ).len() < 7 && entries_sum(perp_view(perpetual_royalties)) >= 2001),
        (r matches Err(e) && e == MintError::RoyaltyImbalance) <==> (perp_view(
            perpetual_royalties,
        ).len() < 7 && entries_sum(perp_view(perpetual_royalties)) < 2001 && entries_sum(
            royalty_entries(
                perp_view(perpetual_royalties),
                effective_owner@,
                contract_owner@,
                contract_royalty,
            ),
        ) != 10000),
        (r matches Ok(m) ==> m.wf() && m@ == royalty_entries(
            perp_view(perpetual_royalties),
            effective_owner@,
            contract_owner@,
            contract_royalty,
        ) && entries_sum(m@) == 10000),
        (r is Ok <==> (perp_view(perpetual_royalties).len() < 7 && entries_sum(
            perp_view(perpetual_royalties),
        ) < 2001 && entries_sum(
            royalty_entries(
                perp_view(perpetual_royalties),
                effective_owner@,
                contract_owner@,
                contract_royalty,
            ),
        ) == 10000)),
{
    let mut result = StrMap::<u32>::new();
    let mut total: u64 = 0;
    if let Some(pm) = perpetual_royalties {
        let n = pm.len();
        if n >= 7 {
            return Err(MintError::TooManyRoyalties);
        }
        let mut i: usize = 0;
        while i < n
            invariant
                pm.wf(),
                n == pm@.len() < 7,
                i <= n,
                result.wf(),
                result@ == pm@.subrange(0, i as int),
                total == entries_sum(pm@.subrange(0, i as int)),
                total <= i * 0xFFFF_FFFFu64,
            decreases n - i,
        {
            let k = pm.key_at(i).clone();
            let v = *pm.val_at(i);
            proof {
                assert(!crate::str_map::map_has(result@, pm@[i as int].0)) by {
                    if crate::str_map::map_has(result@, pm@[i as int].0) {
                        let j = choose|j: int|
                            0 <= j < result@.len() && (#[trigger] result@[j]).0 == pm@[
                                i as int
                            ].0;
                        assert(pm@[j].0 == pm@[i as int].0);
                    }
                }
            }
            result.insert(k, v);
            proof {
                assert(result@ =~= pm@.subrange(0, i + 1 as int));
                assert(pm@.subrange(0, i + 1 as int) =~= pm@.subrange(0, i as int).push(
                    pm@[i as int],
                ));
                lemma_entries_sum_push(pm@.subrange(0, i as int), pm@[i as int]);
            }
            total = total + (v as u64);
            i += 1;
        }
        proof {
            assert(pm@.subrange(0, n as int) =~= pm@);
        }
    }
    proof {
        assert(perp_view(perpetual_royalties).len() < 7);
        assert(total == entries_sum(perp_view(perpetual_royalties)));
    }
    if total >= 2001 {
        return Err(MintError::RoyaltyTooHigh);
    }
    let total32: u32 = total as u32;

    let mut owner_key = String::from_str("owner:");
    if !effective_owner.eq(contract_owner) {
        owner_key.append(effective_owner.as_str());
        proof {
            assert(owner_key@ == sentinel_key(effective_owner@));
        }
        let owner_share: u32 = 10000 - total32 - contract_royalty;
        result.insert(owner_key, owner_share);
        result.insert(contract_owner.clone(), contract_royalty);
    } else {
        owner_key.append(contract_owner.as_str());
        proof {
            assert(owner_key@ == sentinel_key(effective_owner@));
        }
        let owner_share: u32 = 10000 - total32;
        result.insert(owner_key, owner_share);
    }
    proof {
        assert(result@ == royalty_entries(
            perp_view(perpetual_royalties),
            effective_owner@,
            contract_owner@,
            contract_royalty,
        ));
    }
    let sum = result.values_sum();
    if sum != 10000 {
        return Err(MintError::RoyaltyImbalance);
    }
    Ok(result)
}

/// The entry sequence of an optional perpetual-royalty map; empty when none
/// was supplied.
pub open spec fn perp_view(p: Option<&StrMap<u32>>) -> Seq<(Seq<char>, u32)> {
    match p {
        Some(m) => m@,
        None => Seq::empty(),
    }
}

/// For every perpetual-royalty map with fewer than 7 entries, a value sum
/// strictly below 2001, and keys that collide neither with the contract
/// owner's key nor with the sentinel key of the effective owner, the royalty
/// entries of the mint sum to exactly 10000 basis points.
pub proof fn lemma_royalty_splits_to_whole(
    p: Seq<(Seq<char>, u32)>,
    eff: Seq<char>,
    owner: Seq<char>,
    cut: u32,
)
    requires
        p.len() < 7,
        entries_sum(p) < 2001,
        eff != owner ==> entries_sum(p) + cut <= 10000,
        eff != owner ==> !crate::str_map::map_has(p, owner),
        eff != owner ==> owner != sentinel_key(eff),
        !crate::str_map::map_has(p, sentinel_key(eff)),
    ensures
        entries_sum(royalty_entries(p, eff, owner, cut)) == 10000,
{
    lemma_entries_sum_nonneg(p);
    let total = entries_sum(p);
    if eff != owner {
        let share = (10000 - total - cut) as u32;
        assert(share == 10000 - total - cut);
        let s1 = map_insert(p, sentinel_key(eff), share);
        assert(s1 == p.push((sentinel_key(eff), share)));
        lemma_entries_sum_push(p, (sentinel_key(eff), share));
        assert(!crate::str_map::map_has(s1, owner)) by {
            if crate::str_map::map_has(s1, owner) {
                let j = choose|j: int|
                    0 <= j < s1.len() && (#[trigger] s1[j]).0 == owner;
                if j < p.len() {
                    assert(p[j].0 == owner);
                } else {
                    assert(s1[j].0 == sentinel_key(eff));
                }
            }
        }
        assert(royalty_entries(p, eff, owner, cut) == s1.push((owner, cut)));
        lemma_entries_sum_push(s1, (owner, cut));
    } else {
        let share = (10000 - total) as u32;
        assert(share == 10000 - total);
        assert(royalty_entries(p, eff, owner, cut) == p.push((sentinel_key(eff), share)));
        lemma_entries_sum_push(p, (sentinel_key(eff), share));
    }
}

} // verus!
