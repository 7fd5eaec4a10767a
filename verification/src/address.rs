//! The addresses the program checks accounts against: program derived addresses of the
//! program's own accounts, and associated token accounts.
use vstd::prelude::*;
use crate::error::ErrorCode;
use crate::iou::state::gateway::Gateway;
use crate::pool::state::{Pool, PoolAccount};
use crate::outside::{
    associated_token_seeds, create_program_address, get_associated_token_address,
    spec_create_program_address, spec_find_program_address, try_find_program_address,
};
use crate::pubkey::{
    associated_token_program_id, key_eq, program_id, token_program_id, Pubkey,
    ASSOCIATED_TOKEN_PROGRAM_ID_BYTES, PROGRAM_ID_BYTES,
};

verus! {

/// The fixed first seed of a program derived address.
#[derive(Clone, Copy, PartialEq, Eq, Structural, Debug)]
pub enum SeedPrefix {
    /// `pool`: a pool, derived from its admin.
    Pool,
    /// `pool_account`: a pool account, derived from its pool (and, for the current
    /// pool account, its owner).
    PoolAccount,
    /// `gateway`: a gateway, derived from its admin.
    Gateway,
    /// No fixed seed: the IOU mint, derived from the mint it stands for.
    NoPrefix,
}

/// `pool`
pub open spec fn pool_seed() -> Seq<u8> {
    seq![112u8, 111, 111, 108]
}

/// `pool_account`
pub open spec fn pool_account_seed() -> Seq<u8> {
    seq![112u8, 111, 111, 108, 95, 97, 99, 99, 111, 117, 110, 116]
}

/// `gateway`
pub open spec fn gateway_seed() -> Seq<u8> {
    seq![103u8, 97, 116, 101, 119, 97, 121]
}

/// The fixed seeds of a prefix: its bytes, or none.
pub open spec fn prefix_seeds(prefix: SeedPrefix) -> Seq<Seq<u8>> {
    match prefix {
        SeedPrefix::Pool => seq![pool_seed()],
        SeedPrefix::PoolAccount => seq![pool_account_seed()],
        SeedPrefix::Gateway => seq![gateway_seed()],
        SeedPrefix::NoPrefix => seq![],
    }
}

/// The seeds before the bump: the prefix (if any), the address, then the second
/// address (if any).
pub open spec fn base_seeds(prefix: SeedPrefix, key: Seq<u8>, second: Option<Seq<u8>>) -> Seq<
    Seq<u8>,
> {
    match second {
        Some(k) => prefix_seeds(prefix).push(key).push(k),
        None => prefix_seeds(prefix).push(key),
    }
}

/// The bytes of an optional address.
pub open spec fn key_view(k: Option<Pubkey>) -> Option<Seq<u8>> {
    match k {
        Some(p) => Some(p@),
        None => None,
    }
}

/// Builds the seeds before the bump.
pub fn base_seeds_vec(prefix: SeedPrefix, key: &Pubkey, second: Option<Pubkey>) -> (r: Vec<
    Vec<u8>,
>)
    ensures
        r.deep_view() == base_seeds(prefix, key@, key_view(second)),
{
    let mut r: Vec<Vec<u8>> = Vec::new();
    match prefix {
        SeedPrefix::Pool => {
            let s = vec![112u8, 111, 111, 108];
            assert(s@ =~= pool_seed());
            r.push(s);
        },
        SeedPrefix::PoolAccount => {
            let s = vec![112u8, 111, 111, 108, 95, 97, 99, 99, 111, 117, 110, 116];
            assert(s@ =~= pool_account_seed());
            r.push(s);
        },
        SeedPrefix::Gateway => {
            let s = vec![103u8, 97, 116, 101, 119, 97, 121];
            assert(s@ =~= gateway_seed());
            r.push(s);
        },
        SeedPrefix::NoPrefix => {},
    }
    let ghost fixed = r@;
    proof {
        if fixed.len() > 0 {
            lemma_bytes_deep_view(fixed[0]);
        }
        assert(r.deep_view() =~= prefix_seeds(prefix));
    }
    let ghost before = r.deep_view();
    let k = key.to_vec();
    r.push(k);
    proof {
        lemma_bytes_deep_view(k);
        assert(r.deep_view() =~= before.push(key@));
    }
    match second {
        Some(s) => {
            let ghost before = r.deep_view();
            let v = s.to_vec();
            r.push(v);
            proof {
                lemma_bytes_deep_view(v);
                assert(r.deep_view() =~= before.push(s@));
            }
        },
        None => {},
    }
    r
}

/// A byte vector's deep view is its view.
pub proof fn lemma_bytes_deep_view(v: Vec<u8>)
    ensures
        v.deep_view() == v@,
{
    assert(v.deep_view() =~= v@);
}

/// The seeds a program derived address is signed for with: prefix, address, second
/// address (where the account is derived from two) and bump.
#[derive(Clone, Copy, PartialEq, Eq, Debug)]
pub struct Seeds {
    pub prefix: SeedPrefix,
    pub key: Pubkey,
    pub second: Option<Pubkey>,
    pub bump: u8,
}

impl Seeds {
    /// All the seeds, the bump as the last one-byte seed.
    pub open spec fn spec_seeds(self) -> Seq<Seq<u8>> {
        base_seeds(self.prefix, self.key@, key_view(self.second)).push(seq![self.bump])
    }

    /// Builds all the seeds.
    pub fn to_vec(&self) -> (r: Vec<Vec<u8>>)
        ensures
            r.deep_view() == self.spec_seeds(),
    {
        let mut r = base_seeds_vec(self.prefix, &self.key, self.second);
        let ghost before = r.deep_view();
        let b = vec![self.bump];
        assert(b@ =~= seq![self.bump]);
        r.push(b);
        proof {
            lemma_bytes_deep_view(b);
            assert(r.deep_view() =~= before.push(seq![self.bump]));
        }
        r
    }
}


/// An account given with seeds and a bump must be the address those seeds derive under
/// this program; seeds that derive none fail the same way.
pub open spec fn seeds_check(seeds: Seq<Seq<u8>>, key: Seq<u8>) -> Option<ErrorCode> {
    match spec_create_program_address(seeds, PROGRAM_ID_BYTES@) {
        None => Some(ErrorCode::ConstraintSeeds),
        Some(k) => if k == key {
            None
        } else {
            Some(ErrorCode::ConstraintSeeds)
        },
    }
}

/// Checks an account against its seeds and bump.
pub fn check_seeds(seeds: &Seeds, key: &Pubkey) -> (r: Option<ErrorCode>)
    ensures
        r == seeds_check(seeds.spec_seeds(), key@),
{
    match create_program_address(&seeds.to_vec(), &program_id()) {
        None => Some(ErrorCode::ConstraintSeeds),
        Some(k) => if key_eq(&k, key) {
            None
        } else {
            Some(ErrorCode::ConstraintSeeds)
        },
    }
}

/// The address and canonical bump of a program derived account of this program.
pub open spec fn derived_address(prefix: SeedPrefix, key: Seq<u8>, second: Option<Seq<u8>>) -> Option<
    (Seq<u8>, u8),
> {
    spec_find_program_address(base_seeds(prefix, key, second), PROGRAM_ID_BYTES@)
}

/// The account at `key` is the program derived account of `prefix` and `seed_key`
/// with canonical bump `bump`: the search finds it with that bump, and the seeds with
/// that bump derive it, so a later check of it against those seeds and bump passes.
pub open spec fn derived_with_bump(
    prefix: SeedPrefix,
    seed_key: Seq<u8>,
    second: Option<Seq<u8>>,
    bump: u8,
    key: Seq<u8>,
) -> bool {
    &&& derived_address(prefix, seed_key, second) == Some((key, bump))
    &&& seeds_check(base_seeds(prefix, seed_key, second).push(seq![bump]), key) is None
}

/// A pool stored at `key` is at the address its admin and bump derive, the bump being
/// the canonical one.
pub open spec fn pool_derived(p: Pool, key: Pubkey) -> bool {
    derived_with_bump(SeedPrefix::Pool, p.admin@, None, p.bump, key@)
}

/// A pool account stored at `key` is at the address its pool, its owner and its bump
/// derive, the bump being the canonical one.
pub open spec fn pool_account_derived(a: PoolAccount, key: Pubkey) -> bool {
    derived_with_bump(SeedPrefix::PoolAccount, a.pool@, Some(a.owner@), a.bump, key@)
}

/// A gateway stored at `key` is at the address its admin and bump derive, and its IOU
/// mint at the address its deposited mint and IOU mint bump derive, both bumps being the
/// canonical ones.
pub open spec fn gateway_derived(g: Gateway, key: Pubkey) -> bool {
    &&& derived_with_bump(SeedPrefix::Gateway, g.admin@, None, g.bump, key@)
    &&& derived_with_bump(
        SeedPrefix::NoPrefix,
        g.token_mint@,
        None,
        g.deposit_iou_mint_bump,
        g.deposit_iou_mint@,
    )
}

/// Searches for the address and canonical bump of a program derived account.
pub fn find_derived_address(prefix: SeedPrefix, key: &Pubkey, second: Option<Pubkey>) -> (r: Option<
    (Pubkey, u8),
>)
    ensures
        r is Some <==> derived_address(prefix, key@, key_view(second)) is Some,
        r matches Some((k, b)) ==> derived_address(prefix, key@, key_view(second)) == Some((k@, b)),
        r matches Some((k, b)) ==> spec_create_program_address(
            base_seeds(prefix, key@, key_view(second)).push(seq![b]),
            PROGRAM_ID_BYTES@,
        ) == Some(k@),
{
    let seeds = base_seeds_vec(prefix, key, second);
    proof {
        crate::outside::lemma_find_from_bump(seeds.deep_view(), PROGRAM_ID_BYTES@, 255);
    }
    try_find_program_address(&seeds, &program_id())
}

/// The associated token account of `wallet` for `mint`, if a bump seed derives one.
pub open spec fn associated_address(wallet: Seq<u8>, mint: Seq<u8>) -> Option<Seq<u8>> {
    match spec_find_program_address(
        associated_token_seeds(wallet, mint),
        ASSOCIATED_TOKEN_PROGRAM_ID_BYTES@,
    ) {
        Some((k, _)) => Some(k),
        None => None,
    }
}

/// Computes the associated token account of `wallet` for `mint`.
pub fn find_associated_address(wallet: &Pubkey, mint: &Pubkey) -> (r: Option<Pubkey>)
    ensures
        r is Some <==> associated_address(wallet@, mint@) is Some,
        r matches Some(k) ==> associated_address(wallet@, mint@) == Some(k@),
{
    let mut seeds: Vec<Vec<u8>> = Vec::new();
    seeds.push(wallet.to_vec());
    seeds.push(token_program_id().to_vec());
    seeds.push(mint.to_vec());
    proof {
        lemma_bytes_deep_view(seeds@[0]);
        lemma_bytes_deep_view(seeds@[1]);
        lemma_bytes_deep_view(seeds@[2]);
        assert(seeds.deep_view() =~= associated_token_seeds(wallet@, mint@));
    }
    match try_find_program_address(&seeds, &associated_token_program_id()) {
        None => None,
        Some(_) => Some(get_associated_token_address(wallet, mint)),
    }
}

/// The check of an `associated_token` account: the token account's owner must be the
/// wallet, and its address the wallet's associated token account for the mint (the
/// derivation panics where no bump seed derives one).
pub open spec fn associated_token_check(
    token_owner: Seq<u8>,
    wallet: Seq<u8>,
    mint: Seq<u8>,
    key: Seq<u8>,
) -> Option<ErrorCode> {
    if token_owner != wallet {
        Some(ErrorCode::ConstraintTokenOwner)
    } else {
        match associated_address(wallet, mint) {
            None => Some(ErrorCode::NoViableBump),
            Some(k) => if k == key {
                None
            } else {
                Some(ErrorCode::ConstraintAssociated)
            },
        }
    }
}

/// Checks an `associated_token` account.
pub fn check_associated_token(token_owner: &Pubkey, wallet: &Pubkey, mint: &Pubkey, key: &Pubkey) -> (r:
    Option<ErrorCode>)
    ensures
        r == associated_token_check(token_owner@, wallet@, mint@, key@),
{
    if !key_eq(token_owner, wallet) {
        return Some(ErrorCode::ConstraintTokenOwner);
    }
    match find_associated_address(wallet, mint) {
        None => Some(ErrorCode::NoViableBump),
        Some(k) => if key_eq(&k, key) {
            None
        } else {
            Some(ErrorCode::ConstraintAssociated)
        },
    }
}

} // verus!
