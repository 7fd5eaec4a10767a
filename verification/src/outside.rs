//! The computations the program takes from the Solana and token libraries: hashing,
//! program address derivation, and reading token accounts and mints.
use vstd::prelude::*;
use crate::error::ErrorCode;
use crate::pubkey::Pubkey;
use anchor_lang::solana_program::program_pack::Pack;

verus! {

/// The most seeds an address derivation takes.
pub const MAX_SEEDS: usize = 16;

/// The longest a single seed may be.
pub const MAX_SEED_LEN: usize = 32;

/// The length of a token account's data.
pub const TOKEN_ACCOUNT_LEN: usize = 165;

/// The length of a mint's data.
pub const MINT_LEN: usize = 82;

/// Whether the seeds are within the limits of address derivation.
pub open spec fn seeds_within_limits(seeds: Seq<Seq<u8>>) -> bool {
    &&& seeds.len() <= MAX_SEEDS
    &&& forall|i: int| 0 <= i < seeds.len() ==> #[trigger] seeds[i].len() <= MAX_SEED_LEN
}

/// The SHA-256 digest of `data`.
pub uninterp spec fn spec_sha256(data: Seq<u8>) -> Seq<u8>;

/// The program derived address of `seeds` under `program_id`, if the seeds are within
/// limits and the digest they hash to lies off the ed25519 curve.
pub uninterp spec fn spec_create_program_address(
    seeds: Seq<Seq<u8>>,
    program_id: Seq<u8>,
) -> Option<Seq<u8>>;

/// The first bump seed from `bump` down to 1 that, appended to the seeds as a one-byte
/// seed, derives an address, with that address.
pub open spec fn find_from_bump(seeds: Seq<Seq<u8>>, program_id: Seq<u8>, bump: int) -> Option<
    (Seq<u8>, u8),
>
    decreases bump,
{
    if bump <= 0 {
        None
    } else {
        match spec_create_program_address(seeds.push(seq![bump as u8]), program_id) {
            Some(k) => Some((k, bump as u8)),
            None => find_from_bump(seeds, program_id, bump - 1),
        }
    }
}

/// The address and bump seed that the search for a program derived address finds: the
/// first bump from 255 down to 1 whose seeds derive one.
pub open spec fn spec_find_program_address(seeds: Seq<Seq<u8>>, program_id: Seq<u8>) -> Option<
    (Seq<u8>, u8),
> {
    find_from_bump(seeds, program_id, 255)
}

/// The bump a search from `bump` down finds derives its address, and none of the bumps
/// it passed over derives one; a search that finds none passes over them all.
pub proof fn lemma_find_from_bump(seeds: Seq<Seq<u8>>, program_id: Seq<u8>, bump: int)
    requires
        0 <= bump <= 255,
    ensures
        find_from_bump(seeds, program_id, bump) matches Some((k, b)) ==> {
            &&& 1 <= b <= bump
            &&& spec_create_program_address(seeds.push(seq![b]), program_id) == Some(k)
            &&& forall|d: u8|
                b < d <= bump ==> #[trigger] spec_create_program_address(
                    seeds.push(seq![d]),
                    program_id,
                ) is None
        },
        find_from_bump(seeds, program_id, bump) is None ==> forall|d: u8|
            1 <= d <= bump ==> #[trigger] spec_create_program_address(
                seeds.push(seq![d]),
                program_id,
            ) is None,
    decreases bump,
{
    if bump > 0 {
        lemma_find_from_bump(seeds, program_id, bump - 1);
        let top = bump as u8;
        assert(top == bump);
    }
}

/// Whether the four bytes at `at` are the tag of an optional field as the token
/// program lays it out: `[0, 0, 0, 0]` for none, `[1, 0, 0, 0]` for some.
pub open spec fn coption_tag_valid(data: Seq<u8>, at: int) -> bool {
    &&& (data[at] == 0 || data[at] == 1)
    &&& data[at + 1] == 0
    &&& data[at + 2] == 0
    &&& data[at + 3] == 0
}

/// The (mint, owner) of a token account's data, or why the data is not one. The data
/// must be 165 bytes, with valid tags for the delegate (byte 72), the native amount
/// (byte 109) and the close authority (byte 129), and a state byte (108) of 0, 1 or 2;
/// a state of 0 is an account not yet initialized. The mint is bytes 0..32 and the
/// owner bytes 32..64.
pub open spec fn spec_unpack_token_account(data: Seq<u8>) -> Result<(Seq<u8>, Seq<u8>), ErrorCode> {
    if data.len() != TOKEN_ACCOUNT_LEN || !coption_tag_valid(data, 72) || data[108] > 2
        || !coption_tag_valid(data, 109) || !coption_tag_valid(data, 129) {
        Err(ErrorCode::InvalidAccountData)
    } else if data[108] == 0 {
        Err(ErrorCode::UninitializedAccount)
    } else {
        Ok((data.subrange(0, 32), data.subrange(32, 64)))
    }
}

/// The decimals of a mint's data, or why the data is not a mint. The data must be 82
/// bytes, with valid tags for the mint authority (byte 0) and the freeze authority
/// (byte 46), and an initialized flag (byte 45) of 0 or 1; a flag of 0 is a mint not
/// yet initialized. The decimals are byte 44.
pub open spec fn spec_unpack_mint(data: Seq<u8>) -> Result<u8, ErrorCode> {
    if data.len() != MINT_LEN || !coption_tag_valid(data, 0) || data[45] > 1
        || !coption_tag_valid(data, 46) {
        Err(ErrorCode::InvalidAccountData)
    } else if data[45] == 0 {
        Err(ErrorCode::UninitializedAccount)
    } else {
        Ok(data[44])
    }
}

/// The length of the rent sysvar's encoding: two 8-byte fields and one byte.
pub const RENT_DATA_LEN: usize = 17;

/// Whether an account with this key and data reads as the rent sysvar: the key is the
/// rent sysvar's, and the data holds at least its encoding (bytes after it are ignored).
pub open spec fn spec_rent_sysvar_accepts(key: Seq<u8>, data: Seq<u8>) -> bool {
    key == crate::pubkey::RENT_SYSVAR_ID_BYTES@ && data.len() >= RENT_DATA_LEN
}

/// Calls `solana_program::hash::hash`, the SHA-256 digest of the bytes; the contract
/// names the digest and says nothing more of it.
#[verifier::external_body]
pub(crate) fn sha256(data: &[u8]) -> (r: [u8; 32])
    ensures
        r@ == spec_sha256(data@),
{
    anchor_lang::solana_program::hash::hash(data).to_bytes()
}

/// Calls `Pubkey::create_program_address`. The contract states, as its source does, that
/// more than `MAX_SEEDS` seeds or a seed longer than `MAX_SEED_LEN` bytes give no address;
/// otherwise it names the result (a SHA-256 digest of the seeds, the program id and a
/// marker, refused when it lies on the ed25519 curve) without stating the digest.
#[verifier::external_body]
pub(crate) fn create_program_address(seeds: &Vec<Vec<u8>>, program_id: &Pubkey) -> (r: Option<Pubkey>)
    ensures
        r is Some <==> spec_create_program_address(seeds.deep_view(), program_id@) is Some,
        r matches Some(k) ==> spec_create_program_address(seeds.deep_view(), program_id@)
            == Some(k@),
        !seeds_within_limits(seeds.deep_view()) ==> r is None,
{
    let s: Vec<&[u8]> = seeds.iter().map(|x| x.as_slice()).collect();
    let pid = anchor_lang::solana_program::pubkey::Pubkey::new_from_array(program_id.bytes);
    anchor_lang::solana_program::pubkey::Pubkey::create_program_address(&s, &pid).ok().map(
        |k| Pubkey { bytes: k.to_bytes() },
    )
}

/// Calls `Pubkey::try_find_program_address`. As its source shows, the search tries the
/// bump seeds 255 down to 1, each appended to the seeds as a one-byte seed, and returns
/// the first for which `create_program_address` derives an address, with that address;
/// where none does (or the seeds exceed the limits, which then every bump does), it
/// returns nothing. That is `spec_find_program_address`.
#[verifier::external_body]
pub(crate) fn try_find_program_address(seeds: &Vec<Vec<u8>>, program_id: &Pubkey) -> (r: Option<
    (Pubkey, u8),
>)
    ensures
        r is Some <==> spec_find_program_address(seeds.deep_view(), program_id@) is Some,
        r matches Some((k, b)) ==> spec_find_program_address(seeds.deep_view(), program_id@)
            == Some((k@, b)),
{
    let s: Vec<&[u8]> = seeds.iter().map(|x| x.as_slice()).collect();
    let pid = anchor_lang::solana_program::pubkey::Pubkey::new_from_array(program_id.bytes);
    anchor_lang::solana_program::pubkey::Pubkey::try_find_program_address(&s, &pid).map(
        |(k, b)| (Pubkey { bytes: k.to_bytes() }, b),
    )
}

/// The associated token account program's address.
pub open spec fn ata_id() -> Seq<u8> {
    crate::pubkey::ASSOCIATED_TOKEN_PROGRAM_ID_BYTES@
}

/// The seeds of an associated token account: the wallet, the token program and the mint.
pub open spec fn associated_token_seeds(wallet: Seq<u8>, mint: Seq<u8>) -> Seq<Seq<u8>> {
    seq![wallet, crate::pubkey::TOKEN_PROGRAM_ID_BYTES@, mint]
}

/// Calls `anchor_spl::associated_token::get_associated_token_address`. Its source finds
/// the program derived address of the wallet, the token program and the mint under the
/// associated token account program, and panics where no bump seed derives one; so
/// that case is excluded, and the result is the address the search finds.
#[verifier::external_body]
pub(crate) fn get_associated_token_address(wallet: &Pubkey, mint: &Pubkey) -> (r: Pubkey)
    requires
        spec_find_program_address(
            associated_token_seeds(wallet@, mint@),
            crate::pubkey::ASSOCIATED_TOKEN_PROGRAM_ID_BYTES@,
        ) is Some,
    ensures
        r@ == spec_find_program_address(associated_token_seeds(wallet@, mint@), ata_id())->Some_0.0,
{
    let w = anchor_lang::solana_program::pubkey::Pubkey::new_from_array(wallet.bytes);
    let m = anchor_lang::solana_program::pubkey::Pubkey::new_from_array(mint.bytes);
    Pubkey { bytes: anchor_spl::associated_token::get_associated_token_address(&w, &m).to_bytes() }
}

/// A read token account's (mint, owner) as byte sequences, or the error.
pub open spec fn token_account_view(r: Result<(Pubkey, Pubkey), ErrorCode>) -> Result<(Seq<u8>, Seq<u8>), ErrorCode> {
    match r {
        Ok((m, o)) => Ok((m@, o@)),
        Err(e) => Err(e),
    }
}

/// Calls `spl_token::state::Account::unpack`, which reads the data as its source lays a
/// token account out: `spec_unpack_token_account` states what it accepts and returns.
#[verifier::external_body]
pub(crate) fn unpack_token_account(data: &[u8]) -> (r: Result<(Pubkey, Pubkey), ErrorCode>)
    ensures
        token_account_view(r) == spec_unpack_token_account(data@),
{
    match anchor_spl::token::spl_token::state::Account::unpack(data) {
        Ok(a) => Ok((Pubkey { bytes: a.mint.to_bytes() }, Pubkey { bytes: a.owner.to_bytes() })),
        Err(anchor_lang::solana_program::program_error::ProgramError::UninitializedAccount) => Err(
            ErrorCode::UninitializedAccount,
        ),
        Err(_) => Err(ErrorCode::InvalidAccountData),
    }
}

/// Calls `spl_token::state::Mint::unpack`, which reads the data as its source lays a
/// mint out: `spec_unpack_mint` states what it accepts and returns.
#[verifier::external_body]
pub(crate) fn unpack_mint(data: &[u8]) -> (r: Result<u8, ErrorCode>)
    ensures
        r == spec_unpack_mint(data@),
{
    match anchor_spl::token::spl_token::state::Mint::unpack(data) {
        Ok(m) => Ok(m.decimals),
        Err(anchor_lang::solana_program::program_error::ProgramError::UninitializedAccount) => Err(
            ErrorCode::UninitializedAccount,
        ),
        Err(_) => Err(ErrorCode::InvalidAccountData),
    }
}

/// Calls `Rent::from_account_info` on an account with this key and data and reports
/// whether it reads as the rent sysvar. Its source refuses another key than the rent
/// sysvar's, then decodes the data with bincode's defaults, which need the 17 bytes of
/// the encoding (every bit pattern decodes) and ignore the bytes after them:
/// `spec_rent_sysvar_accepts`.
#[verifier::external_body]
pub(crate) fn rent_sysvar_accepts(key: &Pubkey, data: &[u8]) -> (r: bool)
    ensures
        r == spec_rent_sysvar_accepts(key@, data@),
{
    let k = anchor_lang::solana_program::pubkey::Pubkey::new_from_array(key.bytes);
    let owner = anchor_lang::solana_program::pubkey::Pubkey::default();
    let mut lamports: u64 = 0;
    let mut d: Vec<u8> = data.to_vec();
    let info = anchor_lang::solana_program::account_info::AccountInfo::new(
        &k, false, false, &mut lamports, &mut d, &owner, false, 0,
    );
    <anchor_lang::solana_program::sysvar::rent::Rent as anchor_lang::solana_program::sysvar::Sysvar>::from_account_info(&info).is_ok()
}

} // verus!
