//! The accounts an instruction is handed, and how each declared account is checked
//! when it is read: by its place in the list, then by its declared type.
use vstd::prelude::*;
use crate::error::ErrorCode;
use crate::iou::state::gateway::{spec_deserialize_gateway, Gateway};
use crate::outside::{
    rent_sysvar_accepts, spec_rent_sysvar_accepts, spec_unpack_mint, spec_unpack_token_account,
    unpack_mint, unpack_token_account,
};
use crate::pool::state::pool::{spec_deserialize_pool, Pool};
use crate::pool::state::pool_account::{spec_deserialize_pool_account, PoolAccount};
use crate::pubkey::{key_eq, zero_key, Pubkey, PROGRAM_ID_BYTES, TOKEN_PROGRAM_ID_BYTES};
use crate::state::pool::Pool as LegacyPool;
use crate::state::pool_account::PoolAccount as LegacyPoolAccount;

verus! {

/// An account as the runtime hands it to an instruction.
#[derive(Clone, Debug)]
pub struct AccountInput {
    /// The account's address.
    pub key: Pubkey,
    /// The program that owns the account.
    pub owner: Pubkey,
    /// The account's balance.
    pub lamports: u64,
    /// The account's data.
    pub data: Vec<u8>,
    /// Whether the account signed the transaction.
    pub is_signer: bool,
    /// Whether the transaction lets the account be written.
    pub is_writable: bool,
    /// Whether the account holds a program.
    pub executable: bool,
    /// Whether the balance covers rent exemption for the data's length, by the
    /// cluster's rent.
    pub rent_exempt: bool,
}

/// `Some(e)` for an error, `None` for a success.
pub open spec fn err_of<T>(r: Result<T, ErrorCode>) -> Option<ErrorCode> {
    match r {
        Ok(_) => None,
        Err(e) => Some(e),
    }
}

/// Reading a signer: it must have signed.
pub open spec fn signer_check(a: AccountInput) -> Option<ErrorCode> {
    if a.is_signer {
        None
    } else {
        Some(ErrorCode::AccountNotSigner)
    }
}

/// Reading a program: it must be the program `id` and executable.
pub open spec fn program_check(a: AccountInput, id: Seq<u8>) -> Option<ErrorCode> {
    if a.key@ != id {
        Some(ErrorCode::InvalidProgramId)
    } else if !a.executable {
        Some(ErrorCode::InvalidProgramExecutable)
    } else {
        None
    }
}

/// Reading the rent sysvar: the account must read as it.
pub open spec fn rent_check(a: AccountInput) -> Option<ErrorCode> {
    if spec_rent_sysvar_accepts(a.key@, a.data@) {
        None
    } else {
        Some(ErrorCode::AccountSysvarMismatch)
    }
}

/// Reading an account of a type owned by `owner`: it must not be an empty account of
/// the system program, and must be owned by `owner`.
pub open spec fn owner_check(a: AccountInput, owner: Seq<u8>) -> Option<ErrorCode> {
    if a.owner@ == zero_key() && a.lamports == 0 {
        Some(ErrorCode::AccountNotInitialized)
    } else if a.owner@ != owner {
        Some(ErrorCode::AccountOwnedByWrongProgram)
    } else {
        None
    }
}

/// A `mut` account must be writable.
pub open spec fn mut_check(a: AccountInput) -> Option<ErrorCode> {
    if a.is_writable {
        None
    } else {
        Some(ErrorCode::ConstraintMut)
    }
}

/// Reading a pool.
pub open spec fn load_pool(a: AccountInput) -> Result<Pool, ErrorCode> {
    match owner_check(a, PROGRAM_ID_BYTES@) {
        Some(e) => Err(e),
        None => spec_deserialize_pool(a.data@),
    }
}

/// Reading a pool account.
pub open spec fn load_pool_account(a: AccountInput) -> Result<PoolAccount, ErrorCode> {
    match owner_check(a, PROGRAM_ID_BYTES@) {
        Some(e) => Err(e),
        None => spec_deserialize_pool_account(a.data@),
    }
}

/// Reading a gateway.
pub open spec fn load_gateway(a: AccountInput) -> Result<Gateway, ErrorCode> {
    match owner_check(a, PROGRAM_ID_BYTES@) {
        Some(e) => Err(e),
        None => spec_deserialize_gateway(a.data@),
    }
}

/// Reading a pool of the first version.
pub open spec fn load_legacy_pool(a: AccountInput) -> Result<LegacyPool, ErrorCode> {
    match owner_check(a, PROGRAM_ID_BYTES@) {
        Some(e) => Err(e),
        None => crate::state::pool::spec_deserialize_pool(a.data@),
    }
}

/// Reading a pool account of the first version.
pub open spec fn load_legacy_pool_account(a: AccountInput) -> Result<LegacyPoolAccount, ErrorCode> {
    match owner_check(a, PROGRAM_ID_BYTES@) {
        Some(e) => Err(e),
        None => crate::state::pool_account::spec_deserialize_pool_account(a.data@),
    }
}

/// Reading a token account: its (mint, owner).
pub open spec fn load_token_account(a: AccountInput) -> Result<(Seq<u8>, Seq<u8>), ErrorCode> {
    match owner_check(a, TOKEN_PROGRAM_ID_BYTES@) {
        Some(e) => Err(e),
        None => spec_unpack_token_account(a.data@),
    }
}

/// Reading a mint: its decimals.
pub open spec fn load_mint(a: AccountInput) -> Result<u8, ErrorCode> {
    match owner_check(a, TOKEN_PROGRAM_ID_BYTES@) {
        Some(e) => Err(e),
        None => spec_unpack_mint(a.data@),
    }
}

/// The account at place `i` must be there.
pub open spec fn present(accs: Seq<AccountInput>, i: int) -> Option<ErrorCode> {
    if i < accs.len() {
        None
    } else {
        Some(ErrorCode::AccountNotEnoughKeys)
    }
}

/// Reading the signer at place `i`.
pub open spec fn signer_at(accs: Seq<AccountInput>, i: int) -> Option<ErrorCode> {
    if i < accs.len() {
        signer_check(accs[i])
    } else {
        Some(ErrorCode::AccountNotEnoughKeys)
    }
}

/// Reading the program `id` at place `i`.
pub open spec fn program_at(accs: Seq<AccountInput>, i: int, id: Seq<u8>) -> Option<ErrorCode> {
    if i < accs.len() {
        program_check(accs[i], id)
    } else {
        Some(ErrorCode::AccountNotEnoughKeys)
    }
}

/// Reading the rent sysvar at place `i`.
pub open spec fn rent_at(accs: Seq<AccountInput>, i: int) -> Option<ErrorCode> {
    if i < accs.len() {
        rent_check(accs[i])
    } else {
        Some(ErrorCode::AccountNotEnoughKeys)
    }
}

/// Reading the pool at place `i`.
pub open spec fn pool_at(accs: Seq<AccountInput>, i: int) -> Result<Pool, ErrorCode> {
    if i < accs.len() {
        load_pool(accs[i])
    } else {
        Err(ErrorCode::AccountNotEnoughKeys)
    }
}

/// Reading the pool account at place `i`.
pub open spec fn pool_account_at(accs: Seq<AccountInput>, i: int) -> Result<PoolAccount, ErrorCode> {
    if i < accs.len() {
        load_pool_account(accs[i])
    } else {
        Err(ErrorCode::AccountNotEnoughKeys)
    }
}

/// Reading the gateway at place `i`.
pub open spec fn gateway_at(accs: Seq<AccountInput>, i: int) -> Result<Gateway, ErrorCode> {
    if i < accs.len() {
        load_gateway(accs[i])
    } else {
        Err(ErrorCode::AccountNotEnoughKeys)
    }
}

/// Reading the pool of the first version at place `i`.
pub open spec fn legacy_pool_at(accs: Seq<AccountInput>, i: int) -> Result<LegacyPool, ErrorCode> {
    if i < accs.len() {
        load_legacy_pool(accs[i])
    } else {
        Err(ErrorCode::AccountNotEnoughKeys)
    }
}

/// Reading the pool account of the first version at place `i`.
pub open spec fn legacy_pool_account_at(accs: Seq<AccountInput>, i: int) -> Result<LegacyPoolAccount, ErrorCode> {
    if i < accs.len() {
        load_legacy_pool_account(accs[i])
    } else {
        Err(ErrorCode::AccountNotEnoughKeys)
    }
}

/// Reading the token account at place `i`.
pub open spec fn token_account_at(accs: Seq<AccountInput>, i: int) -> Result<(Seq<u8>, Seq<u8>), ErrorCode> {
    if i < accs.len() {
        load_token_account(accs[i])
    } else {
        Err(ErrorCode::AccountNotEnoughKeys)
    }
}

/// Reading the mint at place `i`.
pub open spec fn mint_at(accs: Seq<AccountInput>, i: int) -> Result<u8, ErrorCode> {
    if i < accs.len() {
        load_mint(accs[i])
    } else {
        Err(ErrorCode::AccountNotEnoughKeys)
    }
}

/// The error of a read, if any.
pub fn err_result<T>(r: Result<T, ErrorCode>) -> (e: Option<ErrorCode>)
    ensures
        e == err_of(r),
{
    match r {
        Ok(_) => None,
        Err(e) => Some(e),
    }
}

/// Checks that an account signed.
pub fn check_signer(a: &AccountInput) -> (r: Option<ErrorCode>)
    ensures
        r == signer_check(*a),
{
    if a.is_signer {
        None
    } else {
        Some(ErrorCode::AccountNotSigner)
    }
}

/// Checks that an account is the executable program `id`.
pub fn check_program(a: &AccountInput, id: &Pubkey) -> (r: Option<ErrorCode>)
    ensures
        r == program_check(*a, id@),
{
    if !key_eq(&a.key, id) {
        Some(ErrorCode::InvalidProgramId)
    } else if !a.executable {
        Some(ErrorCode::InvalidProgramExecutable)
    } else {
        None
    }
}

/// Checks that an account reads as the rent sysvar.
pub fn check_rent(a: &AccountInput) -> (r: Option<ErrorCode>)
    ensures
        r == rent_check(*a),
{
    if rent_sysvar_accepts(&a.key, a.data.as_slice()) {
        None
    } else {
        Some(ErrorCode::AccountSysvarMismatch)
    }
}

/// Checks that an account is initialized and owned by `owner`.
pub fn check_owner(a: &AccountInput, owner: &Pubkey) -> (r: Option<ErrorCode>)
    ensures
        r == owner_check(*a, owner@),
{
    let system = Pubkey::zeroed();
    if key_eq(&a.owner, &system) && a.lamports == 0 {
        Some(ErrorCode::AccountNotInitialized)
    } else if !key_eq(&a.owner, owner) {
        Some(ErrorCode::AccountOwnedByWrongProgram)
    } else {
        None
    }
}

/// Checks that a `mut` account is writable.
pub fn check_mut(a: &AccountInput) -> (r: Option<ErrorCode>)
    ensures
        r == mut_check(*a),
{
    if a.is_writable {
        None
    } else {
        Some(ErrorCode::ConstraintMut)
    }
}

/// Reads a pool.
pub fn read_pool(a: &AccountInput) -> (r: Result<Pool, ErrorCode>)
    ensures
        r == load_pool(*a),
{
    match check_owner(a, &crate::pubkey::program_id()) {
        Some(e) => Err(e),
        None => Pool::try_deserialize(&a.data),
    }
}

/// Reads a pool account.
pub fn read_pool_account(a: &AccountInput) -> (r: Result<PoolAccount, ErrorCode>)
    ensures
        r == load_pool_account(*a),
{
    match check_owner(a, &crate::pubkey::program_id()) {
        Some(e) => Err(e),
        None => PoolAccount::try_deserialize(&a.data),
    }
}

/// Reads a gateway.
pub fn read_gateway(a: &AccountInput) -> (r: Result<Gateway, ErrorCode>)
    ensures
        r == load_gateway(*a),
{
    match check_owner(a, &crate::pubkey::program_id()) {
        Some(e) => Err(e),
        None => Gateway::try_deserialize(&a.data),
    }
}

/// Reads a pool of the first version.
pub fn read_legacy_pool(a: &AccountInput) -> (r: Result<LegacyPool, ErrorCode>)
    ensures
        r == load_legacy_pool(*a),
{
    match check_owner(a, &crate::pubkey::program_id()) {
        Some(e) => Err(e),
        None => LegacyPool::try_deserialize(&a.data),
    }
}

/// Reads a pool account of the first version.
pub fn read_legacy_pool_account(a: &AccountInput) -> (r: Result<LegacyPoolAccount, ErrorCode>)
    ensures
        r == load_legacy_pool_account(*a),
{
    match check_owner(a, &crate::pubkey::program_id()) {
        Some(e) => Err(e),
        None => LegacyPoolAccount::try_deserialize(&a.data),
    }
}

/// Reads a token account's mint and owner.
pub fn read_token_account(a: &AccountInput) -> (r: Result<(Pubkey, Pubkey), ErrorCode>)
    ensures
        r matches Ok((m, o)) ==> load_token_account(*a) == Ok::<(Seq<u8>, Seq<u8>), ErrorCode>(
            (m@, o@),
        ),
        r matches Err(e) ==> load_token_account(*a) == Err::<(Seq<u8>, Seq<u8>), ErrorCode>(e),
{
    match check_owner(a, &crate::pubkey::token_program_id()) {
        Some(e) => Err(e),
        None => unpack_token_account(a.data.as_slice()),
    }
}

/// Reads a mint's decimals.
pub fn read_mint(a: &AccountInput) -> (r: Result<u8, ErrorCode>)
    ensures
        r == load_mint(*a),
{
    match check_owner(a, &crate::pubkey::token_program_id()) {
        Some(e) => Err(e),
        None => unpack_mint(a.data.as_slice()),
    }
}

/// Checks that the account at place `i` is there.
pub fn check_present(accounts: &Vec<AccountInput>, i: usize) -> (r: Option<ErrorCode>)
    ensures
        r == present(accounts@, i as int),
{
    if i < accounts.len() {
        None
    } else {
        Some(ErrorCode::AccountNotEnoughKeys)
    }
}

/// Checks the signer at place `i`.
pub fn check_signer_at(accounts: &Vec<AccountInput>, i: usize) -> (r: Option<ErrorCode>)
    ensures
        r == signer_at(accounts@, i as int),
{
    if i < accounts.len() {
        check_signer(&accounts[i])
    } else {
        Some(ErrorCode::AccountNotEnoughKeys)
    }
}

/// Checks the program `id` at place `i`.
pub fn check_program_at(accounts: &Vec<AccountInput>, i: usize, id: &Pubkey) -> (r: Option<
    ErrorCode,
>)
    ensures
        r == program_at(accounts@, i as int, id@),
{
    if i < accounts.len() {
        check_program(&accounts[i], id)
    } else {
        Some(ErrorCode::AccountNotEnoughKeys)
    }
}

/// Checks the rent sysvar at place `i`.
pub fn check_rent_at(accounts: &Vec<AccountInput>, i: usize) -> (r: Option<ErrorCode>)
    ensures
        r == rent_at(accounts@, i as int),
{
    if i < accounts.len() {
        check_rent(&accounts[i])
    } else {
        Some(ErrorCode::AccountNotEnoughKeys)
    }
}

/// Reads the pool at place `i`.
pub fn read_pool_at(accounts: &Vec<AccountInput>, i: usize) -> (r: Result<Pool, ErrorCode>)
    ensures
        r == pool_at(accounts@, i as int),
{
    if i < accounts.len() {
        read_pool(&accounts[i])
    } else {
        Err(ErrorCode::AccountNotEnoughKeys)
    }
}

/// Reads the pool account at place `i`.
pub fn read_pool_account_at(accounts: &Vec<AccountInput>, i: usize) -> (r: Result<PoolAccount, ErrorCode>)
    ensures
        r == pool_account_at(accounts@, i as int),
{
    if i < accounts.len() {
        read_pool_account(&accounts[i])
    } else {
        Err(ErrorCode::AccountNotEnoughKeys)
    }
}

/// Reads the gateway at place `i`.
pub fn read_gateway_at(accounts: &Vec<AccountInput>, i: usize) -> (r: Result<Gateway, ErrorCode>)
    ensures
        r == gateway_at(accounts@, i as int),
{
    if i < accounts.len() {
        read_gateway(&accounts[i])
    } else {
        Err(ErrorCode::AccountNotEnoughKeys)
    }
}

/// Reads the pool of the first version at place `i`.
pub fn read_legacy_pool_at(accounts: &Vec<AccountInput>, i: usize) -> (r: Result<LegacyPool, ErrorCode>)
    ensures
        r == legacy_pool_at(accounts@, i as int),
{
    if i < accounts.len() {
        read_legacy_pool(&accounts[i])
    } else {
        Err(ErrorCode::AccountNotEnoughKeys)
    }
}

/// Reads the pool account of the first version at place `i`.
pub fn read_legacy_pool_account_at(accounts: &Vec<AccountInput>, i: usize) -> (r: Result<LegacyPoolAccount, ErrorCode>)
    ensures
        r == legacy_pool_account_at(accounts@, i as int),
{
    if i < accounts.len() {
        read_legacy_pool_account(&accounts[i])
    } else {
        Err(ErrorCode::AccountNotEnoughKeys)
    }
}

/// Reads the token account at place `i`.
pub fn read_token_account_at(accounts: &Vec<AccountInput>, i: usize) -> (r: Result<(Pubkey, Pubkey), ErrorCode>)
    ensures
        r matches Ok((m, o)) ==> token_account_at(accounts@, i as int) == Ok::<
            (Seq<u8>, Seq<u8>),
            ErrorCode,
        >((m@, o@)),
        r matches Err(e) ==> token_account_at(accounts@, i as int) == Err::<
            (Seq<u8>, Seq<u8>),
            ErrorCode,
        >(e),
{
    if i < accounts.len() {
        read_token_account(&accounts[i])
    } else {
        Err(ErrorCode::AccountNotEnoughKeys)
    }
}

/// Reads the mint at place `i`.
pub fn read_mint_at(accounts: &Vec<AccountInput>, i: usize) -> (r: Result<u8, ErrorCode>)
    ensures
        r == mint_at(accounts@, i as int),
{
    if i < accounts.len() {
        read_mint(&accounts[i])
    } else {
        Err(ErrorCode::AccountNotEnoughKeys)
    }
}

} // verus!
