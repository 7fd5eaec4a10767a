//! Account addresses and the well-known addresses the program refers to.
use vstd::prelude::*;

verus! {

/// A 32-byte account address (an ed25519 public key or a program derived address).
#[derive(Clone, Copy, PartialEq, Eq, Debug)]
pub struct Pubkey {
    pub bytes: [u8; 32],
}

impl View for Pubkey {
    type V = Seq<u8>;

    open spec fn view(&self) -> Seq<u8> {
        self.bytes@
    }
}

/// The all-zero byte sequence of an address: the system program's address, and the
/// value that an unset address field holds.
pub open spec fn zero_key() -> Seq<u8> {
    Seq::new(32, |i: int| 0u8)
}

/// The address whose bytes are all zero.
pub open spec fn zero_pubkey() -> Pubkey {
    key_from_seq(zero_key())
}

/// Every address is 32 bytes long.
pub broadcast proof fn lemma_key_len(k: Pubkey)
    ensures
        #[trigger] k@.len() == 32,
{
}

/// The array of length `N` whose first `n` elements are those of `s` and whose others
/// are zero; `array_from_seq::<N>(s, N)` is `s` as an array.
pub open spec fn array_from_seq<const N: usize>(s: Seq<u8>, n: int) -> [u8; N]
    decreases n,
{
    if n <= 0 {
        vstd::array::spec_array_fill_for_copy_type::<u8, N>(0u8)
    } else {
        vstd::array::spec_array_update(array_from_seq::<N>(s, n - 1), n - 1, s[n - 1])
    }
}

/// The elements of `array_from_seq::<N>(s, n)`.
pub proof fn lemma_array_from_seq<const N: usize>(s: Seq<u8>, n: int)
    requires
        0 <= n <= N,
        n <= s.len(),
    ensures
        array_from_seq::<N>(s, n)@.len() == N,
        forall|i: int| 0 <= i < n ==> #[trigger] array_from_seq::<N>(s, n)@[i] == s[i],
        forall|i: int| n <= i < N ==> #[trigger] array_from_seq::<N>(s, n)@[i] == 0u8,
    decreases n,
{
    broadcast use vstd::array::group_array_axioms;

    if n > 0 {
        lemma_array_from_seq::<N>(s, n - 1);
    }
}

/// An array of length `N` holding the `N` bytes of `s`.
pub proof fn lemma_array_from_full_seq<const N: usize>(s: Seq<u8>)
    requires
        s.len() == N,
    ensures
        array_from_seq::<N>(s, N as int)@ == s,
{
    lemma_array_from_seq::<N>(s, N as int);
    assert(array_from_seq::<N>(s, N as int)@ =~= s);
}

/// Two arrays with the same elements are equal.
pub proof fn lemma_array_eq<const N: usize>(a: [u8; N], b: [u8; N])
    requires
        a@ == b@,
    ensures
        a == b,
{
    broadcast use vstd::array::group_array_axioms;

    assert(forall|i: int| 0 <= i < N ==> a@[i] == b@[i]);
    assert(a =~= b);
}

/// The address whose bytes are the 32 bytes of `s`.
pub open spec fn key_from_seq(s: Seq<u8>) -> Pubkey {
    Pubkey { bytes: array_from_seq::<32>(s, 32) }
}

/// `key_from_seq` gives the address with exactly those bytes.
pub proof fn lemma_key_from_seq(s: Seq<u8>)
    requires
        s.len() == 32,
    ensures
        key_from_seq(s)@ == s,
{
    lemma_array_from_full_seq::<32>(s);
}

/// The array built from an array's own elements is that array.
pub proof fn lemma_array_from_seq_eq<const N: usize>(a: [u8; N], s: Seq<u8>)
    requires
        a@ == s,
    ensures
        array_from_seq::<N>(s, N as int) == a,
{
    broadcast use vstd::array::group_array_axioms;

    lemma_array_from_full_seq::<N>(s);
    lemma_array_eq::<N>(array_from_seq::<N>(s, N as int), a);
}

/// The address built from an address's own bytes is that address.
pub proof fn lemma_key_from_seq_eq(k: Pubkey, s: Seq<u8>)
    requires
        k@ == s,
    ensures
        key_from_seq(s) == k,
{
    lemma_array_from_seq_eq::<32>(k.bytes, s);
}

/// Two addresses with the same bytes are equal.
pub proof fn lemma_key_eq(a: Pubkey, b: Pubkey)
    requires
        a@ == b@,
    ensures
        a == b,
{
    lemma_array_eq::<32>(a.bytes, b.bytes);
}

impl Pubkey {
    /// Wraps 32 bytes as an address.
    pub fn new_from_array(bytes: [u8; 32]) -> (r: Pubkey)
        ensures
            r.bytes == bytes,
            r@ == bytes@,
    {
        Pubkey { bytes }
    }

    /// The address whose bytes are all zero.
    pub fn zeroed() -> (r: Pubkey)
        ensures
            r@ == zero_key(),
            r == zero_pubkey(),
    {
        let r = Pubkey { bytes: [0u8; 32] };
        assert(r@ =~= zero_key());
        proof {
            lemma_key_from_seq_eq(r, zero_key());
        }
        r
    }

    /// The bytes of the address, as a vector (the form a seed takes).
    pub fn to_vec(&self) -> (v: Vec<u8>)
        ensures
            v@ == self@,
    {
        let mut v: Vec<u8> = Vec::new();
        let mut i: usize = 0;
        while i < 32
            invariant
                0 <= i <= 32,
                self@.len() == 32,
                v@ == self@.take(i as int),
            decreases 32 - i,
        {
            v.push(self.bytes[i]);
            i = i + 1;
            assert(v@ =~= self@.take(i as int));
        }
        assert(self@.take(32) =~= self@);
        v
    }

    /// Reads the 32 bytes at `offset` of `data` as an address.
    pub fn read_at(data: &Vec<u8>, offset: usize) -> (r: Pubkey)
        requires
            offset + 32 <= data@.len(),
        ensures
            r@ == data@.subrange(offset as int, offset + 32),
    {
        let n = data.len();
        let mut bytes = [0u8; 32];
        let mut i: usize = 0;
        while i < 32
            invariant
                0 <= i <= 32,
                offset + 32 <= data@.len(),
                n == data@.len(),
                bytes@.len() == 32,
                forall|j: int| 0 <= j < i ==> bytes@[j] == data@[offset + j],
            decreases 32 - i,
        {
            bytes[i] = data[offset + i];
            i = i + 1;
        }
        let r = Pubkey { bytes };
        assert(r@ =~= data@.subrange(offset as int, offset + 32));
        r
    }
}

/// Compares two addresses byte by byte.
pub fn key_eq(a: &Pubkey, b: &Pubkey) -> (r: bool)
    ensures
        r == (a@ == b@),
{
    let mut i: usize = 0;
    while i < 32
        invariant
            0 <= i <= 32,
            a@.len() == 32,
            b@.len() == 32,
            forall|j: int| 0 <= j < i ==> a@[j] == b@[j],
        decreases 32 - i,
    {
        if a.bytes[i] != b.bytes[i] {
            return false;
        }
        i = i + 1;
    }
    assert(a@ =~= b@);
    true
}

/// The address this program is deployed at, `Fg6PaFpoGXkYsidMpWTK6W2BeZ7FEfcYkg476zPFsLnS`.
pub const PROGRAM_ID_BYTES: [u8; 32] = [
    218, 7, 92, 178, 255, 94, 198, 129, 118, 19, 222, 83, 11, 105, 42, 135,
    53, 71, 119, 105, 218, 71, 67, 12, 189, 129, 84, 51, 92, 74, 131, 39,
];

/// The token program, `TokenkegQfeZyiNwAJbNbGKPFXCWuBvf9Ss623VQ5DA`.
pub const TOKEN_PROGRAM_ID_BYTES: [u8; 32] = [
    6, 221, 246, 225, 215, 101, 161, 147, 217, 203, 225, 70, 206, 235, 121, 172,
    28, 180, 133, 237, 95, 91, 55, 145, 58, 140, 245, 133, 126, 255, 0, 169,
];

/// The associated token account program, `ATokenGPvbdGVxr1b2hvZbsiqW5xWH25efTNsLJA8knL`.
pub const ASSOCIATED_TOKEN_PROGRAM_ID_BYTES: [u8; 32] = [
    140, 151, 37, 143, 78, 36, 137, 241, 187, 61, 16, 41, 20, 142, 13, 131,
    11, 90, 19, 153, 218, 255, 16, 132, 4, 142, 123, 216, 219, 233, 248, 89,
];

/// The rent sysvar, `SysvarRent111111111111111111111111111111111`.
pub const RENT_SYSVAR_ID_BYTES: [u8; 32] = [
    6, 167, 213, 23, 25, 44, 92, 81, 33, 140, 201, 76, 61, 74, 241, 127,
    88, 218, 238, 8, 155, 161, 253, 68, 227, 219, 217, 138, 0, 0, 0, 0,
];

/// The program's own address, as an address.
pub open spec fn program_key() -> Pubkey {
    Pubkey { bytes: PROGRAM_ID_BYTES }
}

/// The token program's address, as an address.
pub open spec fn token_key() -> Pubkey {
    Pubkey { bytes: TOKEN_PROGRAM_ID_BYTES }
}

/// The program's own address.
pub fn program_id() -> (r: Pubkey)
    ensures
        r == program_key(),
        r@ == PROGRAM_ID_BYTES@,
{
    Pubkey { bytes: PROGRAM_ID_BYTES }
}

/// The system program's address (all zero bytes).
pub fn system_program_id() -> (r: Pubkey)
    ensures
        r@ == zero_key(),
{
    Pubkey::zeroed()
}

/// The token program's address.
pub fn token_program_id() -> (r: Pubkey)
    ensures
        r == token_key(),
        r@ == TOKEN_PROGRAM_ID_BYTES@,
{
    Pubkey { bytes: TOKEN_PROGRAM_ID_BYTES }
}

/// The associated token account program's address.
pub fn associated_token_program_id() -> (r: Pubkey)
    ensures
        r@ == ASSOCIATED_TOKEN_PROGRAM_ID_BYTES@,
{
    Pubkey { bytes: ASSOCIATED_TOKEN_PROGRAM_ID_BYTES }
}

/// The rent sysvar's address.
pub fn rent_sysvar_id() -> (r: Pubkey)
    ensures
        r@ == RENT_SYSVAR_ID_BYTES@,
{
    Pubkey { bytes: RENT_SYSVAR_ID_BYTES }
}

} // verus!
