//! The USDC mint (`EPjFWdd5AufqSSqeM2qN1xzybapC8G4wEGGkZwyTDt1v`), the one mint pools of
//! the first version take deposits of.
use vstd::prelude::*;
use crate::pubkey::Pubkey;

verus! {

/// The mint's address.
pub const ID_BYTES: [u8; 32] = [
    198, 250, 122, 243, 190, 219, 173, 58, 61, 101, 243, 106, 171, 201, 116, 49,
    177, 187, 228, 194, 210, 246, 224, 228, 124, 166, 2, 3, 69, 47, 93, 97,
];

/// The mint's address.
pub fn id() -> (r: Pubkey)
    ensures
        r@ == ID_BYTES@,
{
    Pubkey { bytes: ID_BYTES }
}

} // verus!
