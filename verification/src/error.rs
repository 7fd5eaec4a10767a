//! The errors an instruction of the program fails with.
use vstd::prelude::*;

verus! {

/// Why an instruction was refused.
///
/// All but two of the variants are the framework's error codes (and the runtime's
/// account errors) that the program's account checks raise; the names follow those
/// codes. `NotAProgram` is the program's own error, and `NoViableBump` stands for the
/// panic of an address search that finds no bump seed.
#[derive(Clone, Copy, PartialEq, Eq, Structural, Debug)]
pub enum ErrorCode {
    /// The target program account handed to a cross-program call is not executable.
    NotAProgram,
    /// Fewer accounts were passed than the instruction declares.
    AccountNotEnoughKeys,
    /// A program account that must exist is still owned by the system program and empty.
    AccountNotInitialized,
    /// An account is owned by another program than its type requires.
    AccountOwnedByWrongProgram,
    /// A program account's data is shorter than its 8-byte discriminator.
    AccountDiscriminatorNotFound,
    /// A program account's discriminator is not the one of its type.
    AccountDiscriminatorMismatch,
    /// A program account's data is too short for its fields.
    AccountDidNotDeserialize,
    /// An account that must sign did not.
    AccountNotSigner,
    /// A program account is not the expected program.
    InvalidProgramId,
    /// A program account is not executable.
    InvalidProgramExecutable,
    /// The rent sysvar account is not the rent sysvar.
    AccountSysvarMismatch,
    /// A `mut` account is not writable.
    ConstraintMut,
    /// A `has_one` field does not hold the key of the named account.
    ConstraintHasOne,
    /// A `constraint = ..` expression does not hold.
    ConstraintRaw,
    /// An account is not the address its seeds and bump derive.
    ConstraintSeeds,
    /// A token account holds another mint than required.
    ConstraintTokenMint,
    /// A token account belongs to another owner than required.
    ConstraintTokenOwner,
    /// A token account is not the associated token account of its owner and mint.
    ConstraintAssociated,
    /// An existing token account given for an `init_if_needed` associated token
    /// account is not at the associated address.
    AccountNotAssociatedTokenAccount,
    /// An account's balance does not cover rent exemption for its data.
    ConstraintRentExempt,
    /// Token account or mint data of the wrong length or with invalid fields.
    InvalidAccountData,
    /// A token account or mint that is not initialized.
    UninitializedAccount,
    /// No bump seed in 1..=255 derives an address off the curve.
    NoViableBump,
}

} // verus!
