use vstd::prelude::*;

verus! {

/// Every way a vault operation can fail. Each failure is terminal for the
/// call that raised it and leaves all state untouched.
#[derive(Clone, Copy, Debug, PartialEq, Eq, Structural)]
pub enum VaultError {
    /// A fee above the permitted maximum was requested.
    InvalidFee,
    /// An amount of zero was supplied where a positive one is needed.
    ZeroAmount,
    /// More shares were presented than the pool has outstanding.
    InsufficientShares,
    /// A withdrawal would take a pool total below zero.
    InsufficientBalance,
    /// A result does not fit the integer width that holds it.
    ArithmeticOverflow,
    /// A proportion was requested over a denominator of zero.
    DivisionByZero,
    /// The caller is not the principal the action is reserved for.
    Unauthorized,
    /// The authorization was presented after its deadline.
    DeadlineExpired,
    /// The presented nonce is not the one currently stored.
    NonceMismatch,
    /// The signature over the canonical message did not verify.
    InvalidSignature,
}

} // verus!
