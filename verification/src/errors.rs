use vstd::prelude::*;

verus! {

/// Failure of the inverse-pricing arithmetic.
#[derive(Clone, Copy, Debug, PartialEq, Eq, Structural)]
pub enum MathError {
    /// The fee would consume the whole amount (or more): the effective
    /// basis points would be zero or negative.
    FeeTooHigh,
    /// The input-side price is zero, so no input amount can realize the
    /// desired output.
    ZeroPrice,
    /// A checked product or sum exceeded the 128-bit range.
    Overflow,
}

/// Failure of a state refresh: names the record that could not be read.
#[derive(Clone, Copy, Debug, PartialEq, Eq, Structural)]
pub enum UpdateError {
    /// The bank buffer is shorter than a serialized bank record.
    BankDataTooShort,
    /// The bank buffer did not deserialize into a bank record.
    BankInvalid,
    /// The oracle buffer is shorter than a serialized oracle record.
    OracleDataTooShort,
    /// The oracle buffer did not deserialize into an oracle record.
    OracleInvalid,
}

/// Failure of the forward pricing evaluation.
#[derive(Clone, Copy, Debug, PartialEq, Eq, Structural)]
pub enum CalcError {
    /// The record handed to the evaluator was rejected.
    InvalidData,
    /// A narrowing conversion inside the evaluator failed.
    ConversionOverflow,
    /// A checked product, quotient or difference inside the evaluator failed.
    MathOverflow,
}

/// Failure of a quote request.
#[derive(Clone, Copy, Debug, PartialEq, Eq, Structural)]
pub enum QuoteError {
    /// Bank and oracle state have not both been refreshed yet.
    StateNotLoaded,
    /// A decimal count is too large for the fixed-point evaluator.
    DecimalsTooLarge,
    /// The inverse formula failed.
    Math(MathError),
    /// The required input amount does not fit in a 64-bit amount.
    AmountTooLarge,
    /// The forward pricing evaluation failed.
    Calc(CalcError),
}

/// Failure to derive the instance's program-derived addresses.
#[derive(Clone, Copy, Debug, PartialEq, Eq, Structural)]
pub enum DeriveError {
    /// No valid derivation exists for the oracle address.
    Oracle,
    /// No valid derivation exists for the fee-recipient address.
    FeeRecipient,
}

/// Failure to construct an instance from a vault account buffer.
#[derive(Clone, Copy, Debug, PartialEq, Eq, Structural)]
pub enum LoadError {
    /// The vault buffer is shorter than a serialized vault record.
    VaultDataTooShort,
    /// The vault buffer did not deserialize into a vault record.
    VaultInvalid,
    /// A program-derived address could not be derived.
    Derive(DeriveError),
}

} // verus!
