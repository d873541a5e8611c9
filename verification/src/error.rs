//! Why an operation is refused.

use vstd::prelude::*;

verus! {

/// The reason an operation was refused. A refused operation has changed
/// nothing and has asked for no transfer.
#[derive(Clone, Copy, Debug, PartialEq, Eq, Structural)]
pub enum ErrorCode {
    /// The escrow has been settled or exercised before.
    OptionAlreadyExercised,
    /// Settlement was asked for before the expiration time.
    OptionNotExpired,
    /// The depositor's holding account is of another asset than the collateral.
    IncorrectCollateralMint,
    /// The option's type does not allow exercise before expiration.
    CannotExerciseEarly,
    /// The caller is not the governance authority.
    Unauthorized,
    /// The fee does not fit the amount type, or exceeds the collateral.
    ArithmeticError,
}

/// The families of refusals, by what a caller can do about them. A transfer
/// that the ledger fails to carry out is not among them: it is no refusal of
/// this crate, and reaches the caller as the ledger reported it.
#[derive(Clone, Copy, Debug, PartialEq, Eq, Structural)]
pub enum ErrorKind {
    /// The record is not in a state that allows the operation.
    State,
    /// An argument does not fit the record.
    Validation,
    /// The caller lacks the right.
    Authorization,
    /// An amount cannot be computed.
    Arithmetic,
}

impl ErrorCode {
    /// The family each refusal belongs to.
    pub open spec fn spec_kind(self) -> ErrorKind {
        match self {
            ErrorCode::OptionAlreadyExercised => ErrorKind::State,
            ErrorCode::OptionNotExpired => ErrorKind::State,
            ErrorCode::CannotExerciseEarly => ErrorKind::State,
            ErrorCode::IncorrectCollateralMint => ErrorKind::Validation,
            ErrorCode::Unauthorized => ErrorKind::Authorization,
            ErrorCode::ArithmeticError => ErrorKind::Arithmetic,
        }
    }

    /// The text shown to a user for each refusal.
    pub open spec fn spec_message(self) -> Seq<char> {
        match self {
            ErrorCode::OptionAlreadyExercised => "The option has already been exercised."@,
            ErrorCode::OptionNotExpired => "The option has not yet expired."@,
            ErrorCode::IncorrectCollateralMint => "Incorrect collateral mint provided."@,
            ErrorCode::CannotExerciseEarly => "Cannot exercise the option early."@,
            ErrorCode::Unauthorized => "The caller is not the governance authority."@,
            ErrorCode::ArithmeticError => "The fee cannot be computed for this amount and rate."@,
        }
    }

    pub fn kind(&self) -> (kind: ErrorKind)
        ensures
            kind == self.spec_kind(),
    {
        match self {
            ErrorCode::OptionAlreadyExercised => ErrorKind::State,
            ErrorCode::OptionNotExpired => ErrorKind::State,
            ErrorCode::CannotExerciseEarly => ErrorKind::State,
            ErrorCode::IncorrectCollateralMint => ErrorKind::Validation,
            ErrorCode::Unauthorized => ErrorKind::Authorization,
            ErrorCode::ArithmeticError => ErrorKind::Arithmetic,
        }
    }

    pub fn message(&self) -> (text: &'static str)
        ensures
            text@ == self.spec_message(),
    {
        match self {
            ErrorCode::OptionAlreadyExercised => "The option has already been exercised.",
            ErrorCode::OptionNotExpired => "The option has not yet expired.",
            ErrorCode::IncorrectCollateralMint => "Incorrect collateral mint provided.",
            ErrorCode::CannotExerciseEarly => "Cannot exercise the option early.",
            ErrorCode::Unauthorized => "The caller is not the governance authority.",
            ErrorCode::ArithmeticError => "The fee cannot be computed for this amount and rate.",
        }
    }
}

} // verus!
