use options_escrow::{ErrorCode, ErrorKind};

#[test]
fn every_refusal_has_its_message() {
    assert_eq!(
        ErrorCode::OptionAlreadyExercised.message(),
        "The option has already been exercised."
    );
    assert_eq!(ErrorCode::OptionNotExpired.message(), "The option has not yet expired.");
    assert_eq!(
        ErrorCode::IncorrectCollateralMint.message(),
        "Incorrect collateral mint provided."
    );
    assert_eq!(ErrorCode::CannotExerciseEarly.message(), "Cannot exercise the option early.");
    assert_eq!(
        ErrorCode::Unauthorized.message(),
        "The caller is not the governance authority."
    );
    assert_eq!(
        ErrorCode::ArithmeticError.message(),
        "The fee cannot be computed for this amount and rate."
    );
}

#[test]
fn every_refusal_has_its_kind() {
    assert_eq!(ErrorCode::OptionAlreadyExercised.kind(), ErrorKind::State);
    assert_eq!(ErrorCode::OptionNotExpired.kind(), ErrorKind::State);
    assert_eq!(ErrorCode::CannotExerciseEarly.kind(), ErrorKind::State);
    assert_eq!(ErrorCode::IncorrectCollateralMint.kind(), ErrorKind::Validation);
    assert_eq!(ErrorCode::Unauthorized.kind(), ErrorKind::Authorization);
    assert_eq!(ErrorCode::ArithmeticError.kind(), ErrorKind::Arithmetic);
}
