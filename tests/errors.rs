use pinocchio::program_error::ProgramError;
use pinocchio_errors::PinocchioError;

const ALL: [PinocchioError; 5] = [
    PinocchioError::NotSigner,
    PinocchioError::InvalidOwner,
    PinocchioError::InvalidAccountData,
    PinocchioError::InvalidAddress,
    PinocchioError::NoRentExempt,
];

#[test]
fn parse_zero_is_not_signer() {
    assert_eq!(PinocchioError::try_from(0u32), Ok(PinocchioError::NotSigner));
    assert_eq!(PinocchioError::NotSigner.to_str(), "Error: Account not a signer");
}

#[test]
fn parse_four_is_no_rent_exempt() {
    assert_eq!(PinocchioError::try_from(4u32), Ok(PinocchioError::NoRentExempt));
    assert_eq!(ProgramError::from(PinocchioError::NoRentExempt), ProgramError::Custom(4));
}

#[test]
fn parse_five_is_invalid_argument() {
    assert_eq!(PinocchioError::try_from(5u32), Err(ProgramError::InvalidArgument));
}

#[test]
fn parse_max_is_invalid_argument() {
    assert_eq!(
        PinocchioError::try_from(4294967295u32),
        Err(ProgramError::InvalidArgument)
    );
}

#[test]
fn describe_invalid_address() {
    assert_eq!(PinocchioError::InvalidAddress.to_str(), "Error: Invalid program address");
}

#[test]
fn every_code_parses_back() {
    for (i, e) in ALL.iter().enumerate() {
        assert_eq!(e.code(), i as u32);
        assert_eq!(PinocchioError::try_from(e.code()), Ok(*e));
    }
}

#[test]
fn codes_past_the_last_are_rejected() {
    for code in [5u32, 6, 7, 100, 65535, 1 << 31, u32::MAX - 1, u32::MAX] {
        assert_eq!(PinocchioError::try_from(code), Err(ProgramError::InvalidArgument));
    }
}

#[test]
fn classify_each_variant() {
    assert_eq!(
        ProgramError::from(PinocchioError::NotSigner),
        ProgramError::MissingRequiredSignature
    );
    assert_eq!(
        ProgramError::from(PinocchioError::InvalidOwner),
        ProgramError::InvalidAccountOwner
    );
    assert_eq!(
        ProgramError::from(PinocchioError::InvalidAccountData),
        ProgramError::InvalidAccountData
    );
    assert_eq!(
        ProgramError::from(PinocchioError::InvalidAddress),
        ProgramError::IncorrectProgramId
    );
    assert_eq!(ProgramError::from(PinocchioError::NoRentExempt), ProgramError::Custom(4));
}

#[test]
fn into_program_error() {
    let e: ProgramError = PinocchioError::InvalidOwner.into();
    assert_eq!(e, ProgramError::InvalidAccountOwner);
}

#[test]
fn custom_code_parses_back() {
    for e in ALL.iter() {
        if let ProgramError::Custom(c) = ProgramError::from(*e) {
            assert_eq!(PinocchioError::try_from(c), Ok(*e));
        }
    }
}

#[test]
fn describe_each_variant() {
    let expected = [
        "Error: Account not a signer",
        "Error: Invalid account owner",
        "Error: Invalid account data",
        "Error: Invalid program address",
        "Error: lamport balance below rent-exempt threshold",
    ];
    for (e, text) in ALL.iter().zip(expected.iter()) {
        assert_eq!(e.to_str(), *text);
        assert!(e.to_str().starts_with("Error: "));
    }
}
