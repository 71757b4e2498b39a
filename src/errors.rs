use pinocchio::program_error::ProgramError;
use vstd::prelude::*;
use vstd::std_specs::convert::TryFromSpec;

verus! {

/// Relies on `pinocchio::program_error::ProgramError`, the runtime's error
/// taxonomy: a plain enum whose variants carry at most one `u32`, so its
/// variants are visible to the proofs.
#[verifier::external_type_specification]
pub struct ExProgramError(ProgramError);

/// The errors this program raises. The wire code of each variant is its
/// position in this list, starting at 0; reordering them breaks callers.
#[derive(Clone, Copy, Debug, Eq, PartialEq, Structural)]
pub enum PinocchioError {
    /// A required signer is absent.
    NotSigner,
    /// An account is owned by an unexpected authority.
    InvalidOwner,
    /// An account's data fails validation.
    InvalidAccountData,
    /// An address does not match the expected program-derived address.
    InvalidAddress,
    /// An account's balance is below the rent-exempt threshold.
    NoRentExempt,
}

impl PinocchioError {
    /// The wire code of the variant.
    pub open spec fn spec_code(self) -> u32 {
        match self {
            PinocchioError::NotSigner => 0,
            PinocchioError::InvalidOwner => 1,
            PinocchioError::InvalidAccountData => 2,
            PinocchioError::InvalidAddress => 3,
            PinocchioError::NoRentExempt => 4,
        }
    }

    /// Returns the wire code of the variant.
    pub fn code(&self) -> (r: u32)
        ensures
            r == self.spec_code(),
    {
        match self {
            PinocchioError::NotSigner => 0,
            PinocchioError::InvalidOwner => 1,
            PinocchioError::InvalidAccountData => 2,
            PinocchioError::InvalidAddress => 3,
            PinocchioError::NoRentExempt => 4,
        }
    }

    /// The variant whose wire code is `code`, if there is one.
    pub open spec fn spec_from_code(code: u32) -> Option<PinocchioError> {
        if code == 0 {
            Some(PinocchioError::NotSigner)
        } else if code == 1 {
            Some(PinocchioError::InvalidOwner)
        } else if code == 2 {
            Some(PinocchioError::InvalidAccountData)
        } else if code == 3 {
            Some(PinocchioError::InvalidAddress)
        } else if code == 4 {
            Some(PinocchioError::NoRentExempt)
        } else {
            None
        }
    }

    /// The generic runtime error that stands for the variant. The one variant
    /// without a generic counterpart travels as a custom error carrying its own
    /// wire code.
    pub open spec fn spec_classify(self) -> ProgramError {
        match self {
            PinocchioError::NotSigner => ProgramError::MissingRequiredSignature,
            PinocchioError::InvalidOwner => ProgramError::InvalidAccountOwner,
            PinocchioError::InvalidAccountData => ProgramError::InvalidAccountData,
            PinocchioError::InvalidAddress => ProgramError::IncorrectProgramId,
            PinocchioError::NoRentExempt => ProgramError::Custom(self.spec_code()),
        }
    }

    /// The display text of the variant.
    pub open spec fn spec_message(self) -> Seq<char> {
        match self {
            PinocchioError::NotSigner => "Error: Account not a signer"@,
            PinocchioError::InvalidOwner => "Error: Invalid account owner"@,
            PinocchioError::InvalidAccountData => "Error: Invalid account data"@,
            PinocchioError::InvalidAddress => "Error: Invalid program address"@,
            PinocchioError::NoRentExempt => "Error: lamport balance below rent-exempt threshold"@,
        }
    }

    /// Returns the display text of the variant, which always starts with
    /// `"Error: "`.
    pub fn to_str(&self) -> (r: &'static str)
        ensures
            r@ == self.spec_message(),
            r@.len() >= 7,
            r@.subrange(0, 7) == "Error: "@,
    {
        proof {
            reveal_strlit("Error: ");
            reveal_strlit("Error: Account not a signer");
            reveal_strlit("Error: Invalid account owner");
            reveal_strlit("Error: Invalid account data");
            reveal_strlit("Error: Invalid program address");
            reveal_strlit("Error: lamport balance below rent-exempt threshold");
        }
        match self {
            PinocchioError::NotSigner => "Error: Account not a signer",
            PinocchioError::InvalidOwner => "Error: Invalid account owner",
            PinocchioError::InvalidAccountData => "Error: Invalid account data",
            PinocchioError::InvalidAddress => "Error: Invalid program address",
            PinocchioError::NoRentExempt => "Error: lamport balance below rent-exempt threshold",
        }
    }
}

impl From<PinocchioError> for ProgramError {
    fn from(e: PinocchioError) -> (r: ProgramError) {
        match e {
            PinocchioError::NotSigner => ProgramError::MissingRequiredSignature,
            PinocchioError::InvalidOwner => ProgramError::InvalidAccountOwner,
            PinocchioError::InvalidAccountData => ProgramError::InvalidAccountData,
            PinocchioError::InvalidAddress => ProgramError::IncorrectProgramId,
            PinocchioError::NoRentExempt => ProgramError::Custom(e.code()),
        }
    }
}

impl vstd::std_specs::convert::FromSpecImpl<PinocchioError> for ProgramError {
    open spec fn obeys_from_spec() -> bool {
        true
    }

    open spec fn from_spec(e: PinocchioError) -> ProgramError {
        e.spec_classify()
    }
}

impl TryFrom<u32> for PinocchioError {
    type Error = ProgramError;

    fn try_from(code: u32) -> (r: Result<PinocchioError, ProgramError>) {
        match code {
            0 => Ok(PinocchioError::NotSigner),
            1 => Ok(PinocchioError::InvalidOwner),
            2 => Ok(PinocchioError::InvalidAccountData),
            3 => Ok(PinocchioError::InvalidAddress),
            4 => Ok(PinocchioError::NoRentExempt),
            _ => Err(ProgramError::InvalidArgument),
        }
    }
}

impl vstd::std_specs::convert::TryFromSpecImpl<u32> for PinocchioError {
    open spec fn obeys_try_from_spec() -> bool {
        true
    }

    /// A code names the variant at that position; any other code is an
    /// invalid argument, and the code itself is not kept.
    open spec fn try_from_spec(code: u32) -> Result<PinocchioError, ProgramError> {
        match PinocchioError::spec_from_code(code) {
            Some(e) => Ok(e),
            None => Err(ProgramError::InvalidArgument),
        }
    }
}

/// Every variant's wire code parses back to that variant.
pub proof fn lemma_code_round_trip(e: PinocchioError)
    ensures
        PinocchioError::try_from_spec(e.spec_code()) == Ok::<PinocchioError, ProgramError>(e),
{
}

/// Every code that names no variant is rejected as an invalid argument.
pub proof fn lemma_unknown_code_rejected(code: u32)
    requires
        code > 4,
    ensures
        PinocchioError::try_from_spec(code) == Err::<PinocchioError, ProgramError>(
            ProgramError::InvalidArgument,
        ),
{
}

/// Where a variant travels as a custom runtime error, the code it carries
/// parses back to that same variant.
pub proof fn lemma_custom_code_round_trip(e: PinocchioError)
    ensures
        e.spec_classify() matches ProgramError::Custom(c) ==> PinocchioError::try_from_spec(c)
            == Ok::<PinocchioError, ProgramError>(e),
{
}

} // verus!
