//! Error codes of an on-chain program, with their conversions to and from the
//! runtime's generic `ProgramError`, and their display strings.

mod errors;

pub use errors::{
    lemma_code_round_trip, lemma_custom_code_round_trip, lemma_unknown_code_rejected, PinocchioError,
};
