use vstd::prelude::*;

verus! {

/// The closed set of failures that the registry and the ledger report.
#[derive(Clone, Copy, Debug, PartialEq, Eq, Structural)]
pub enum CustomError {
    PaperIdTooLong,
    QuestionTooLong,
    InvalidResolutionDate,
    /// Part of the taxonomy, but no operation reports it.
    InsufficientStake,
}

/// The human-readable text of each error.
pub open spec fn error_message(e: CustomError) -> Seq<char> {
    match e {
        CustomError::PaperIdTooLong => "Paper ID is too long"@,
        CustomError::QuestionTooLong => "Question is too long"@,
        CustomError::InvalidResolutionDate => "Resolution date is invalid"@,
        CustomError::InsufficientStake => "Insufficient stake amount"@,
    }
}

impl CustomError {
    pub fn message(&self) -> (r: &'static str)
        ensures
            r@ == error_message(*self),
    {
        match self {
            CustomError::PaperIdTooLong => "Paper ID is too long",
            CustomError::QuestionTooLong => "Question is too long",
            CustomError::InvalidResolutionDate => "Resolution date is invalid",
            CustomError::InsufficientStake => "Insufficient stake amount",
        }
    }
}

} // verus!
