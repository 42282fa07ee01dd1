use vstd::prelude::*;
use vstd::string::StrSliceExecFns;
use anchor_lang::prelude::Pubkey;
use crate::error::CustomError;

verus! {

/// Longest accepted paper identifier, in characters.
pub const MAX_PAPER_ID_LEN: usize = 50;

/// Longest accepted question, in characters.
pub const MAX_QUESTION_LEN: usize = 200;

/// One market: a claim about a paper, open for validation votes.
///
/// `owner`, `paper_id`, `question`, `resolution_date` and `initial_stake`
/// never change after creation; only the two tallies move, and only through
/// the ledger.
#[derive(Debug)]
pub struct Market {
    pub owner: Pubkey,
    pub paper_id: String,
    pub question: String,
    pub resolution_date: i64,
    pub initial_stake: u64,
    pub validation_count: u64,
    pub total_stake: u64,
}

/// The mathematical content of a `Market`.
pub struct MarketView {
    pub owner: Pubkey,
    pub paper_id: Seq<char>,
    pub question: Seq<char>,
    pub resolution_date: int,
    pub initial_stake: nat,
    pub validation_count: nat,
    pub total_stake: nat,
}

impl View for Market {
    type V = MarketView;

    open spec fn view(&self) -> MarketView {
        MarketView {
            owner: self.owner,
            paper_id: self.paper_id@,
            question: self.question@,
            resolution_date: self.resolution_date as int,
            initial_stake: self.initial_stake as nat,
            validation_count: self.validation_count as nat,
            total_stake: self.total_stake as nat,
        }
    }
}

impl MarketView {
    /// The field bounds that a record keeps for its whole lifetime.
    pub open spec fn well_formed(self) -> bool {
        &&& self.paper_id.len() <= MAX_PAPER_ID_LEN
        &&& self.question.len() <= MAX_QUESTION_LEN
    }
}

/// The rule that rejects a creation request, if one does. The rules apply
/// in a fixed order: paper identifier, question, then resolution date.
pub open spec fn creation_error(
    paper_id: Seq<char>,
    question: Seq<char>,
    resolution_date: int,
    now: int,
) -> Option<CustomError> {
    if paper_id.len() > MAX_PAPER_ID_LEN {
        Some(CustomError::PaperIdTooLong)
    } else if question.len() > MAX_QUESTION_LEN {
        Some(CustomError::QuestionTooLong)
    } else if resolution_date <= now {
        Some(CustomError::InvalidResolutionDate)
    } else {
        None
    }
}

/// The record that a successful creation commits: the supplied values
/// verbatim, with both tallies at zero.
pub open spec fn opened_market(
    owner: Pubkey,
    paper_id: Seq<char>,
    question: Seq<char>,
    resolution_date: int,
    initial_stake: nat,
) -> MarketView {
    MarketView {
        owner,
        paper_id,
        question,
        resolution_date,
        initial_stake,
        validation_count: 0,
        total_stake: 0,
    }
}

/// Opens a market owned by `owner`. `now` is the host's logical clock read
/// at the time of the call; the resolution date must lie strictly after it.
/// Either every rule is met and the full record is returned, or an error
/// is returned and no record exists.
pub fn create_market(
    owner: Pubkey,
    paper_id: String,
    question: String,
    resolution_date: i64,
    initial_stake: u64,
    now: i64,
) -> (r: Result<Market, CustomError>)
    ensures
        match creation_error(paper_id@, question@, resolution_date as int, now as int) {
            Some(e) => r == Err::<Market, CustomError>(e),
            None => r is Ok && r->Ok_0@ == opened_market(
                owner,
                paper_id@,
                question@,
                resolution_date as int,
                initial_stake as nat,
            ),
        },
        paper_id@.len() > MAX_PAPER_ID_LEN ==> r == Err::<Market, CustomError>(
            CustomError::PaperIdTooLong,
        ),
        paper_id@.len() <= MAX_PAPER_ID_LEN && question@.len() > MAX_QUESTION_LEN ==> r == Err::<
            Market,
            CustomError,
        >(CustomError::QuestionTooLong),
        paper_id@.len() <= MAX_PAPER_ID_LEN && question@.len() <= MAX_QUESTION_LEN
            && resolution_date <= now ==> r == Err::<Market, CustomError>(
            CustomError::InvalidResolutionDate,
        ),
        resolution_date <= now ==> r is Err,
        r is Ok <==> creation_error(paper_id@, question@, resolution_date as int, now as int)
            is None,
        r is Ok ==> {
            &&& r->Ok_0@.well_formed()
            &&& r->Ok_0.validation_count == 0
            &&& r->Ok_0.total_stake == 0
        },
{
    if paper_id.as_str().unicode_len() > MAX_PAPER_ID_LEN {
        return Err(CustomError::PaperIdTooLong);
    }
    if question.as_str().unicode_len() > MAX_QUESTION_LEN {
        return Err(CustomError::QuestionTooLong);
    }
    if resolution_date <= now {
        return Err(CustomError::InvalidResolutionDate);
    }
    Ok(Market {
        owner,
        paper_id,
        question,
        resolution_date,
        initial_stake,
        validation_count: 0,
        total_stake: 0,
    })
}

} // verus!
