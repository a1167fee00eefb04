//! Quotes, and the sources that give them.

use crate::asset::SwapPath;
use vstd::prelude::*;

verus! {

/// What a venue answers for a path and an input amount: one amount per asset
/// of the path, each in that asset's smallest unit. The first is the input
/// and the last is what the conversion yields.
#[derive(Clone, Debug, PartialEq, Eq)]
pub struct Quote {
    pub amounts: Vec<u128>,
}

impl View for Quote {
    type V = Seq<u128>;

    open spec fn view(&self) -> Seq<u128> {
        self.amounts@
    }
}

/// The amount a quote yields: its last entry. A quote without entries yields
/// nothing.
pub open spec fn realized_output(amounts: Seq<u128>) -> u128 {
    if amounts.len() == 0 {
        0
    } else {
        amounts.last()
    }
}

impl Quote {
    pub fn new(amounts: Vec<u128>) -> (quote: Quote)
        ensures
            quote@ == amounts@,
    {
        Quote { amounts }
    }

    /// The amount that the quoted conversion yields.
    pub fn output(&self) -> (amount: u128)
        ensures
            amount == realized_output(self@),
    {
        let count: usize = self.amounts.len();
        if count == 0 {
            0
        } else {
            self.amounts[count - 1]
        }
    }
}

/// Why a venue gave no quote.
#[derive(Clone, Debug, PartialEq, Eq)]
pub enum QuoteUnavailable {
    /// The query did not complete; the text says what went wrong.
    QueryFailed(String),
    /// The answer holds no amount.
    EmptyAnswer,
    /// The answer holds an amount beyond 128 bits.
    AmountOutOfRange,
}

/// The number that four 64-bit words write, the least significant first.
pub open spec fn words_value(words: [u64; 4]) -> nat {
    (words[0] + words[1] * 0x1_0000_0000_0000_0000 + words[2]
        * 0x1_0000_0000_0000_0000_0000_0000_0000_0000 + words[3]
        * 0x1_0000_0000_0000_0000_0000_0000_0000_0000_0000_0000_0000_0000) as nat
}

/// Why an answer of 256-bit amounts is no quote, if it is none: it is empty,
/// or one of its amounts does not fit 128 bits.
pub open spec fn answer_fault(answer: Seq<[u64; 4]>) -> Option<QuoteUnavailable> {
    if answer.len() == 0 {
        Some(QuoteUnavailable::EmptyAnswer)
    } else if exists|i: int| 0 <= i < answer.len() && #[trigger] words_value(answer[i]) > u128::MAX {
        Some(QuoteUnavailable::AmountOutOfRange)
    } else {
        None
    }
}

/// The amounts of an answer of 256-bit amounts.
pub open spec fn answer_amounts(answer: Seq<[u64; 4]>) -> Seq<u128> {
    Seq::new(answer.len(), |i: int| words_value(answer[i]) as u128)
}

/// Reads a venue's answer, given as 256-bit amounts of four words each, the
/// least significant word first. An answer with no amount, or with one that
/// does not fit 128 bits, is no quote.
pub fn read_answer(answer: &Vec<[u64; 4]>) -> (outcome: Result<Quote, QuoteUnavailable>)
    ensures
        match outcome {
            Ok(quote) => answer_fault(answer@) is None && quote@ == answer_amounts(answer@),
            Err(fault) => answer_fault(answer@) == Some(fault),
        },
{
    if answer.len() == 0 {
        return Err(QuoteUnavailable::EmptyAnswer);
    }
    let mut amounts: Vec<u128> = Vec::new();
    let mut i: usize = 0;
    while i < answer.len()
        invariant
            i <= answer@.len(),
            amounts@.len() == i,
            forall|j: int| 0 <= j < i ==> words_value(#[trigger] answer@[j]) <= u128::MAX,
            forall|j: int| 0 <= j < i ==> amounts@[j] == words_value(#[trigger] answer@[j]),
        decreases answer@.len() - i,
    {
        let words: [u64; 4] = answer[i];
        if words[2] != 0 || words[3] != 0 {
            assert(words_value(answer@[i as int]) > u128::MAX);
            return Err(QuoteUnavailable::AmountOutOfRange);
        }
        let amount: u128 = (words[1] as u128) * 0x1_0000_0000_0000_0000 + (words[0] as u128);
        amounts.push(amount);
        i += 1;
    }
    Ok(Quote { amounts })
}

/// A venue that can be asked what a conversion would yield.
///
/// An implementation asks once and does not retry. Nothing is assumed of what
/// it answers.
pub trait QuoteSource {
    /// Asks for the amounts along `path` when `amount_in` of its first asset
    /// goes in.
    fn quote(&self, path: &SwapPath, amount_in: u128) -> Result<Quote, QuoteUnavailable>;
}

} // verus!
