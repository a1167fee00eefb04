//! One arbitrage cycle: base asset into quote asset on the first venue, and
//! back on the second.
//!
//! [`evaluate`] runs a cycle against two quote sources. The steps it is made
//! of are public, for a caller that asks the venues itself:
//! [`first_leg`] names the first query, [`second_leg`] turns its outcome into
//! the second query, and [`settle`] turns that one's outcome into the result.

use crate::asset::{Address, AssetPair, SwapPath};
use crate::clock::now_seconds;
use crate::profit::{gross_figure, net_figure, Figure};
use crate::quote::{Quote, QuoteSource, QuoteUnavailable};
use vstd::prelude::*;

verus! {

/// The outcome of one cycle. Amounts are in smallest units: the input and the
/// final amount in those of the base asset, the intermediate amount in those
/// of the quote asset. Profit figures and the cost are in smallest units of
/// the base asset; the profit figures are exact whatever the amounts.
#[derive(Clone, Copy, Debug, PartialEq, Eq)]
pub struct ArbitrageCycleResult {
    /// What went into the first leg.
    pub input_amount: u128,
    /// What the first leg yielded and the second leg took.
    pub intermediate_amount: u128,
    /// What the second leg yielded.
    pub final_amount: u128,
    /// The final amount less the input amount.
    pub gross_profit: Figure,
    /// The cost assumed for carrying the cycle out.
    pub fixed_cost: i128,
    /// The gross profit less the fixed cost.
    pub net_profit: Figure,
    /// Whether the net profit reaches the threshold.
    pub is_profitable: bool,
    /// When the cycle was evaluated, in seconds since 1970-01-01 00:00:00 UTC.
    pub timestamp: i64,
}

/// Why a cycle gave no result.
#[derive(Clone, Debug, PartialEq, Eq)]
pub enum EvaluationError {
    /// One of the two venues gave no quote.
    QuoteFailed(QuoteUnavailable),
}

/// A question to a venue: what `amount_in` of the first asset of `path`
/// yields along it.
#[derive(Clone, Debug, PartialEq, Eq)]
pub struct LegQuery {
    pub path: SwapPath,
    pub amount_in: u128,
}

/// The result of a cycle that put in `input`, got `intermediate` from the
/// first leg and `output` from the second.
pub open spec fn cycle_result(
    input: u128,
    intermediate: u128,
    output: u128,
    min_profit: i128,
    fixed_cost: i128,
    timestamp: i64,
) -> ArbitrageCycleResult {
    ArbitrageCycleResult {
        input_amount: input,
        intermediate_amount: intermediate,
        final_amount: output,
        gross_profit: crate::profit::figure_of(crate::profit::gross_profit(input, output)),
        fixed_cost,
        net_profit: crate::profit::figure_of(
            crate::profit::net_profit(input, output, fixed_cost),
        ),
        is_profitable: crate::profit::meets_threshold(input, output, fixed_cost, min_profit),
        timestamp,
    }
}

/// The query of the first leg: the whole input, from the base asset to the
/// quote asset.
pub fn first_leg(pair: &AssetPair, amount_in: u128) -> (query: LegQuery)
    ensures
        query.path@ == seq![pair.base_id(), pair.quote_id()],
        query.amount_in == amount_in,
{
    LegQuery { path: SwapPath::direct(pair.base(), pair.quote()), amount_in }
}

/// The query of the second leg, given how the first one went: what the first
/// leg yielded, from the quote asset back to the base asset. A first leg that
/// failed ends the cycle.
pub fn second_leg(pair: &AssetPair, first: Result<Quote, QuoteUnavailable>) -> (next: Result<
    LegQuery,
    EvaluationError,
>)
    ensures
        match first {
            Ok(quote) => next matches Ok(query) && query.path@ == seq![
                pair.quote_id(),
                pair.base_id(),
            ] && query.amount_in == crate::quote::realized_output(quote@),
            Err(cause) => next == Err::<LegQuery, EvaluationError>(
                EvaluationError::QuoteFailed(cause),
            ),
        },
{
    match first {
        Ok(quote) => Ok(
            LegQuery {
                path: SwapPath::direct(pair.quote(), pair.base()),
                amount_in: quote.output(),
            },
        ),
        Err(cause) => Err(EvaluationError::QuoteFailed(cause)),
    }
}

/// The result of a cycle, given how the second leg went. A second leg that
/// failed leaves no result.
pub fn settle(
    amount_in: u128,
    intermediate: u128,
    second: Result<Quote, QuoteUnavailable>,
    min_profit: i128,
    fixed_cost: i128,
    timestamp: i64,
) -> (outcome: Result<ArbitrageCycleResult, EvaluationError>)
    ensures
        match second {
            Ok(quote) => outcome == Ok::<ArbitrageCycleResult, EvaluationError>(
                cycle_result(
                    amount_in,
                    intermediate,
                    crate::quote::realized_output(quote@),
                    min_profit,
                    fixed_cost,
                    timestamp,
                ),
            ),
            Err(cause) => outcome == Err::<ArbitrageCycleResult, EvaluationError>(
                EvaluationError::QuoteFailed(cause),
            ),
        },
{
    match second {
        Ok(quote) => {
            let final_amount: u128 = quote.output();
            let net = net_figure(amount_in, final_amount, fixed_cost);
            Ok(
                ArbitrageCycleResult {
                    input_amount: amount_in,
                    intermediate_amount: intermediate,
                    final_amount,
                    gross_profit: gross_figure(amount_in, final_amount),
                    fixed_cost,
                    net_profit: net,
                    is_profitable: net.at_least(min_profit),
                    timestamp,
                },
            )
        },
        Err(cause) => Err(EvaluationError::QuoteFailed(cause)),
    }
}

/// Evaluates one cycle: asks `router_a` what `amount_in` of the base asset
/// yields in the quote asset, asks `router_b` what that yields back in the
/// base asset, and settles the two answers at the current time.
///
/// Each venue is asked at most once, the second only if the first answered.
/// What the venues answer is theirs to decide; the outcome is what
/// [`cycle_outcome`] makes of their answers and of the time.
pub fn evaluate<A: QuoteSource, B: QuoteSource>(
    router_a: &A,
    router_b: &B,
    pair: &AssetPair,
    amount_in: u128,
    min_profit: i128,
    fixed_cost: i128,
) -> (outcome: Result<ArbitrageCycleResult, EvaluationError>)
    ensures
        exists|first: Result<Quote, QuoteUnavailable>| #[trigger]
            answered(router_a, outward_hops(*pair), amount_in, first) && match first {
                Err(cause) => outcome == Err::<ArbitrageCycleResult, EvaluationError>(
                    EvaluationError::QuoteFailed(cause),
                ),
                Ok(quote) => exists|second: Result<Quote, QuoteUnavailable>, timestamp: i64| #[trigger]
                    answered(
                        router_b,
                        return_hops(*pair),
                        crate::quote::realized_output(quote@),
                        second,
                    ) && outcome == #[trigger] cycle_outcome(
                        amount_in,
                        first,
                        second,
                        min_profit,
                        fixed_cost,
                        timestamp,
                    ),
            },
{
    let first_query = first_leg(pair, amount_in);
    let first = router_a.quote(&first_query.path, first_query.amount_in);
    let ghost first_answer = first;
    assert(answered(router_a, outward_hops(*pair), amount_in, first_answer));
    match second_leg(pair, first) {
        Ok(second_query) => {
            let second = router_b.quote(&second_query.path, second_query.amount_in);
            let ghost second_answer = second;
            assert(answered(
                router_b,
                return_hops(*pair),
                second_query.amount_in,
                second_answer,
            ));
            let timestamp: i64 = now_seconds();
            let outcome = settle(
                amount_in,
                second_query.amount_in,
                second,
                min_profit,
                fixed_cost,
                timestamp,
            );
            assert(outcome == cycle_outcome(
                amount_in,
                first_answer,
                second_answer,
                min_profit,
                fixed_cost,
                timestamp,
            ));
            outcome
        },
        Err(error) => Err(error),
    }
}

/// Whether `answer` is one that `source` can give when it is asked what
/// `amount_in` yields along `hops`: one that such a call of its `quote` can
/// return.
pub open spec fn answered<S: QuoteSource>(
    source: &S,
    hops: Seq<Address>,
    amount_in: u128,
    answer: Result<Quote, QuoteUnavailable>,
) -> bool {
    exists|path: SwapPath|
        path@ == hops && #[trigger] call_ensures(S::quote, (source, &path, amount_in), answer)
}

/// The path of the first leg: from the base asset to the quote asset.
pub open spec fn outward_hops(pair: AssetPair) -> Seq<Address> {
    seq![pair.base_id(), pair.quote_id()]
}

/// The path of the second leg: from the quote asset back to the base asset.
pub open spec fn return_hops(pair: AssetPair) -> Seq<Address> {
    seq![pair.quote_id(), pair.base_id()]
}

/// What a cycle comes to when the first venue answers `first` and the second,
/// if it is asked, answers `second` at the time `timestamp`. A first venue
/// that fails ends the cycle with its failure, whatever `second` is; after a
/// first answer, a second venue that fails ends it with its own.
pub open spec fn cycle_outcome(
    amount_in: u128,
    first: Result<Quote, QuoteUnavailable>,
    second: Result<Quote, QuoteUnavailable>,
    min_profit: i128,
    fixed_cost: i128,
    timestamp: i64,
) -> Result<ArbitrageCycleResult, EvaluationError> {
    match first {
        Err(cause) => Err(EvaluationError::QuoteFailed(cause)),
        Ok(first_quote) => match second {
            Err(cause) => Err(EvaluationError::QuoteFailed(cause)),
            Ok(second_quote) => Ok(
                cycle_result(
                    amount_in,
                    crate::quote::realized_output(first_quote@),
                    crate::quote::realized_output(second_quote@),
                    min_profit,
                    fixed_cost,
                    timestamp,
                ),
            ),
        },
    }
}

/// The figures and the verdict of a cycle are exact, whatever the amounts:
/// the gross profit is what came out less what went in, the net profit is
/// that less the assumed cost, and the cycle is profitable if and only if the
/// net profit is at least the threshold.
pub proof fn lemma_verdict_is_exact(
    input: u128,
    intermediate: u128,
    output: u128,
    min_profit: i128,
    fixed_cost: i128,
    timestamp: i64,
)
    ensures
        ({
            let result = cycle_result(
                input,
                intermediate,
                output,
                min_profit,
                fixed_cost,
                timestamp,
            );
            &&& result.gross_profit.value() == output - input
            &&& result.net_profit.value() == output - input - fixed_cost
            &&& result.is_profitable <==> output - input - fixed_cost >= min_profit
        }),
{
}

/// Asking again changes nothing but the time: two cycles with the same
/// input, the same answers of both venues, the same threshold and the same
/// cost give results that agree in every field but the timestamp.
pub proof fn lemma_cycle_repeats(
    amount_in: u128,
    first: Seq<u128>,
    second: Seq<u128>,
    min_profit: i128,
    fixed_cost: i128,
    earlier: i64,
    later: i64,
)
    ensures
        ({
            let once = cycle_result(
                amount_in,
                crate::quote::realized_output(first),
                crate::quote::realized_output(second),
                min_profit,
                fixed_cost,
                earlier,
            );
            let again = cycle_result(
                amount_in,
                crate::quote::realized_output(first),
                crate::quote::realized_output(second),
                min_profit,
                fixed_cost,
                later,
            );
            once == (ArbitrageCycleResult { timestamp: earlier, ..again })
        }),
{
}

} // verus!
