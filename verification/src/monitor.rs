//! The monitor: one cycle per tick, each tick reported, forever.
//!
//! [`MonitorLoop`] holds the decisions of the loop and leaves the waiting and
//! the printing to its caller. It is either idle or evaluating. The end of
//! the pause starts a tick; the outcome of the cycle, good or bad, ends it
//! with a report and the next pause. [`MonitorLoop::run_tick`] does a whole
//! tick against two quote sources.

use crate::asset::{Address, AssetPair};
use crate::clock::now_seconds;
use crate::evaluator::{evaluate, ArbitrageCycleResult, EvaluationError};
use crate::quote::QuoteSource;
use vstd::prelude::*;

verus! {

/// What the monitor is set up with. It is read once and never changed.
#[derive(Clone, Debug, PartialEq, Eq)]
pub struct MonitorConfig {
    /// Where both venues are reached.
    pub endpoint: String,
    /// The venue of the first leg.
    pub venue_a: Address,
    /// The venue of the second leg.
    pub venue_b: Address,
    /// The assets traded.
    pub pair: AssetPair,
    /// The size of a trade, in smallest units of the base asset.
    pub amount_in: u128,
    /// The least net profit that counts as an opportunity, in smallest units
    /// of the base asset.
    pub min_profit: i128,
    /// The cost assumed for carrying a cycle out, in smallest units of the
    /// base asset.
    pub fixed_cost: i128,
    /// The pause between two ticks, in seconds.
    pub interval_secs: u64,
}

/// Where the loop stands.
#[derive(Clone, Copy, Debug, PartialEq, Eq)]
pub enum MonitorState {
    /// Between two ticks.
    Idle,
    /// In a tick, waiting for the outcome of its cycle.
    Evaluating,
}

/// What happened outside the loop.
#[derive(Debug, PartialEq, Eq)]
pub enum MonitorEvent {
    /// The pause is over.
    IntervalElapsed,
    /// The cycle of the running tick ended with `outcome`, at the time `at`
    /// in seconds since 1970-01-01 00:00:00 UTC.
    Evaluated { outcome: Result<ArbitrageCycleResult, EvaluationError>, at: i64 },
}

/// What one tick has to say.
#[derive(Clone, Debug, PartialEq, Eq)]
pub enum Report {
    /// The cycle reaches the profit threshold.
    Opportunity(ArbitrageCycleResult),
    /// The cycle stays below the profit threshold.
    NoOpportunity(ArbitrageCycleResult),
    /// The cycle gave no result.
    Failure { timestamp: i64, error: EvaluationError },
}

/// What the caller of the loop is to do next.
#[derive(Clone, Debug, PartialEq, Eq)]
pub enum MonitorAction {
    /// Evaluate one cycle with these parameters, and come back with its
    /// outcome.
    Evaluate { pair: AssetPair, amount_in: u128, min_profit: i128, fixed_cost: i128 },
    /// Hand the report on, pause for so many seconds, and come back when the
    /// pause is over.
    ReportAndPause { report: Report, pause_secs: u64 },
    /// Nothing: the event does not belong to where the loop stands.
    Nothing,
}

/// The report for the outcome of a cycle that ended at the time `at`.
pub open spec fn report_of(
    outcome: Result<ArbitrageCycleResult, EvaluationError>,
    at: i64,
) -> Report {
    match outcome {
        Ok(result) => if result.is_profitable {
            Report::Opportunity(result)
        } else {
            Report::NoOpportunity(result)
        },
        Err(error) => Report::Failure { timestamp: at, error },
    }
}

/// Where the loop stands after an event.
pub open spec fn state_after(state: MonitorState, event: MonitorEvent) -> MonitorState {
    match (state, event) {
        (MonitorState::Idle, MonitorEvent::IntervalElapsed) => MonitorState::Evaluating,
        (MonitorState::Evaluating, MonitorEvent::Evaluated { .. }) => MonitorState::Idle,
        _ => state,
    }
}

/// What the loop asks for on an event.
pub open spec fn action_on(
    config: MonitorConfig,
    state: MonitorState,
    event: MonitorEvent,
) -> MonitorAction {
    match (state, event) {
        (MonitorState::Idle, MonitorEvent::IntervalElapsed) => MonitorAction::Evaluate {
            pair: config.pair,
            amount_in: config.amount_in,
            min_profit: config.min_profit,
            fixed_cost: config.fixed_cost,
        },
        (MonitorState::Evaluating, MonitorEvent::Evaluated { outcome, at }) => {
            MonitorAction::ReportAndPause {
                report: report_of(outcome, at),
                pause_secs: config.interval_secs,
            }
        },
        _ => MonitorAction::Nothing,
    }
}

/// Whether `outcome` is one that a cycle can come to when it is evaluated
/// against the two venues with the pair, input, threshold and cost of
/// `config`: one that such a call of [`evaluate`] can return.
pub open spec fn evaluated<A: QuoteSource, B: QuoteSource>(
    router_a: &A,
    router_b: &B,
    config: MonitorConfig,
    outcome: Result<ArbitrageCycleResult, EvaluationError>,
) -> bool {
    call_ensures(
        evaluate::<A, B>,
        (router_a, router_b, &config.pair, config.amount_in, config.min_profit, config.fixed_cost),
        outcome,
    )
}

/// Builds the report for the outcome of a cycle that ended at the time `at`.
pub fn make_report(outcome: Result<ArbitrageCycleResult, EvaluationError>, at: i64) -> (report:
    Report)
    ensures
        report == report_of(outcome, at),
{
    match outcome {
        Ok(result) => if result.is_profitable {
            Report::Opportunity(result)
        } else {
            Report::NoOpportunity(result)
        },
        Err(error) => Report::Failure { timestamp: at, error },
    }
}

/// The loop of the monitor.
#[derive(Debug)]
pub struct MonitorLoop {
    config: MonitorConfig,
    state: MonitorState,
}

impl MonitorLoop {
    /// What the loop was set up with.
    pub closed spec fn config_of(self) -> MonitorConfig {
        self.config
    }

    /// Where the loop stands.
    pub closed spec fn state_of(self) -> MonitorState {
        self.state
    }

    /// An idle loop.
    pub fn new(config: MonitorConfig) -> (monitor: MonitorLoop)
        ensures
            monitor.config_of() == config,
            monitor.state_of() == MonitorState::Idle,
    {
        MonitorLoop { config, state: MonitorState::Idle }
    }

    pub fn config(&self) -> (config: &MonitorConfig)
        ensures
            *config == self.config_of(),
    {
        &self.config
    }

    pub fn state(&self) -> (state: MonitorState)
        ensures
            state == self.state_of(),
    {
        self.state
    }

    /// Takes an event and says what to do next. An event that does not belong
    /// to where the loop stands changes nothing: no tick starts while one is
    /// running, and no outcome is taken while none is.
    pub fn step(&mut self, event: MonitorEvent) -> (action: MonitorAction)
        ensures
            final(self).config_of() == old(self).config_of(),
            final(self).state_of() == state_after(old(self).state_of(), event),
            action == action_on(old(self).config_of(), old(self).state_of(), event),
    {
        match (self.state, event) {
            (MonitorState::Idle, MonitorEvent::IntervalElapsed) => {
                self.state = MonitorState::Evaluating;
                MonitorAction::Evaluate {
                    pair: self.config.pair,
                    amount_in: self.config.amount_in,
                    min_profit: self.config.min_profit,
                    fixed_cost: self.config.fixed_cost,
                }
            },
            (MonitorState::Evaluating, MonitorEvent::Evaluated { outcome, at }) => {
                self.state = MonitorState::Idle;
                MonitorAction::ReportAndPause {
                    report: make_report(outcome, at),
                    pause_secs: self.config.interval_secs,
                }
            },
            _ => MonitorAction::Nothing,
        }
    }

    /// Runs one whole tick: starts it, evaluates a cycle against the two
    /// venues with the configured pair, input, threshold and cost, and ends
    /// it with the report of what came of the cycle and the configured pause.
    /// A result is reported at its own time, a failure at the time it was
    /// seen. A cycle that fails is reported like any other and leaves the
    /// loop ready for the next tick.
    ///
    /// On a loop that stands in a tick already, nothing is done.
    pub fn run_tick<A: QuoteSource, B: QuoteSource>(
        &mut self,
        router_a: &A,
        router_b: &B,
    ) -> (action: MonitorAction)
        ensures
            final(self).config_of() == old(self).config_of(),
            final(self).state_of() == old(self).state_of(),
            old(self).state_of() == MonitorState::Evaluating ==> action == MonitorAction::Nothing,
            old(self).state_of() == MonitorState::Idle ==> exists|
                outcome: Result<ArbitrageCycleResult, EvaluationError>,
                at: i64,
            |
                evaluated(router_a, router_b, old(self).config_of(), outcome) && (outcome matches Ok(
                    result,
                ) ==> at == result.timestamp) && action == (MonitorAction::ReportAndPause {
                    report: #[trigger] report_of(outcome, at),
                    pause_secs: old(self).config_of().interval_secs,
                }),
    {
        match self.step(MonitorEvent::IntervalElapsed) {
            MonitorAction::Evaluate { pair, amount_in, min_profit, fixed_cost } => {
                let outcome = evaluate(
                    router_a,
                    router_b,
                    &pair,
                    amount_in,
                    min_profit,
                    fixed_cost,
                );
                let at: i64 = match &outcome {
                    Ok(result) => result.timestamp,
                    Err(_) => now_seconds(),
                };
                self.step(MonitorEvent::Evaluated { outcome, at })
            },
            other => other,
        }
    }
}

/// A tick that is started ends, whatever comes of its cycle, with a report
/// and the configured pause, and leaves the loop idle.
pub proof fn lemma_tick_completes(
    config: MonitorConfig,
    outcome: Result<ArbitrageCycleResult, EvaluationError>,
    at: i64,
)
    ensures
        state_after(MonitorState::Idle, MonitorEvent::IntervalElapsed) == MonitorState::Evaluating,
        state_after(MonitorState::Evaluating, MonitorEvent::Evaluated { outcome, at })
            == MonitorState::Idle,
        action_on(config, MonitorState::Evaluating, MonitorEvent::Evaluated { outcome, at })
            == (MonitorAction::ReportAndPause {
            report: report_of(outcome, at),
            pause_secs: config.interval_secs,
        }),
{
}

/// A failed cycle does not stop the loop: it is reported as a failure, and
/// the end of the next pause starts a tick like any other.
pub proof fn lemma_failure_does_not_stop(config: MonitorConfig, error: EvaluationError, at: i64)
    ensures
        report_of(Err(error), at) == (Report::Failure { timestamp: at, error }),
        ({
            let idle = state_after(
                MonitorState::Evaluating,
                MonitorEvent::Evaluated { outcome: Err(error), at },
            );
            action_on(config, idle, MonitorEvent::IntervalElapsed) == (MonitorAction::Evaluate {
                pair: config.pair,
                amount_in: config.amount_in,
                min_profit: config.min_profit,
                fixed_cost: config.fixed_cost,
            })
        }),
{
}

} // verus!
