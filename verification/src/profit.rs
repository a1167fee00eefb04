//! Profit figures of a round trip.
//!
//! Amounts are unsigned counts of the base asset's smallest unit. Profit
//! figures, costs and thresholds are signed counts of the same unit, so a
//! figure divided by [`UNIT_SCALE`] is the figure in display units. The
//! difference of two amounts does not always fit 128 signed bits, so a profit
//! is held as a [`Figure`], which holds every difference exactly.

use vstd::prelude::*;

verus! {

/// Smallest units in one display unit of the base asset.
pub const UNIT_SCALE: u128 = 1_000_000;

/// What a round trip gains: what came out less what went in.
pub open spec fn gross_profit(input: u128, output: u128) -> int {
    output - input
}

/// What a round trip gains once the assumed cost is paid.
pub open spec fn net_profit(input: u128, output: u128, fixed_cost: i128) -> int {
    gross_profit(input, output) - fixed_cost
}

/// Whether a round trip meets the threshold. A net profit equal to the
/// threshold meets it.
pub open spec fn meets_threshold(
    input: u128,
    output: u128,
    fixed_cost: i128,
    min_profit: i128,
) -> bool {
    net_profit(input, output, fixed_cost) >= min_profit
}

/// A signed integer from `i128::MIN - 2^128` to `i128::MAX + 2^128`: an `i128`
/// where it is one, and else how far it lies beyond the nearest `i128`. Each
/// such integer has exactly one figure.
#[derive(Clone, Copy, Debug, PartialEq, Eq)]
pub enum Figure {
    /// The integer `i128::MIN - 1 - excess`.
    Below(u128),
    /// The integer itself.
    Exact(i128),
    /// The integer `i128::MAX + 1 + excess`.
    Above(u128),
}

/// The figure that holds the integer `x`, for every `x` from
/// `i128::MIN - 2^128` to `i128::MAX + 2^128`.
pub open spec fn figure_of(x: int) -> Figure {
    if x < i128::MIN {
        Figure::Below((i128::MIN - 1 - x) as u128)
    } else if x > i128::MAX {
        Figure::Above((x - i128::MAX - 1) as u128)
    } else {
        Figure::Exact(x as i128)
    }
}

impl Figure {
    /// The integer that the figure holds.
    pub open spec fn value(self) -> int {
        match self {
            Figure::Below(excess) => i128::MIN - 1 - excess,
            Figure::Exact(exact) => exact as int,
            Figure::Above(excess) => i128::MAX + 1 + excess,
        }
    }

    /// Whether the integer is at least `bound`.
    pub fn at_least(self, bound: i128) -> (yes: bool)
        ensures
            yes == (self.value() >= bound),
    {
        match self {
            Figure::Below(_) => false,
            Figure::Exact(exact) => exact >= bound,
            Figure::Above(_) => true,
        }
    }

    /// The figure of a gain, a non-negative integer.
    pub fn gain(size: u128) -> (figure: Figure)
        ensures
            figure.value() == size,
            figure == figure_of(size as int),
    {
        if size > i128::MAX as u128 {
            Figure::Above(size - i128::MAX as u128 - 1)
        } else {
            Figure::Exact(size as i128)
        }
    }

    /// The figure of a loss, the negative of a non-negative integer.
    pub fn loss(size: u128) -> (figure: Figure)
        ensures
            figure.value() == -(size as int),
            figure == figure_of(-(size as int)),
    {
        if size > i128::MAX as u128 + 1 {
            Figure::Below(size - i128::MAX as u128 - 2)
        } else if size == i128::MAX as u128 + 1 {
            Figure::Exact(i128::MIN)
        } else {
            Figure::Exact(-(size as i128))
        }
    }
}

/// Every integer within reach has one figure, and that figure holds it; and
/// two figures that hold the same integer are one figure.
pub proof fn lemma_figures_are_exact(x: int, one: Figure, other: Figure)
    ensures
        i128::MIN - 0x1_0000_0000_0000_0000_0000_0000_0000_0000 <= x <= i128::MAX
            + 0x1_0000_0000_0000_0000_0000_0000_0000_0000 ==> figure_of(x).value() == x,
        figure_of(one.value()) == one,
        one.value() == other.value() ==> one == other,
{
}

/// How far a signed value lies from zero.
pub fn magnitude(value: i128) -> (size: u128)
    ensures
        size == if value < 0 { -(value as int) } else { value as int },
{
    if value == i128::MIN {
        i128::MAX as u128 + 1
    } else if value < 0 {
        (-value) as u128
    } else {
        value as u128
    }
}

/// What came out less what went in.
pub fn gross_figure(input: u128, output: u128) -> (figure: Figure)
    ensures
        figure.value() == gross_profit(input, output),
        figure == figure_of(gross_profit(input, output)),
{
    if output >= input {
        Figure::gain(output - input)
    } else {
        Figure::loss(input - output)
    }
}

/// What came out less what went in and less the assumed cost.
pub fn net_figure(input: u128, output: u128, fixed_cost: i128) -> (figure: Figure)
    ensures
        figure.value() == net_profit(input, output, fixed_cost),
        figure == figure_of(net_profit(input, output, fixed_cost)),
{
    let cost: u128 = magnitude(fixed_cost);
    // The net profit is `credit - debit`, where one of the two sides takes the cost.
    let cost_is_debit: bool = fixed_cost >= 0;
    let half: u128 = i128::MAX as u128 + 1;
    if output >= input {
        let gain: u128 = output - input;
        if !cost_is_debit {
            match gain.checked_add(cost) {
                Some(total) => Figure::gain(total),
                None => Figure::Above(gain - (half - cost)),
            }
        } else if gain >= cost {
            Figure::gain(gain - cost)
        } else {
            Figure::loss(cost - gain)
        }
    } else {
        let loss: u128 = input - output;
        if cost_is_debit {
            match loss.checked_add(cost) {
                Some(total) => Figure::loss(total),
                None => Figure::Below(loss - (half + 1 - cost)),
            }
        } else if cost >= loss {
            Figure::gain(cost - loss)
        } else {
            Figure::loss(loss - cost)
        }
    }
}

} // verus!
