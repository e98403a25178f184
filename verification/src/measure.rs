//! The record of a naive binary measure.
//!
//! The three rates are real numbers in double precision. The record keeps each
//! as its IEEE 754 binary64 bit pattern, the integer that `f64::to_bits` gives
//! and `f64::from_bits` takes back, so that what is stored is what was given,
//! bit for bit.

use vstd::prelude::*;

verus! {

/// Three rates of a binary measure, each held as the bit pattern of a
/// double-precision number.
///
/// The rates are meant to lie in the interval from 0 to 1. The record does
/// not enforce that: any three values can be stored.
pub struct NaiveMultiBinaryMeasure {
    /// The proportion of the population that has the condition.
    pub population_proportion: u64,
    /// The true-negative rate of the test.
    pub specificity: u64,
    /// The true-positive rate of the test.
    pub sensitivity: u64,
}

impl NaiveMultiBinaryMeasure {
    /// Builds the record of the three given rates.
    ///
    /// Every bit pattern is accepted, also one of a number outside the
    /// interval from 0 to 1, of an infinity or of a NaN. Each field of the
    /// record is the argument of the same name, unchanged.
    pub fn new(population_proportion: u64, specificity: u64, sensitivity: u64) -> (measure: Self)
        ensures
            measure == Self::of(population_proportion, specificity, sensitivity),
    {
        NaiveMultiBinaryMeasure { population_proportion, specificity, sensitivity }
    }

    /// The record that holds the three given rates.
    pub open spec fn of(population_proportion: u64, specificity: u64, sensitivity: u64) -> Self {
        NaiveMultiBinaryMeasure { population_proportion, specificity, sensitivity }
    }
}

/// A record returns what it was built from: reading a field gives the value
/// that was stored in it, with no transformation, whatever that value is.
pub proof fn lemma_fields_are_stored(population_proportion: u64, specificity: u64, sensitivity: u64)
    ensures
        NaiveMultiBinaryMeasure::of(
            population_proportion,
            specificity,
            sensitivity,
        ).population_proportion == population_proportion,
        NaiveMultiBinaryMeasure::of(population_proportion, specificity, sensitivity).specificity
            == specificity,
        NaiveMultiBinaryMeasure::of(population_proportion, specificity, sensitivity).sensitivity
            == sensitivity,
{
}

/// Constructions do not interfere: of two records, each built from rates of
/// its own, either holds its own rates, whatever the other holds.
pub proof fn lemma_records_independent(
    first: NaiveMultiBinaryMeasure,
    second: NaiveMultiBinaryMeasure,
    first_rates: (u64, u64, u64),
    second_rates: (u64, u64, u64),
)
    requires
        first == NaiveMultiBinaryMeasure::of(first_rates.0, first_rates.1, first_rates.2),
        second == NaiveMultiBinaryMeasure::of(second_rates.0, second_rates.1, second_rates.2),
    ensures
        (first.population_proportion, first.specificity, first.sensitivity) == first_rates,
        (second.population_proportion, second.specificity, second.sensitivity) == second_rates,
{
}

} // verus!
