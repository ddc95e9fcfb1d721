//! The benchmark basket and what the price oracle's answers make of it.
//!
//! The benchmark's net value is the weighted sum of the instruments' prices
//! over the sum of all weights. Which prices enter the sum, each with which
//! weight, and what the divisor is, is decided here; the arithmetic on the
//! prices is left to the caller.

use crate::models::Amount;
use crate::table::{NameTable, Named};
use vstd::prelude::*;

verus! {

/// A basket of instruments, each with an integer weight. The weights need not
/// add up to any fixed total.
pub type BenchmarkSpec = NameTable<i64>;

/// The prices that the oracle has, by instrument. An instrument that is not
/// in the table has no price.
pub type PriceBoard = NameTable<Amount>;

/// One term of the weighted sum: a price and the weight it counts with.
#[derive(Copy, Debug)]
pub struct WeightedPrice {
    pub price: Amount,
    pub weight: i64,
}

impl Clone for WeightedPrice {
    fn clone(&self) -> (res: Self)
        ensures
            res == *self,
    {
        WeightedPrice { price: self.price, weight: self.weight }
    }
}

/// What the benchmark's net value is computed from: the terms of the
/// numerator in the basket's order, and the divisor.
#[derive(Debug)]
pub struct BenchmarkTerms {
    pub priced: Vec<WeightedPrice>,
    pub total_weight: i128,
}

/// The sum of the weights of all instruments, priced or not.
pub open spec fn weight_sum(basket: Seq<Named<i64>>) -> int
    decreases basket.len(),
{
    if basket.len() == 0 {
        0
    } else {
        weight_sum(basket.drop_last()) + basket.last().value
    }
}

/// The terms of the numerator: for each instrument of the basket that has a
/// price, in the basket's order, that price with the instrument's weight. An
/// instrument without a price gives no term.
pub open spec fn priced_terms(basket: Seq<Named<i64>>, prices: Map<Seq<char>, Amount>) -> Seq<
    WeightedPrice,
>
    decreases basket.len(),
{
    if basket.len() == 0 {
        Seq::<WeightedPrice>::empty()
    } else {
        let rest = priced_terms(basket.drop_last(), prices);
        let instrument = basket.last();
        if prices.contains_key(instrument.name@) {
            rest.push(WeightedPrice { price: prices[instrument.name@], weight: instrument.value })
        } else {
            rest
        }
    }
}

/// The sum of weights stays within 2^63 times the number of instruments.
pub proof fn lemma_weight_sum_bounds(basket: Seq<Named<i64>>)
    ensures
        -0x8000_0000_0000_0000 * basket.len() <= weight_sum(basket) <= 0x7fff_ffff_ffff_ffff
            * basket.len(),
    decreases basket.len(),
{
    if basket.len() > 0 {
        lemma_weight_sum_bounds(basket.drop_last());
    }
}

/// The terms and the divisor of the benchmark's net value for `basket` under
/// the prices in `prices`. An instrument without a price is left out of the
/// terms, and its weight still counts in the divisor.
pub fn benchmark_terms(basket: &BenchmarkSpec, prices: &PriceBoard) -> (terms: BenchmarkTerms)
    requires
        prices.wf(),
    ensures
        terms.priced@ == priced_terms(basket.slots(), prices@),
        terms.total_weight == weight_sum(basket.slots()),
{
    let mut priced: Vec<WeightedPrice> = Vec::new();
    let mut total_weight: i128 = 0;
    let mut index: usize = 0;
    let count = basket.len();
    while index < count
        invariant
            prices.wf(),
            count == basket.slots().len(),
            index <= count,
            priced@ == priced_terms(basket.slots().take(index as int), prices@),
            total_weight == weight_sum(basket.slots().take(index as int)),
        decreases count - index,
    {
        let instrument = basket.slot(index);
        proof {
            let upto = basket.slots().take(index as int + 1);
            assert(upto.drop_last() =~= basket.slots().take(index as int));
            assert(upto.last() == basket.slots()[index as int]);
            lemma_weight_sum_bounds(basket.slots().take(index as int));
        }
        match prices.get(&instrument.name) {
            Some(price) => {
                priced.push(WeightedPrice { price: *price, weight: instrument.value });
            },
            None => {},
        }
        total_weight = total_weight + instrument.value as i128;
        index += 1;
    }
    proof {
        assert(basket.slots().take(count as int) =~= basket.slots());
    }
    BenchmarkTerms { priced, total_weight }
}

} // verus!
