//! The random sequence generator: draws characters uniformly, with
//! replacement, from the population of the enabled classes.

use vstd::prelude::*;
use rand::Rng;
use crate::options::Options;
use crate::population::{build_population, lemma_population_nonempty, spec_population};

verus! {

/// Relies on rand::thread_rng and rand::Rng::gen_range: draws an index
/// uniformly distributed over `[0, n)` from the thread-local generator.
/// Nothing beyond the range can be promised of a random value.
#[verifier::external_body]
fn rand_index(n: usize) -> (r: usize)
    requires
        n > 0,
    ensures
        r < n,
{
    rand::thread_rng().gen_range(0..n)
}

/// Generates `options.len` characters, each drawn independently and
/// uniformly (with replacement) from the population of the selected
/// classes. A selector with no enabled class has an empty population and
/// is a configuration error the caller must rule out.
pub fn generate_random_chars(options: &Options) -> (r: Vec<char>)
    requires
        options.allowed_letters.any_enabled(),
    ensures
        r@.len() == options.len,
        forall|i: int|
            0 <= i < r@.len() ==> spec_population(options.allowed_letters).contains(#[trigger] r@[i]),
{
    let population = build_population(&options.allowed_letters);
    proof {
        lemma_population_nonempty(options.allowed_letters);
    }
    let pop_len = population.len();
    let mut result: Vec<char> = Vec::new();
    let mut i: usize = 0;
    while i < options.len
        invariant
            i <= options.len,
            result@.len() == i,
            population@ == spec_population(options.allowed_letters),
            pop_len == population@.len(),
            pop_len > 0,
            forall|j: int|
                0 <= j < result@.len() ==> spec_population(options.allowed_letters).contains(
                    #[trigger] result@[j],
                ),
        decreases options.len - i,
    {
        let r = rand_index(pop_len);
        result.push(population[r]);
        proof {
            assert(spec_population(options.allowed_letters).contains(population@[r as int]));
        }
        i += 1;
    }
    result
}

} // verus!
