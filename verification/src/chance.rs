//! Random choice, taken on trust from the `rand` crate.

use rand::seq::SliceRandom;
use vstd::prelude::*;

verus! {

/// `SliceRandom::choose` with the thread's generator: one of the options, or
/// `None` if there is none to choose from. Which one is left to chance.
#[verifier::external_body]
pub(crate) fn pick_one<T>(options: &Vec<T>) -> (chosen: Option<&T>)
    ensures
        chosen is None <==> options@.len() == 0,
        chosen matches Some(option) ==> options@.contains(*option),
{
    options.choose(&mut rand::thread_rng())
}

} // verus!
