//! The node's display alias: taken from the configuration, or generated once
//! and kept.

use vstd::prelude::*;
use crate::text::{hex, hex_text, opt_text};

verus! {

/// The alias made from a random number: `start9-0x` and the number in
/// hexadecimal, of eight digits or more.
pub open spec fn generated_alias(random: u64) -> Seq<char> {
    "start9-0x"@ + hex_text(random as nat, 8)
}

/// The alias to use, and whether it has to be written to the cache: the
/// configured one; failing that the cached one; failing that a new one made
/// from `random`, which alone is written.
pub open spec fn alias_decision(
    configured: Option<Seq<char>>,
    cached: Option<Seq<char>>,
    random: u64,
) -> (Seq<char>, bool) {
    match configured {
        Some(a) => (a, false),
        None => match cached {
            Some(a) => (a, false),
            None => (generated_alias(random), true),
        },
    }
}

/// What the cache holds once a decision has been carried out.
pub open spec fn cache_after(cached: Option<Seq<char>>, decision: (Seq<char>, bool)) -> Option<
    Seq<char>,
> {
    if decision.1 {
        Some(decision.0)
    } else {
        cached
    }
}

/// An alias, and whether the caller has to write it to the cache.
#[derive(Debug, Clone, PartialEq, Eq)]
pub struct AliasDecision {
    pub alias: String,
    pub persist: bool,
}

/// Draws a number with `rand::Rng::gen` from the generator that
/// `rand::thread_rng` hands out. Nothing is claimed of the number.
#[verifier::external_body]
fn random_u64() -> u64 {
    rand::Rng::gen::<u64>(&mut rand::thread_rng())
}

/// Makes an alias from a random number.
pub fn generate_alias(random: u64) -> (r: String)
    ensures
        r@ == generated_alias(random),
{
    let mut r = String::from_str("start9-0x");
    let digits = hex(random, 8);
    r.append(digits.as_str());
    r
}

/// Decides the alias, given the random number to use if one has to be made.
pub fn alias_from(configured: Option<String>, cached: Option<String>, random: u64) -> (r:
    AliasDecision)
    ensures
        (r.alias@, r.persist) == alias_decision(opt_text(configured), opt_text(cached), random),
{
    match configured {
        Some(alias) => AliasDecision { alias, persist: false },
        None => match cached {
            Some(alias) => AliasDecision { alias, persist: false },
            None => AliasDecision { alias: generate_alias(random), persist: true },
        },
    }
}

/// Decides the alias. `configured` is the alias of the configuration and
/// `cached` the content of the alias cache, each if there is one. A random
/// number is drawn only where neither is given.
pub fn get_alias(configured: Option<String>, cached: Option<String>) -> (r: AliasDecision)
    ensures
        exists|random: u64|
            (r.alias@, r.persist) == #[trigger] alias_decision(
                opt_text(configured),
                opt_text(cached),
                random,
            ),
        configured is Some ==> r.alias@ == configured->Some_0@ && !r.persist,
        configured is None && cached is Some ==> r.alias@ == cached->Some_0@ && !r.persist,
        configured is None && cached is None ==> r.persist,
{
    if configured.is_some() || cached.is_some() {
        // No number is needed, so none is drawn.
        alias_from(configured, cached, 0)
    } else {
        alias_from(configured, cached, random_u64())
    }
}

/// Once a decision has been carried out, deciding again gives the same alias
/// and writes nothing, whatever random number is on offer the second time.
pub proof fn lemma_alias_is_stable(
    configured: Option<Seq<char>>,
    cached: Option<Seq<char>>,
    first_random: u64,
    second_random: u64,
)
    ensures
        ({
            let first = alias_decision(configured, cached, first_random);
            let second = alias_decision(configured, cache_after(cached, first), second_random);
            &&& second.0 == first.0
            &&& !second.1
            &&& cache_after(cache_after(cached, first), second) == cache_after(cached, first)
        }),
{
}

/// With a cache in place no random number has any influence.
pub proof fn lemma_cached_alias_wins(cached: Seq<char>, random: u64)
    ensures
        alias_decision(None, Some(cached), random) == (cached, false),
{
}

} // verus!
