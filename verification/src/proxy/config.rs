//! Start-up settings.

use crate::binary64::is_in_unit_interval;
use rand::rngs::SmallRng;
use rand::SeedableRng;
use std::time::Duration;
use vstd::prelude::*;

verus! {

/// The settings that apply to every new connection.
///
/// Probabilities are given by the bits of a binary64 number.
#[derive(Debug)]
pub struct Config {
    /// Latency in milliseconds; `0` is off.
    pub delay_ms: u64,
    /// Bandwidth in bytes per second; `0` is unlimited.
    pub throttle_rate_bytes: usize,
    /// Size of write slices in bytes; `0` is off.
    pub slice_size_bytes: usize,
    /// Probability to terminate on each read or write.
    pub terminate_probability_rate: u64,
    /// Probability to corrupt data on each read or write.
    pub corrupt_probability_rate: u64,
    /// Time after which a connection is cut off, in milliseconds; `0` is unlimited.
    pub connection_duration_ms: u64,
    /// Seed for deterministic randomization.
    pub random_seed: Option<u64>,
}

/// A setting that cannot be used, with the bits of the offending number.
#[derive(Debug, Clone, Copy, PartialEq, Eq, Structural)]
pub enum ConfigError {
    /// The termination probability is not between 0 and 1.
    TerminateProbability(u64),
    /// The corruption probability is not between 0 and 1.
    CorruptProbability(u64),
}

impl ConfigError {
    /// The command-line flag that set the value.
    pub fn flag(&self) -> (text: &'static str)
        ensures
            text@ == match *self {
                ConfigError::TerminateProbability(_) => "--terminate-probability-rate"@,
                ConfigError::CorruptProbability(_) => "--corrupt-probability-rate"@,
            },
    {
        match *self {
            ConfigError::TerminateProbability(_) => "--terminate-probability-rate",
            ConfigError::CorruptProbability(_) => "--corrupt-probability-rate",
        }
    }

    /// What the value has to meet.
    pub fn requirement(&self) -> (text: &'static str)
        ensures
            text@ == "must be between 0.0 and 1.0"@,
    {
        "must be between 0.0 and 1.0"
    }

    /// The bits of the value that was given.
    pub fn value(&self) -> (bits: u64)
        ensures
            bits == match *self {
                ConfigError::TerminateProbability(bits) => bits,
                ConfigError::CorruptProbability(bits) => bits,
            },
    {
        match *self {
            ConfigError::TerminateProbability(bits) => bits,
            ConfigError::CorruptProbability(bits) => bits,
        }
    }
}

/// `rand::random` for a 64-bit number: draws a random number. Nothing is said of the number.
#[verifier::external_body]
fn random_u64() -> u64 {
    rand::random::<u64>()
}

/// The generator that is made from a seed.
pub uninterp spec fn rng_of_seed(seed: u64) -> SmallRng;

/// `SmallRng::seed_from_u64`: the generator depends on `seed` alone. Which numbers it gives for a
/// seed is not said: builds for machines of another word size use another algorithm.
#[verifier::external_body]
fn seeded_rng(seed: u64) -> (rng: SmallRng)
    ensures
        rng == rng_of_seed(seed),
{
    SmallRng::seed_from_u64(seed)
}

/// The generator that is made from the next numbers of another one.
pub uninterp spec fn forked_rng(rng: SmallRng) -> SmallRng;

/// A generator once another one has been made from its next numbers.
pub uninterp spec fn after_fork(rng: SmallRng) -> SmallRng;

/// `SmallRng::from_rng` on another `SmallRng`: the new generator, and what becomes of the other
/// one, depend on the other one alone.
#[verifier::external_body]
fn fork_rng(rng: &mut SmallRng) -> (fork: SmallRng)
    ensures
        fork == forked_rng(*old(rng)),
        *final(rng) == after_fork(*old(rng)),
{
    SmallRng::from_rng(rng)
}

/// The generators of the failure injectors of one connection.
pub struct InjectorRngs {
    /// Terminates the client's side.
    pub downstream_termination: SmallRng,
    /// Corrupts on the client's side.
    pub downstream_corruption: SmallRng,
    /// Terminates the side that the proxy forwards to.
    pub upstream_termination: SmallRng,
    /// Corrupts on the side that the proxy forwards to.
    pub upstream_corruption: SmallRng,
}

/// The generators that are made from `base`, one after the other.
pub open spec fn injectors_of(base: SmallRng) -> InjectorRngs {
    InjectorRngs {
        downstream_termination: forked_rng(base),
        downstream_corruption: forked_rng(after_fork(base)),
        upstream_termination: forked_rng(after_fork(after_fork(base))),
        upstream_corruption: forked_rng(after_fork(after_fork(after_fork(base)))),
    }
}

impl Config {
    /// Both probabilities are between 0 and 1.
    pub open spec fn valid(&self) -> bool {
        &&& crate::binary64::in_unit_interval(self.terminate_probability_rate)
        &&& crate::binary64::in_unit_interval(self.corrupt_probability_rate)
    }

    /// The generator made from the seed, if one is set.
    pub open spec fn generator(&self) -> Option<SmallRng> {
        match self.random_seed {
            Some(seed) => Some(rng_of_seed(seed)),
            None => None,
        }
    }

    /// The generators of the failure injectors, if a seed is set.
    pub open spec fn injectors(&self) -> Option<InjectorRngs> {
        match self.generator() {
            Some(base) => Some(injectors_of(base)),
            None => None,
        }
    }

    /// Checks the probabilities, the termination probability first.
    pub fn validate(&self) -> (result: Result<(), ConfigError>)
        ensures
            result is Ok <==> self.valid(),
            result is Ok <==> {
                &&& crate::binary64::in_unit_interval(self.terminate_probability_rate)
                &&& crate::binary64::in_unit_interval(self.corrupt_probability_rate)
            },
            !crate::binary64::in_unit_interval(self.terminate_probability_rate) ==> result == Err::<
                (),
                ConfigError,
            >(ConfigError::TerminateProbability(self.terminate_probability_rate)),
            crate::binary64::in_unit_interval(self.terminate_probability_rate)
                && !crate::binary64::in_unit_interval(self.corrupt_probability_rate) ==> result
                == Err::<(), ConfigError>(
                ConfigError::CorruptProbability(self.corrupt_probability_rate),
            ),
    {
        if !is_in_unit_interval(self.terminate_probability_rate) {
            return Err(ConfigError::TerminateProbability(self.terminate_probability_rate));
        }
        if !is_in_unit_interval(self.corrupt_probability_rate) {
            return Err(ConfigError::CorruptProbability(self.corrupt_probability_rate));
        }
        Ok(())
    }

    /// Uses `drawn` as the seed unless one is set. Returns the seed.
    pub fn seed_with(&mut self, drawn: u64) -> (seed: u64)
        ensures
            seed == match old(self).random_seed {
                Some(given) => given,
                None => drawn,
            },
            *final(self) == (Config { random_seed: Some(seed), ..*old(self) }),
    {
        match self.random_seed {
            Some(seed) => seed,
            None => {
                self.random_seed = Some(drawn);
                drawn
            },
        }
    }

    /// Draws a seed unless one is set. Returns the seed.
    pub fn ensure_seed(&mut self) -> (seed: u64)
        ensures
            old(self).random_seed matches Some(given) ==> seed == given,
            *final(self) == (Config { random_seed: Some(seed), ..*old(self) }),
    {
        if let Some(seed) = self.random_seed {
            return self.seed_with(seed);
        }
        self.seed_with(random_u64())
    }

    /// A generator made from the seed, if one is set.
    pub fn base_rng(&self) -> (rng: Option<SmallRng>)
        ensures
            rng == self.generator(),
            self.random_seed is None ==> rng is None,
            self.random_seed matches Some(seed) ==> rng == Some(rng_of_seed(seed)),
    {
        match self.random_seed {
            Some(seed) => Some(seeded_rng(seed)),
            None => None,
        }
    }

    /// The generators of the failure injectors of a connection, if a seed is set.
    pub fn injector_rngs(&self) -> (rngs: Option<InjectorRngs>)
        ensures
            rngs == self.injectors(),
            self.random_seed is None ==> rngs is None,
            self.random_seed matches Some(seed) ==> {
                let first = rng_of_seed(seed);
                let second = after_fork(first);
                let third = after_fork(second);
                &&& rngs matches Some(made)
                &&& made.downstream_termination == forked_rng(first)
                &&& made.downstream_corruption == forked_rng(second)
                &&& made.upstream_termination == forked_rng(third)
                &&& made.upstream_corruption == forked_rng(after_fork(third))
            },
    {
        let mut base = match self.base_rng() {
            Some(base) => base,
            None => return None,
        };
        let downstream_termination = fork_rng(&mut base);
        let downstream_corruption = fork_rng(&mut base);
        let upstream_termination = fork_rng(&mut base);
        let upstream_corruption = fork_rng(&mut base);
        Some(
            InjectorRngs {
                downstream_termination,
                downstream_corruption,
                upstream_termination,
                upstream_corruption,
            },
        )
    }

    /// How long a connection may last, if there is a limit.
    pub fn timeout(&self) -> (limit: Option<Duration>)
        ensures
            self.connection_duration_ms == 0 ==> limit is None,
            self.connection_duration_ms > 0 ==> (limit matches Some(span)
                && crate::clock::duration_nanos(span) == self.connection_duration_ms * 1_000_000),
    {
        if self.connection_duration_ms > 0 {
            Some(Duration::from_millis(self.connection_duration_ms))
        } else {
            None
        }
    }
}

/// Randomization is deterministic: in two runs with the same seed the injectors of a connection get
/// the same generators, and strike at the same attempts.
pub proof fn law_seed_fixes_the_strikes(
    first: Config,
    second: Config,
    threshold: u64,
    attempts: nat,
)
    requires
        first.random_seed is Some,
        first.random_seed == second.random_seed,
    ensures
        first.injectors() is Some,
        first.injectors() == second.injectors(),
        crate::probability::after_attempts(
            false,
            threshold,
            first.injectors()->0.downstream_termination,
            attempts,
        ) == crate::probability::after_attempts(
            false,
            threshold,
            second.injectors()->0.downstream_termination,
            attempts,
        ),
        crate::probability::after_attempts(
            false,
            threshold,
            first.injectors()->0.upstream_termination,
            attempts,
        ) == crate::probability::after_attempts(
            false,
            threshold,
            second.injectors()->0.upstream_termination,
            attempts,
        ),
{
}

/// Settings are valid if and only if both probabilities are numbers from 0 to 1, on their bits.
pub proof fn law_valid_settings_hold_probabilities(config: Config)
    ensures
        config.valid() <==> {
            &&& config.terminate_probability_rate <= 0x3FF0_0000_0000_0000
                || config.terminate_probability_rate == 0x8000_0000_0000_0000
            &&& config.corrupt_probability_rate <= 0x3FF0_0000_0000_0000
                || config.corrupt_probability_rate == 0x8000_0000_0000_0000
        },
{
    crate::binary64::law_unit_interval_on_the_bits(config.terminate_probability_rate);
    crate::binary64::law_unit_interval_on_the_bits(config.corrupt_probability_rate);
}

/// The injectors of a connection draw from the seed's generator in turn: each starts where the one
/// before has left it.
pub proof fn law_injectors_take_turns(base: SmallRng)
    ensures
        ({
            let made = injectors_of(base);
            let later = injectors_of(after_fork(base));
            &&& made.downstream_termination == forked_rng(base)
            &&& made.downstream_corruption == later.downstream_termination
            &&& made.upstream_termination == later.downstream_corruption
            &&& made.upstream_corruption == later.upstream_termination
        }),
{
}

} // verus!
