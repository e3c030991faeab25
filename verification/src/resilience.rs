//! Resilience commands: system status, circuit breakers and bulkheads.

use crate::command::{CommandContext, Config};
use crate::text::{contains_seq, contains_str, str_eq};
use vstd::prelude::*;

verus! {

/// Circuit breaker subcommands.
pub enum CircuitBreakerAction {
    List,
    Show { name: String },
    Reset { name: String },
}

/// Bulkhead subcommands.
pub enum BulkheadAction {
    List,
    Show { name: String },
}

/// Output formats for exported resilience metrics.
#[derive(Clone, Copy, Debug, PartialEq, Eq, Structural)]
pub enum MetricsFormat {
    Json,
    Prometheus,
    Table,
}

/// Show the resilience system status.
pub struct ResilienceStatus {
    pub config: Config,
}

impl ResilienceStatus {
    /// The name the command is known by.
    pub fn name(&self) -> (r: &'static str)
        ensures
            r@ == "resilience status"@,
    {
        "resilience status"
    }

    /// What the command does, in one line.
    pub fn description(&self) -> (r: &'static str)
        ensures
            r@ == "Show resilience system status"@,
    {
        "Show resilience system status"
    }

    pub fn new(config: Config) -> (r: Self)
        ensures
            r.config == config,
    {
        ResilienceStatus { config }
    }

    /// There is nothing to check.
    pub fn validate(&self, ctx: &CommandContext) -> (r: Result<(), String>)
        ensures
            r is Ok,
    {
        Ok(())
    }
}

/// List all circuit breakers.
pub struct CircuitBreakerList {
    pub config: Config,
}

impl CircuitBreakerList {
    /// The name the command is known by.
    pub fn name(&self) -> (r: &'static str)
        ensures
            r@ == "circuit breaker list"@,
    {
        "circuit breaker list"
    }

    /// What the command does, in one line.
    pub fn description(&self) -> (r: &'static str)
        ensures
            r@ == "List all circuit breakers"@,
    {
        "List all circuit breakers"
    }

    pub fn new(config: Config) -> (r: Self)
        ensures
            r.config == config,
    {
        CircuitBreakerList { config }
    }

    /// There is nothing to check.
    pub fn validate(&self, ctx: &CommandContext) -> (r: Result<(), String>)
        ensures
            r is Ok,
    {
        Ok(())
    }
}

/// Reset a circuit breaker.
pub struct CircuitBreakerReset {
    pub config: Config,
    pub name: String,
}

impl CircuitBreakerReset {
    /// The name the command is known by.
    pub fn name(&self) -> (r: &'static str)
        ensures
            r@ == "circuit breaker reset"@,
    {
        "circuit breaker reset"
    }

    /// What the command does, in one line.
    pub fn description(&self) -> (r: &'static str)
        ensures
            r@ == "Reset a circuit breaker"@,
    {
        "Reset a circuit breaker"
    }

    pub fn new(config: Config, name: String) -> (r: Self)
        ensures
            r.config == config,
            r.name == name,
    {
        CircuitBreakerReset { config, name }
    }

    pub open spec fn validation_error(&self) -> Option<Seq<char>> {
        if self.name@.len() == 0 {
            Some("Circuit breaker name cannot be empty"@)
        } else {
            None
        }
    }

    pub fn validate(&self, ctx: &CommandContext) -> (r: Result<(), String>)
        ensures
            r is Ok <==> self.validation_error() is None,
            r matches Err(m) ==> self.validation_error() == Some(m@),
    {
        if self.name.as_str().is_empty() {
            return Err("Circuit breaker name cannot be empty".to_owned());
        }
        Ok(())
    }
}

/// List all bulkheads.
pub struct BulkheadList {
    pub config: Config,
}

impl BulkheadList {
    /// The name the command is known by.
    pub fn name(&self) -> (r: &'static str)
        ensures
            r@ == "bulkhead list"@,
    {
        "bulkhead list"
    }

    /// What the command does, in one line.
    pub fn description(&self) -> (r: &'static str)
        ensures
            r@ == "List all bulkheads"@,
    {
        "List all bulkheads"
    }

    pub fn new(config: Config) -> (r: Self)
        ensures
            r.config == config,
    {
        BulkheadList { config }
    }

    /// There is nothing to check.
    pub fn validate(&self, ctx: &CommandContext) -> (r: Result<(), String>)
        ensures
            r is Ok,
    {
        Ok(())
    }
}


/// The largest number of requests a resilience test may send.
pub const MAX_TEST_REQUESTS: u32 = 10000;

/// The complaint about a resilience test's pattern and request count, if
/// any; the failure rate, a floating-point fraction, is checked after them
/// by the caller.
pub open spec fn resilience_test_error(pattern: Seq<char>, requests: u32) -> Option<Seq<char>> {
    if pattern.len() == 0 {
        Some("Pattern name cannot be empty"@)
    } else if requests == 0 {
        Some("Request count must be at least 1"@)
    } else if requests > MAX_TEST_REQUESTS {
        Some("Request count cannot exceed 10000"@)
    } else {
        None
    }
}

/// Checks the pattern and request count of a resilience test.
pub fn validate_resilience_test(pattern: &str, requests: u32) -> (r: Result<(), String>)
    ensures
        r is Ok <==> resilience_test_error(pattern@, requests) is None,
        r matches Err(m) ==> resilience_test_error(pattern@, requests) == Some(m@),
{
    if pattern.is_empty() {
        return Err("Pattern name cannot be empty".to_owned());
    }
    if requests == 0 {
        return Err("Request count must be at least 1".to_owned());
    }
    if requests > MAX_TEST_REQUESTS {
        return Err("Request count cannot exceed 10000".to_owned());
    }
    Ok(())
}


// ---------------------------------------------------------------------------
// Resilience pattern tests
// ---------------------------------------------------------------------------

/// The resilience patterns that can be exercised.
#[derive(Clone, Copy, Debug, PartialEq, Eq, Structural)]
pub enum ResiliencePattern {
    CircuitBreaker,
    Retry,
    Bulkhead,
}

/// The pattern a name selects, if it is known.
pub open spec fn pattern_named(name: Seq<char>) -> Option<ResiliencePattern> {
    if name == "circuit-breaker"@ {
        Some(ResiliencePattern::CircuitBreaker)
    } else if name == "retry"@ {
        Some(ResiliencePattern::Retry)
    } else if name == "bulkhead"@ {
        Some(ResiliencePattern::Bulkhead)
    } else {
        None
    }
}

/// Selects the pattern to exercise.
pub fn resilience_pattern(name: &str) -> (r: Option<ResiliencePattern>)
    ensures
        r == pattern_named(name@),
{
    if str_eq(name, "circuit-breaker") {
        Some(ResiliencePattern::CircuitBreaker)
    } else if str_eq(name, "retry") {
        Some(ResiliencePattern::Retry)
    } else if str_eq(name, "bulkhead") {
        Some(ResiliencePattern::Bulkhead)
    } else {
        None
    }
}

/// How one call through a protected service ended.
#[derive(Clone, Copy, Debug, PartialEq, Eq, Structural)]
pub enum CallOutcome {
    Succeeded,
    /// The protection refused the call.
    Rejected,
    Failed,
}

/// The outcome of a call through a circuit breaker: an error that names
/// the circuit breaker is a rejection.
pub open spec fn breaker_outcome(result: Result<(), Seq<char>>) -> CallOutcome {
    match result {
        Ok(_) => CallOutcome::Succeeded,
        Err(m) => if contains_seq(m, "Circuit breaker"@) {
            CallOutcome::Rejected
        } else {
            CallOutcome::Failed
        },
    }
}

/// Classifies a call through a circuit breaker by its result.
pub fn classify_breaker_call(result: &Result<(), String>) -> (r: CallOutcome)
    ensures
        r == breaker_outcome(
            match result {
                Ok(_) => Ok(()),
                Err(m) => Err(m@),
            },
        ),
{
    match result {
        Ok(_) => CallOutcome::Succeeded,
        Err(m) => if contains_str(m.as_str(), "Circuit breaker") {
            CallOutcome::Rejected
        } else {
            CallOutcome::Failed
        },
    }
}

/// The outcomes of a pattern test so far.
#[derive(Clone, Copy, Debug)]
pub struct PatternTally {
    pub succeeded: u32,
    pub rejected: u32,
    pub failed: u32,
}

impl PatternTally {
    /// A tally of no calls.
    pub fn new() -> (r: Self)
        ensures
            r.succeeded == 0,
            r.rejected == 0,
            r.failed == 0,
    {
        PatternTally { succeeded: 0, rejected: 0, failed: 0 }
    }

    /// The number of calls recorded.
    pub open spec fn calls(&self) -> int {
        self.succeeded + self.rejected + self.failed
    }

    /// Records one more call.
    pub fn record(&mut self, outcome: CallOutcome)
        requires
            old(self).calls() < u32::MAX,
        ensures
            final(self).calls() == old(self).calls() + 1,
            final(self).succeeded == old(self).succeeded + (if outcome == CallOutcome::Succeeded {
                1int
            } else {
                0int
            }),
            final(self).rejected == old(self).rejected + (if outcome == CallOutcome::Rejected {
                1int
            } else {
                0int
            }),
            final(self).failed == old(self).failed + (if outcome == CallOutcome::Failed {
                1int
            } else {
                0int
            }),
    {
        match outcome {
            CallOutcome::Succeeded => self.succeeded = self.succeeded + 1,
            CallOutcome::Rejected => self.rejected = self.rejected + 1,
            CallOutcome::Failed => self.failed = self.failed + 1,
        }
    }
}

/// Progress is reported after every tenth call.
pub fn reports_progress(call: u32) -> (r: bool)
    ensures
        r == (call % 10 == 0),
{
    call % 10 == 0
}

} // verus!
