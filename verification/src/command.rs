//! The configuration and context that every command receives.

use vstd::prelude::*;

verus! {

/// Application configuration handed to each command.
#[derive(Clone, Copy, Debug)]
pub struct Config {}

impl Default for Config {
    fn default() -> (c: Self)
        ensures
            c == (Config {}),
    {
        Config {}
    }
}

/// Per-invocation context: the configuration and the output mode.
#[derive(Clone, Copy, Debug)]
pub struct CommandContext {
    pub config: Config,
    /// Machine-readable output only; human-readable text is suppressed.
    pub json_output: bool,
    pub verbose: bool,
}

impl CommandContext {
    /// A context for `config` with human-readable, non-verbose output.
    pub fn new(config: Config) -> (ctx: Self)
        ensures
            ctx.config == config,
            !ctx.json_output,
            !ctx.verbose,
    {
        CommandContext { config, json_output: false, verbose: false }
    }

    /// True when verbose output was requested.
    pub fn is_verbose(&self) -> (r: bool)
        ensures
            r == self.verbose,
    {
        self.verbose
    }
}

} // verus!
