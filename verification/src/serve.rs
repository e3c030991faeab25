//! HTTP API server commands: start, status, reload and stop.

use crate::command::{CommandContext, Config};
use crate::net::{path_debug, path_debug_text, path_exists, SocketAddress};
use crate::text::{concat, decimal, decimal_string};
use vstd::prelude::*;

verus! {

/// Start the HTTP API server.
pub struct ServeStart {
    pub config: Config,
    pub bind_address: SocketAddress,
    pub model: Option<String>,
    pub distributed: bool,
    pub workers: usize,
}

impl ServeStart {
    /// The name the command is known by.
    pub fn name(&self) -> (r: &'static str)
        ensures
            r@ == "serve start"@,
    {
        "serve start"
    }

    /// What the command does, in one line.
    pub fn description(&self) -> (r: &'static str)
        ensures
            r@ == "Start the HTTP API server"@,
    {
        "Start the HTTP API server"
    }

    pub fn new(
        config: Config,
        bind_address: SocketAddress,
        model: Option<String>,
        distributed: bool,
        workers: usize,
    ) -> (r: Self)
        ensures
            r.config == config,
            r.bind_address == bind_address,
            r.model == model,
            r.distributed == distributed,
            r.workers == workers,
    {
        ServeStart { config, bind_address, model, distributed, workers }
    }

    pub open spec fn validation_error(&self) -> Option<Seq<char>> {
        if self.distributed && self.workers > 100 {
            Some("Worker count must be <= 100 for distributed mode"@)
        } else {
            None
        }
    }

    pub fn validate(&self, ctx: &CommandContext) -> (r: Result<(), String>)
        ensures
            r is Ok <==> self.validation_error() is None,
            r matches Err(m) ==> self.validation_error() == Some(m@),
    {
        if self.distributed && self.workers > 100 {
            return Err("Worker count must be <= 100 for distributed mode".to_owned());
        }
        Ok(())
    }

    /// How the worker count is shown: `auto` for zero, else the number.
    pub fn workers_label(&self) -> (r: String)
        ensures
            r@ == if self.workers == 0 {
                "auto"@
            } else {
                decimal(self.workers as nat)
            },
    {
        if self.workers == 0 {
            "auto".to_owned()
        } else {
            decimal_string(self.workers as u64)
        }
    }
}

/// Show the HTTP server status.
pub struct ServeStatus {
    pub config: Config,
    pub detailed: bool,
}

impl ServeStatus {
    /// The name the command is known by.
    pub fn name(&self) -> (r: &'static str)
        ensures
            r@ == "serve status"@,
    {
        "serve status"
    }

    /// What the command does, in one line.
    pub fn description(&self) -> (r: &'static str)
        ensures
            r@ == "Show HTTP server status"@,
    {
        "Show HTTP server status"
    }

    pub fn new(config: Config, detailed: bool) -> (r: Self)
        ensures
            r.config == config,
            r.detailed == detailed,
    {
        ServeStatus { config, detailed }
    }

    /// There is nothing to check.
    pub fn validate(&self, ctx: &CommandContext) -> (r: Result<(), String>)
        ensures
            r is Ok,
    {
        Ok(())
    }
}

/// The error for a configuration file to reload, given whether it exists.
pub open spec fn reload_path_error(config_path: Option<Seq<char>>, exists: bool) -> Option<
    Seq<char>,
> {
    match config_path {
        Some(p) => if !exists {
            Some("Configuration file does not exist: "@ + path_debug_text(p))
        } else {
            None
        },
        None => None,
    }
}

/// Reload the server configuration without a restart.
pub struct ServeReload {
    pub config: Config,
    pub config_path: Option<String>,
}

impl ServeReload {
    /// The name the command is known by.
    pub fn name(&self) -> (r: &'static str)
        ensures
            r@ == "serve reload"@,
    {
        "serve reload"
    }

    /// What the command does, in one line.
    pub fn description(&self) -> (r: &'static str)
        ensures
            r@ == "Reload server configuration without restart"@,
    {
        "Reload server configuration without restart"
    }

    pub fn new(config: Config, config_path: Option<String>) -> (r: Self)
        ensures
            r.config == config,
            r.config_path == config_path,
    {
        ServeReload { config, config_path }
    }

    /// Decide on the configuration file, given whether it exists.
    pub fn check_config_path(&self, exists: bool) -> (r: Result<(), String>)
        ensures
            r is Ok <==> reload_path_error(
                match self.config_path {
                    Some(p) => Some(p@),
                    None => None,
                },
                exists,
            ) is None,
            r matches Err(m) ==> reload_path_error(
                match self.config_path {
                    Some(p) => Some(p@),
                    None => None,
                },
                exists,
            ) == Some(m@),
    {
        match &self.config_path {
            Some(p) => {
                if !exists {
                    let shown = path_debug(p.as_str());
                    return Err(concat("Configuration file does not exist: ", shown.as_str()));
                }
                Ok(())
            },
            None => Ok(()),
        }
    }

    /// A given configuration file must exist; the answer rests on the file
    /// system.
    pub fn validate(&self, ctx: &CommandContext) -> (r: Result<(), String>)
        ensures
            self.config_path is None ==> r is Ok,
            self.config_path matches Some(p) ==> (r matches Err(m) ==> m@
                == "Configuration file does not exist: "@ + path_debug_text(p@)),
    {
        let exists = match &self.config_path {
            Some(p) => path_exists(p.as_str()),
            None => true,
        };
        self.check_config_path(exists)
    }
}

/// Stop the HTTP server.
pub struct ServeStop {
    pub config: Config,
    pub force: bool,
    pub timeout_seconds: u64,
}

impl ServeStop {
    /// The name the command is known by.
    pub fn name(&self) -> (r: &'static str)
        ensures
            r@ == "serve stop"@,
    {
        "serve stop"
    }

    /// What the command does, in one line.
    pub fn description(&self) -> (r: &'static str)
        ensures
            r@ == "Stop the HTTP server gracefully"@,
    {
        "Stop the HTTP server gracefully"
    }

    pub fn new(config: Config, force: bool, timeout_seconds: u64) -> (r: Self)
        ensures
            r.config == config,
            r.force == force,
            r.timeout_seconds == timeout_seconds,
    {
        ServeStop { config, force, timeout_seconds }
    }

    pub open spec fn validation_error(&self) -> Option<Seq<char>> {
        if self.timeout_seconds == 0 {
            Some("Timeout must be greater than 0"@)
        } else if self.timeout_seconds > 300 {
            Some("Timeout must be <= 300 seconds"@)
        } else {
            None
        }
    }

    pub fn validate(&self, ctx: &CommandContext) -> (r: Result<(), String>)
        ensures
            r is Ok <==> self.validation_error() is None,
            r matches Err(m) ==> self.validation_error() == Some(m@),
    {
        if self.timeout_seconds == 0 {
            return Err("Timeout must be greater than 0".to_owned());
        }
        if self.timeout_seconds > 300 {
            return Err("Timeout must be <= 300 seconds".to_owned());
        }
        Ok(())
    }
}

} // verus!
