//! Streaming commands: validation of benchmark, monitor, server and
//! configuration-export parameters.

use crate::command::{CommandContext, Config};
use crate::net::{parent_of, path_exists, path_parent};
use crate::text::{concat, concat3, decimal, decimal_string};
use vstd::prelude::*;

verus! {

/// The most concurrent streams a benchmark may open.
pub const MAX_CONCURRENT_STREAMS: usize = 100;

/// The longest a benchmark may run, in seconds.
pub const MAX_BENCHMARK_DURATION_SECS: u64 = 3600;

/// The serialization format of an exported streaming configuration.
#[derive(Clone, Copy, Debug, PartialEq, Eq, Structural)]
pub enum ConfigFormat {
    Json,
    Yaml,
    Toml,
}

impl ConfigFormat {
    /// The lowercase name of the format.
    pub fn name(&self) -> (r: String)
        ensures
            r@ == match *self {
                ConfigFormat::Json => "json"@,
                ConfigFormat::Yaml => "yaml"@,
                ConfigFormat::Toml => "toml"@,
            },
    {
        match self {
            ConfigFormat::Json => "json".to_owned(),
            ConfigFormat::Yaml => "yaml".to_owned(),
            ConfigFormat::Toml => "toml".to_owned(),
        }
    }
}

/// The error for streaming benchmark parameters.
pub open spec fn benchmark_error(
    model: Seq<char>,
    prompt: Seq<char>,
    concurrent: usize,
    duration: u64,
) -> Option<Seq<char>> {
    if model.len() == 0 {
        Some("Model name cannot be empty"@)
    } else if prompt.len() == 0 {
        Some("Prompt cannot be empty"@)
    } else if concurrent == 0 {
        Some("Concurrent streams must be at least 1"@)
    } else if concurrent > MAX_CONCURRENT_STREAMS {
        Some("Concurrent streams cannot exceed 100 (got "@ + decimal(concurrent as nat) + ")"@)
    } else if duration == 0 {
        Some("Duration must be at least 1 second"@)
    } else if duration > MAX_BENCHMARK_DURATION_SECS {
        Some("Duration cannot exceed 3600 seconds (1 hour), got "@ + decimal(duration as nat))
    } else {
        None
    }
}

/// Validate streaming benchmark parameters.
pub fn validate_benchmark(model: &str, prompt: &str, concurrent: usize, duration: u64) -> (r:
    Result<(), String>)
    ensures
        r is Ok <==> benchmark_error(model@, prompt@, concurrent, duration) is None,
        r matches Err(m) ==> benchmark_error(model@, prompt@, concurrent, duration) == Some(m@),
{
    if model.is_empty() {
        return Err("Model name cannot be empty".to_owned());
    }
    if prompt.is_empty() {
        return Err("Prompt cannot be empty".to_owned());
    }
    if concurrent == 0 {
        return Err("Concurrent streams must be at least 1".to_owned());
    }
    if concurrent > MAX_CONCURRENT_STREAMS {
        let n = decimal_string(concurrent as u64);
        return Err(concat3("Concurrent streams cannot exceed 100 (got ", n.as_str(), ")"));
    }
    if duration == 0 {
        return Err("Duration must be at least 1 second".to_owned());
    }
    if duration > MAX_BENCHMARK_DURATION_SECS {
        let n = decimal_string(duration);
        return Err(concat("Duration cannot exceed 3600 seconds (1 hour), got ", n.as_str()));
    }
    Ok(())
}

/// The error for a monitor refresh interval (1 to 3600 seconds).
pub open spec fn monitor_error(interval: u64) -> Option<Seq<char>> {
    if interval == 0 {
        Some("Monitor interval must be at least 1 second"@)
    } else if interval > 3600 {
        Some("Monitor interval cannot exceed 3600 seconds (1 hour)"@)
    } else {
        None
    }
}

/// Validate a monitor refresh interval.
pub fn validate_monitor(interval: u64) -> (r: Result<(), String>)
    ensures
        r is Ok <==> monitor_error(interval) is None,
        r matches Err(m) ==> monitor_error(interval) == Some(m@),
{
    if interval == 0 {
        return Err("Monitor interval must be at least 1 second".to_owned());
    }
    if interval > 3600 {
        return Err("Monitor interval cannot exceed 3600 seconds (1 hour)".to_owned());
    }
    Ok(())
}

/// The error for a streaming server's connection limit (1 to 10000).
pub open spec fn server_error(max_connections: usize) -> Option<Seq<char>> {
    if max_connections == 0 {
        Some("Maximum connections must be at least 1"@)
    } else if max_connections > 10000 {
        Some("Maximum connections cannot exceed 10000"@)
    } else {
        None
    }
}

/// Validate a streaming server's connection limit.
pub fn validate_server(max_connections: usize) -> (r: Result<(), String>)
    ensures
        r is Ok <==> server_error(max_connections) is None,
        r matches Err(m) ==> server_error(max_connections) == Some(m@),
{
    if max_connections == 0 {
        return Err("Maximum connections must be at least 1".to_owned());
    }
    if max_connections > 10000 {
        return Err("Maximum connections cannot exceed 10000".to_owned());
    }
    Ok(())
}

/// The error for an export destination, given the destination's parent
/// directory (if the path has one) and whether that directory exists. An
/// empty parent (a bare file name) is the current directory and passes.
pub open spec fn export_parent_error(parent: Option<Seq<char>>, parent_exists: bool) -> Option<
    Seq<char>,
> {
    match parent {
        Some(p) => if p.len() > 0 && !parent_exists {
            Some("Output directory does not exist: "@ + p)
        } else {
            None
        },
        None => None,
    }
}

/// Decide an export destination from its parent directory and whether it
/// exists.
pub fn check_export_parent(parent: &Option<String>, parent_exists: bool) -> (r: Result<(), String>)
    ensures
        r is Ok <==> export_parent_error(
            match parent {
                Some(p) => Some(p@),
                None => None,
            },
            parent_exists,
        ) is None,
        r matches Err(m) ==> export_parent_error(
            match parent {
                Some(p) => Some(p@),
                None => None,
            },
            parent_exists,
        ) == Some(m@),
{
    match parent {
        Some(p) => {
            if !p.as_str().is_empty() && !parent_exists {
                return Err(concat("Output directory does not exist: ", p.as_str()));
            }
            Ok(())
        },
        None => Ok(()),
    }
}

/// Validate a configuration export destination: its directory must exist.
/// Without an output path, or with a path whose parent is empty or absent,
/// it passes; otherwise the answer rests on the file system, and an error
/// names the parent directory.
pub fn validate_config_export(output: &Option<String>) -> (r: Result<(), String>)
    ensures
        output is None ==> r is Ok,
        output matches Some(path) ==> (match path_parent(path@) {
            None => r is Ok,
            Some(p) => (p.len() == 0 ==> r is Ok) && (r matches Err(m) ==> m@
                == "Output directory does not exist: "@ + p),
        }),
{
    match output {
        Some(path) => {
            let parent = parent_of(path.as_str());
            let exists = match &parent {
                Some(p) => path_exists(p.as_str()),
                None => false,
            };
            check_export_parent(&parent, exists)
        },
        None => Ok(()),
    }
}

// ---------------------------------------------------------------------------
// Streaming commands
// ---------------------------------------------------------------------------

/// Test streaming performance with concurrent streams.
pub struct StreamingBenchmark {
    pub config: Config,
    pub model: String,
    pub concurrent: usize,
    pub prompt: String,
    pub duration: u64,
}

impl StreamingBenchmark {
    /// The name the command is known by.
    pub fn name(&self) -> (r: &'static str)
        ensures
            r@ == "streaming benchmark"@,
    {
        "streaming benchmark"
    }

    /// What the command does, in one line.
    pub fn description(&self) -> (r: &'static str)
        ensures
            r@ == "Test streaming performance with concurrent streams"@,
    {
        "Test streaming performance with concurrent streams"
    }

    pub fn new(config: Config, model: String, concurrent: usize, prompt: String, duration: u64) -> (r:
        Self)
        ensures
            r.config == config,
            r.model == model,
            r.concurrent == concurrent,
            r.prompt == prompt,
            r.duration == duration,
    {
        StreamingBenchmark { config, model, concurrent, prompt, duration }
    }

    pub open spec fn validation_error(&self) -> Option<Seq<char>> {
        if self.model@.len() == 0 {
            Some("Model name cannot be empty"@)
        } else if self.prompt@.len() == 0 {
            Some("Prompt cannot be empty"@)
        } else if self.concurrent == 0 {
            Some("Concurrent streams must be at least 1"@)
        } else if self.concurrent > 100 {
            Some("Concurrent streams cannot exceed 100"@)
        } else if self.duration == 0 {
            Some("Duration must be at least 1 second"@)
        } else if self.duration > 3600 {
            Some("Duration cannot exceed 3600 seconds (1 hour)"@)
        } else {
            None
        }
    }

    pub fn validate(&self, ctx: &CommandContext) -> (r: Result<(), String>)
        ensures
            r is Ok <==> self.validation_error() is None,
            r matches Err(m) ==> self.validation_error() == Some(m@),
    {
        if self.model.as_str().is_empty() {
            return Err("Model name cannot be empty".to_owned());
        }
        if self.prompt.as_str().is_empty() {
            return Err("Prompt cannot be empty".to_owned());
        }
        if self.concurrent == 0 {
            return Err("Concurrent streams must be at least 1".to_owned());
        }
        if self.concurrent > 100 {
            return Err("Concurrent streams cannot exceed 100".to_owned());
        }
        if self.duration == 0 {
            return Err("Duration must be at least 1 second".to_owned());
        }
        if self.duration > 3600 {
            return Err("Duration cannot exceed 3600 seconds (1 hour)".to_owned());
        }
        Ok(())
    }
}

/// Export the streaming configuration.
pub struct StreamingConfigExport {
    pub format: ConfigFormat,
    pub output: Option<String>,
}

impl StreamingConfigExport {
    /// The name the command is known by.
    pub fn name(&self) -> (r: &'static str)
        ensures
            r@ == "streaming config"@,
    {
        "streaming config"
    }

    /// What the command does, in one line.
    pub fn description(&self) -> (r: &'static str)
        ensures
            r@ == "Export streaming configuration"@,
    {
        "Export streaming configuration"
    }

    pub fn new(format: ConfigFormat, output: Option<String>) -> (r: Self)
        ensures
            r.format == format,
            r.output == output,
    {
        StreamingConfigExport { format, output }
    }

    /// The output path's parent directory must exist (an empty parent, the
    /// current directory, is checked like any other). The answer rests on
    /// the file system; `check_export_dir` decides on it.
    pub fn validate(&self, ctx: &CommandContext) -> (r: Result<(), String>)
        ensures
            self.output is None ==> r is Ok,
            self.output matches Some(path) ==> (match path_parent(path@) {
                None => r is Ok,
                Some(p) => r matches Err(m) ==> m@ == "Output directory does not exist: "@ + p,
            }),
    {
        match &self.output {
            Some(path) => {
                let parent = parent_of(path.as_str());
                let exists = match &parent {
                    Some(p) => path_exists(p.as_str()),
                    None => false,
                };
                check_export_dir(&parent, exists)
            },
            None => Ok(()),
        }
    }
}


/// Decide an export destination from its parent directory and whether that
/// directory exists: without a parent it passes; with one (even an empty
/// one) it passes exactly when the directory exists, and an error names it.
pub fn check_export_dir(parent: &Option<String>, parent_exists: bool) -> (r: Result<(), String>)
    ensures
        r is Ok <==> (parent is None || parent_exists),
        r matches Err(m) ==> (parent matches Some(p) && m@ == "Output directory does not exist: "@
            + p@),
{
    match parent {
        Some(p) => {
            if !parent_exists {
                return Err(concat("Output directory does not exist: ", p.as_str()));
            }
            Ok(())
        },
        None => Ok(()),
    }
}

/// An interactive session needs a model; its temperature and top-p, both
/// floating point, are checked after it by the caller.
pub fn validate_interactive_model(model: &str) -> (r: Result<(), String>)
    ensures
        r is Ok <==> model@.len() > 0,
        r matches Err(m) ==> m@ == "Model name cannot be empty"@,
{
    if model.is_empty() {
        return Err("Model name cannot be empty".to_owned());
    }
    Ok(())
}

} // verus!
