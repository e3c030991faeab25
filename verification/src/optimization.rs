//! Model optimization commands: quantization, optimization benchmarks and
//! model profiling.

use crate::command::{CommandContext, Config};
use crate::text::{concat3, str_eq};
use vstd::prelude::*;

verus! {

/// The precisions that quantization accepts.
pub open spec fn is_precision(p: Seq<char>) -> bool {
    p == "fp32"@ || p == "fp16"@ || p == "int8"@ || p == "int4"@
}

/// The optimization techniques that can be benchmarked.
pub open spec fn is_technique(t: Seq<char>) -> bool {
    t == "quantize"@ || t == "prune"@ || t == "distill"@ || t == "all"@
}

/// Quantize a model to reduce its size and speed up inference.
pub struct OptimizeQuantize {
    pub config: Config,
    pub input_path: String,
    pub output_path: String,
    pub precision: String,
}

impl OptimizeQuantize {
    /// The name the command is known by.
    pub fn name(&self) -> (r: &'static str)
        ensures
            r@ == "optimize quantize"@,
    {
        "optimize quantize"
    }

    /// What the command does, in one line.
    pub fn description(&self) -> (r: &'static str)
        ensures
            r@ == "Quantize model to reduce size and improve performance"@,
    {
        "Quantize model to reduce size and improve performance"
    }

    pub fn new(config: Config, input_path: String, output_path: String, precision: String) -> (r:
        Self)
        ensures
            r.config == config,
            r.input_path == input_path,
            r.output_path == output_path,
            r.precision == precision,
    {
        OptimizeQuantize { config, input_path, output_path, precision }
    }

    /// The message of the first check that the arguments fail, if any.
    pub open spec fn validation_error(&self) -> Option<Seq<char>> {
        if self.input_path@.len() == 0 {
            Some("Input path cannot be empty"@)
        } else if self.output_path@.len() == 0 {
            Some("Output path cannot be empty"@)
        } else if !is_precision(self.precision@) {
            Some("Precision must be one of: fp32, fp16, int8, int4"@)
        } else {
            None
        }
    }

    pub fn validate(&self, ctx: &CommandContext) -> (r: Result<(), String>)
        ensures
            r is Ok <==> self.validation_error() is None,
            r matches Err(m) ==> self.validation_error() == Some(m@),
    {
        if self.input_path.as_str().is_empty() {
            return Err("Input path cannot be empty".to_owned());
        }
        if self.output_path.as_str().is_empty() {
            return Err("Output path cannot be empty".to_owned());
        }
        let p = self.precision.as_str();
        if !(str_eq(p, "fp32") || str_eq(p, "fp16") || str_eq(p, "int8") || str_eq(p, "int4")) {
            return Err("Precision must be one of: fp32, fp16, int8, int4".to_owned());
        }
        Ok(())
    }
}

/// The first of `ts[i..]` that is not a known technique, if any.
pub open spec fn first_invalid_technique(ts: Seq<Seq<char>>, i: int) -> Option<Seq<char>>
    decreases ts.len() - i,
{
    if i < 0 || i >= ts.len() {
        None
    } else if !is_technique(ts[i]) {
        Some(ts[i])
    } else {
        first_invalid_technique(ts, i + 1)
    }
}

/// The message for a technique that is not known.
pub open spec fn invalid_technique_message(t: Seq<char>) -> Seq<char> {
    "Invalid technique: "@ + t + ". Must be one of: quantize, prune, distill, all"@
}

/// True when `t` is a known technique.
fn technique_known(t: &str) -> (r: bool)
    ensures
        r == is_technique(t@),
{
    str_eq(t, "quantize") || str_eq(t, "prune") || str_eq(t, "distill") || str_eq(t, "all")
}

/// Measure how each optimization technique changes a model's latency.
pub struct OptimizeBenchmark {
    pub config: Config,
    pub model_path: String,
    pub techniques: Vec<String>,
}

impl OptimizeBenchmark {
    /// The name the command is known by.
    pub fn name(&self) -> (r: &'static str)
        ensures
            r@ == "optimize benchmark"@,
    {
        "optimize benchmark"
    }

    /// What the command does, in one line.
    pub fn description(&self) -> (r: &'static str)
        ensures
            r@ == "Benchmark optimization techniques"@,
    {
        "Benchmark optimization techniques"
    }

    pub fn new(config: Config, model_path: String, techniques: Vec<String>) -> (r: Self)
        ensures
            r.config == config,
            r.model_path == model_path,
            r.techniques@ == techniques@,
    {
        OptimizeBenchmark { config, model_path, techniques }
    }

    /// The requested techniques, each as its characters.
    pub open spec fn technique_names(&self) -> Seq<Seq<char>> {
        self.techniques@.map_values(|t: String| t@)
    }

    /// The message of the first check that the arguments fail, if any.
    pub open spec fn validation_error(&self) -> Option<Seq<char>> {
        if self.model_path@.len() == 0 {
            Some("Model path cannot be empty"@)
        } else {
            match first_invalid_technique(self.technique_names(), 0) {
                Some(t) => Some(invalid_technique_message(t)),
                None => None,
            }
        }
    }

    pub fn validate(&self, ctx: &CommandContext) -> (r: Result<(), String>)
        ensures
            r is Ok <==> self.validation_error() is None,
            r matches Err(m) ==> self.validation_error() == Some(m@),
    {
        if self.model_path.as_str().is_empty() {
            return Err("Model path cannot be empty".to_owned());
        }
        let ghost names = self.technique_names();
        let mut i: usize = 0;
        while i < self.techniques.len()
            invariant
                i <= self.techniques@.len(),
                self.model_path@.len() > 0,
                names == self.techniques@.map_values(|t: String| t@),
                first_invalid_technique(names, 0) == first_invalid_technique(names, i as int),
            decreases self.techniques@.len() - i,
        {
            let t = self.techniques[i].as_str();
            assert(names[i as int] == t@);
            if !technique_known(t) {
                let m = concat3("Invalid technique: ", t, ". Must be one of: quantize, prune, distill, all");
                return Err(m);
            }
            i = i + 1;
        }
        Ok(())
    }
}

/// Profile a model's run time and find its bottlenecks.
pub struct OptimizeProfile {
    pub config: Config,
    pub model_path: String,
    pub detailed: bool,
}

impl OptimizeProfile {
    /// The name the command is known by.
    pub fn name(&self) -> (r: &'static str)
        ensures
            r@ == "optimize profile"@,
    {
        "optimize profile"
    }

    /// What the command does, in one line.
    pub fn description(&self) -> (r: &'static str)
        ensures
            r@ == "Profile model performance and identify bottlenecks"@,
    {
        "Profile model performance and identify bottlenecks"
    }

    pub fn new(config: Config, model_path: String, detailed: bool) -> (r: Self)
        ensures
            r.config == config,
            r.model_path == model_path,
            r.detailed == detailed,
    {
        OptimizeProfile { config, model_path, detailed }
    }

    pub fn validate(&self, ctx: &CommandContext) -> (r: Result<(), String>)
        ensures
            r is Ok <==> self.model_path@.len() > 0,
            r matches Err(m) ==> m@ == "Model path cannot be empty"@,
    {
        if self.model_path.as_str().is_empty() {
            return Err("Model path cannot be empty".to_owned());
        }
        Ok(())
    }
}


/// The complaint about the paths of a pruning run, if any; the sparsity,
/// a floating-point fraction, is checked after them by the caller.
pub open spec fn prune_paths_error(input: Seq<char>, output: Seq<char>) -> Option<Seq<char>> {
    if input.len() == 0 {
        Some("Input path cannot be empty"@)
    } else if output.len() == 0 {
        Some("Output path cannot be empty"@)
    } else {
        None
    }
}

/// Checks the paths of a pruning run.
pub fn validate_prune_paths(input: &str, output: &str) -> (r: Result<(), String>)
    ensures
        r is Ok <==> prune_paths_error(input@, output@) is None,
        r matches Err(m) ==> prune_paths_error(input@, output@) == Some(m@),
{
    if input.is_empty() {
        return Err("Input path cannot be empty".to_owned());
    }
    if output.is_empty() {
        return Err("Output path cannot be empty".to_owned());
    }
    Ok(())
}

/// The complaint about the paths of a distillation, if any; the
/// temperature, a floating-point value, is checked after them by the
/// caller.
pub open spec fn distill_paths_error(teacher: Seq<char>, student: Seq<char>, output: Seq<char>) -> Option<
    Seq<char>,
> {
    if teacher.len() == 0 {
        Some("Teacher path cannot be empty"@)
    } else if student.len() == 0 {
        Some("Student path cannot be empty"@)
    } else if output.len() == 0 {
        Some("Output path cannot be empty"@)
    } else {
        None
    }
}

/// Checks the paths of a distillation.
pub fn validate_distill_paths(teacher: &str, student: &str, output: &str) -> (r: Result<(), String>)
    ensures
        r is Ok <==> distill_paths_error(teacher@, student@, output@) is None,
        r matches Err(m) ==> distill_paths_error(teacher@, student@, output@) == Some(m@),
{
    if teacher.is_empty() {
        return Err("Teacher path cannot be empty".to_owned());
    }
    if student.is_empty() {
        return Err("Student path cannot be empty".to_owned());
    }
    if output.is_empty() {
        return Err("Output path cannot be empty".to_owned());
    }
    Ok(())
}

} // verus!
