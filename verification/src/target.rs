//! The probe a monitor runs, and what one execution of it produced.

use vstd::prelude::*;

verus! {

/// A script or binary to execute, with its command-line arguments and the
/// environment variables to set for it.
#[derive(Debug)]
pub struct Target {
    pub path: String,
    pub args: Option<Vec<String>>,
    pub env: Option<Vec<(String, String)>>,
}

/// The configured form of a [`Target`].
#[derive(Clone, Debug)]
pub struct TargetArgs {
    pub path: String,
    pub args: Option<Vec<String>>,
    pub env: Option<Vec<(String, String)>>,
}

/// What one execution of a target produced. `status` is the exit code of the
/// process, absent when the process ended without one.
#[derive(Debug)]
pub struct TargetOutput {
    pub stdout: String,
    pub stderr: String,
    pub duration: u64,
    pub status: Option<i32>,
}

impl TargetArgs {
    /// Turns the configured form into the target itself, field by field.
    pub fn build(self) -> (target: Target)
        ensures
            target.path == self.path,
            target.args == self.args,
            target.env == self.env,
    {
        Target { path: self.path, args: self.args, env: self.env }
    }
}

impl Target {
    /// The target that a configured target stands for.
    pub fn from_args(args: TargetArgs) -> (target: Target)
        ensures
            target.path == args.path,
            target.args == args.args,
            target.env == args.env,
    {
        args.build()
    }
}

} // verus!
