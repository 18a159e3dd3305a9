//! The run configuration shared across one invocation.

use vstd::prelude::*;

use crate::error::UnblockerError;

verus! {

/// Configuration for one run.
///
/// `requires_elevation` is the cross-cutting escalation flag: it starts
/// false, is set when a permission failure is observed anywhere in the run,
/// and is never reset within the run.
#[derive(Debug, Clone)]
pub struct Config {
    /// Enable verbose output to the console.
    pub verbose: bool,
    /// Optional path of a log file.
    pub log_path: Option<String>,
    /// The file or directory the run operates on.
    pub target_path: String,
    /// Whether a permission failure has been observed during this run.
    pub requires_elevation: bool,
}

/// The two configurations agree on everything but the escalation flag.
pub open spec fn same_but_elevation(a: Config, b: Config) -> bool {
    &&& a.verbose == b.verbose
    &&& a.log_path == b.log_path
    &&& a.target_path == b.target_path
}

impl Config {
    /// Builds a configuration and validates it against the probed facts:
    /// whether the target path exists, and whether the directory that is to
    /// hold the log file exists.  The caller probes the filesystem and
    /// passes the answers in; `log_dir_exists` is ignored when no log path
    /// is given.
    pub fn new(
        verbose: bool,
        log_path: Option<String>,
        target_path: String,
        target_exists: bool,
        log_dir_exists: bool,
    ) -> (r: Result<Config, UnblockerError>)
        ensures
            r is Ok <==> target_exists && (log_path is Some ==> log_dir_exists),
            r matches Ok(c) ==> c.verbose == verbose && c.log_path == log_path
                && c.target_path == target_path && !c.requires_elevation,
            !target_exists ==> (r matches Err(UnblockerError::PathNotFound(m))
                && m@ == target_path@),
            target_exists && !log_dir_exists && log_path is Some ==> (r matches Err(
                UnblockerError::Config(m),
            ) && m@ == "Log directory does not exist: "@ + (log_path->0)@),
    {
        let config = Config { verbose, log_path, target_path, requires_elevation: false };
        match config.validate(target_exists, log_dir_exists) {
            Ok(()) => Ok(config),
            Err(e) => Err(e),
        }
    }

    /// Checks the configuration against the probed facts: the target must
    /// exist, and so must the directory of the log file when one is named.
    pub fn validate(&self, target_exists: bool, log_dir_exists: bool) -> (r: Result<
        (),
        UnblockerError,
    >)
        ensures
            r is Ok <==> target_exists && (self.log_path is Some ==> log_dir_exists),
            !target_exists ==> (r matches Err(UnblockerError::PathNotFound(m))
                && m@ == self.target_path@),
            target_exists && !log_dir_exists && self.log_path is Some ==> (r matches Err(
                UnblockerError::Config(m),
            ) && m@ == "Log directory does not exist: "@ + (self.log_path->0)@),
    {
        if !target_exists {
            return Err(UnblockerError::PathNotFound(self.target_path.clone()));
        }
        match &self.log_path {
            Some(lp) => {
                if !log_dir_exists {
                    return Err(UnblockerError::Config(
                        String::from_str("Log directory does not exist: ").concat(lp.as_str()),
                    ));
                }
            },
            None => {},
        }
        Ok(())
    }

    /// Records that elevated rights are needed.  The flag only ever moves
    /// from false to true; nothing in a run resets it.
    pub fn set_requires_elevation(&mut self)
        ensures
            final(self).requires_elevation,
            same_but_elevation(*old(self), *final(self)),
    {
        self.requires_elevation = true;
    }
}

} // verus!
