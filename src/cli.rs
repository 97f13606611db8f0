//! The commands the tool accepts, as plain values, and the filter each one asks for.
use vstd::prelude::*;
use crate::search::{Filter, ParamCoverageFilter, Visibility};
use crate::shape::ParamTypeFilter;

verus! {

/// What the tool was asked to do.
#[derive(Clone, Debug)]
pub enum Commands {
    /// List viable fuzzing targets.
    List {
        /// Keep only functions with binary parameters (no text).
        binary_only: bool,
        /// Keep only `pub` functions.
        public_only: bool,
        /// Print the targets as JSON.
        json: bool,
        /// Root of the project to search.
        path: Option<String>,
    },
    /// Write fuzzing tests (not implemented).
    Generate { inpath: Option<String>, outpath: Option<String> },
}

/// The parsed command line.
#[derive(Clone, Debug)]
pub struct Opts {
    pub command: Commands,
}

/// A command that asks for a capability the tool does not have.
#[derive(Copy, Clone, Debug, PartialEq, Eq, Structural)]
pub enum CommandError {
    /// Generation of fuzzing tests is not implemented.
    GenerateUnimplemented,
}

/// The filter that listing asks for under the two flags.
pub open spec fn list_filter(filter: Filter, binary_only: bool, public_only: bool) -> bool {
    &&& (if public_only {
        filter.visibility matches Some(Visibility::Public)
    } else {
        filter.visibility is None
    })
    &&& filter.param_type == (if binary_only {
        ParamTypeFilter::BinaryOnly
    } else {
        ParamTypeFilter::BinaryOrString
    })
    &&& filter.param_coverage == ParamCoverageFilter::Any
}

impl Opts {
    /// The filter for a listing; generation is refused.
    pub fn filter(&self) -> (r: Result<Filter, CommandError>)
        ensures
            match self.command {
                Commands::List { binary_only, public_only, .. } => r matches Ok(f) && list_filter(
                    f,
                    binary_only,
                    public_only,
                ),
                Commands::Generate { .. } => r == Err::<Filter, CommandError>(
                    CommandError::GenerateUnimplemented,
                ),
            },
    {
        match &self.command {
            Commands::List { binary_only, public_only, .. } => {
                let visibility = if *public_only {
                    Some(Visibility::Public)
                } else {
                    None
                };
                let param_type = if *binary_only {
                    ParamTypeFilter::BinaryOnly
                } else {
                    ParamTypeFilter::default()
                };
                Ok(Filter { visibility, param_type, param_coverage: ParamCoverageFilter::default() })
            },
            Commands::Generate { .. } => Err(CommandError::GenerateUnimplemented),
        }
    }

    /// The project root a listing searches: the given path, else the current directory.
    pub fn search_root(&self) -> (r: Result<String, CommandError>)
        ensures
            match self.command {
                Commands::List { path, .. } => r matches Ok(p) && p@ == (match path {
                    Some(given) => given@,
                    None => "."@,
                }),
                Commands::Generate { .. } => r == Err::<String, CommandError>(
                    CommandError::GenerateUnimplemented,
                ),
            },
    {
        match &self.command {
            Commands::List { path, .. } => match path {
                Some(given) => Ok(given.clone()),
                None => Ok(".".to_owned()),
            },
            Commands::Generate { .. } => Err(CommandError::GenerateUnimplemented),
        }
    }
}

} // verus!
