//! Configuration and orchestration for optimizing WebAssembly modules.
//!
//! The crate assembles one optimization run: it holds the configuration
//! (formats, options, features and passes), resolves it, and decides step by
//! step what the transformation engine has to do. The engine, and every
//! access to the file system, stay outside: the run is driven by a caller
//! that performs each [`Action`] and reports the [`Event`] that came of it.
//!
//! - [`api`], [`builder`] and [`profiles`]: the configuration, the calls that
//!   change it, and the usual optimization levels.
//! - [`features`]: the optional features of WebAssembly and how a selection
//!   of them becomes the two bit-sets that the engine takes.
//! - [`passes`] and [`registry`]: the catalog of passes, and what the engine
//!   reports of its own.
//! - [`run`]: the stages of a run and what each of them asks for;
//!   [`run_proofs`]: what holds of every run.
//! - [`integration`]: a configuration from the arguments of a command line;
//!   [`integration_proofs`]: what holds of the arguments that are known.
//! - [`arguments`], [`error`] and [`text`]: the arguments of passes, the
//!   errors of a run, and strings.

pub mod api;
pub mod arguments;
pub mod builder;
pub mod error;
pub mod features;
pub mod integration;
pub mod integration_proofs;
pub mod passes;
pub mod profiles;
pub mod registry;
pub mod run;
pub mod run_proofs;
pub mod text;

pub use api::{
    FileType, InliningOptions, OptimizationOptions, OptimizeLevel, PassOptions, Passes,
    ReaderOptions, ShrinkLevel, WriterOptions,
};
pub use arguments::PassArguments;
pub use error::OptimizationError;
pub use features::{Feature, FeatureSelection, FeatureSet, Features};
pub use integration::{parse_command_args, CommandError, ParsedCommand};
pub use passes::Pass;
pub use profiles::Profile;
pub use registry::{PassInfo, PassRegistry};
pub use run::{Action, EnginePassOptions, Event, Format, RunFiles, Stage};
