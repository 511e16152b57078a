use vstd::prelude::*;

verus! {

/// The script entry point that a scripting failure is attributed to.
#[derive(Debug, Clone, Copy, PartialEq, Eq)]
pub enum EntryPoint {
    SessionName,
    GetLayout,
    ListProjects,
}

/// The pipeline step that a multiplexer failure is attributed to.
#[derive(Debug, Clone, Copy, PartialEq, Eq)]
pub enum Stage {
    Probe,
    Create,
    Attach,
}

/// A fatal error of the launcher.  Every failure aborts the invocation; the
/// core performs no retries and no rollback.
#[derive(Debug, Clone, PartialEq, Eq)]
pub enum Error {
    /// A configuration source was given but failed to evaluate; `source`
    /// names the offending source.
    ConfigLoad { source: String },
    /// A defined script entry point failed during a call: a runtime script
    /// error or a value of the wrong shape.
    ScriptEvaluation { entry: EntryPoint },
    /// The resolved layout holds zero commands.
    EmptyLayout,
    /// A multiplexer invocation could not be run or exited non-zero.
    MultiplexerUnavailable { stage: Stage },
    /// A path cannot be represented as the string form the multiplexer
    /// commands require.
    InvalidPath,
}

/// Failure of a single multiplexer invocation, as reported by a
/// [`crate::mux::Multiplexer`] capability.
#[derive(Debug, Clone, Copy, PartialEq, Eq)]
pub struct MuxError;

/// The name of a script entry point, as it stands in the configuration.
pub open spec fn entry_point_name(e: EntryPoint) -> Seq<char> {
    match e {
        EntryPoint::SessionName => "session_name"@,
        EntryPoint::GetLayout => "get_layout"@,
        EntryPoint::ListProjects => "list_projects"@,
    }
}

/// The name of a pipeline step, as error messages report it.
pub open spec fn stage_name(s: Stage) -> Seq<char> {
    match s {
        Stage::Probe => "probe"@,
        Stage::Create => "create"@,
        Stage::Attach => "attach"@,
    }
}

/// The message that [`Error::describe`] produces, naming the failing stage.
pub open spec fn describe_spec(e: Error) -> Seq<char> {
    match e {
        Error::ConfigLoad { source } => "error loading configuration from "@ + source@,
        Error::ScriptEvaluation { entry } => "script entry point "@ + entry_point_name(entry)
            + " failed"@,
        Error::EmptyLayout => "resolved layout holds no command"@,
        Error::MultiplexerUnavailable { stage } => "multiplexer command failed during "@
            + stage_name(stage),
        Error::InvalidPath => "path cannot be represented as a string"@,
    }
}

/// The name of a script entry point, for messages.
pub fn entry_point_name_str(e: EntryPoint) -> (r: &'static str)
    ensures
        r@ == entry_point_name(e),
{
    match e {
        EntryPoint::SessionName => "session_name",
        EntryPoint::GetLayout => "get_layout",
        EntryPoint::ListProjects => "list_projects",
    }
}

/// The name of a pipeline step, for messages.
pub fn stage_name_str(s: Stage) -> (r: &'static str)
    ensures
        r@ == stage_name(s),
{
    match s {
        Stage::Probe => "probe",
        Stage::Create => "create",
        Stage::Attach => "attach",
    }
}

impl Error {
    /// A human-readable message naming which stage failed and why.
    pub fn describe(&self) -> (r: String)
        ensures
            r@ == describe_spec(*self),
    {
        match self {
            Error::ConfigLoad { source } => String::from_str(
                "error loading configuration from ",
            ).concat(source.as_str()),
            Error::ScriptEvaluation { entry } => String::from_str("script entry point ").concat(
                entry_point_name_str(*entry),
            ).concat(" failed"),
            Error::EmptyLayout => String::from_str("resolved layout holds no command"),
            Error::MultiplexerUnavailable { stage } => String::from_str(
                "multiplexer command failed during ",
            ).concat(stage_name_str(*stage)),
            Error::InvalidPath => String::from_str("path cannot be represented as a string"),
        }
    }
}

} // verus!
