//! The scripting collaborator, seen from the core: two optional entry
//! points, one for the session name and one for the layout.  An engine
//! reports, per call, whether the entry point is absent, returned a value,
//! or failed; absence falls back to the built-in rule, while a failure is
//! fatal and is never masked by the fallback.

use vstd::prelude::*;
use crate::errors::EntryPoint;
use crate::errors::Error;
use crate::layout::default_layout;
use crate::layout::default_layout_spec;
use crate::names::fallback_name;
use crate::names::fallback_session_name;
use crate::names::final_component_of;

verus! {

/// What one call of a script entry point came to.
#[derive(Debug, Clone)]
pub enum Outcome<T> {
    /// The entry point is not defined, or signalled deferral: the built-in
    /// fallback applies.
    Absent,
    /// The entry point ran and returned this value.
    Value(T),
    /// The entry point is defined but the call failed: a runtime script
    /// error or a value of the wrong shape.
    Failure,
}

/// The view of a name outcome.
pub open spec fn name_outcome_view(o: Outcome<String>) -> Outcome<Seq<char>> {
    match o {
        Outcome::Absent => Outcome::Absent,
        Outcome::Value(s) => Outcome::Value(s@),
        Outcome::Failure => Outcome::Failure,
    }
}

/// The view of a layout outcome.
pub open spec fn layout_outcome_view(o: Outcome<Vec<String>>) -> Outcome<Seq<Seq<char>>> {
    match o {
        Outcome::Absent => Outcome::Absent,
        Outcome::Value(v) => Outcome::Value(v.deep_view()),
        Outcome::Failure => Outcome::Failure,
    }
}

/// The view of a name-resolution result.
pub open spec fn name_result_view(r: Result<String, Error>) -> Result<Seq<char>, Error> {
    match r {
        Ok(s) => Ok(s@),
        Err(e) => Err(e),
    }
}

/// The view of a layout-resolution result.
pub open spec fn layout_result_view(r: Result<Vec<String>, Error>) -> Result<
    Seq<Seq<char>>,
    Error,
> {
    match r {
        Ok(v) => Ok(v.deep_view()),
        Err(e) => Err(e),
    }
}

/// What the name resolver returns for each outcome of the script call: a
/// value is used verbatim unless it is empty, absence falls back to the
/// deterministic rule, and a failure is fatal.
pub open spec fn name_decision(o: Outcome<Seq<char>>, path: Seq<char>) -> Result<
    Seq<char>,
    Error,
> {
    match o {
        Outcome::Absent => Ok(fallback_name(path)),
        Outcome::Value(s) => if s.len() == 0 {
            Err(Error::ScriptEvaluation { entry: EntryPoint::SessionName })
        } else {
            Ok(s)
        },
        Outcome::Failure => Err(Error::ScriptEvaluation { entry: EntryPoint::SessionName }),
    }
}

/// What the layout resolver returns for each outcome of the script call: a
/// non-empty value is used verbatim, an empty value is a fatal
/// configuration error (never a silent default), absence falls back to the
/// built-in single-command layout, and a failure is fatal.
pub open spec fn layout_decision(o: Outcome<Seq<Seq<char>>>) -> Result<Seq<Seq<char>>, Error> {
    match o {
        Outcome::Absent => Ok(default_layout_spec()),
        Outcome::Value(v) => if v.len() == 0 {
            Err(Error::EmptyLayout)
        } else {
            Ok(v)
        },
        Outcome::Failure => Err(Error::ScriptEvaluation { entry: EntryPoint::GetLayout }),
    }
}

/// An embedded scripting configuration, seen as two optional capability
/// slots.  Each call passes the full path string and the path's final
/// component (empty when the path has none); the layout call also passes
/// the already-resolved session name.  Nothing is assumed of an engine: any
/// outcome may come back from any call.
pub trait ScriptEngine {
    /// Consults the name entry point.
    fn call_name(&self, path: &str, filename: &str) -> (r: Outcome<String>);

    /// Consults the layout entry point.
    fn call_layout(&self, path: &str, filename: &str, session_name: &str) -> (r: Outcome<
        Vec<String>,
    >);
}

/// Turns the outcome of the name entry point into the session name, exactly
/// as `name_decision` states.
pub fn name_from_outcome(o: Outcome<String>, path: &str) -> (r: Result<String, Error>)
    ensures
        name_result_view(r) == name_decision(name_outcome_view(o), path@),
{
    match o {
        Outcome::Absent => Ok(fallback_session_name(path)),
        Outcome::Value(s) => if s.as_str().unicode_len() == 0 {
            Err(Error::ScriptEvaluation { entry: EntryPoint::SessionName })
        } else {
            Ok(s)
        },
        Outcome::Failure => Err(Error::ScriptEvaluation { entry: EntryPoint::SessionName }),
    }
}

/// Turns the outcome of the layout entry point into the layout, exactly as
/// `layout_decision` states.
pub fn layout_from_outcome(o: Outcome<Vec<String>>) -> (r: Result<Vec<String>, Error>)
    ensures
        layout_result_view(r) == layout_decision(layout_outcome_view(o)),
        r matches Ok(v) ==> v@.len() >= 1,
{
    match o {
        Outcome::Absent => Ok(default_layout()),
        Outcome::Value(v) => if v.len() == 0 {
            proof {
                assert(v.deep_view() =~= Seq::<Seq<char>>::empty());
            }
            Err(Error::EmptyLayout)
        } else {
            proof {
                assert(v.deep_view().len() == v@.len());
            }
            Ok(v)
        },
        Outcome::Failure => Err(Error::ScriptEvaluation { entry: EntryPoint::GetLayout }),
    }
}

/// Resolves the session name for a path: consults the engine's name entry
/// point and applies `name_decision` to whatever came back.  Total over the
/// engine's answers; an `Ok` name is never empty.
pub fn resolve_name<E: ScriptEngine>(engine: &E, path: &str) -> (r: Result<String, Error>)
    ensures
        exists|o: Outcome<Seq<char>>| name_result_view(r) == name_decision(o, path@),
        r matches Ok(s) ==> s@.len() > 0,
        r matches Err(e) ==> e == (Error::ScriptEvaluation { entry: EntryPoint::SessionName }),
{
    let filename = final_component_of(path);
    let o = match &filename {
        Some(f) => engine.call_name(path, f.as_str()),
        None => engine.call_name(path, ""),
    };
    let r = name_from_outcome(o, path);
    proof {
        crate::names::lemma_fallback_sanitized(path@);
    }
    r
}

/// Resolves the layout for a path and an already-resolved session name:
/// consults the engine's layout entry point and applies `layout_decision`
/// to whatever came back.  An `Ok` layout always holds at least one
/// command.
pub fn resolve_layout<E: ScriptEngine>(engine: &E, path: &str, session_name: &str) -> (r: Result<
    Vec<String>,
    Error,
>)
    ensures
        exists|o: Outcome<Seq<Seq<char>>>| layout_result_view(r) == layout_decision(o),
        r matches Ok(v) ==> v@.len() >= 1,
        r matches Err(e) ==> e == (Error::ScriptEvaluation { entry: EntryPoint::GetLayout }) || e
            == Error::EmptyLayout,
{
    let filename = final_component_of(path);
    let o = match &filename {
        Some(f) => engine.call_layout(path, f.as_str(), session_name),
        None => engine.call_layout(path, "", session_name),
    };
    layout_from_outcome(o)
}

} // verus!
