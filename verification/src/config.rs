//! The embedded scripting configuration: a Lua interpreter that loads the
//! built-in default script and then every user-supplied source, and exposes
//! the script's entry points as a [`ScriptEngine`].  File discovery and
//! reading stay with the caller; this module receives each source as a
//! plain string together with its origin, for error reporting.

use vstd::prelude::*;
use crate::engine::Outcome;
use crate::engine::ScriptEngine;
use crate::engine::name_decision;
use crate::engine::name_result_view;
use crate::engine::layout_decision;
use crate::engine::layout_result_view;
use crate::engine::resolve_layout;
use crate::engine::resolve_name;
use crate::errors::EntryPoint;
use crate::errors::Error;

verus! {

#[verifier::external_type_specification]
#[verifier::external_body]
pub struct ExLua(rlua::Lua);

/// One configuration source: the script text and the origin it was read
/// from, used only in error reports.
#[derive(Debug, Clone)]
pub struct ScriptSource {
    pub origin: String,
    pub text: String,
}

/// The built-in default configuration script.
pub open spec fn default_config_text() -> Seq<char> {
    "-- tctrl configuration.\n-- Define session_name(param), get_layout(param) and list_projects()\n-- to override the built-in behaviour.  param.path and param.filename\n-- hold the project path and its final component; for get_layout,\n-- param.session_name additionally holds the resolved session name.\nfunction list_projects()\n  return {}\nend\n"@
}

/// The built-in default configuration script, loaded before any
/// user-supplied source.
pub fn get_default_config() -> (r: &'static str)
    ensures
        r@ == default_config_text(),
{
    "-- tctrl configuration.\n-- Define session_name(param), get_layout(param) and list_projects()\n-- to override the built-in behaviour.  param.path and param.filename\n-- hold the project path and its final component; for get_layout,\n-- param.session_name additionally holds the resolved session name.\nfunction list_projects()\n  return {}\nend\n"
}

/// Relies on `mlua::Lua::new` (rlua re-exports mlua): a fresh interpreter
/// with an empty global environment.
#[verifier::external_body]
fn lua_new() -> rlua::Lua {
    rlua::Lua::new()
}

/// Relies on `mlua::Lua::load` and `mlua::Chunk::exec` (through rlua):
/// evaluates one script chunk, reporting failure for a malformed or
/// erroring script.
#[verifier::external_body]
fn lua_exec(lua: &rlua::Lua, chunk: &str) -> (r: Result<(), ()>) {
    match lua.load(chunk).exec() {
        Ok(()) => Ok(()),
        Err(_) => Err(()),
    }
}

/// Relies on `mlua::Table::get` and `mlua::Function::call` (through rlua):
/// consults the global `session_name`, absent when that global is nil, and
/// otherwise calls it with a table holding `path` and `filename`.  A nil
/// return signals deferral to the built-in fallback.
#[verifier::external_body]
fn lua_call_name(lua: &rlua::Lua, path: &str, filename: &str) -> (r: Outcome<String>) {
    let f: Option<rlua::Function> = match lua.globals().get("session_name") {
        Ok(f) => f,
        Err(_) => return Outcome::Failure,
    };
    let f = match f { Some(f) => f, None => return Outcome::Absent };
    let t = match lua.create_table() { Ok(t) => t, Err(_) => return Outcome::Failure };
    if t.set("path", path).is_err() || t.set("filename", filename).is_err() {
        return Outcome::Failure;
    }
    match f.call::<_, Option<String>>(t) {
        Ok(Some(s)) => Outcome::Value(s),
        Ok(None) => Outcome::Absent,
        Err(_) => Outcome::Failure,
    }
}

/// Relies on `mlua::Table::get` and `mlua::Function::call` (through rlua):
/// consults the global `get_layout`, absent when that global is nil, and
/// otherwise calls it with a table holding `path`, `filename` and
/// `session_name`.  A nil return signals deferral to the built-in default.
#[verifier::external_body]
fn lua_call_layout(lua: &rlua::Lua, path: &str, filename: &str, session_name: &str) -> (r: Outcome<
    Vec<String>,
>) {
    let f: Option<rlua::Function> = match lua.globals().get("get_layout") {
        Ok(f) => f,
        Err(_) => return Outcome::Failure,
    };
    let f = match f { Some(f) => f, None => return Outcome::Absent };
    let t = match lua.create_table() { Ok(t) => t, Err(_) => return Outcome::Failure };
    let set = t.set("path", path).is_ok() && t.set("filename", filename).is_ok();
    if !set || t.set("session_name", session_name).is_err() {
        return Outcome::Failure;
    }
    match f.call::<_, Option<Vec<String>>>(t) {
        Ok(Some(v)) => Outcome::Value(v),
        Ok(None) => Outcome::Absent,
        Err(_) => Outcome::Failure,
    }
}

/// Relies on `mlua::Table::get` and `mlua::Function::call` (through rlua):
/// calls the global `list_projects` with no arguments; an undefined entry
/// point is a failure, as is any erroring call.
#[verifier::external_body]
fn lua_list_projects(lua: &rlua::Lua) -> (r: Result<Vec<String>, ()>) {
    let f: rlua::Function = match lua.globals().get("list_projects") {
        Ok(f) => f,
        Err(_) => return Err(()),
    };
    match f.call::<_, Vec<String>>(()) {
        Ok(v) => Ok(v),
        Err(_) => Err(()),
    }
}

/// The loaded configuration: a Lua interpreter holding the built-in
/// default script and every user source, in loading order, each able to
/// override the entry points of its predecessors.
pub struct Config {
    lua: rlua::Lua,
}

impl Config {
    /// Loads the built-in default script, then each given source in order.
    /// A failing source is fatal and is reported with its origin; skipping
    /// of missing discoverable files is the caller's concern.
    pub fn load(sources: Vec<ScriptSource>) -> (r: Result<Config, Error>)
        ensures
            r matches Err(e) ==> e matches Error::ConfigLoad { .. },
    {
        let lua = lua_new();
        if lua_exec(&lua, get_default_config()).is_err() {
            return Err(
                Error::ConfigLoad { source: String::from_str("built-in default configuration") },
            );
        }
        let mut i: usize = 0;
        while i < sources.len()
            invariant
                i <= sources@.len(),
            decreases sources@.len() - i,
        {
            if lua_exec(&lua, sources[i].text.as_str()).is_err() {
                return Err(Error::ConfigLoad { source: sources[i].origin.clone() });
            }
            i = i + 1;
        }
        Ok(Config { lua })
    }

    /// Resolves the session name for a path, as [`resolve_name`] states:
    /// the script's answer verbatim, the deterministic fallback when the
    /// entry point is absent, and a fatal error when it fails.
    pub fn session_name(&self, path: &str) -> (r: Result<String, Error>)
        ensures
            exists|o: Outcome<Seq<char>>| name_result_view(r) == name_decision(o, path@),
            r matches Ok(s) ==> s@.len() > 0,
            r matches Err(e) ==> e == (Error::ScriptEvaluation { entry: EntryPoint::SessionName }),
    {
        resolve_name(self, path)
    }

    /// Resolves the layout for a path and session name, as
    /// [`resolve_layout`] states: the script's sequence verbatim, the
    /// built-in single-command default when the entry point is absent, a
    /// fatal error when it fails or returns an empty sequence.
    pub fn get_layout(&self, path: &str, session_name: &str) -> (r: Result<Vec<String>, Error>)
        ensures
            exists|o: Outcome<Seq<Seq<char>>>| layout_result_view(r) == layout_decision(o),
            r matches Ok(v) ==> v@.len() >= 1,
            r matches Err(e) ==> e == (Error::ScriptEvaluation { entry: EntryPoint::GetLayout })
                || e == Error::EmptyLayout,
    {
        resolve_layout(self, path, session_name)
    }

    /// Lists the configured project paths through the script's
    /// `list_projects` entry point, for interactive selection.
    pub fn list_projects(&self) -> (r: Result<Vec<String>, Error>)
        ensures
            r matches Err(e) ==> e == (Error::ScriptEvaluation { entry: EntryPoint::ListProjects }),
    {
        match lua_list_projects(&self.lua) {
            Ok(v) => Ok(v),
            Err(_) => Err(Error::ScriptEvaluation { entry: EntryPoint::ListProjects }),
        }
    }
}

impl ScriptEngine for Config {
    fn call_name(&self, path: &str, filename: &str) -> (r: Outcome<String>) {
        lua_call_name(&self.lua, path, filename)
    }

    fn call_layout(&self, path: &str, filename: &str, session_name: &str) -> (r: Outcome<
        Vec<String>,
    >) {
        lua_call_layout(&self.lua, path, filename, session_name)
    }
}

} // verus!
