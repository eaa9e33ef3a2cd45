//! Configuration values threaded through the pipeline: cursor control
//! scheme, keymaps, and the scripts bound to function keys.
use vstd::prelude::*;

use std::collections::HashMap;

verus! {

broadcast use vstd::std_specs::hash::group_hash_axioms;

/// Which character scheme steers the cursor in view mode.
#[derive(Clone, Copy, Debug, PartialEq, Eq, Structural)]
pub enum CursorControls {
    WASD,
    HJKL,
}

/// Character keymaps: each bound character names an external command. Read
/// by the input shell in view mode.
pub struct CharKeymap {
    pub binds: HashMap<char, String>,
}

/// The script bound to one function key, tagged with its executor.
pub enum FnScript {
    NoScript,
    Rust(()),
    Perl(String),
    Lua(String),
}

/// What the shell is asked to run for one script binding: the library
/// decides the executor and the script path; running it is external work.
#[derive(Clone, Debug, PartialEq, Eq)]
pub enum ScriptAction {
    Skip,
    Rust,
    Perl(String),
    Lua(String),
}

/// The error of a function-key lookup that found nothing bound.
#[derive(Clone, Copy, Debug, PartialEq, Eq, Structural)]
pub enum KeymapError {
    UnboundKey,
}

impl FnScript {
    /// Whether an action is the one this binding calls for.
    pub open spec fn action_matches(&self, a: ScriptAction) -> bool {
        match *self {
            FnScript::NoScript => a == ScriptAction::Skip,
            FnScript::Rust(_) => a == ScriptAction::Rust,
            FnScript::Perl(p) => a matches ScriptAction::Perl(q) && q@ == p@,
            FnScript::Lua(l) => a matches ScriptAction::Lua(q) && q@ == l@,
        }
    }

    /// Decide what to run for this binding, dispatching on the executor.
    pub fn execute(&self) -> (r: ScriptAction)
        ensures
            self.action_matches(r),
    {
        match self {
            FnScript::NoScript => ScriptAction::Skip,
            FnScript::Rust(rust) => FnScript::execute_rust(*rust),
            FnScript::Perl(perl) => FnScript::execute_perl(perl.as_str()),
            FnScript::Lua(lua) => FnScript::execute_lua(lua.as_str()),
        }
    }

    /// The action for a binding handled by the native executor.
    pub fn execute_rust(_rust: ()) -> (r: ScriptAction)
        ensures
            r == ScriptAction::Rust,
    {
        ScriptAction::Rust
    }

    /// The action for a script run by the Perl executor.
    pub fn execute_perl(script_path: &str) -> (r: ScriptAction)
        ensures
            r matches ScriptAction::Perl(q) && q@ == script_path@,
    {
        ScriptAction::Perl(script_path.to_owned())
    }

    /// The action for a script run by the Lua executor.
    pub fn execute_lua(script_path: &str) -> (r: ScriptAction)
        ensures
            r matches ScriptAction::Lua(q) && q@ == script_path@,
    {
        ScriptAction::Lua(script_path.to_owned())
    }
}

impl Default for FnScript {
    /// A fresh binding runs nothing.
    fn default() -> (r: FnScript)
        ensures
            r == FnScript::NoScript,
    {
        FnScript::NoScript
    }
}

/// The scripts bound to function keys, by key number.
pub struct FnKeymap {
    pub scripts: HashMap<usize, FnScript>,
}

impl FnKeymap {
    /// An empty keymap with nothing bound.
    pub fn new() -> (r: FnKeymap)
        ensures
            r.scripts@ == Map::<usize, FnScript>::empty(),
    {
        FnKeymap { scripts: HashMap::new() }
    }

    /// Look up the script bound to a function key and decide what to run.
    /// A key with nothing bound is a reported error, never a panic.
    pub fn serve_fn(&self, id: usize) -> (r: Result<ScriptAction, KeymapError>)
        ensures
            self.scripts@.contains_key(id) ==> (r matches Ok(a)
                && self.scripts@[id].action_matches(a)),
            !self.scripts@.contains_key(id) ==> (r matches Err(e) && e
                == KeymapError::UnboundKey),
    {
        match self.scripts.get(&id) {
            Some(script) => Ok(script.execute()),
            None => Err(KeymapError::UnboundKey),
        }
    }
}

} // verus!
