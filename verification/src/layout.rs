//! The built-in default layout: a single window running the user's editor.
//! It applies when no script is loaded or the layout entry point is
//! undefined, so the launcher is usable with zero configuration.

use vstd::prelude::*;

verus! {

/// The built-in default layout: one command for the session's first window.
pub open spec fn default_layout_spec() -> Seq<Seq<char>> {
    seq!["$EDITOR"@]
}

/// Builds the built-in default layout.
pub fn default_layout() -> (r: Vec<String>)
    ensures
        r.deep_view() == default_layout_spec(),
        r@.len() == 1,
{
    let mut v: Vec<String> = Vec::new();
    v.push(String::from_str("$EDITOR"));
    proof {
        assert(v.deep_view() =~= default_layout_spec());
    }
    v
}

} // verus!
