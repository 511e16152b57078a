//! The deterministic fallback rule that turns a project path into a session
//! name: take the path's final component, replace every space, comma and
//! period with an underscore, and fall back to the literal name `"unnamed"`
//! when the path has no final component.

use vstd::prelude::*;

verus! {

/// The path with every trailing `/` removed.
pub open spec fn drop_trailing_seps(p: Seq<char>) -> Seq<char>
    decreases p.len(),
{
    if p.len() > 0 && p[p.len() - 1] == '/' {
        drop_trailing_seps(p.drop_last())
    } else {
        p
    }
}

/// The characters after the last `/`; the whole sequence when none occurs.
pub open spec fn after_last_sep(p: Seq<char>) -> Seq<char>
    decreases p.len(),
{
    if p.len() == 0 {
        p
    } else if p[p.len() - 1] == '/' {
        Seq::empty()
    } else {
        after_last_sep(p.drop_last()).push(p[p.len() - 1])
    }
}

/// The final component of a path: the characters after the last separator,
/// trailing separators ignored.  `None` for the root path, the empty path,
/// and any path whose final component is empty.
pub open spec fn final_component(p: Seq<char>) -> Option<Seq<char>> {
    let c = after_last_sep(drop_trailing_seps(p));
    if c.len() == 0 {
        None
    } else {
        Some(c)
    }
}

/// Space, comma and period become an underscore; every other character is
/// kept.
pub open spec fn replaced_char(c: char) -> char {
    if c == ' ' || c == ',' || c == '.' {
        '_'
    } else {
        c
    }
}

/// The component with every space, comma and period replaced.
pub open spec fn sanitized(s: Seq<char>) -> Seq<char> {
    s.map_values(|c: char| replaced_char(c))
}

/// The deterministic fallback session name for a path.
pub open spec fn fallback_name(p: Seq<char>) -> Seq<char> {
    match final_component(p) {
        Some(c) => sanitized(c),
        None => "unnamed"@,
    }
}

/// Computes the final path component, `None` when the path has none.
pub fn final_component_of(path: &str) -> (r: Option<String>)
    ensures
        match r {
            Some(s) => final_component(path@) == Some(s@),
            None => final_component(path@) is None,
        },
{
    let n: usize = path.unicode_len();
    let mut end: usize = n;
    proof {
        assert(path@.take(n as int) =~= path@);
    }
    while end > 0 && path.get_char(end - 1) == '/'
        invariant
            end <= n,
            n == path@.len(),
            drop_trailing_seps(path@) == drop_trailing_seps(path@.take(end as int)),
        decreases end,
    {
        proof {
            assert(path@.take(end as int).drop_last() =~= path@.take(end as int - 1));
        }
        end = end - 1;
    }
    proof {
        if end > 0 {
            assert(drop_trailing_seps(path@.take(end as int)) == path@.take(end as int));
        }
    }
    let mut start: usize = end;
    proof {
        assert(after_last_sep(path@.take(end as int)) + path@.subrange(end as int, end as int)
            =~= after_last_sep(path@.take(end as int)));
    }
    while start > 0 && path.get_char(start - 1) != '/'
        invariant
            start <= end <= n,
            n == path@.len(),
            after_last_sep(path@.take(end as int)) == after_last_sep(path@.take(start as int))
                + path@.subrange(start as int, end as int),
        decreases start,
    {
        proof {
            assert(path@.take(start as int).drop_last() =~= path@.take(start as int - 1));
            assert(after_last_sep(path@.take(start as int)) == after_last_sep(
                path@.take(start as int - 1),
            ).push(path@[start as int - 1]));
            assert(after_last_sep(path@.take(start as int - 1)).push(path@[start as int - 1])
                + path@.subrange(start as int, end as int) =~= after_last_sep(
                path@.take(start as int - 1),
            ) + path@.subrange(start as int - 1, end as int));
        }
        start = start - 1;
    }
    proof {
        if start > 0 {
            assert(after_last_sep(path@.take(start as int)) =~= Seq::<char>::empty());
        }
        assert(after_last_sep(path@.take(end as int)) =~= path@.subrange(
            start as int,
            end as int,
        ));
    }
    if start == end {
        None
    } else {
        let c = path.substring_char(start, end);
        Some(c.to_owned())
    }
}

/// Replaces every space, comma and period with an underscore.
pub fn sanitize_component(s: &str) -> (r: String)
    ensures
        r@ == sanitized(s@),
{
    let n: usize = s.unicode_len();
    let mut out = String::new();
    let mut i: usize = 0;
    while i < n
        invariant
            i <= n,
            n == s@.len(),
            out@ == sanitized(s@.take(i as int)),
        decreases n - i,
    {
        let c = s.get_char(i);
        let rc: char = if c == ' ' || c == ',' || c == '.' {
            '_'
        } else {
            c
        };
        push_char(&mut out, rc);
        proof {
            assert(sanitized(s@.take(i as int + 1)) =~= sanitized(s@.take(i as int)).push(
                replaced_char(s@[i as int]),
            ));
        }
        i = i + 1;
    }
    proof {
        assert(s@.take(n as int) =~= s@);
    }
    out
}

/// Relies on `String::push` of std: appends one character at the end.
#[verifier::external_body]
fn push_char(s: &mut String, c: char)
    ensures
        final(s)@ == old(s)@.push(c),
{
    s.push(c);
}

/// The deterministic fallback rule of the name resolver.  Total: every path,
/// including the root and the empty string, yields a name.
pub fn fallback_session_name(path: &str) -> (r: String)
    ensures
        r@ == fallback_name(path@),
{
    match final_component_of(path) {
        Some(c) => sanitize_component(c.as_str()),
        None => String::from_str("unnamed"),
    }
}

/// The fallback rule is a function of the path alone: any two results for
/// the same path are equal, so repeated resolution is idempotent.
pub proof fn lemma_fallback_deterministic(p: Seq<char>, r1: Seq<char>, r2: Seq<char>)
    requires
        r1 == fallback_name(p),
        r2 == fallback_name(p),
    ensures
        r1 == r2,
{
}

/// The fallback name is never empty and never contains a space, a comma or
/// a period, for every path.
pub proof fn lemma_fallback_sanitized(p: Seq<char>)
    ensures
        fallback_name(p).len() > 0,
        forall|i: int|
            0 <= i < fallback_name(p).len() ==> fallback_name(p)[i] != ' ' && fallback_name(p)[i]
                != ',' && fallback_name(p)[i] != '.',
{
    match final_component(p) {
        Some(c) => {
            assert(forall|i: int|
                0 <= i < sanitized(c).len() ==> sanitized(c)[i] == replaced_char(c[i]));
        },
        None => {
            lemma_unnamed_chars();
        },
    }
}

/// A path with no final component resolves to the literal fallback name.
pub proof fn lemma_no_component_unnamed(p: Seq<char>)
    requires
        final_component(p) is None,
    ensures
        fallback_name(p) == "unnamed"@,
{
}

/// The literal fallback name is non-empty and free of the replaced
/// characters.
proof fn lemma_unnamed_chars()
    ensures
        "unnamed"@.len() == 7,
        forall|i: int|
            0 <= i < 7 ==> "unnamed"@[i] != ' ' && "unnamed"@[i] != ',' && "unnamed"@[i] != '.',
{
    reveal_strlit("unnamed");
}

} // verus!
