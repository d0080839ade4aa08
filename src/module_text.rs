//! The text of a generated module: the shader source, verbatim, as the default
//! export of a template string.
//!
//! No character of the source is escaped. A source that holds a backtick
//! therefore yields a module that does not parse; that limitation is kept on
//! purpose rather than hidden by an escaping scheme.
use vstd::prelude::*;
use crate::chars::{occurs_at, occurs_at_pos};

verus! {

/// What precedes the source text in a generated module.
pub open spec fn module_prefix() -> Seq<char> {
    seq!['e', 'x', 'p', 'o', 'r', 't', ' ', 'd', 'e', 'f', 'a', 'u', 'l', 't', ' ', '`']
}

/// What follows the source text in a generated module.
pub open spec fn module_suffix() -> Seq<char> {
    seq!['`', ';']
}

/// The module generated from source text `c`.
pub open spec fn wrapped(c: Seq<char>) -> Seq<char> {
    module_prefix() + c + module_suffix()
}

/// The source text of module text `t`: what lies between the fixed prefix and
/// suffix, or `None` where `t` does not carry both.
pub open spec fn unwrapped(t: Seq<char>) -> Option<Seq<char>> {
    let p = module_prefix().len();
    let q = module_suffix().len();
    if t.len() >= p + q && t.subrange(0, p as int) == module_prefix() && t.subrange(
        t.len() - q,
        t.len() as int,
    ) == module_suffix() {
        Some(t.subrange(p as int, t.len() - q))
    } else {
        None
    }
}

const PREFIX: &'static str = "export default `";

const SUFFIX: &'static str = "`;";

proof fn lemma_literals()
    ensures
        PREFIX@ == module_prefix(),
        SUFFIX@ == module_suffix(),
{
    reveal_strlit("export default `");
    reveal_strlit("`;");
    assert(PREFIX@ =~= module_prefix());
    assert(SUFFIX@ =~= module_suffix());
}

/// Builds the module text that embeds `source` verbatim.
pub fn wrap_source(source: &str) -> (r: String)
    ensures
        r@ == wrapped(source@),
{
    proof {
        lemma_literals();
    }
    let mut out = String::from_str(PREFIX);
    out.append(source);
    out.append(SUFFIX);
    out
}

/// Recovers the embedded source text from module text, if it has the shape
/// that `wrap_source` gives.
pub fn unwrap_module(text: &str) -> (r: Option<String>)
    ensures
        match r {
            Some(c) => unwrapped(text@) == Some(c@),
            None => unwrapped(text@) is None,
        },
{
    proof {
        lemma_literals();
    }
    let n = text.unicode_len();
    if n < 18 {
        return None;
    }
    if !occurs_at_pos(text, 0, PREFIX) || !occurs_at_pos(text, n - 2, SUFFIX) {
        return None;
    }
    let inner = text.substring_char(16, n - 2);
    Some(inner.to_owned())
}

/// Unwrapping the module built from `c` gives back exactly `c`.
pub proof fn lemma_unwrap_of_wrap(c: Seq<char>)
    ensures
        unwrapped(wrapped(c)) == Some(c),
{
    let t = wrapped(c);
    let p = module_prefix().len() as int;
    assert(t.subrange(0, p) =~= module_prefix());
    assert(t.subrange(t.len() - 2, t.len() as int) =~= module_suffix());
    assert(t.subrange(p, t.len() - 2) =~= c);
}

/// Wrapping twice only nests the fixed prefix and suffix once more, and two
/// unwraps undo it.
pub proof fn lemma_wrap_twice(c: Seq<char>)
    ensures
        wrapped(wrapped(c)) == module_prefix() + module_prefix() + c + module_suffix()
            + module_suffix(),
        unwrapped(wrapped(wrapped(c))) == Some(wrapped(c)),
{
    assert(wrapped(wrapped(c)) =~= module_prefix() + module_prefix() + c + module_suffix()
        + module_suffix());
    lemma_unwrap_of_wrap(wrapped(c));
}

} // verus!
