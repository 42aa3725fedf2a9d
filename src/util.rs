//! Extracting plain names from paths and binding patterns.
use crate::ast::{BindingMode, Mutability, Pat, PatKind, Path};
use vstd::prelude::*;

verus! {

/// The name of an unqualified path of one segment without generic arguments.
pub open spec fn simple_name(p: Path) -> Option<Seq<char>> {
    if p.segments@.len() == 1 && !p.segments@[0].has_args {
        Some(p.segments@[0].ident@)
    } else {
        None
    }
}

/// The variable bound by a pattern that is a single immutable binding by value.
pub open spec fn pat_var(p: Pat) -> Option<Seq<char>> {
    match p.kind {
        PatKind::Ident(BindingMode::ByValue(Mutability::Immutable), name, None) => Some(name@),
        _ => None,
    }
}

/// A reserved word of the target written in its escaped form (`mod_`)
/// becomes the bare word; any other name is kept.
pub open spec fn unescape(n: Seq<char>) -> Seq<char> {
    if n == "mod_"@ {
        "mod"@
    } else {
        n
    }
}

pub fn simple_path(p: &Path) -> (r: Option<String>)
    ensures
        match r {
            Some(s) => simple_name(*p) == Some(s@),
            None => simple_name(*p) is None,
        },
{
    if p.segments.len() == 1 && !p.segments[0].has_args {
        Some(p.segments[0].ident.clone())
    } else {
        None
    }
}

pub fn pat_to_var(p: &Pat) -> (r: Option<String>)
    ensures
        match r {
            Some(s) => pat_var(*p) == Some(s@),
            None => pat_var(*p) is None,
        },
{
    match &p.kind {
        PatKind::Ident(BindingMode::ByValue(Mutability::Immutable), name, None) => Some(
            name.clone(),
        ),
        _ => None,
    }
}

/// Whether `s` holds exactly the characters of `lit`.
pub fn text_is(s: &String, lit: &str) -> (r: bool)
    ensures
        r == (s@ == lit@),
{
    let l = String::from_str(lit);
    *s == l
}

/// Applies `unescape` to a name.
pub fn unescape_name(n: String) -> (r: String)
    ensures
        r@ == unescape(n@),
{
    if text_is(&n, "mod_") {
        String::from_str("mod")
    } else {
        n
    }
}

} // verus!
