//! Module-level attributes: the one recognised attribute, `version = "..."`,
//! gives the output its `#version` preamble.
use crate::ast::Attribute;
use crate::diag::{DiagKind, Diagnostic, Diagnostics};
use crate::util::text_is;
use vstd::prelude::*;

verus! {

/// The version set by `attrs`, read in order, and the diagnostics owed.
pub open spec fn version_scan(attrs: Seq<Attribute>) -> (Option<Seq<char>>, Seq<Diagnostic>)
    decreases attrs.len(),
{
    if attrs.len() == 0 {
        (None, Seq::empty())
    } else {
        let k = attrs.len() - 1;
        let (v, d) = version_scan(attrs.subrange(0, k));
        let a = attrs[k];
        if a.name@ == "version"@ {
            match a.value {
                Some(val) => (
                    Some(val@),
                    if v is Some {
                        d.push(Diagnostic { span: a.span, kind: DiagKind::VersionTwice })
                    } else {
                        d
                    },
                ),
                None => (v, d.push(Diagnostic { span: a.span, kind: DiagKind::VersionMissing })),
            }
        } else {
            (v, d.push(Diagnostic { span: a.span, kind: DiagKind::UnknownAttribute }))
        }
    }
}

/// `#version <v>` and a blank line, or nothing.
pub open spec fn preamble_text(v: Option<Seq<char>>) -> Seq<char> {
    match v {
        Some(s) => "#version "@ + s + "\n\n"@,
        None => Seq::empty(),
    }
}

/// Scans the module attributes for the target version.
pub fn glsl_version(diag: &mut Diagnostics, attrs: &Vec<Attribute>) -> (r: Option<String>)
    ensures
        match r {
            Some(v) => version_scan(attrs@).0 == Some(v@),
            None => version_scan(attrs@).0 is None,
        },
        final(diag)@ == old(diag)@ + version_scan(attrs@).1,
{
    let ghost diag0 = diag@;
    let mut version: Option<String> = None;
    let mut i: usize = 0;
    while i < attrs.len()
        invariant
            i <= attrs.len(),
            match version {
                Some(v) => version_scan(attrs@.subrange(0, i as int)).0 == Some(v@),
                None => version_scan(attrs@.subrange(0, i as int)).0 is None,
            },
            diag@ == diag0 + version_scan(attrs@.subrange(0, i as int)).1,
        decreases attrs.len() - i,
    {
        let ghost s = attrs@.subrange(0, i as int + 1);
        assert(s.subrange(0, i as int) =~= attrs@.subrange(0, i as int));
        let attr = &attrs[i];
        if text_is(&attr.name, "version") {
            match &attr.value {
                Some(val) => {
                    if version.is_some() {
                        diag.span_err(attr.span, DiagKind::VersionTwice);
                    }
                    version = Some(val.clone());
                },
                None => {
                    diag.span_err(attr.span, DiagKind::VersionMissing);
                },
            }
        } else {
            diag.span_err(attr.span, DiagKind::UnknownAttribute);
        }
        assert(diag@ =~= diag0 + version_scan(s).1);
        i += 1;
    }
    assert(attrs@.subrange(0, attrs@.len() as int) =~= attrs@);
    version
}

/// The preamble text for a version.
pub fn preamble(version: &Option<String>) -> (r: String)
    ensures
        r@ == preamble_text(
            match version {
                Some(v) => Some(v@),
                None => None,
            },
        ),
{
    match version {
        Some(v) => {
            let mut s = String::from_str("#version ");
            s.append(v.as_str());
            s.append("\n\n");
            s
        },
        None => String::new(),
    }
}

} // verus!
