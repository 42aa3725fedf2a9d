//! Translation of types.
use crate::ast::{Ty, TyKind};
use crate::diag::{DiagKind, Diagnostics};
use crate::emit::{error, text, Emit};
use crate::util::{simple_name, simple_path, text_is};
use vstd::prelude::*;

verus! {

/// The one primitive whose spelling differs in the target.
pub open spec fn remap_ty(n: Seq<char>) -> Seq<char> {
    if n == "f32"@ {
        "float"@
    } else {
        n
    }
}

pub open spec fn ty_emit(t: Ty) -> Emit {
    match t.kind {
        TyKind::Unit => text("void"@),
        TyKind::Path(p) => match simple_name(p) {
            Some(n) => text(remap_ty(n)),
            None => error(t.span, DiagKind::UnsupportedType),
        },
        TyKind::Other => error(t.span, DiagKind::UnsupportedType),
    }
}

/// Appends the target spelling of `ty` to `out`.
pub fn translate(diag: &mut Diagnostics, out: &mut String, ty: &Ty)
    ensures
        final(out)@ == old(out)@ + ty_emit(*ty).text,
        final(diag)@ == old(diag)@ + ty_emit(*ty).diags,
{
    match &ty.kind {
        TyKind::Unit => {
            out.append("void");
        },
        TyKind::Path(p) => match simple_path(p) {
            Some(name) => {
                if text_is(&name, "f32") {
                    out.append("float");
                } else {
                    out.append(name.as_str());
                }
            },
            None => {
                diag.span_err(ty.span, DiagKind::UnsupportedType);
            },
        },
        TyKind::Other => {
            diag.span_err(ty.span, DiagKind::UnsupportedType);
        },
    }
    assert(final(out)@ =~= old(out)@ + ty_emit(*ty).text);
    assert(final(diag)@ =~= old(diag)@ + ty_emit(*ty).diags);
}

} // verus!
