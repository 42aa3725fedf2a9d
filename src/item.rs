//! Translation of top-level declarations: globals, constants and functions.
use crate::ast::{
    Abi, Attribute, Block, Expr, FnDecl, FnRetTy, Generics, Item, ItemKind, Mutability, Param, Ty,
    Unsafety, Visibility,
};
use crate::block::block_emit;
use crate::diag::{DiagKind, Diagnostic, Diagnostics, Span};
use crate::emit::{error, nothing, text, Emit};
use crate::expr::{expr_emit, unsupported_if};
use crate::ty::ty_emit;
use crate::util::pat_var;
use vstd::prelude::*;

verus! {

/// Only a diagnostic, owed unless `ok`.
pub open spec fn check(ok: bool, sp: Span, k: DiagKind) -> Emit {
    Emit { text: Seq::empty(), diags: unsupported_if(ok, sp, k) }
}

/// The declaration shared by globals and constants: `<type> <name> = <init>;`.
pub open spec fn var_emit(name: Seq<char>, ty: Ty, init: Expr) -> Emit {
    ty_emit(ty).add_text(" "@ + name + " = "@).followed_by(expr_emit(init)).add_text(";\n"@)
}

pub open spec fn param_emit(p: Param) -> Emit {
    match pat_var(p.pat) {
        Some(n) => ty_emit(p.ty).add_text(" "@ + n),
        None => error(p.pat.span, DiagKind::ParamNotVariable),
    }
}

/// Parameters, each `<type> <name>`, separated by `, `.
pub open spec fn params_emit(s: Seq<Param>) -> Emit
    decreases s.len(),
{
    if s.len() == 0 {
        nothing()
    } else {
        let k = s.len() - 1;
        params_emit(s.subrange(0, k)).add_text(
            if k > 0 {
                ", "@
            } else {
                Seq::empty()
            },
        ).followed_by(param_emit(s[k]))
    }
}

pub open spec fn ret_emit(r: FnRetTy) -> Emit {
    match r {
        FnRetTy::Default => text("void"@),
        FnRetTy::Ty(t) => ty_emit(t),
    }
}

/// `<ret> <name>(<params>) {\n<body>}\n`.
pub open spec fn fn_emit(name: Seq<char>, decl: FnDecl, body: Block) -> Emit {
    ret_emit(decl.output).add_text(" "@ + name + "("@).followed_by(
        params_emit(decl.inputs@),
    ).add_text(") {\n"@).followed_by(block_emit(body)).add_text("}\n"@)
}

/// One diagnostic for each attribute of a function.
pub open spec fn fn_attr_diags(attrs: Seq<Attribute>) -> Seq<Diagnostic> {
    Seq::new(attrs.len(), |i: int| Diagnostic { span: attrs[i].span, kind: DiagKind::FnAttribute })
}

/// The restrictions on a function: no attributes, not variadic, not unsafe,
/// the default ABI, no generic parameters.
pub open spec fn fn_checks(
    attrs: Seq<Attribute>,
    decl: FnDecl,
    unsafety: Unsafety,
    abi: Abi,
    generics: Generics,
    sp: Span,
) -> Emit {
    Emit { text: Seq::empty(), diags: fn_attr_diags(attrs) }.followed_by(
        check(!decl.variadic, sp, DiagKind::VariadicFn),
    ).followed_by(check(unsafety is Normal, sp, DiagKind::UnsafeFn)).followed_by(
        check(abi is Rust, sp, DiagKind::ForeignAbi),
    ).followed_by(check(generics.params@.len() == 0, sp, DiagKind::GenericFn))
}

/// What translating the item `it` appends.
pub open spec fn item_emit(it: Item) -> Emit {
    check(it.vis is Inherited, it.span, DiagKind::PubVisibility).followed_by(
        match it.kind {
            ItemKind::Static(t, m, e) => check(
                m is Immutable,
                it.span,
                DiagKind::MutableGlobal,
            ).followed_by(var_emit(it.ident@, t, e)),
            ItemKind::Const(t, e) => text("const "@).followed_by(var_emit(it.ident@, t, e)),
            ItemKind::Fn(decl, unsafety, abi, generics, body) => fn_checks(
                it.attrs@,
                decl,
                unsafety,
                abi,
                generics,
                it.span,
            ).followed_by(fn_emit(it.ident@, decl, body)),
            ItemKind::Mac => error(it.span, DiagKind::MacroSurvived),
            ItemKind::Other => error(it.span, DiagKind::UnsupportedItem),
        },
    )
}

/// Appends the shared declaration of a global or a constant.
fn translate_var(diag: &mut Diagnostics, out: &mut String, name: &String, ty: &Ty, init: &Expr)
    ensures
        final(out)@ == old(out)@ + var_emit(name@, *ty, *init).text,
        final(diag)@ == old(diag)@ + var_emit(name@, *ty, *init).diags,
{
    let ghost out0 = out@;
    let ghost diag0 = diag@;
    crate::ty::translate(diag, out, ty);
    out.append(" ");
    out.append(name.as_str());
    out.append(" = ");
    crate::expr::translate(diag, out, init);
    out.append(";\n");
    assert(out@ =~= out0 + var_emit(name@, *ty, *init).text);
    assert(diag@ =~= diag0 + var_emit(name@, *ty, *init).diags);
}

fn translate_param(diag: &mut Diagnostics, out: &mut String, p: &Param)
    ensures
        final(out)@ == old(out)@ + param_emit(*p).text,
        final(diag)@ == old(diag)@ + param_emit(*p).diags,
{
    match crate::util::pat_to_var(&p.pat) {
        Some(name) => {
            crate::ty::translate(diag, out, &p.ty);
            out.append(" ");
            out.append(name.as_str());
        },
        None => {
            diag.span_err(p.pat.span, DiagKind::ParamNotVariable);
        },
    }
    assert(out@ =~= old(out)@ + param_emit(*p).text);
    assert(diag@ =~= old(diag)@ + param_emit(*p).diags);
}

/// Appends the signature and body of a function.
fn translate_fn(
    diag: &mut Diagnostics,
    out: &mut String,
    name: &String,
    decl: &FnDecl,
    body: &Block,
)
    ensures
        final(out)@ == old(out)@ + fn_emit(name@, *decl, *body).text,
        final(diag)@ == old(diag)@ + fn_emit(name@, *decl, *body).diags,
{
    let ghost out0 = out@;
    let ghost diag0 = diag@;
    match &decl.output {
        FnRetTy::Default => {
            out.append("void");
        },
        FnRetTy::Ty(t) => {
            crate::ty::translate(diag, out, t);
        },
    }
    out.append(" ");
    out.append(name.as_str());
    out.append("(");
    let ghost out1 = out@;
    let ghost diag1 = diag@;
    let ps = &decl.inputs;
    let mut i: usize = 0;
    while i < ps.len()
        invariant
            i <= ps.len(),
            out@ == out1 + params_emit(ps@.subrange(0, i as int)).text,
            diag@ == diag1 + params_emit(ps@.subrange(0, i as int)).diags,
        decreases ps.len() - i,
    {
        let ghost s = ps@.subrange(0, i as int + 1);
        assert(s.subrange(0, i as int) =~= ps@.subrange(0, i as int));
        if i != 0 {
            out.append(", ");
        } else {
            assert(out@ =~= out@ + Seq::<char>::empty());
        }
        translate_param(diag, out, &ps[i]);
        assert(out@ =~= out1 + params_emit(s).text);
        assert(diag@ =~= diag1 + params_emit(s).diags);
        i += 1;
    }
    assert(ps@.subrange(0, ps@.len() as int) =~= ps@);
    out.append(") {\n");
    crate::block::translate(diag, out, body, true);
    out.append("}\n");
    assert(out@ =~= out0 + fn_emit(name@, *decl, *body).text);
    assert(diag@ =~= diag0 + fn_emit(name@, *decl, *body).diags);
}

/// Records a diagnostic for each restriction that a function breaks.
fn check_fn(
    diag: &mut Diagnostics,
    attrs: &Vec<Attribute>,
    decl: &FnDecl,
    unsafety: Unsafety,
    abi: Abi,
    generics: &Generics,
    sp: Span,
)
    ensures
        final(diag)@ == old(diag)@ + fn_checks(attrs@, *decl, unsafety, abi, *generics, sp).diags,
{
    let ghost diag0 = diag@;
    let mut i: usize = 0;
    while i < attrs.len()
        invariant
            i <= attrs.len(),
            diag@ == diag0 + fn_attr_diags(attrs@).subrange(0, i as int),
        decreases attrs.len() - i,
    {
        diag.span_err(attrs[i].span, DiagKind::FnAttribute);
        assert(fn_attr_diags(attrs@).subrange(0, i as int + 1) =~= fn_attr_diags(
            attrs@,
        ).subrange(0, i as int).push(fn_attr_diags(attrs@)[i as int]));
        i += 1;
    }
    assert(fn_attr_diags(attrs@).subrange(0, i as int) =~= fn_attr_diags(
        attrs@,
    ));
    if decl.variadic {
        diag.span_err(sp, DiagKind::VariadicFn);
    }
    match unsafety {
        Unsafety::Normal => {},
        _ => diag.span_err(sp, DiagKind::UnsafeFn),
    }
    match abi {
        Abi::Rust => {},
        _ => diag.span_err(sp, DiagKind::ForeignAbi),
    }
    if generics.params.len() > 0 {
        diag.span_err(sp, DiagKind::GenericFn);
    }
    assert(diag@ =~= diag0 + fn_checks(attrs@, *decl, unsafety, abi, *generics, sp).diags);
}

/// Appends the translation of one top-level item, after checking it against
/// the restrictions of the language.
#[verifier::rlimit(40)]
pub fn translate(diag: &mut Diagnostics, out: &mut String, item: &Item)
    ensures
        final(out)@ == old(out)@ + item_emit(*item).text,
        final(diag)@ == old(diag)@ + item_emit(*item).diags,
{
    let ghost out0 = out@;
    let ghost diag0 = diag@;
    match item.vis {
        Visibility::Inherited => {},
        _ => diag.span_err(item.span, DiagKind::PubVisibility),
    }
    let ghost out1 = out@;
    let ghost diag1 = diag@;
    assert(diag1 =~= diag0 + check(item.vis is Inherited, item.span, DiagKind::PubVisibility).diags);
    match &item.kind {
        ItemKind::Static(ty, muta, init) => {
            match muta {
                Mutability::Immutable => {},
                _ => diag.span_err(item.span, DiagKind::MutableGlobal),
            }
            translate_var(diag, out, &item.ident, ty, init);
        },
        ItemKind::Const(ty, init) => {
            out.append("const ");
            translate_var(diag, out, &item.ident, ty, init);
        },
        ItemKind::Fn(decl, unsafety, abi, generics, body) => {
            check_fn(diag, &item.attrs, decl, *unsafety, *abi, generics, item.span);
            translate_fn(diag, out, &item.ident, decl, body);
        },
        ItemKind::Mac => {
            diag.span_err(item.span, DiagKind::MacroSurvived);
        },
        ItemKind::Other => {
            diag.span_err(item.span, DiagKind::UnsupportedItem);
        },
    }
    assert(out@ =~= out0 + item_emit(*item).text);
    assert(diag@ =~= diag0 + item_emit(*item).diags);
}

} // verus!
