//! Translation of blocks and the statements in them.
use crate::ast::{Block, Local, Stmt, StmtKind};
use crate::diag::{DiagKind, Diagnostics};
use crate::emit::{error, nothing, text, Emit};
use crate::expr::expr_emit;
use crate::ty::ty_emit;
use crate::util::pat_var;
use vstd::prelude::*;

verus! {

pub open spec fn local_emit(l: Local) -> Emit
    decreases l,
{
    match pat_var(l.pat) {
        None => error(l.span, DiagKind::LetNotVariable),
        Some(n) => match l.ty {
            None => error(l.span, DiagKind::LetNeedsType),
            Some(t) => ty_emit(t).add_text(" "@ + n).followed_by(
                match l.init {
                    Some(i) => text(" = "@).followed_by(expr_emit(*i)),
                    None => nothing(),
                },
            ).add_text(";\n"@),
        },
    }
}

pub open spec fn stmt_emit(st: Stmt) -> Emit
    decreases st,
{
    match st.kind {
        StmtKind::Local(l) => local_emit(l),
        StmtKind::Item(_) => error(st.span, DiagKind::ItemsInFunctions),
        StmtKind::Expr(e) => expr_emit(e).add_text(";\n"@),
        StmtKind::Semi(e) => expr_emit(e).add_text(";\n"@),
        StmtKind::Mac => error(st.span, DiagKind::MacroSurvived),
    }
}

/// Statements translated in order, each terminated by `;` and a newline.
pub open spec fn stmts_emit(s: Seq<Stmt>) -> Emit
    decreases s,
{
    if s.len() == 0 {
        nothing()
    } else {
        let k = s.len() - 1;
        stmts_emit(s.subrange(0, k)).followed_by(stmt_emit(s[k]))
    }
}

pub open spec fn block_emit(b: Block) -> Emit
    decreases b,
{
    stmts_emit(b.stmts@)
}

} // verus!

verus! {

/// Appends the statements of `block` to `out`, each terminated by `;` and a
/// newline. `allow_return` marks the one position (a function body) where a
/// value-producing tail would become a `return`; the tree carries no such
/// tail, so it changes nothing yet.
pub fn translate(diag: &mut Diagnostics, out: &mut String, block: &Block, allow_return: bool)
    ensures
        final(out)@ == old(out)@ + block_emit(*block).text,
        final(diag)@ == old(diag)@ + block_emit(*block).diags,
    decreases *block,
{
    let ghost out0 = out@;
    let ghost diag0 = diag@;
    let mut i: usize = 0;
    while i < block.stmts.len()
        invariant
            i <= block.stmts.len(),
            out@ == out0 + stmts_emit(block.stmts@.subrange(0, i as int)).text,
            diag@ == diag0 + stmts_emit(block.stmts@.subrange(0, i as int)).diags,
        decreases block.stmts.len() - i,
    {
        let ghost s = block.stmts@.subrange(0, i as int + 1);
        assert(s.subrange(0, i as int) =~= block.stmts@.subrange(0, i as int));
        let ghost out1 = out@;
        let ghost diag1 = diag@;
        let st = &block.stmts[i];
        assert(decreases_to!(block.stmts => block.stmts[i as int]));
        match &st.kind {
            StmtKind::Local(loc) => translate_let(diag, out, loc),
            StmtKind::Item(_) => {
                diag.span_err(st.span, DiagKind::ItemsInFunctions);
            },
            StmtKind::Expr(e) => {
                crate::expr::translate(diag, out, e);
                out.append(";\n");
            },
            StmtKind::Semi(e) => {
                crate::expr::translate(diag, out, e);
                out.append(";\n");
            },
            StmtKind::Mac => {
                diag.span_err(st.span, DiagKind::MacroSurvived);
            },
        }
        assert(out@ =~= out1 + stmt_emit(*st).text);
        assert(diag@ =~= diag1 + stmt_emit(*st).diags);
        assert(out@ =~= out0 + stmts_emit(s).text);
        assert(diag@ =~= diag0 + stmts_emit(s).diags);
        i += 1;
    }
    assert(block.stmts@.subrange(0, block.stmts@.len() as int) =~= block.stmts@);
}

/// Appends `<type> <name>`, then ` = <init>` where there is an initializer,
/// then `;` and a newline. The pattern must be one immutable variable and the
/// type must be given.
fn translate_let(diag: &mut Diagnostics, out: &mut String, loc: &Local)
    ensures
        final(out)@ == old(out)@ + local_emit(*loc).text,
        final(diag)@ == old(diag)@ + local_emit(*loc).diags,
    decreases *loc,
{
    let ghost out0 = out@;
    let ghost diag0 = diag@;
    let name = match crate::util::pat_to_var(&loc.pat) {
        Some(n) => n,
        None => {
            diag.span_err(loc.span, DiagKind::LetNotVariable);
            assert(diag@ =~= diag0 + local_emit(*loc).diags);
            assert(out@ =~= out0 + local_emit(*loc).text);
            return;
        },
    };
    let ty = match &loc.ty {
        Some(t) => t,
        None => {
            diag.span_err(loc.span, DiagKind::LetNeedsType);
            assert(diag@ =~= diag0 + local_emit(*loc).diags);
            assert(out@ =~= out0 + local_emit(*loc).text);
            return;
        },
    };
    crate::ty::translate(diag, out, ty);
    out.append(" ");
    out.append(name.as_str());
    match &loc.init {
        Some(init) => {
            out.append(" = ");
            crate::expr::translate(diag, out, init);
        },
        None => {},
    }
    out.append(";\n");
    assert(out@ =~= out0 + local_emit(*loc).text);
    assert(diag@ =~= diag0 + local_emit(*loc).diags);
}

} // verus!
