//! Translation of expressions. Every binary, unary and assignment form is
//! emitted fully parenthesized, so precedence comes from the tree alone.
use crate::ast::{BinOp, Expr, ExprKind, LitKind, UnOp};
use crate::block::block_emit;
use crate::diag::{DiagKind, Diagnostic, Diagnostics, Span};
use crate::emit::{error, nothing, text, Emit};
use crate::util::{simple_name, simple_path, unescape, unescape_name};
use vstd::prelude::*;

verus! {

pub open spec fn digit_text(d: nat) -> Seq<char> {
    if d == 0 {
        "0"@
    } else if d == 1 {
        "1"@
    } else if d == 2 {
        "2"@
    } else if d == 3 {
        "3"@
    } else if d == 4 {
        "4"@
    } else if d == 5 {
        "5"@
    } else if d == 6 {
        "6"@
    } else if d == 7 {
        "7"@
    } else if d == 8 {
        "8"@
    } else {
        "9"@
    }
}

/// The decimal notation of `n`, without leading zeros.
pub open spec fn decimal(n: nat) -> Seq<char>
    decreases n,
{
    if n < 10 {
        digit_text(n)
    } else {
        decimal(n / 10) + digit_text(n % 10)
    }
}

pub open spec fn binop_text(op: BinOp) -> Seq<char> {
    match op {
        BinOp::Add => "+"@,
        BinOp::Sub => "-"@,
        BinOp::Mul => "*"@,
        BinOp::Div => "/"@,
        BinOp::And => "&&"@,
        BinOp::Or => "||"@,
        BinOp::Eq => "=="@,
        BinOp::Lt => "<"@,
        BinOp::Le => "<="@,
        BinOp::Ne => "!="@,
        BinOp::Ge => ">="@,
        BinOp::Gt => ">"@,
        _ => ""@,
    }
}

pub open spec fn binop_supported(op: BinOp) -> bool {
    !(op is Rem || op is BitXor || op is BitAnd || op is BitOr || op is Shl || op is Shr)
}

pub open spec fn unop_text(op: UnOp) -> Seq<char> {
    match op {
        UnOp::Not => "!"@,
        UnOp::Neg => "-"@,
        UnOp::Deref => ""@,
    }
}

/// The diagnostic owed for an operator outside the supported set.
pub open spec fn unsupported_if(ok: bool, sp: Span, k: DiagKind) -> Seq<Diagnostic> {
    if ok {
        Seq::empty()
    } else {
        seq![Diagnostic { span: sp, kind: k }]
    }
}

pub open spec fn lit_emit(l: LitKind, sp: Span) -> Emit {
    match l {
        LitKind::Int(n) => text(decimal(n as nat)),
        LitKind::Float(f) => text(f@),
        _ => error(sp, DiagKind::UnsupportedLiteral),
    }
}

/// What translating `e` appends to the output and to the diagnostics.
pub open spec fn expr_emit(e: Expr) -> Emit
    decreases e,
{
    match e.kind {
        ExprKind::Lit(l) => lit_emit(l, e.span),
        ExprKind::Path(p) => match simple_name(p) {
            Some(n) => text(unescape(n)),
            None => error(e.span, DiagKind::QualifiedName),
        },
        ExprKind::Binary(op, l, r) => text("("@).followed_by(expr_emit(*l)).followed_by(
            Emit {
                text: " "@ + binop_text(op) + " "@,
                diags: unsupported_if(binop_supported(op), e.span, DiagKind::BinaryOpUnsupported),
            },
        ).followed_by(expr_emit(*r)).add_text(")"@),
        ExprKind::Unary(op, r) => Emit {
            text: "("@ + unop_text(op) + " "@,
            diags: unsupported_if(!(op is Deref), e.span, DiagKind::UnaryOpUnsupported),
        }.followed_by(expr_emit(*r)).add_text(")"@),
        ExprKind::If(c, thn, els) => text("if ("@).followed_by(expr_emit(*c)).add_text(
            ") {\n"@,
        ).followed_by(block_emit(thn)).followed_by(
            match els {
                Some(x) => text("}\nelse "@).followed_by(expr_emit(*x)),
                None => text("}\n"@),
            },
        ),
        ExprKind::Assign(l, r) => text("("@).followed_by(expr_emit(*l)).add_text(
            " = "@,
        ).followed_by(expr_emit(*r)).add_text(")"@),
        ExprKind::Ret(v) => text("return"@).followed_by(
            match v {
                Some(x) => text(" "@).followed_by(expr_emit(*x)),
                None => nothing(),
            },
        ).add_text(";\n"@),
        ExprKind::Call(f, args) => expr_emit(*f).add_text("("@).followed_by(
            args_emit(args@),
        ).add_text(")"@),
        ExprKind::Field(l, m) => expr_emit(*l).add_text("."@ + m@),
        ExprKind::Paren(x) => expr_emit(*x),
        ExprKind::Block(b) => text("{\n"@).followed_by(block_emit(b)).add_text("}\n"@),
        ExprKind::Mac => error(e.span, DiagKind::MacroSurvived),
        ExprKind::Other => error(e.span, DiagKind::UnsupportedExpr),
    }
}

/// Call arguments, each translated in turn and separated by `, `.
pub open spec fn args_emit(s: Seq<Expr>) -> Emit
    decreases s,
{
    if s.len() == 0 {
        nothing()
    } else {
        let k = s.len() - 1;
        args_emit(s.subrange(0, k)).add_text(
            if k > 0 {
                ", "@
            } else {
                Seq::empty()
            },
        ).followed_by(expr_emit(s[k]))
    }
}

fn get_binop(diag: &mut Diagnostics, sp: Span, binop: BinOp) -> (r: &'static str)
    ensures
        r@ == binop_text(binop),
        final(diag)@ == old(diag)@ + unsupported_if(
            binop_supported(binop),
            sp,
            DiagKind::BinaryOpUnsupported,
        ),
{
    let r = match binop {
        BinOp::Add => "+",
        BinOp::Sub => "-",
        BinOp::Mul => "*",
        BinOp::Div => "/",
        BinOp::And => "&&",
        BinOp::Or => "||",
        BinOp::Eq => "==",
        BinOp::Lt => "<",
        BinOp::Le => "<=",
        BinOp::Ne => "!=",
        BinOp::Ge => ">=",
        BinOp::Gt => ">",
        _ => {
            diag.span_err(sp, DiagKind::BinaryOpUnsupported);
            ""
        },
    };
    assert(final(diag)@ =~= old(diag)@ + unsupported_if(
        binop_supported(binop),
        sp,
        DiagKind::BinaryOpUnsupported,
    ));
    r
}

fn get_unop(diag: &mut Diagnostics, sp: Span, unop: UnOp) -> (r: &'static str)
    ensures
        r@ == unop_text(unop),
        final(diag)@ == old(diag)@ + unsupported_if(
            !(unop is Deref),
            sp,
            DiagKind::UnaryOpUnsupported,
        ),
{
    let r = match unop {
        UnOp::Not => "!",
        UnOp::Neg => "-",
        UnOp::Deref => {
            diag.span_err(sp, DiagKind::UnaryOpUnsupported);
            ""
        },
    };
    assert(final(diag)@ =~= old(diag)@ + unsupported_if(
        !(unop is Deref),
        sp,
        DiagKind::UnaryOpUnsupported,
    ));
    r
}

/// Appends the decimal notation of `n`.
fn write_decimal(out: &mut String, n: u128)
    ensures
        final(out)@ == old(out)@ + decimal(n as nat),
    decreases n,
{
    if n >= 10 {
        write_decimal(out, n / 10);
    }
    let d = n % 10;
    if d == 0 {
        out.append("0");
    } else if d == 1 {
        out.append("1");
    } else if d == 2 {
        out.append("2");
    } else if d == 3 {
        out.append("3");
    } else if d == 4 {
        out.append("4");
    } else if d == 5 {
        out.append("5");
    } else if d == 6 {
        out.append("6");
    } else if d == 7 {
        out.append("7");
    } else if d == 8 {
        out.append("8");
    } else {
        out.append("9");
    }
    assert(final(out)@ =~= old(out)@ + decimal(n as nat));
}

} // verus!

verus! {

/// Appends the target text of `expr` to `out`, recording any diagnostics.
#[verifier::rlimit(40)]
pub fn translate(diag: &mut Diagnostics, out: &mut String, expr: &Expr)
    ensures
        final(out)@ == old(out)@ + expr_emit(*expr).text,
        final(diag)@ == old(diag)@ + expr_emit(*expr).diags,
    decreases *expr,
{
    let ghost out0 = out@;
    let ghost diag0 = diag@;
    match &expr.kind {
        ExprKind::Lit(lit) => match lit {
            LitKind::Int(n) => {
                write_decimal(out, *n);
            },
            LitKind::Float(f) => {
                out.append(f.as_str());
            },
            _ => {
                diag.span_err(expr.span, DiagKind::UnsupportedLiteral);
            },
        },
        ExprKind::Path(p) => match simple_path(p) {
            Some(name) => {
                let name = unescape_name(name);
                out.append(name.as_str());
            },
            None => {
                diag.span_err(expr.span, DiagKind::QualifiedName);
            },
        },
        ExprKind::Binary(op, lhs, rhs) => {
            out.append("(");
            translate(diag, out, lhs);
            let o = get_binop(diag, expr.span, *op);
            out.append(" ");
            out.append(o);
            out.append(" ");
            translate(diag, out, rhs);
            out.append(")");
        },
        ExprKind::Unary(op, rhs) => {
            let o = get_unop(diag, expr.span, *op);
            out.append("(");
            out.append(o);
            out.append(" ");
            translate(diag, out, rhs);
            out.append(")");
        },
        ExprKind::If(cond, thn, els) => {
            out.append("if (");
            translate(diag, out, cond);
            out.append(") {\n");
            crate::block::translate(diag, out, thn, false);
            match els {
                Some(x) => {
                    out.append("}\nelse ");
                    translate(diag, out, x);
                },
                None => {
                    out.append("}\n");
                },
            }
        },
        ExprKind::Assign(lhs, rhs) => {
            out.append("(");
            translate(diag, out, lhs);
            out.append(" = ");
            translate(diag, out, rhs);
            out.append(")");
        },
        ExprKind::Ret(val) => {
            out.append("return");
            match val {
                Some(x) => {
                    out.append(" ");
                    translate(diag, out, x);
                },
                None => {},
            }
            out.append(";\n");
        },
        ExprKind::Call(fun, args) => {
            translate(diag, out, fun);
            out.append("(");
            translate_args(diag, out, args);
            out.append(")");
        },
        ExprKind::Field(lhs, member) => {
            translate(diag, out, lhs);
            out.append(".");
            out.append(member.as_str());
        },
        ExprKind::Paren(inside) => {
            translate(diag, out, inside);
        },
        ExprKind::Block(inside) => {
            out.append("{\n");
            crate::block::translate(diag, out, inside, false);
            out.append("}\n");
        },
        ExprKind::Mac => {
            diag.span_err(expr.span, DiagKind::MacroSurvived);
        },
        ExprKind::Other => {
            diag.span_err(expr.span, DiagKind::UnsupportedExpr);
        },
    }
    assert(out@ =~= out0 + expr_emit(*expr).text);
    assert(diag@ =~= diag0 + expr_emit(*expr).diags);
}

} // verus!

verus! {

/// Appends the arguments of a call, separated by `, `.
fn translate_args(diag: &mut Diagnostics, out: &mut String, args: &Vec<Expr>)
    ensures
        final(out)@ == old(out)@ + args_emit(args@).text,
        final(diag)@ == old(diag)@ + args_emit(args@).diags,
    decreases *args,
{
    let ghost out0 = out@;
    let ghost diag0 = diag@;
    let mut i: usize = 0;
    while i < args.len()
        invariant
            i <= args.len(),
            out@ == out0 + args_emit(args@.subrange(0, i as int)).text,
            diag@ == diag0 + args_emit(args@.subrange(0, i as int)).diags,
        decreases args.len() - i,
    {
        let ghost s = args@.subrange(0, i as int + 1);
        assert(s.subrange(0, i as int) =~= args@.subrange(0, i as int));
        if i != 0 {
            out.append(", ");
        } else {
            assert(out@ =~= out@ + Seq::<char>::empty());
        }
        assert(decreases_to!(args => args[i as int]));
        translate(diag, out, &args[i]);
        assert(out@ =~= out0 + args_emit(s).text);
        assert(diag@ =~= diag0 + args_emit(s).diags);
        i += 1;
    }
    assert(args@.subrange(0, args@.len() as int) =~= args@);
}

} // verus!

verus! {

/// A binary expression translates to `(`, its left operand, the operator
/// between single spaces, its right operand and `)`: always parenthesized,
/// with the operands in their order and shape.
pub proof fn lemma_binary_parenthesized(e: Expr)
    requires
        e.kind is Binary,
    ensures
        match e.kind {
            ExprKind::Binary(op, l, r) => expr_emit(e).text == "("@ + expr_emit(*l).text + " "@
                + binop_text(op) + " "@ + expr_emit(*r).text + ")"@,
            _ => true,
        },
{
    match e.kind {
        ExprKind::Binary(op, l, r) => {
            assert(expr_emit(e).text =~= "("@ + expr_emit(*l).text + " "@ + binop_text(op) + " "@
                + expr_emit(*r).text + ")"@);
        },
        _ => {},
    }
}

/// A plain name translates to itself, with no diagnostic, except the escaped
/// reserved word `mod_`, which becomes `mod`.
pub proof fn lemma_name_verbatim(e: Expr, name: Seq<char>)
    requires
        e.kind is Path,
        simple_name(e.kind->Path_0) == Some(name),
    ensures
        expr_emit(e).diags.len() == 0,
        name == "mod_"@ ==> expr_emit(e).text == "mod"@,
        name != "mod_"@ ==> expr_emit(e).text == name,
{
}

} // verus!
