use glassful::ast::{
    Abi, Attribute, BinOp, BindingMode, Block, Expr, ExprKind, FnDecl, FnRetTy, Generics, Item,
    ItemKind, LitKind, Local, Module, Mutability, Param, Pat, PatKind, Path, PathSegment, Stmt,
    StmtKind, Ty, TyKind, UnOp, Unsafety, Visibility,
};
use glassful::diag::{DiagKind, Diagnostic, Diagnostics, Span};
use glassful::{translate, try_translate, Failure};

fn sp(lo: u32) -> Span {
    Span { lo, hi: lo + 1 }
}

fn ex(kind: ExprKind) -> Expr {
    Expr { kind, span: sp(0) }
}

fn path(s: &str) -> Path {
    Path { segments: vec![PathSegment { ident: s.to_string(), has_args: false }] }
}

fn name(s: &str) -> Expr {
    ex(ExprKind::Path(path(s)))
}

fn int_lit(n: u128) -> Expr {
    ex(ExprKind::Lit(LitKind::Int(n)))
}

fn float(s: &str) -> Expr {
    ex(ExprKind::Lit(LitKind::Float(s.to_string())))
}

fn bin(op: BinOp, l: Expr, r: Expr) -> Expr {
    ex(ExprKind::Binary(op, Box::new(l), Box::new(r)))
}

fn ty(s: &str) -> Ty {
    Ty { kind: TyKind::Path(path(s)), span: sp(0) }
}

fn var_pat(s: &str) -> Pat {
    Pat {
        kind: PatKind::Ident(BindingMode::ByValue(Mutability::Immutable), s.to_string(), None),
        span: sp(0),
    }
}

fn block(stmts: Vec<Stmt>) -> Block {
    Block { stmts, span: sp(0) }
}

fn semi(e: Expr) -> Stmt {
    Stmt { kind: StmtKind::Semi(e), span: sp(0) }
}

fn let_stmt(pat: Pat, t: Option<Ty>, init: Option<Expr>, at: u32) -> Stmt {
    Stmt {
        kind: StmtKind::Local(Local { pat, ty: t, init: init.map(Box::new), span: sp(at) }),
        span: sp(at),
    }
}

fn attr(n: &str, v: Option<&str>, at: u32) -> Attribute {
    Attribute { name: n.to_string(), value: v.map(|s| s.to_string()), span: sp(at) }
}

fn item(ident: &str, vis: Visibility, kind: ItemKind, at: u32) -> Item {
    Item { ident: ident.to_string(), attrs: vec![], vis, kind, span: sp(at) }
}

fn func(ident: &str, params: Vec<Param>, output: FnRetTy, body: Block) -> Item {
    item(
        ident,
        Visibility::Inherited,
        ItemKind::Fn(
            FnDecl { inputs: params, output, variadic: false },
            Unsafety::Normal,
            Abi::Rust,
            Generics { params: vec![] },
            body,
        ),
        0,
    )
}

fn module(attrs: Vec<Attribute>, items: Vec<Item>) -> Module {
    Module { attrs, items }
}

fn run_expr(e: &Expr) -> (String, Vec<Diagnostic>) {
    let mut d = Diagnostics::new();
    let mut out = String::new();
    glassful::expr::translate(&mut d, &mut out, e);
    (out, d.into_vec())
}

fn run_block(b: &Block) -> (String, Vec<Diagnostic>) {
    let mut d = Diagnostics::new();
    let mut out = String::new();
    glassful::block::translate(&mut d, &mut out, b, false);
    (out, d.into_vec())
}

fn run_ty(t: &Ty) -> (String, Vec<Diagnostic>) {
    let mut d = Diagnostics::new();
    let mut out = String::new();
    glassful::ty::translate(&mut d, &mut out, t);
    (out, d.into_vec())
}

fn kinds(d: &[Diagnostic]) -> Vec<DiagKind> {
    d.iter().map(|x| x.kind).collect()
}

fn failure_kinds(r: Result<String, Failure>) -> Vec<DiagKind> {
    match r {
        Err(Failure::Diagnostics(d)) => kinds(&d),
        Err(Failure::InternalFault(_)) => panic!("unexpected internal fault"),
        Ok(s) => panic!("unexpected success: {}", s),
    }
}

#[test]
fn int_literal_translates_to_decimal() {
    assert_eq!(run_expr(&int_lit(42)), ("42".to_string(), vec![]));
    assert_eq!(run_expr(&int_lit(0)).0, "0");
    assert_eq!(run_expr(&int_lit(u128::MAX)).0, u128::MAX.to_string());
}

#[test]
fn float_literal_translates_to_its_text() {
    assert_eq!(run_expr(&float("1.5")), ("1.5".to_string(), vec![]));
}

#[test]
fn other_literal_is_rejected() {
    let (out, d) = run_expr(&ex(ExprKind::Lit(LitKind::Str("hi".to_string()))));
    assert_eq!(out, "");
    assert_eq!(kinds(&d), vec![DiagKind::UnsupportedLiteral]);
    assert_eq!(d[0].message(), "can't translate this literal");
}

#[test]
fn binary_is_parenthesized() {
    assert_eq!(run_expr(&bin(BinOp::Add, name("a"), name("b"))).0, "(a + b)");
}

#[test]
fn nested_binary_keeps_tree_shape() {
    let e = bin(BinOp::Add, name("a"), bin(BinOp::Mul, name("b"), name("c")));
    assert_eq!(run_expr(&e).0, "(a + (b * c))");
    let e = bin(BinOp::Mul, bin(BinOp::Add, name("a"), name("b")), name("c"));
    assert_eq!(run_expr(&e).0, "((a + b) * c)");
}

#[test]
fn every_supported_binary_operator() {
    let ops = [
        (BinOp::Sub, "-"),
        (BinOp::Div, "/"),
        (BinOp::And, "&&"),
        (BinOp::Or, "||"),
        (BinOp::Eq, "=="),
        (BinOp::Lt, "<"),
        (BinOp::Le, "<="),
        (BinOp::Ne, "!="),
        (BinOp::Ge, ">="),
        (BinOp::Gt, ">"),
    ];
    for (op, text) in ops {
        let (out, d) = run_expr(&bin(op, name("x"), int_lit(1)));
        assert_eq!(out, format!("(x {} 1)", text));
        assert!(d.is_empty());
    }
}

#[test]
fn unsupported_binary_operator_is_rejected() {
    let (out, d) = run_expr(&bin(BinOp::Shl, name("a"), name("b")));
    assert_eq!(out, "(a  b)");
    assert_eq!(kinds(&d), vec![DiagKind::BinaryOpUnsupported]);
    let (_, d) = run_expr(&bin(BinOp::Rem, name("a"), name("b")));
    assert_eq!(kinds(&d), vec![DiagKind::BinaryOpUnsupported]);
}

#[test]
fn unary_operators() {
    let neg = ex(ExprKind::Unary(UnOp::Neg, Box::new(name("x"))));
    assert_eq!(run_expr(&neg).0, "(- x)");
    let not = ex(ExprKind::Unary(UnOp::Not, Box::new(name("b"))));
    assert_eq!(run_expr(&not).0, "(! b)");
    let deref = ex(ExprKind::Unary(UnOp::Deref, Box::new(name("p"))));
    let (out, d) = run_expr(&deref);
    assert_eq!(out, "( p)");
    assert_eq!(kinds(&d), vec![DiagKind::UnaryOpUnsupported]);
}

#[test]
fn escaped_mod_becomes_bare_mod() {
    assert_eq!(run_expr(&name("mod_")), ("mod".to_string(), vec![]));
}

#[test]
fn other_names_are_verbatim() {
    assert_eq!(run_expr(&name("gl_Position")).0, "gl_Position");
    assert_eq!(run_expr(&name("mod")).0, "mod");
    assert_eq!(run_expr(&name("mod__")).0, "mod__");
}

#[test]
fn qualified_or_parametrized_name_is_rejected() {
    let q = ex(ExprKind::Path(Path {
        segments: vec![
            PathSegment { ident: "a".to_string(), has_args: false },
            PathSegment { ident: "b".to_string(), has_args: false },
        ],
    }));
    assert_eq!(kinds(&run_expr(&q).1), vec![DiagKind::QualifiedName]);
    let p = ex(ExprKind::Path(Path {
        segments: vec![PathSegment { ident: "v".to_string(), has_args: true }],
    }));
    assert_eq!(kinds(&run_expr(&p).1), vec![DiagKind::QualifiedName]);
}

#[test]
fn type_remap() {
    assert_eq!(run_ty(&ty("f32")), ("float".to_string(), vec![]));
    assert_eq!(run_ty(&Ty { kind: TyKind::Unit, span: sp(0) }).0, "void");
    assert_eq!(run_ty(&ty("vec4")).0, "vec4");
    assert_eq!(run_ty(&ty("i32")).0, "i32");
}

#[test]
fn unsupported_type_is_rejected() {
    let (out, d) = run_ty(&Ty { kind: TyKind::Other, span: sp(3) });
    assert_eq!(out, "");
    assert_eq!(d, vec![Diagnostic { span: sp(3), kind: DiagKind::UnsupportedType }]);
}

#[test]
fn if_else_chain() {
    let inner = ex(ExprKind::If(
        Box::new(name("c")),
        block(vec![semi(int_lit(2))]),
        None,
    ));
    let e = ex(ExprKind::If(
        Box::new(name("b")),
        block(vec![semi(int_lit(1))]),
        Some(Box::new(inner)),
    ));
    assert_eq!(run_expr(&e).0, "if (b) {\n1;\n}\nelse if (c) {\n2;\n}\n");
}

#[test]
fn assign_return_call_field_paren_block() {
    let a = ex(ExprKind::Assign(Box::new(name("x")), Box::new(int_lit(3))));
    assert_eq!(run_expr(&a).0, "(x = 3)");
    let r = ex(ExprKind::Ret(Some(Box::new(name("x")))));
    assert_eq!(run_expr(&r).0, "return x;\n");
    let r = ex(ExprKind::Ret(None));
    assert_eq!(run_expr(&r).0, "return;\n");
    let c = ex(ExprKind::Call(Box::new(name("vec2")), vec![float("0.5"), name("y")]));
    assert_eq!(run_expr(&c).0, "vec2(0.5, y)");
    let c = ex(ExprKind::Call(Box::new(name("f")), vec![]));
    assert_eq!(run_expr(&c).0, "f()");
    let f = ex(ExprKind::Field(Box::new(name("v")), "xy".to_string()));
    assert_eq!(run_expr(&f).0, "v.xy");
    let p = ex(ExprKind::Paren(Box::new(bin(BinOp::Add, name("a"), name("b")))));
    assert_eq!(run_expr(&p).0, "(a + b)");
    let b = ex(ExprKind::Block(block(vec![semi(name("a"))])));
    assert_eq!(run_expr(&b).0, "{\na;\n}\n");
}

#[test]
fn other_expression_is_rejected() {
    assert_eq!(kinds(&run_expr(&ex(ExprKind::Other)).1), vec![DiagKind::UnsupportedExpr]);
}

#[test]
fn let_without_type_is_rejected() {
    let (out, d) = run_block(&block(vec![let_stmt(var_pat("x"), None, Some(int_lit(1)), 5)]));
    assert_eq!(out, "");
    assert_eq!(d, vec![Diagnostic { span: sp(5), kind: DiagKind::LetNeedsType }]);
    assert!(d[0].message().contains("must specify a type"));
}

#[test]
fn typed_let_is_emitted() {
    let (out, d) = run_block(&block(vec![let_stmt(var_pat("x"), Some(ty("i32")), Some(int_lit(1)), 0)]));
    assert_eq!(out, "i32 x = 1;\n");
    assert!(d.is_empty());
    let (out, _) = run_block(&block(vec![let_stmt(var_pat("y"), Some(ty("f32")), None, 0)]));
    assert_eq!(out, "float y;\n");
}

#[test]
fn let_must_bind_one_immutable_variable() {
    let mutable = Pat {
        kind: PatKind::Ident(BindingMode::ByValue(Mutability::Mutable), "x".to_string(), None),
        span: sp(0),
    };
    let (_, d) = run_block(&block(vec![let_stmt(mutable, Some(ty("i32")), None, 0)]));
    assert_eq!(kinds(&d), vec![DiagKind::LetNotVariable]);
    let tuple = Pat { kind: PatKind::Tuple(vec![var_pat("a"), var_pat("b")]), span: sp(0) };
    let (_, d) = run_block(&block(vec![let_stmt(tuple, Some(ty("i32")), None, 0)]));
    assert_eq!(kinds(&d), vec![DiagKind::LetNotVariable]);
}

#[test]
fn expression_statements_are_terminated() {
    let s = Stmt { kind: StmtKind::Expr(name("a")), span: sp(0) };
    let (out, _) = run_block(&block(vec![s, semi(name("b"))]));
    assert_eq!(out, "a;\nb;\n");
}

#[test]
fn items_in_functions_are_rejected() {
    let inner = item("k", Visibility::Inherited, ItemKind::Const(ty("i32"), int_lit(1)), 0);
    let s = Stmt { kind: StmtKind::Item(Box::new(inner)), span: sp(9) };
    let (_, d) = run_block(&block(vec![s]));
    assert_eq!(d, vec![Diagnostic { span: sp(9), kind: DiagKind::ItemsInFunctions }]);
}

#[test]
fn public_item_is_rejected() {
    let m = module(vec![], vec![item("k", Visibility::Public, ItemKind::Const(ty("i32"), int_lit(1)), 4)]);
    assert_eq!(failure_kinds(translate(&m)), vec![DiagKind::PubVisibility]);
    assert_eq!(try_translate(&m), None);
}

#[test]
fn globals_and_constants() {
    let m = module(
        vec![],
        vec![
            item("g", Visibility::Inherited, ItemKind::Static(ty("f32"), Mutability::Immutable, float("2.0")), 0),
            item("k", Visibility::Inherited, ItemKind::Const(ty("i32"), int_lit(7)), 1),
        ],
    );
    assert_eq!(translate(&m).ok(), Some("float g = 2.0;\nconst i32 k = 7;\n".to_string()));
}

#[test]
fn mutable_global_is_rejected() {
    let m = module(
        vec![],
        vec![item("g", Visibility::Inherited, ItemKind::Static(ty("i32"), Mutability::Mutable, int_lit(0)), 0)],
    );
    assert_eq!(failure_kinds(translate(&m)), vec![DiagKind::MutableGlobal]);
}

#[test]
fn function_is_emitted() {
    let params = vec![
        Param { pat: var_pat("a"), ty: ty("f32") },
        Param { pat: var_pat("b"), ty: ty("vec2") },
    ];
    let body = block(vec![semi(ex(ExprKind::Ret(Some(Box::new(name("a"))))))]);
    let m = module(vec![], vec![func("f", params, FnRetTy::Ty(ty("f32")), body)]);
    assert_eq!(translate(&m).ok(), Some("float f(float a, vec2 b) {\nreturn a;\n;\n}\n".to_string()));
    let m = module(vec![], vec![func("main", vec![], FnRetTy::Default, block(vec![]))]);
    assert_eq!(try_translate(&m), Some("void main() {\n}\n".to_string()));
}

#[test]
fn function_restrictions() {
    let mut f = item(
        "f",
        Visibility::Inherited,
        ItemKind::Fn(
            FnDecl { inputs: vec![], output: FnRetTy::Default, variadic: true },
            Unsafety::Unsafe,
            Abi::Foreign,
            Generics { params: vec!["T".to_string()] },
            block(vec![]),
        ),
        0,
    );
    f.attrs = vec![attr("inline", None, 1), attr("cold", None, 2)];
    let m = module(vec![], vec![f]);
    assert_eq!(
        failure_kinds(translate(&m)),
        vec![
            DiagKind::FnAttribute,
            DiagKind::FnAttribute,
            DiagKind::VariadicFn,
            DiagKind::UnsafeFn,
            DiagKind::ForeignAbi,
            DiagKind::GenericFn,
        ]
    );
}

#[test]
fn other_item_is_rejected() {
    let m = module(vec![], vec![item("s", Visibility::Inherited, ItemKind::Other, 0)]);
    assert_eq!(failure_kinds(translate(&m)), vec![DiagKind::UnsupportedItem]);
}

#[test]
fn version_given_twice_is_rejected() {
    let m = module(vec![attr("version", Some("120"), 0), attr("version", Some("330"), 1)], vec![]);
    let d = match translate(&m) {
        Err(Failure::Diagnostics(d)) => d,
        _ => panic!("expected diagnostics"),
    };
    assert_eq!(d, vec![Diagnostic { span: sp(1), kind: DiagKind::VersionTwice }]);
    assert_eq!(d[0].message(), "version given twice");
}

#[test]
fn single_version_gives_preamble() {
    let m = module(vec![attr("version", Some("330"), 0)], vec![]);
    assert_eq!(translate(&m).ok(), Some("#version 330\n\n".to_string()));
}

#[test]
fn empty_module_translates_to_nothing() {
    assert_eq!(translate(&module(vec![], vec![])).ok(), Some(String::new()));
}

#[test]
fn bad_attributes_are_rejected() {
    let m = module(vec![attr("version", None, 0), attr("precision", Some("high"), 1)], vec![]);
    assert_eq!(
        failure_kinds(translate(&m)),
        vec![DiagKind::VersionMissing, DiagKind::UnknownAttribute]
    );
}

#[test]
fn attribute_errors_stop_before_items() {
    let m = module(
        vec![attr("precision", None, 0)],
        vec![item("k", Visibility::Public, ItemKind::Other, 1)],
    );
    assert_eq!(failure_kinds(translate(&m)), vec![DiagKind::UnknownAttribute]);
}

#[test]
fn macro_node_gives_absent_result() {
    let body = block(vec![Stmt { kind: StmtKind::Mac, span: sp(7) }]);
    let m = module(vec![], vec![func("main", vec![], FnRetTy::Default, body)]);
    assert_eq!(try_translate(&m), None);
    match translate(&m) {
        Err(Failure::InternalFault(d)) => {
            assert_eq!(d, Diagnostic { span: sp(7), kind: DiagKind::MacroSurvived });
            assert!(d.is_fault());
        },
        _ => panic!("expected an internal fault"),
    }
}

#[test]
fn macro_fault_wins_over_user_errors() {
    let m = module(
        vec![],
        vec![
            item("k", Visibility::Public, ItemKind::Const(ty("i32"), int_lit(1)), 0),
            item("m", Visibility::Inherited, ItemKind::Mac, 2),
            item("n", Visibility::Inherited, ItemKind::Const(ty("i32"), ex(ExprKind::Mac)), 3),
        ],
    );
    match translate(&m) {
        Err(Failure::InternalFault(d)) => assert_eq!(d.span, sp(2)),
        _ => panic!("expected an internal fault"),
    }
    assert_eq!(try_translate(&m), None);
}

#[test]
fn name_helpers() {
    assert_eq!(glassful::util::simple_path(&path("uv")), Some("uv".to_string()));
    let two = Path {
        segments: vec![
            PathSegment { ident: "a".to_string(), has_args: false },
            PathSegment { ident: "b".to_string(), has_args: false },
        ],
    };
    assert_eq!(glassful::util::simple_path(&two), None);
    assert_eq!(glassful::util::pat_to_var(&var_pat("x")), Some("x".to_string()));
    let by_ref = Pat {
        kind: PatKind::Ident(BindingMode::ByRef(Mutability::Immutable), "x".to_string(), None),
        span: sp(0),
    };
    assert_eq!(glassful::util::pat_to_var(&by_ref), None);
    let wild = Pat { kind: PatKind::Wild, span: sp(0) };
    assert_eq!(glassful::util::pat_to_var(&wild), None);
}
