//! Located diagnostics, accumulated during one translation.
use vstd::prelude::*;

verus! {

/// A source location: a byte range of the input program.
#[derive(Clone, Copy, PartialEq, Eq, Structural, Debug)]
pub struct Span {
    pub lo: u32,
    pub hi: u32,
}

/// What went wrong. Every kind but `MacroSurvived` is a user error;
/// `MacroSurvived` is an internal fault: the front end broke its contract.
#[derive(Clone, Copy, PartialEq, Eq, Structural, Debug)]
pub enum DiagKind {
    ItemsInFunctions,
    LetNotVariable,
    LetNeedsType,
    UnsupportedLiteral,
    QualifiedName,
    BinaryOpUnsupported,
    UnaryOpUnsupported,
    UnsupportedExpr,
    UnsupportedType,
    PubVisibility,
    MutableGlobal,
    FnAttribute,
    VariadicFn,
    UnsafeFn,
    ForeignAbi,
    GenericFn,
    ParamNotVariable,
    UnsupportedItem,
    VersionTwice,
    VersionMissing,
    UnknownAttribute,
    MacroSurvived,
}

/// One recorded diagnostic.
#[derive(Clone, Copy, PartialEq, Eq, Structural, Debug)]
pub struct Diagnostic {
    pub span: Span,
    pub kind: DiagKind,
}

pub open spec fn is_fault_kind(k: DiagKind) -> bool {
    k is MacroSurvived
}

/// The message text of each kind.
pub open spec fn message_text(k: DiagKind) -> Seq<char> {
    match k {
        DiagKind::ItemsInFunctions => "items in functions not supported"@,
        DiagKind::LetNotVariable => "`let` binding must be a variable"@,
        DiagKind::LetNeedsType => "`let` bindings must specify a type"@,
        DiagKind::UnsupportedLiteral => "can't translate this literal"@,
        DiagKind::QualifiedName => "can't translate qualified / parametrized name"@,
        DiagKind::BinaryOpUnsupported => "binary operator not supported"@,
        DiagKind::UnaryOpUnsupported => "unary operator not supported"@,
        DiagKind::UnsupportedExpr => "can't translate this sort of expression"@,
        DiagKind::UnsupportedType => "type kind unsupported"@,
        DiagKind::PubVisibility => "`pub` visibility has no meaning"@,
        DiagKind::MutableGlobal => "variables are implicitly mutable"@,
        DiagKind::FnAttribute => "no function attributes are supported"@,
        DiagKind::VariadicFn => "can't translate variadic functions"@,
        DiagKind::UnsafeFn => "can't translate unsafe functions"@,
        DiagKind::ForeignAbi => "can't translate non-default ABI"@,
        DiagKind::GenericFn => "can't translate generic functions"@,
        DiagKind::ParamNotVariable => "function parameter must be a variable"@,
        DiagKind::UnsupportedItem => "can't translate this sort of item"@,
        DiagKind::VersionTwice => "version given twice"@,
        DiagKind::VersionMissing => "version not given"@,
        DiagKind::UnknownAttribute => "unknown attribute"@,
        DiagKind::MacroSurvived => "macros should be gone by now"@,
    }
}

impl Diagnostic {
    /// Whether this is an internal fault rather than a user error.
    pub fn is_fault(&self) -> (r: bool)
        ensures
            r == is_fault_kind(self.kind),
    {
        match self.kind {
            DiagKind::MacroSurvived => true,
            _ => false,
        }
    }

    /// The human-readable message.
    pub fn message(&self) -> (r: String)
        ensures
            r@ == message_text(self.kind),
    {
        let s: &str = match self.kind {
            DiagKind::ItemsInFunctions => "items in functions not supported",
            DiagKind::LetNotVariable => "`let` binding must be a variable",
            DiagKind::LetNeedsType => "`let` bindings must specify a type",
            DiagKind::UnsupportedLiteral => "can't translate this literal",
            DiagKind::QualifiedName => "can't translate qualified / parametrized name",
            DiagKind::BinaryOpUnsupported => "binary operator not supported",
            DiagKind::UnaryOpUnsupported => "unary operator not supported",
            DiagKind::UnsupportedExpr => "can't translate this sort of expression",
            DiagKind::UnsupportedType => "type kind unsupported",
            DiagKind::PubVisibility => "`pub` visibility has no meaning",
            DiagKind::MutableGlobal => "variables are implicitly mutable",
            DiagKind::FnAttribute => "no function attributes are supported",
            DiagKind::VariadicFn => "can't translate variadic functions",
            DiagKind::UnsafeFn => "can't translate unsafe functions",
            DiagKind::ForeignAbi => "can't translate non-default ABI",
            DiagKind::GenericFn => "can't translate generic functions",
            DiagKind::ParamNotVariable => "function parameter must be a variable",
            DiagKind::UnsupportedItem => "can't translate this sort of item",
            DiagKind::VersionTwice => "version given twice",
            DiagKind::VersionMissing => "version not given",
            DiagKind::UnknownAttribute => "unknown attribute",
            DiagKind::MacroSurvived => "macros should be gone by now",
        };
        String::from_str(s)
    }
}

/// The diagnostics of one translation, in the order they were recorded.
pub struct Diagnostics {
    pub list: Vec<Diagnostic>,
}

impl View for Diagnostics {
    type V = Seq<Diagnostic>;

    open spec fn view(&self) -> Seq<Diagnostic> {
        self.list@
    }
}

impl Diagnostics {
    pub fn new() -> (r: Diagnostics)
        ensures
            r@ == Seq::<Diagnostic>::empty(),
    {
        Diagnostics { list: Vec::new() }
    }

    /// Records a diagnostic of the given kind at `sp`.
    pub fn span_err(&mut self, sp: Span, kind: DiagKind)
        ensures
            final(self)@ == old(self)@.push(Diagnostic { span: sp, kind }),
    {
        self.list.push(Diagnostic { span: sp, kind });
    }

    /// Phase checkpoint: whether anything has been recorded.
    pub fn has_errors(&self) -> (r: bool)
        ensures
            r == (self@.len() > 0),
    {
        self.list.len() > 0
    }

    /// The recorded diagnostics.
    pub fn into_vec(self) -> (r: Vec<Diagnostic>)
        ensures
            r@ == self@,
    {
        self.list
    }
}

} // verus!
