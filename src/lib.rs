//! Translates programs of a small, expression-oriented surface language,
//! given as a parsed and macro-expanded tree, into GPU shading-language text.
use vstd::prelude::*;

pub mod ast;
pub mod attr;
pub mod block;
pub mod diag;
pub mod emit;
pub mod expr;
pub mod item;
pub mod ty;
pub mod util;

use crate::ast::{Item, Module};
use crate::attr::{preamble_text, version_scan};
use crate::diag::{is_fault_kind, Diagnostic, Diagnostics};
use crate::emit::{nothing, Emit};
use crate::item::item_emit;

verus! {

/// Why a translation produced no text.
pub enum Failure {
    /// User errors, in the order they were found, from the first phase that had any.
    Diagnostics(Vec<Diagnostic>),
    /// The tree broke the front end's contract (a macro node survived
    /// expansion); the first such node.
    InternalFault(Diagnostic),
}

/// The items translated in declaration order.
pub open spec fn items_emit(s: Seq<Item>) -> Emit
    decreases s.len(),
{
    if s.len() == 0 {
        nothing()
    } else {
        let k = s.len() - 1;
        items_emit(s.subrange(0, k)).followed_by(item_emit(s[k]))
    }
}

/// The diagnostics of the attribute phase.
pub open spec fn attr_diags(m: Module) -> Seq<Diagnostic> {
    version_scan(m.attrs@).1
}

/// The diagnostics of the item phase.
pub open spec fn item_diags(m: Module) -> Seq<Diagnostic> {
    items_emit(m.items@).diags
}

/// The text of a successful translation: preamble, then the items.
pub open spec fn output_text(m: Module) -> Seq<char> {
    preamble_text(version_scan(m.attrs@).0) + items_emit(m.items@).text
}

pub open spec fn succeeds(m: Module) -> bool {
    attr_diags(m).len() == 0 && item_diags(m).len() == 0
}

pub open spec fn has_fault(s: Seq<Diagnostic>) -> bool {
    exists|i: int| 0 <= i < s.len() && is_fault_kind(#[trigger] s[i].kind)
}

/// `s[i]` is the first internal fault in `s`.
pub open spec fn first_fault_at(s: Seq<Diagnostic>, i: int) -> bool {
    &&& 0 <= i < s.len()
    &&& is_fault_kind(s[i].kind)
    &&& forall|j: int| 0 <= j < i ==> !is_fault_kind(#[trigger] s[j].kind)
}

/// Whether the translation of `m` ends in an internal fault.
pub open spec fn faults(m: Module) -> bool {
    attr_diags(m).len() == 0 && has_fault(item_diags(m))
}

/// The index of the first fault in `d`, if any.
fn find_fault(d: &Vec<Diagnostic>) -> (r: Option<usize>)
    ensures
        match r {
            Some(i) => first_fault_at(d@, i as int),
            None => !has_fault(d@),
        },
{
    let mut i: usize = 0;
    while i < d.len()
        invariant
            i <= d.len(),
            forall|j: int| 0 <= j < i ==> !is_fault_kind(#[trigger] d@[j].kind),
        decreases d.len() - i,
    {
        if d[i].is_fault() {
            return Some(i);
        }
        i += 1;
    }
    None
}

/// Translates a program: attributes first, then items in declaration order,
/// with a checkpoint after each phase. Text comes back only when neither
/// phase recorded a diagnostic.
pub fn translate(module: &Module) -> (r: Result<String, Failure>)
    ensures
        r is Ok <==> succeeds(*module),
        match r {
            Ok(s) => s@ == output_text(*module),
            Err(Failure::Diagnostics(d)) => if attr_diags(*module).len() > 0 {
                d@ == attr_diags(*module)
            } else {
                d@ == item_diags(*module) && !faults(*module)
            },
            Err(Failure::InternalFault(f)) => faults(*module) && exists|i: int|
                first_fault_at(item_diags(*module), i) && item_diags(*module)[i] == f,
        },
        faults(*module) ==> r is Err && r->Err_0 is InternalFault,
{
    let mut diag = Diagnostics::new();
    let version = crate::attr::glsl_version(&mut diag, &module.attrs);
    if diag.has_errors() {
        assert(diag@ =~= attr_diags(*module));
        return Err(Failure::Diagnostics(diag.into_vec()));
    }
    assert(attr_diags(*module) =~= Seq::<Diagnostic>::empty());
    let mut out = crate::attr::preamble(&version);
    let ghost pre = out@;
    let items = &module.items;
    let mut i: usize = 0;
    while i < items.len()
        invariant
            i <= items.len(),
            out@ == pre + items_emit(items@.subrange(0, i as int)).text,
            diag@ == items_emit(items@.subrange(0, i as int)).diags,
        decreases items.len() - i,
    {
        let ghost s = items@.subrange(0, i as int + 1);
        assert(s.subrange(0, i as int) =~= items@.subrange(0, i as int));
        crate::item::translate(&mut diag, &mut out, &items[i]);
        assert(out@ =~= pre + items_emit(s).text);
        assert(diag@ =~= items_emit(s).diags);
        i += 1;
    }
    assert(items@.subrange(0, items@.len() as int) =~= items@);
    if diag.has_errors() {
        let d = diag.into_vec();
        match find_fault(&d) {
            Some(k) => {
                assert(is_fault_kind(d@[k as int].kind));
                assert(first_fault_at(item_diags(*module), k as int));
                return Err(Failure::InternalFault(d[k]));
            },
            None => {
                return Err(Failure::Diagnostics(d));
            },
        }
    }
    Ok(out)
}

/// Translates a program, or gives `None` on any failure, user errors and
/// internal faults alike.
pub fn try_translate(module: &Module) -> (r: Option<String>)
    ensures
        r is Some <==> succeeds(*module),
        match r {
            Some(s) => s@ == output_text(*module),
            None => true,
        },
{
    match translate(module) {
        Ok(s) => Some(s),
        Err(_) => None,
    }
}

} // verus!

verus! {

proof fn lemma_items_diags_contain(s: Seq<Item>, i: int, j: int)
    requires
        0 <= i < s.len(),
        0 <= j < item_emit(s[i]).diags.len(),
    ensures
        items_emit(s).diags.contains(item_emit(s[i]).diags[j]),
    decreases s.len(),
{
    let k = s.len() - 1;
    let pre = items_emit(s.subrange(0, k));
    if i == k {
        assert(items_emit(s).diags[pre.diags.len() + j] == item_emit(s[i]).diags[j]);
    } else {
        assert(s.subrange(0, k)[i] == s[i]);
        lemma_items_diags_contain(s.subrange(0, k), i, j);
        let w = choose|w: int| 0 <= w < pre.diags.len() && pre.diags[w] == item_emit(s[i]).diags[j];
        assert(items_emit(s).diags[w] == item_emit(s[i]).diags[j]);
    }
}

/// An item with explicit (public) visibility is rejected: its item phase
/// records the visibility error, and the program produces no text.
pub proof fn lemma_pub_item_rejected(m: Module, i: int)
    requires
        0 <= i < m.items@.len(),
        m.items@[i].vis is Public,
    ensures
        item_diags(m).contains(
            Diagnostic { span: m.items@[i].span, kind: crate::diag::DiagKind::PubVisibility },
        ),
        !succeeds(m),
{
    let it = m.items@[i];
    assert(item_emit(it).diags[0] == Diagnostic {
        span: it.span,
        kind: crate::diag::DiagKind::PubVisibility,
    });
    lemma_items_diags_contain(m.items@, i, 0);
}

} // verus!

verus! {

/// A macro item that survived expansion makes the translation an internal
/// fault, once the attributes have passed; `try_translate` then gives `None`.
pub proof fn lemma_macro_item_faults(m: Module, i: int)
    requires
        0 <= i < m.items@.len(),
        m.items@[i].kind is Mac,
        attr_diags(m).len() == 0,
    ensures
        faults(m),
        !succeeds(m),
{
    let it = m.items@[i];
    let d = item_emit(it).diags[item_emit(it).diags.len() - 1];
    assert(is_fault_kind(d.kind));
    lemma_items_diags_contain(m.items@, i, item_emit(it).diags.len() - 1);
    let w = choose|w: int| 0 <= w < item_diags(m).len() && item_diags(m)[w] == d;
    assert(is_fault_kind(item_diags(m)[w].kind));
}

/// A program with the single attribute `version = "<v>"` and no items
/// translates to exactly `#version <v>` followed by a blank line.
pub proof fn lemma_version_only(m: Module, v: Seq<char>)
    requires
        m.attrs@.len() == 1,
        m.attrs@[0].name@ == "version"@,
        m.attrs@[0].value matches Some(x) && x@ == v,
        m.items@.len() == 0,
    ensures
        succeeds(m),
        output_text(m) == "#version "@ + v + "\n\n"@,
{
    assert(m.attrs@.subrange(0, 0) =~= Seq::<crate::ast::Attribute>::empty());
    assert(version_scan(m.attrs@.subrange(0, 0)).1.len() == 0);
    assert(items_emit(m.items@).diags.len() == 0);
    assert(output_text(m) =~= "#version "@ + v + "\n\n"@);
}

} // verus!
