//! Symbol records and the symbols that are carried into an address map.

use vstd::prelude::*;

verus! {

/// Visibility scope of a symbol.
#[derive(Clone, Copy, Debug, PartialEq, Eq, Structural)]
pub enum Binding {
    /// Visible only inside the unit that defines it.
    Local,
    /// Visible to every unit that is linked in.
    Global,
    /// Like `Global`, but a `Global` definition of the same name wins.
    Weak,
    /// Any other scope.
    Other,
}

/// What a symbol names.
#[derive(Clone, Copy, Debug, PartialEq, Eq, Structural)]
pub enum Kind {
    /// Code.
    Function,
    /// A data object.
    Object,
    /// An uninitialised common block.
    Common,
    /// A marker without an address worth linking to: a section, a file, an
    /// untyped symbol.
    Other,
}

/// One entry of a symbol table.
#[derive(Clone, Debug, PartialEq, Eq)]
pub struct SymbolRecord {
    /// The identifier, as the string table holds it.
    pub name: String,
    pub binding: Binding,
    pub kind: Kind,
    /// The address of the symbol.
    pub value: u64,
}

/// The mathematical content of a [`SymbolRecord`].
pub struct RecordView {
    pub name: Seq<char>,
    pub binding: Binding,
    pub kind: Kind,
    pub value: u64,
}

impl View for SymbolRecord {
    type V = RecordView;

    open spec fn view(&self) -> RecordView {
        RecordView {
            name: self.name@,
            binding: self.binding,
            kind: self.kind,
            value: self.value,
        }
    }
}

impl DeepView for SymbolRecord {
    type V = RecordView;

    open spec fn deep_view(&self) -> RecordView {
        self@
    }
}

/// A symbol that passed classification: what an address map says of it.
#[derive(Clone, Debug, PartialEq, Eq)]
pub struct AcceptedSymbol {
    pub name: String,
    pub value: u64,
}

/// The mathematical content of an [`AcceptedSymbol`].
pub struct AcceptedView {
    pub name: Seq<char>,
    pub value: u64,
}

impl View for AcceptedSymbol {
    type V = AcceptedView;

    open spec fn view(&self) -> AcceptedView {
        AcceptedView { name: self.name@, value: self.value }
    }
}

impl DeepView for AcceptedSymbol {
    type V = AcceptedView;

    open spec fn deep_view(&self) -> AcceptedView {
        self@
    }
}

impl RecordView {
    /// What is left of a record once it has been accepted.
    pub open spec fn accepted(self) -> AcceptedView {
        AcceptedView { name: self.name, value: self.value }
    }
}

impl SymbolRecord {
    /// The name and address of this record, without binding and kind.
    pub fn to_accepted(&self) -> (a: AcceptedSymbol)
        ensures
            a@ == self@.accepted(),
    {
        AcceptedSymbol { name: self.name.clone(), value: self.value }
    }
}

} // verus!
