//! The rule that decides which symbols go into an address map.

use vstd::prelude::*;
use vstd::string::*;

use crate::symbol::{AcceptedSymbol, AcceptedView, Binding, Kind, RecordView, SymbolRecord};

verus! {

/// The character that starts the names the toolchain keeps for itself.
pub const RESERVED_PREFIX: char = '_';

/// Names that are never put into an address map, whatever their binding and
/// kind: the runtime library supplies them on both sides of the link.
#[derive(Clone, Debug, PartialEq, Eq)]
pub struct Exclusions {
    pub names: Vec<String>,
}

impl View for Exclusions {
    type V = Seq<Seq<char>>;

    open spec fn view(&self) -> Seq<Seq<char>> {
        self.names.deep_view()
    }
}

/// The names that the C runtime provides: the entry point, the exit handler
/// and the handler of abnormal termination.
pub open spec fn c_runtime_names() -> Seq<Seq<char>> {
    seq![
        seq!['m', 'a', 'i', 'n'],
        seq!['C', '$', '$', 'E', 'X', 'I', 'T'],
        seq!['a', 'b', 'o', 'r', 't'],
    ]
}

/// A name starts with the reserved prefix.
pub open spec fn has_reserved_prefix(name: Seq<char>) -> bool {
    name.len() > 0 && name[0] == RESERVED_PREFIX
}

/// A kind whose symbols have an address that can be linked to.
pub open spec fn linkable(kind: Kind) -> bool {
    kind == Kind::Function || kind == Kind::Object || kind == Kind::Common
}

/// The acceptance rule. A record is accepted when its binding is global, its
/// name is neither excluded nor reserved, and its kind is linkable.
pub open spec fn accepts(record: RecordView, excluded: Seq<Seq<char>>) -> bool {
    &&& record.binding == Binding::Global
    &&& !excluded.contains(record.name)
    &&& !has_reserved_prefix(record.name)
    &&& linkable(record.kind)
}

/// The accepted records of a table, in the order of the table, each reduced
/// to its name and address.
pub open spec fn accepted_of(records: Seq<RecordView>, excluded: Seq<Seq<char>>) -> Seq<
    AcceptedView,
> {
    records.filter(|r: RecordView| accepts(r, excluded)).map_values(|r: RecordView| r.accepted())
}

impl Exclusions {
    /// An exclusion set with the given names.
    pub fn new(names: Vec<String>) -> (ex: Exclusions)
        ensures
            ex@ == names.deep_view(),
    {
        Exclusions { names }
    }

    /// The exclusion set of the C runtime: `main`, `C$$EXIT` and `abort`.
    pub fn c_runtime() -> (ex: Exclusions)
        ensures
            ex@ == c_runtime_names(),
    {
        let mut names: Vec<String> = Vec::new();
        proof {
            reveal_strlit("main");
            reveal_strlit("C$$EXIT");
            reveal_strlit("abort");
        }
        names.push(String::from_str("main"));
        names.push(String::from_str("C$$EXIT"));
        names.push(String::from_str("abort"));
        assert(names[0]@ =~= c_runtime_names()[0]);
        assert(names[1]@ =~= c_runtime_names()[1]);
        assert(names[2]@ =~= c_runtime_names()[2]);
        assert(names.deep_view() =~= c_runtime_names());
        Exclusions { names }
    }

    /// Whether `name` is one of the excluded names.
    pub fn contains(&self, name: &str) -> (found: bool)
        ensures
            found == self@.contains(name@),
    {
        let probe = name.to_owned();
        let mut i: usize = 0;
        while i < self.names.len()
            invariant
                i <= self.names.len(),
                probe@ == name@,
                forall|k: int| 0 <= k < i ==> self@[k] != name@,
            decreases self.names.len() - i,
        {
            assert(self@[i as int] == self.names[i as int]@);
            if self.names[i] == probe {
                return true;
            }
            i += 1;
        }
        false
    }
}

/// Whether `name` starts with the reserved prefix.
pub fn starts_reserved(name: &str) -> (reserved: bool)
    ensures
        reserved == has_reserved_prefix(name@),
{
    !name.is_empty() && name.get_char(0) == RESERVED_PREFIX
}

/// Whether a kind is linkable.
pub fn is_linkable(kind: Kind) -> (ok: bool)
    ensures
        ok == linkable(kind),
{
    match kind {
        Kind::Function | Kind::Object | Kind::Common => true,
        Kind::Other => false,
    }
}

/// Decides whether `record` goes into the address map. Rejection is silent.
pub fn classify(record: &SymbolRecord, exclusions: &Exclusions) -> (accept: bool)
    ensures
        accept == accepts(record@, exclusions@),
{
    match record.binding {
        Binding::Global => {},
        _ => {
            return false;
        },
    }
    if exclusions.contains(record.name.as_str()) {
        return false;
    }
    if starts_reserved(record.name.as_str()) {
        return false;
    }
    is_linkable(record.kind)
}

/// Keeps the accepted records of `records`, in their order, each reduced to
/// its name and address. Nothing is sorted and nothing is merged.
pub fn select(records: &[SymbolRecord], exclusions: &Exclusions) -> (accepted: Vec<AcceptedSymbol>)
    ensures
        accepted.deep_view() == accepted_of(records.deep_view(), exclusions@),
{
    let ghost keep = |r: RecordView| accepts(r, exclusions@);
    let ghost strip = |r: RecordView| r.accepted();
    let mut accepted: Vec<AcceptedSymbol> = Vec::new();
    let mut i: usize = 0;
    proof {
        assert(records.deep_view().take(0) =~= Seq::<RecordView>::empty());
        assert(Seq::<RecordView>::empty().filter(keep) =~= Seq::<RecordView>::empty()) by {
            reveal(Seq::filter);
        }
        assert(accepted.deep_view() =~= accepted_of(
            records.deep_view().take(0),
            exclusions@,
        ));
    }
    while i < records.len()
        invariant
            i <= records.len(),
            keep == |r: RecordView| accepts(r, exclusions@),
            strip == |r: RecordView| r.accepted(),
            accepted.deep_view() == records.deep_view().take(i as int).filter(keep).map_values(
                strip,
            ),
        decreases records.len() - i,
    {
        let ghost before = records.deep_view().take(i as int);
        let ghost kept = accepted.deep_view();
        proof {
            assert(before.push(records[i as int]@) =~= records.deep_view().take(i + 1));
            before.lemma_filter_push(records[i as int]@, keep);
        }
        if classify(&records[i], exclusions) {
            accepted.push(records[i].to_accepted());
            proof {
                assert(accepted.deep_view() =~= kept.push(strip(records[i as int]@)));
                assert(before.filter(keep).push(records[i as int]@).map_values(strip)
                    =~= before.filter(keep).map_values(strip).push(strip(records[i as int]@)));
            }
        }
        i += 1;
    }
    assert(records.deep_view().take(i as int) =~= records.deep_view());
    accepted
}

} // verus!
