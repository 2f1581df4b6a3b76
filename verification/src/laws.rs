//! What holds of classification and rendering on every input.

use vstd::prelude::*;

use crate::address_map::address_map_of;
use crate::classify::{accepted_of, accepts, has_reserved_prefix, linkable};
use crate::emit::{line_of, lines_of, text_of};
use crate::hex::{all_hex_digits, hex_upper, hex_worth, lemma_hex_upper_denotes,
    lemma_hex_upper_no_padding};
use crate::symbol::{AcceptedView, Binding, RecordView};

verus! {

/// A record whose binding is not global is rejected.
pub proof fn lemma_rejects_unless_global(record: RecordView, excluded: Seq<Seq<char>>)
    requires
        record.binding != Binding::Global,
    ensures
        !accepts(record, excluded),
{
}

/// A record whose name is excluded, or starts with the reserved prefix, is
/// rejected, whatever its binding and kind.
pub proof fn lemma_rejects_excluded_and_reserved(record: RecordView, excluded: Seq<Seq<char>>)
    requires
        excluded.contains(record.name) || has_reserved_prefix(record.name),
    ensures
        !accepts(record, excluded),
{
}

/// A record whose kind is not linkable is rejected.
pub proof fn lemma_rejects_unless_linkable(record: RecordView, excluded: Seq<Seq<char>>)
    requires
        !linkable(record.kind),
    ensures
        !accepts(record, excluded),
{
}

/// A record that meets all four conditions is accepted, and the address map
/// of a table that holds it alone is one line: its name, `=0x`, the numeral
/// of its address, and `;`. The numeral is made of upper-case hexadecimal
/// digits, denotes the address, and starts with `0` only for address zero.
pub proof fn lemma_accepts_and_renders_one_line(record: RecordView, excluded: Seq<Seq<char>>)
    requires
        record.binding == Binding::Global,
        !excluded.contains(record.name),
        !has_reserved_prefix(record.name),
        linkable(record.kind),
    ensures
        accepts(record, excluded),
        accepted_of(seq![record], excluded) == seq![record.accepted()],
        lines_of(seq![record.accepted()]) == seq![line_of(record.accepted())],
        address_map_of(seq![record], excluded) == seq![
            record.name + seq!['=', '0', 'x'] + hex_upper(record.value as nat) + seq![';'],
        ],
        all_hex_digits(hex_upper(record.value as nat)),
        hex_worth(hex_upper(record.value as nat)) == record.value,
        hex_upper(record.value as nat)[0] == '0' ==> record.value == 0,
{
    lemma_address_map_push(Seq::empty(), record, excluded);
    lemma_empty_table(excluded);
    assert(Seq::<RecordView>::empty().push(record) =~= seq![record]);
    assert(accepted_of(seq![record], excluded) =~= seq![record.accepted()]);
    assert(lines_of(seq![record.accepted()]) =~= seq![line_of(record.accepted())]);
    assert(address_map_of(seq![record], excluded) =~= seq![line_of(record.accepted())]);
    lemma_hex_upper_denotes(record.value as nat);
    lemma_hex_upper_no_padding(record.value as nat);
}

/// Rendering keeps the order: there is one line for each symbol, and the line
/// at each place is the line of the symbol at that place.
pub proof fn lemma_emit_keeps_order(symbols: Seq<AcceptedView>)
    ensures
        lines_of(symbols).len() == symbols.len(),
        forall|i: int| 0 <= i < symbols.len() ==> #[trigger] lines_of(symbols)[i] == line_of(symbols[i]),
{
}

/// Selection keeps the order of the table and merges nothing: the accepted
/// records of two tables laid end to end are those of the first followed by
/// those of the second, and so are the lines.
pub proof fn lemma_address_map_concat(
    front: Seq<RecordView>,
    back: Seq<RecordView>,
    excluded: Seq<Seq<char>>,
)
    ensures
        accepted_of(front + back, excluded) == accepted_of(front, excluded) + accepted_of(
            back,
            excluded,
        ),
        address_map_of(front + back, excluded) == address_map_of(front, excluded) + address_map_of(
            back,
            excluded,
        ),
{
    let keep = |r: RecordView| accepts(r, excluded);
    Seq::filter_distributes_over_add(front, back, keep);
    assert(accepted_of(front + back, excluded) =~= accepted_of(front, excluded) + accepted_of(
        back,
        excluded,
    ));
    assert(address_map_of(front + back, excluded) =~= address_map_of(front, excluded)
        + address_map_of(back, excluded));
}

/// One more record at the end of a table adds its line to the end of the
/// address map where it is accepted, and nothing where it is rejected.
pub proof fn lemma_address_map_push(
    records: Seq<RecordView>,
    record: RecordView,
    excluded: Seq<Seq<char>>,
)
    ensures
        accepts(record, excluded) ==> address_map_of(records.push(record), excluded)
            == address_map_of(records, excluded).push(line_of(record.accepted())),
        accepts(record, excluded) ==> accepted_of(records.push(record), excluded) == accepted_of(
            records,
            excluded,
        ).push(record.accepted()),
        !accepts(record, excluded) ==> address_map_of(records.push(record), excluded)
            == address_map_of(records, excluded),
        !accepts(record, excluded) ==> accepted_of(records.push(record), excluded) == accepted_of(
            records,
            excluded,
        ),
{
    let keep = |r: RecordView| accepts(r, excluded);
    records.lemma_filter_push(record, keep);
    if accepts(record, excluded) {
        assert(accepted_of(records.push(record), excluded) =~= accepted_of(records, excluded).push(
            record.accepted(),
        ));
        assert(address_map_of(records.push(record), excluded) =~= address_map_of(
            records,
            excluded,
        ).push(line_of(record.accepted())));
    }
}

/// An address map has as many lines as its table has accepted records, and
/// never more lines than the table has records.
pub proof fn lemma_one_line_for_each_accepted_record(
    records: Seq<RecordView>,
    excluded: Seq<Seq<char>>,
)
    ensures
        address_map_of(records, excluded).len() == records.filter(
            |r: RecordView| accepts(r, excluded),
        ).len(),
        address_map_of(records, excluded).len() <= records.len(),
{
    records.lemma_filter_len(|r: RecordView| accepts(r, excluded));
}

/// Every line of an address map is the line of an accepted record of the
/// table: the result is the place of such a record.
pub proof fn lemma_line_has_source(records: Seq<RecordView>, excluded: Seq<Seq<char>>, i: int) -> (k:
    int)
    requires
        0 <= i < address_map_of(records, excluded).len(),
    ensures
        0 <= k < records.len(),
        accepts(records[k], excluded),
        address_map_of(records, excluded)[i] == line_of(records[k].accepted()),
{
    let keep = |r: RecordView| accepts(r, excluded);
    let kept = records.filter(keep);
    records.lemma_filter_pred(keep, i);
    assert(kept.contains(kept[i]));
    records.lemma_filter_contains_rev(keep, kept[i]);
    choose|k: int| 0 <= k < records.len() && records[k] == kept[i]
}

/// A table without an accepted record has an empty address map: a rejected
/// record leaves no line.
pub proof fn lemma_rejected_records_leave_no_line(
    records: Seq<RecordView>,
    excluded: Seq<Seq<char>>,
)
    requires
        forall|k: int| 0 <= k < records.len() ==> !accepts(#[trigger] records[k], excluded),
    ensures
        address_map_of(records, excluded) == Seq::<Seq<char>>::empty(),
{
    if address_map_of(records, excluded).len() > 0 {
        let k = lemma_line_has_source(records, excluded, 0);
        assert(!accepts(records[k], excluded));
    }
    assert(address_map_of(records, excluded) =~= Seq::<Seq<char>>::empty());
}

/// Two runs on the same table with the same exclusions give the same lines
/// and the same text, character for character.
pub proof fn lemma_runs_agree(
    records: Seq<RecordView>,
    excluded: Seq<Seq<char>>,
    first: Seq<Seq<char>>,
    second: Seq<Seq<char>>,
)
    requires
        first == address_map_of(records, excluded),
        second == address_map_of(records, excluded),
    ensures
        first == second,
        text_of(first) == text_of(second),
{
}

/// An empty table has an empty address map, and an empty address map an
/// empty text.
pub proof fn lemma_empty_table(excluded: Seq<Seq<char>>)
    ensures
        accepted_of(Seq::empty(), excluded) == Seq::<AcceptedView>::empty(),
        lines_of(Seq::empty()) == Seq::<Seq<char>>::empty(),
        address_map_of(Seq::empty(), excluded) == Seq::<Seq<char>>::empty(),
        text_of(Seq::empty()) == Seq::<char>::empty(),
{
    let keep = |r: RecordView| accepts(r, excluded);
    assert(Seq::<RecordView>::empty().filter(keep) =~= Seq::<RecordView>::empty()) by {
        reveal(Seq::filter);
    }
    assert(accepted_of(Seq::empty(), excluded) =~= Seq::<AcceptedView>::empty());
    assert(lines_of(Seq::empty()) =~= Seq::<Seq<char>>::empty());
    assert(address_map_of(Seq::empty(), excluded) =~= Seq::<Seq<char>>::empty());
    assert(text_of(Seq::empty()) =~= Seq::<char>::empty());
}

} // verus!
