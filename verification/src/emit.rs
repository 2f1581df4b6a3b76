//! Rendering of accepted symbols as assignment lines.

use vstd::prelude::*;
use vstd::string::*;

use crate::hex::{hex_upper, push_hex};
use crate::symbol::{AcceptedSymbol, AcceptedView};

verus! {

/// The line of one symbol: its name, `=0x`, the numeral of its address in
/// upper-case hexadecimal without padding, and `;`.
pub open spec fn line_of(symbol: AcceptedView) -> Seq<char> {
    symbol.name + seq!['=', '0', 'x'] + hex_upper(symbol.value as nat) + seq![';']
}

/// The lines of a sequence of symbols: one line for each, in their order.
pub open spec fn lines_of(symbols: Seq<AcceptedView>) -> Seq<Seq<char>> {
    symbols.map_values(|s: AcceptedView| line_of(s))
}

/// The text of a sequence of lines: each line followed by a line feed.
pub open spec fn text_of(lines: Seq<Seq<char>>) -> Seq<char> {
    lines.map_values(|l: Seq<char>| l.push('\n')).flatten()
}

/// Renders one symbol as `NAME=0xHEX;`.
pub fn render_line(symbol: &AcceptedSymbol) -> (line: String)
    ensures
        line@ == line_of(symbol@),
{
    let mut line = symbol.name.clone();
    proof {
        reveal_strlit("=0x");
        reveal_strlit(";");
    }
    line.append("=0x");
    assert(line@ =~= symbol@.name + seq!['=', '0', 'x']);
    push_hex(&mut line, symbol.value);
    line.append(";");
    assert(line@ =~= line_of(symbol@));
    line
}

/// Renders every symbol of `accepted`, in order. The result has one line for
/// each symbol and nothing else: no header, no footer, no blank line.
pub fn emit(accepted: &[AcceptedSymbol]) -> (lines: Vec<String>)
    ensures
        lines.deep_view() == lines_of(accepted.deep_view()),
{
    let mut lines: Vec<String> = Vec::new();
    let mut i: usize = 0;
    while i < accepted.len()
        invariant
            i <= accepted.len(),
            lines.len() == i,
            forall|k: int| 0 <= k < i ==> (#[trigger] lines[k])@ == line_of(accepted[k]@),
        decreases accepted.len() - i,
    {
        let line = render_line(&accepted[i]);
        lines.push(line);
        i += 1;
    }
    assert(lines.deep_view() =~= lines_of(accepted.deep_view()));
    lines
}

/// Joins `lines` into one text, each line ended by a line feed.
pub fn render(lines: &[String]) -> (text: String)
    ensures
        text@ == text_of(lines.deep_view()),
{
    let mut text = String::new();
    let mut i: usize = 0;
    proof {
        reveal_strlit("\n");
        assert(lines.deep_view().take(0) =~= Seq::<Seq<char>>::empty());
        assert(text_of(Seq::<Seq<char>>::empty()) =~= Seq::<char>::empty());
    }
    while i < lines.len()
        invariant
            i <= lines.len(),
            "\n"@ == seq!['\n'],
            text@ == text_of(lines.deep_view().take(i as int)),
        decreases lines.len() - i,
    {
        proof {
            lemma_text_of_push(lines.deep_view().take(i as int), lines[i as int]@);
            assert(lines.deep_view().take(i as int).push(lines[i as int]@)
                =~= lines.deep_view().take(i + 1));
        }
        text.append(lines[i].as_str());
        text.append("\n");
        assert(text@ =~= text_of(lines.deep_view().take(i + 1)));
        i += 1;
    }
    assert(lines.deep_view().take(i as int) =~= lines.deep_view());
    text
}

/// One more line adds that line and a line feed to the text.
pub proof fn lemma_text_of_push(lines: Seq<Seq<char>>, line: Seq<char>)
    ensures
        text_of(lines.push(line)) == text_of(lines) + line + seq!['\n'],
{
    let ended = |l: Seq<char>| l.push('\n');
    assert(lines.push(line).map_values(ended) =~= lines.map_values(ended).push(ended(line)));
    lines.map_values(ended).lemma_flatten_push(ended(line));
    assert(text_of(lines) + line.push('\n') =~= text_of(lines) + line + seq!['\n']);
}

} // verus!
