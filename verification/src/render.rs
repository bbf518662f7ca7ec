//! The tree renderer: one line per entry, a kind token, a space, the
//! path verbatim, a terminating newline. Order is preserved exactly as
//! received — no sorting, no deduplication, no filtering.

use vstd::prelude::*;
use vstd::string::{StrSliceExecFns, StringExecFns};
use crate::model::{TreeEntry, TreeEntryView};
use crate::text::{count_char, lemma_count_char_append, lemma_count_char_zero};

verus! {

/// The left column token of an entry kind: `DIR` for directories,
/// `FILE` for files, `UNK` for anything else.
pub open spec fn kind_token_spec(kind: Seq<char>) -> Seq<char> {
    if kind == "tree"@ {
        "DIR"@
    } else if kind == "blob"@ {
        "FILE"@
    } else {
        "UNK"@
    }
}

/// The one line an entry renders to.
pub open spec fn line_of(e: TreeEntryView) -> Seq<char> {
    kind_token_spec(e.type_field) + " "@ + e.path + "\n"@
}

/// The whole report: the lines of the entries, in order.
pub open spec fn render(entries: Seq<TreeEntryView>) -> Seq<char>
    decreases entries.len(),
{
    if entries.len() == 0 {
        Seq::empty()
    } else {
        render(entries.drop_last()) + line_of(entries.last())
    }
}

/// The kind mapping, total over every string: `tree` maps to `DIR`,
/// `blob` to `FILE`, anything else to `UNK`.
pub fn kind_token(kind: &str) -> (res: &'static str)
    ensures
        res@ == kind_token_spec(kind@),
{
    proof {
        reveal_strlit("tree");
        reveal_strlit("blob");
    }
    let n = kind.unicode_len();
    if n == 4 {
        let c0 = kind.get_char(0);
        let c1 = kind.get_char(1);
        let c2 = kind.get_char(2);
        let c3 = kind.get_char(3);
        if c0 == 't' && c1 == 'r' && c2 == 'e' && c3 == 'e' {
            proof {
                assert(kind@ =~= "tree"@);
            }
            "DIR"
        } else if c0 == 'b' && c1 == 'l' && c2 == 'o' && c3 == 'b' {
            proof {
                assert(kind@ =~= "blob"@);
            }
            "FILE"
        } else {
            "UNK"
        }
    } else {
        "UNK"
    }
}

/// Render the fetched entries as the flat text report, one line per
/// entry in the order received.
pub fn format_tree(tree: Vec<TreeEntry>) -> (res: String)
    ensures
        res@ == render(tree.deep_view()),
{
    let ghost entries = tree.deep_view();
    let mut output = String::new();
    proof {
        assert(entries.take(0) =~= Seq::<TreeEntryView>::empty());
    }
    let mut i: usize = 0;
    while i < tree.len()
        invariant
            i <= tree.len(),
            entries == tree.deep_view(),
            entries.len() == tree.len(),
            output@ == render(entries.take(i as int)),
        decreases tree.len() - i,
    {
        let entry = &tree[i];
        let token = kind_token(entry.type_field.as_str());
        output.append(token);
        output.append(" ");
        output.append(entry.path.as_str());
        output.append("\n");
        proof {
            assert(entries.take(i as int + 1).drop_last() =~= entries.take(i as int));
            assert(entries.take(i as int + 1).last() == entries[i as int]);
            assert(output@ =~= render(entries.take(i as int)) + line_of(entries[i as int]));
        }
        i = i + 1;
    }
    proof {
        assert(entries.take(tree.len() as int) =~= entries);
    }
    output
}

/// Rendering splits around any position: the report is the lines of the
/// earlier entries, then line `i` — the line of entry `i` — then the
/// lines of the later entries. Line `i` corresponds to entry `i`.
pub proof fn lemma_render_order(entries: Seq<TreeEntryView>, i: int)
    requires
        0 <= i < entries.len(),
    ensures
        render(entries) == render(entries.take(i)) + line_of(entries[i]) + render(
            entries.skip(i + 1),
        ),
{
    let middle = entries.subrange(i, i + 1);
    assert(entries =~= (entries.take(i) + middle) + entries.skip(i + 1));
    lemma_render_append(entries.take(i) + middle, entries.skip(i + 1));
    lemma_render_append(entries.take(i), middle);
    assert(middle.drop_last() =~= Seq::<TreeEntryView>::empty());
    assert(middle.last() == entries[i]);
    assert(render(Seq::<TreeEntryView>::empty()) == Seq::<char>::empty());
    assert(Seq::<char>::empty() + line_of(entries[i]) =~= line_of(entries[i]));
    assert(render(middle) == line_of(entries[i]));
    assert(render(entries) =~= render(entries.take(i)) + line_of(entries[i]) + render(
        entries.skip(i + 1),
    ));
}

/// The lines of a concatenation are the lines of the parts, in order.
pub proof fn lemma_render_append(a: Seq<TreeEntryView>, b: Seq<TreeEntryView>)
    ensures
        render(a + b) == render(a) + render(b),
    decreases b.len(),
{
    if b.len() == 0 {
        assert(a + b =~= a);
        assert(render(a) + render(b) =~= render(a));
    } else {
        lemma_render_append(a, b.drop_last());
        assert((a + b).drop_last() =~= a + b.drop_last());
        assert((a + b).last() == b.last());
        assert(render(a + b) =~= render(a) + render(b));
    }
}

/// Rendering is length-preserving: when no path holds a newline of its
/// own, the report has exactly one line — one newline — per entry.
pub proof fn lemma_render_line_count(entries: Seq<TreeEntryView>)
    requires
        forall|i: int| 0 <= i < entries.len() ==> !(#[trigger] entries[i]).path.contains('\n'),
    ensures
        count_char(render(entries), '\n') == entries.len(),
    decreases entries.len(),
{
    if entries.len() == 0 {
    } else {
        assert(forall|i: int| 0 <= i < entries.drop_last().len()
            ==> !(#[trigger] entries.drop_last()[i]).path.contains('\n'));
        lemma_render_line_count(entries.drop_last());
        lemma_count_line(entries.last());
        lemma_count_char_append(render(entries.drop_last()), line_of(entries.last()), '\n');
    }
}

/// One line holds exactly one newline: the terminator.
proof fn lemma_count_line(e: TreeEntryView)
    requires
        !e.path.contains('\n'),
    ensures
        count_char(line_of(e), '\n') == 1,
{
    reveal_strlit("DIR");
    reveal_strlit("FILE");
    reveal_strlit("UNK");
    reveal_strlit(" ");
    reveal_strlit("\n");
    let token = kind_token_spec(e.type_field);
    assert(!token.contains('\n')) by {
        if token.contains('\n') {
            let i = choose|i: int| 0 <= i < token.len() && token[i] == '\n';
        }
    }
    lemma_count_char_zero(token, '\n');
    lemma_count_char_zero(e.path, '\n');
    assert(count_char(" "@, '\n') == 0) by {
        assert(" "@.drop_last() =~= Seq::<char>::empty());
        assert(count_char(Seq::<char>::empty(), '\n') == 0);
    }
    assert(count_char("\n"@, '\n') == 1) by {
        assert("\n"@.drop_last() =~= Seq::<char>::empty());
        assert(count_char(Seq::<char>::empty(), '\n') == 0);
    }
    lemma_count_char_append(token, " "@, '\n');
    lemma_count_char_append(token + " "@, e.path, '\n');
    lemma_count_char_append(token + " "@ + e.path, "\n"@, '\n');
}

/// Rendering is deterministic: two renderings of the same entry
/// sequence are the identical text, byte for byte.
pub proof fn lemma_render_deterministic(
    entries: Seq<TreeEntryView>,
    first: Seq<char>,
    second: Seq<char>,
)
    requires
        first == render(entries),
        second == render(entries),
    ensures
        first == second,
{
}

} // verus!
