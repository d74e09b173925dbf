//! What holds of the block that the library builds, and of removing it
//! again.

use crate::cfg::modlauncherlist::{
    block_text, entries_text, entry_text, escaped, escaped_char, BlockItem,
};
use crate::cfg::owned_decl;
use crate::cfg::strip::{
    block_end, boundaries, occurrences, strip_at, strip_text, trailer_end, without_range, Bounds,
};
use crate::text::{decimal, digit, first_match, is_alnum, lemma_first_match, matches_at};
use vstd::prelude::*;

verus! {

/// The state of the scan for a block's end.
pub struct Scan {
    /// The number of braces that are open.
    pub depth: int,
    /// Whether the scan is inside a quoted string.
    pub in_str: bool,
    /// Whether the character before was a backslash inside a string.
    pub escape: bool,
}

/// The state after the character `c`.
pub open spec fn scan_char(st: Scan, c: char) -> Scan {
    if st.escape {
        Scan { escape: false, ..st }
    } else if st.in_str && c == '\\' {
        Scan { escape: true, ..st }
    } else if c == '"' {
        Scan { in_str: !st.in_str, ..st }
    } else if !st.in_str && c == '{' {
        Scan { depth: st.depth + 1, ..st }
    } else if !st.in_str && c == '}' {
        Scan { depth: st.depth - 1, ..st }
    } else {
        st
    }
}

/// The state after the characters of `c` from index `k` on; `None` where
/// the braces close before the last of them is read.
pub open spec fn scan_from(c: Seq<char>, k: int, st: Scan) -> Option<Scan>
    decreases c.len() - k,
{
    if k < 0 || k >= c.len() {
        Some(st)
    } else if st.depth <= 0 {
        None
    } else {
        scan_from(c, k + 1, scan_char(st, c[k]))
    }
}

/// The scan outside strings with `d` braces open.
pub open spec fn outside(d: int) -> Scan {
    Scan { depth: d, in_str: false, escape: false }
}

/// The scan inside a string with `d` braces open.
pub open spec fn inside(d: int) -> Scan {
    Scan { depth: d, in_str: true, escape: false }
}

/// Where a chunk stands in a text, the search for the block's end passes
/// over it as the scan of the chunk says.
pub proof fn lemma_scan_link(s: Seq<char>, i: int, c: Seq<char>, k: int, st: Scan, st2: Scan)
    requires
        0 <= i,
        0 <= k <= c.len(),
        i + c.len() <= s.len(),
        forall|j: int| k <= j < c.len() ==> s[i + j] == c[j],
        scan_from(c, k, st) == Some(st2),
    ensures
        block_end(s, i + k, st.depth, st.in_str, st.escape) == block_end(
            s,
            i + c.len(),
            st2.depth,
            st2.in_str,
            st2.escape,
        ),
    decreases c.len() - k,
{
    if k < c.len() {
        assert(st.depth > 0);
        assert(s[i + k] == c[k]);
        lemma_scan_link(s, i, c, k + 1, scan_char(st, c[k]), st2);
    }
}

/// Behind the first part of a concatenation the scan reads the second.
pub proof fn lemma_scan_shift(a: Seq<char>, b: Seq<char>, j: int, st: Scan)
    requires
        0 <= j <= b.len(),
    ensures
        scan_from(a + b, a.len() + j, st) == scan_from(b, j, st),
    decreases b.len() - j,
{
    if j < b.len() {
        if st.depth > 0 {
            assert((a + b)[a.len() + j] == b[j]);
            lemma_scan_shift(a, b, j + 1, scan_char(st, b[j]));
        }
    }
}

/// The scan of a concatenation is the scan of its first part, then of its
/// second.
pub proof fn lemma_scan_concat(a: Seq<char>, b: Seq<char>, k: int, st: Scan)
    requires
        0 <= k <= a.len(),
    ensures
        scan_from(a + b, k, st) == (match scan_from(a, k, st) {
            Some(mid) => scan_from(b, 0, mid),
            None => None,
        }),
    decreases a.len() - k,
{
    if k < a.len() {
        if st.depth > 0 {
            assert((a + b)[k] == a[k]);
            lemma_scan_concat(a, b, k + 1, scan_char(st, a[k]));
        }
    } else {
        lemma_scan_shift(a, b, 0, st);
    }
}

/// An escaped value leaves the scan inside the string that holds it.
pub proof fn lemma_scan_escaped(v: Seq<char>, d: int)
    requires
        d > 0,
    ensures
        scan_from(escaped(v), 0, inside(d)) == Some(inside(d)),
    decreases v.len(),
{
    if v.len() > 0 {
        lemma_scan_escaped(v.drop_last(), d);
        lemma_scan_concat(escaped(v.drop_last()), escaped_char(v.last()), 0, inside(d));
        reveal_with_fuel(scan_from, 3);
        assert(scan_from(escaped_char(v.last()), 0, inside(d)) == Some(inside(d)));
    }
}

/// A number leaves the scan as it is.
pub proof fn lemma_scan_decimal(n: nat, d: int)
    requires
        d > 0,
    ensures
        scan_from(decimal(n), 0, outside(d)) == Some(outside(d)),
    decreases n,
{
    reveal_with_fuel(scan_from, 2);
    if n >= 10 {
        lemma_scan_decimal(n / 10, d);
        assert(decimal(n) =~= decimal(n / 10) + seq![digit(n % 10)]);
        lemma_scan_concat(decimal(n / 10), seq![digit(n % 10)], 0, outside(d));
        assert(scan_from(seq![digit(n % 10)], 0, outside(d)) == Some(outside(d)));
    } else {
        assert(scan_from(seq![digit(n)], 0, outside(d)) == Some(outside(d)));
    }
}

/// An entry leaves the scan as it is: its braces are balanced, and every
/// value is closed.
pub proof fn lemma_scan_entry(n: nat, item: BlockItem, d: int)
    requires
        d > 0,
    ensures
        scan_from(entry_text(n, item), 0, outside(d)) == Some(outside(d)),
{
    let l1 = "    class Mod"@;
    let l2 = "\n    {\n        dir=\""@;
    let l3 = "\";\n        name=\""@;
    let l4 = "\";\n        origin=\"GAME DIR\";\n        fullPath=\""@;
    let l5 = "\";\n    };\n"@;
    let a1 = l1 + decimal(n);
    let a2 = a1 + l2;
    let a3 = a2 + escaped(item.dir);
    let a4 = a3 + l3;
    let a5 = a4 + escaped(item.name);
    let a6 = a5 + l4;
    let a7 = a6 + escaped(item.full_path);
    assert(entry_text(n, item) == a7 + l5);
    lemma_scan_literals(d);
    lemma_scan_decimal(n, d);
    lemma_scan_escaped(item.dir, d + 1);
    lemma_scan_escaped(item.name, d + 1);
    lemma_scan_escaped(item.full_path, d + 1);
    lemma_scan_concat(l1, decimal(n), 0, outside(d));
    lemma_scan_concat(a1, l2, 0, outside(d));
    lemma_scan_concat(a2, escaped(item.dir), 0, outside(d));
    lemma_scan_concat(a3, l3, 0, outside(d));
    lemma_scan_concat(a4, escaped(item.name), 0, outside(d));
    lemma_scan_concat(a5, l4, 0, outside(d));
    lemma_scan_concat(a6, escaped(item.full_path), 0, outside(d));
    lemma_scan_concat(a7, l5, 0, outside(d));
}

/// How the fixed parts of an entry move the scan.
pub proof fn lemma_scan_literals(d: int)
    requires
        d > 0,
    ensures
        scan_from("    class Mod"@, 0, outside(d)) == Some(outside(d)),
        scan_from("\n    {\n        dir=\""@, 0, outside(d)) == Some(inside(d + 1)),
        scan_from("\";\n        name=\""@, 0, inside(d + 1)) == Some(inside(d + 1)),
        scan_from("\";\n        origin=\"GAME DIR\";\n        fullPath=\""@, 0, inside(d + 1))
            == Some(inside(d + 1)),
        scan_from("\";\n    };\n"@, 0, inside(d + 1)) == Some(outside(d)),
{
    reveal_strlit("    class Mod");
    reveal_strlit("\n    {\n        dir=\"");
    reveal_strlit("\";\n        name=\"");
    reveal_strlit("\";\n        origin=\"GAME DIR\";\n        fullPath=\"");
    reveal_strlit("\";\n    };\n");
    reveal_with_fuel(scan_from, 60);
}

/// The entries leave the scan as it is.
pub proof fn lemma_scan_entries(items: Seq<BlockItem>, n: int, d: int)
    requires
        d > 0,
        0 <= n <= items.len(),
    ensures
        scan_from(entries_text(items, n), 0, outside(d)) == Some(outside(d)),
    decreases n,
{
    if n > 0 {
        lemma_scan_entries(items, n - 1, d);
        lemma_scan_entry(n as nat, items[n - 1], d);
        lemma_scan_concat(
            entries_text(items, n - 1),
            entry_text(n as nat, items[n - 1]),
            0,
            outside(d),
        );
    }
}

/// The block for no items is the declaration with an empty pair of braces
/// and the closing semicolon.
pub proof fn lemma_empty_block()
    ensures
        block_text(Seq::<BlockItem>::empty()) == "class ModLauncherList\n{\n};"@,
{
    reveal_strlit("class ModLauncherList\n{\n");
    reveal_strlit("};");
    reveal_strlit("class ModLauncherList\n{\n};");
    assert(block_text(Seq::<BlockItem>::empty()) =~= "class ModLauncherList\n{\n};"@);
}

/// The block for two items holds the entry of the first under the number
/// 1 and the entry of the second under the number 2, whatever the items
/// are called.
pub proof fn lemma_two_items(a: BlockItem, b: BlockItem)
    ensures
        block_text(seq![a, b]) == "class ModLauncherList\n{\n"@ + entry_text(1, a) + entry_text(
            2,
            b,
        ) + "};"@,
{
    let items = seq![a, b];
    reveal_with_fuel(entries_text, 3);
    assert(entries_text(items, 0) =~= Seq::<char>::empty());
    assert(entries_text(items, 1) =~= entry_text(1, a));
    assert(entries_text(items, 2) =~= entry_text(1, a) + entry_text(2, b));
    assert(block_text(items) =~= "class ModLauncherList\n{\n"@ + entry_text(1, a) + entry_text(
        2,
        b,
    ) + "};"@);
}

/// The entries of the block are numbered from 1 in the order of the
/// items: the entries for the first `n` items are those for the first
/// `n - 1`, then the entry of the `n`-th under the number `n`.
pub proof fn lemma_entry_numbers(items: Seq<BlockItem>, n: int)
    requires
        1 <= n <= items.len(),
    ensures
        entries_text(items, n) == entries_text(items, n - 1) + entry_text(n as nat, items[n - 1]),
{
}

/// Removing the owned block from a text into which a built block was put
/// gives back what stood before and after the block, unchanged.
///
/// This holds where the declaration occurs nowhere in the text but at the
/// start of the block, and where what follows the block is nothing or
/// starts with a letter or digit: the removal takes everything after the
/// block's semicolon up to the end of the line or up to the next letter or
/// digit.
pub proof fn lemma_strip_removes_block(
    prefix: Seq<char>,
    items: Seq<BlockItem>,
    suffix: Seq<char>,
)
    requires
        forall|i: int| #[trigger]
            matches_at(prefix + block_text(items) + suffix, i, owned_decl()) ==> i == prefix.len(),
        suffix.len() == 0 || is_alnum(suffix[0]),
    ensures
        strip_text(prefix + block_text(items) + suffix, owned_decl()) == Ok::<Seq<char>, Bounds>(
            prefix + suffix,
        ),
{
    let decl = owned_decl();
    let head = "class ModLauncherList\n{\n"@;
    let foot = "};"@;
    let entries = entries_text(items, items.len() as int);
    let block = block_text(items);
    let text = prefix + block + suffix;
    let p = prefix.len() as int;
    reveal_strlit("class ModLauncherList");
    reveal_strlit("class ModLauncherList\n{\n");
    reveal_strlit("};");
    assert(block == head + entries + foot);
    assert(block.len() == 26 + entries.len());
    assert(text.len() == p + block.len() + suffix.len());
    assert forall|j: int| 0 <= j < 24 implies text[p + j] == head[j] by {
        assert(text[p + j] == block[j]);
    }
    // The declaration stands at the start of the block, and nowhere else.
    assert(text.subrange(p, p + 21) =~= decl);
    assert(matches_at(text, p, decl));
    lemma_first_match(text, 0, decl);
    assert(first_match(text, 0, decl) == Some(p));
    lemma_first_match(text, p + 21, decl);
    assert(first_match(text, p + 21, decl) is None);
    assert(occurrences(text, p + 21, decl) =~= Seq::<int>::empty());
    assert(occurrences(text, 0, decl) =~= seq![p]);
    // The opening brace is the one of the block's head.
    let brace = seq!['{'];
    assert(text.subrange(p + 22, p + 23) =~= brace);
    assert(matches_at(text, p + 22, brace));
    assert forall|q: int| p <= q < p + 22 implies !matches_at(text, q, brace) by {
        assert(text[q] == head[q - p]);
        if matches_at(text, q, brace) {
            assert(text.subrange(q, q + 1)[0] == brace[0]);
        }
    }
    lemma_first_match(text, p, brace);
    assert(first_match(text, p, brace) == Some(p + 22));
    // The scan passes over the entries and stops behind the closing brace.
    let close = p + 24 + entries.len() + 1;
    let chunk = seq!['\n'] + entries + seq!['}'];
    assert(text.subrange(p + 23, close) =~= chunk) by {
        assert forall|j: int| 0 <= j < chunk.len() implies text[p + 23 + j] == chunk[j] by {
            assert(text[p + 23 + j] == block[23 + j]);
        }
    }
    assert forall|j: int| 0 <= j < chunk.len() implies text[p + 23 + j] == chunk[j] by {
        assert(text.subrange(p + 23, close)[j] == chunk[j]);
    }
    lemma_scan_entries(items, items.len() as int, 1);
    reveal_with_fuel(scan_from, 2);
    assert(scan_from(seq!['\n'], 0, outside(1)) == Some(outside(1)));
    lemma_scan_concat(seq!['\n'], entries, 0, outside(1));
    assert(scan_from(seq!['}'], 0, outside(1)) == Some(outside(0)));
    lemma_scan_concat(seq!['\n'] + entries, seq!['}'], 0, outside(1));
    assert(scan_from(chunk, 0, outside(1)) == Some(outside(0)));
    lemma_scan_link(text, p + 23, chunk, 0, outside(1), outside(0));
    assert(block_end(text, close, 0, false, false) == Some(close));
    assert(block_end(text, p + 23, 1, false, false) == Some(close));
    // The trailer is the semicolon alone.
    assert(text[close] == ';') by {
        assert(text[close] == block[close - p]);
        assert(block[close - p] == foot[1]);
    }
    if suffix.len() > 0 {
        assert(text[close + 1] == suffix[0]);
    }
    assert(trailer_end(text, close + 1, true, false) == close + 1);
    assert(trailer_end(text, close, false, false) == close + 1);
    assert(boundaries(text, decl, p) == Bounds::Found(p, close + 1));
    // Removing the block leaves what stood round it.
    assert(without_range(text, p, close + 1) =~= prefix + suffix);
    let positions = seq![p];
    assert(positions.last() == p);
    assert(positions.drop_last() =~= Seq::<int>::empty());
    reveal_with_fuel(strip_at, 2);
    assert(strip_at(text, decl, positions) == Ok::<Seq<char>, Bounds>(prefix + suffix));
}

} // verus!
