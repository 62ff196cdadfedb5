//! Per-table accumulation of cache statistics.
//!
//! A table is a sequence of entries, each a key and a value that may be
//! absent (never computed, or discarded to save memory). Every shape of value
//! says, through [`RetainedSize`], whether it holds a materialized result and
//! how large that result is; one fold then counts all entries, the retained
//! ones, and the bytes they hold.

use vstd::prelude::*;
use vstd::seq_lib::group_to_multiset_ensures;
use vstd::utf8::encode_utf8;

use crate::bytes::Bytes;

verus! {

/// One cached entry of a query table.
pub struct TableEntry<K, V> {
    pub key: K,
    pub value: Option<V>,
}

/// A value shape that may hold a materialized result of known footprint.
pub trait RetainedSize {
    /// The footprint in bytes of the materialized result, or none when the
    /// value holds no result.
    spec fn spec_retained_size(&self) -> Option<usize>;

    /// Computes the footprint, without touching structure shared with other
    /// values.
    fn retained_size(&self) -> (r: Option<usize>)
        ensures
            r == self.spec_retained_size(),
    ;
}

/// The text of a source file: its footprint is its length in UTF-8 bytes.
impl RetainedSize for String {
    open spec fn spec_retained_size(&self) -> Option<usize> {
        Some(encode_utf8(self@).len() as usize)
    }

    fn retained_size(&self) -> (r: Option<usize>) {
        Some(self.as_str().len())
    }
}

/// A parsed syntax tree, described by the footprint of its whole subtree.
#[derive(Clone, Copy, Debug, PartialEq, Eq, Structural)]
pub struct SyntaxTree {
    pub subtree_size: usize,
}

impl RetainedSize for SyntaxTree {
    open spec fn spec_retained_size(&self) -> Option<usize> {
        Some(self.subtree_size)
    }

    fn retained_size(&self) -> (r: Option<usize>) {
        Some(self.subtree_size)
    }
}

/// The result of a macro expansion, which may have produced no tree. A tree
/// that is present counts as retained, even when it is empty.
impl RetainedSize for Option<SyntaxTree> {
    open spec fn spec_retained_size(&self) -> Option<usize> {
        match self {
            Some(tree) => Some(tree.subtree_size),
            None => None,
        }
    }

    fn retained_size(&self) -> (r: Option<usize>) {
        match self {
            Some(tree) => Some(tree.subtree_size),
            None => None,
        }
    }
}

/// The retained footprint of an entry: none when the value is absent or
/// holds no result.
pub open spec fn entry_size<K, V: RetainedSize>(e: TableEntry<K, V>) -> Option<usize> {
    match e.value {
        Some(v) => v.spec_retained_size(),
        None => None,
    }
}

/// The retained footprints of a table's entries, in order.
pub open spec fn entry_sizes<K, V: RetainedSize>(s: Seq<TableEntry<K, V>>) -> Seq<Option<usize>> {
    s.map_values(|e: TableEntry<K, V>| entry_size(e))
}

/// How many of the footprints are present.
pub open spec fn present_count(s: Seq<Option<usize>>) -> nat
    decreases s.len(),
{
    if s.len() == 0 {
        0
    } else {
        present_count(s.drop_last()) + if s.last() is Some { 1nat } else { 0nat }
    }
}

/// The sum of the footprints that are present.
pub open spec fn present_total(s: Seq<Option<usize>>) -> nat
    decreases s.len(),
{
    if s.len() == 0 {
        0
    } else {
        present_total(s.drop_last()) + match s.last() {
            Some(n) => n as nat,
            None => 0nat,
        }
    }
}

impl<K, V: RetainedSize> TableEntry<K, V> {
    /// The retained footprint of this entry.
    pub fn retained_size(&self) -> (r: Option<usize>)
        ensures
            r == entry_size(*self),
    {
        match &self.value {
            Some(v) => v.retained_size(),
            None => None,
        }
    }
}

/// Statistics of one table: all entries, the retained ones, and their bytes.
#[derive(Clone, Copy, Debug, PartialEq, Eq, Structural)]
pub struct CategorySummary {
    pub total_entries: usize,
    pub retained_entries: usize,
    pub retained_size: Bytes,
}

impl CategorySummary {
    /// This summary counts exactly the given footprints.
    pub open spec fn summarizes(self, sizes: Seq<Option<usize>>) -> bool {
        &&& self.total_entries == sizes.len()
        &&& self.retained_entries == present_count(sizes)
        &&& self.retained_size.0 == present_total(sizes)
    }

    /// Accumulates one table in a single pass. The result is none exactly
    /// when the retained bytes do not fit in a `usize`.
    pub fn accumulate<K, V: RetainedSize>(entries: &Vec<TableEntry<K, V>>) -> (r: Option<
        CategorySummary,
    >)
        ensures
            r is Some <==> present_total(entry_sizes(entries@)) <= usize::MAX,
            r matches Some(s) ==> s.summarizes(entry_sizes(entries@)),
            r matches Some(s) ==> s.retained_entries <= s.total_entries,
    {
        let ghost sizes = entry_sizes(entries@);
        let mut res = CategorySummary {
            total_entries: 0,
            retained_entries: 0,
            retained_size: Bytes(0),
        };
        let mut i: usize = 0;
        while i < entries.len()
            invariant
                i <= entries.len(),
                sizes == entry_sizes(entries@),
                res.summarizes(sizes.take(i as int)),
                res.retained_entries <= res.total_entries,
            decreases entries.len() - i,
        {
            let size = entries[i].retained_size();
            assert(sizes.take(i + 1).drop_last() =~= sizes.take(i as int));
            assert(size == sizes[i as int]);
            res.total_entries = res.total_entries + 1;
            if let Some(n) = size {
                if res.retained_size.0 > usize::MAX - n {
                    proof {
                        lemma_present_total_prefix(sizes, i + 1);
                        assert(sizes.take(entries.len() as int) =~= sizes);
                    }
                    return None;
                }
                res.retained_entries = res.retained_entries + 1;
                res.retained_size.add_assign(n);
            }
            i = i + 1;
        }
        assert(sizes.take(entries.len() as int) =~= sizes);
        Some(res)
    }
}

/// A prefix holds no more bytes than the whole.
pub proof fn lemma_present_total_prefix(s: Seq<Option<usize>>, i: int)
    requires
        0 <= i <= s.len(),
    ensures
        present_total(s.take(i)) <= present_total(s),
    decreases s.len(),
{
    if i < s.len() {
        assert(s.drop_last().take(i) =~= s.take(i));
        lemma_present_total_prefix(s.drop_last(), i);
    } else {
        assert(s.take(i) =~= s);
    }
}

/// A table never has more retained entries than entries.
pub proof fn lemma_retained_within_total(s: Seq<Option<usize>>)
    ensures
        present_count(s) <= s.len(),
    decreases s.len(),
{
    if s.len() > 0 {
        lemma_retained_within_total(s.drop_last());
    }
}

/// Whatever its entries, a table never has more retained entries than
/// entries.
pub proof fn lemma_table_retained_within_total<K, V: RetainedSize>(entries: Seq<TableEntry<K, V>>)
    ensures
        present_count(entry_sizes(entries)) <= entries.len(),
{
    lemma_retained_within_total(entry_sizes(entries));
}

proof fn lemma_remove_one(s: Seq<Option<usize>>, i: int)
    requires
        0 <= i < s.len(),
    ensures
        present_count(s) == present_count(s.remove(i)) + if s[i] is Some { 1nat } else { 0nat },
        present_total(s) == present_total(s.remove(i)) + match s[i] {
            Some(n) => n as nat,
            None => 0nat,
        },
    decreases s.len(),
{
    if i == s.len() - 1 {
        assert(s.remove(i) =~= s.drop_last());
    } else {
        lemma_remove_one(s.drop_last(), i);
        assert(s.remove(i).drop_last() =~= s.drop_last().remove(i));
    }
}

/// Accumulation does not depend on the order of the footprints: two
/// sequences with the same elements give the same counts and bytes.
pub proof fn lemma_summary_order_independent(a: Seq<Option<usize>>, b: Seq<Option<usize>>)
    requires
        a.to_multiset() =~= b.to_multiset(),
    ensures
        a.len() == b.len(),
        present_count(a) == present_count(b),
        present_total(a) == present_total(b),
    decreases a.len(),
{
    broadcast use group_to_multiset_ensures;

    if a.len() == 0 {
        assert(b.to_multiset().len() == 0);
    } else {
        let last = a.len() - 1;
        let x = a[last];
        assert(a.contains(x));
        assert(b.to_multiset().count(x) > 0);
        assert(b.contains(x));
        let j = choose|j: int| 0 <= j < b.len() && b[j] == x;
        assert(a.remove(last) =~= a.drop_last());
        assert(a.drop_last().to_multiset() =~= b.remove(j).to_multiset());
        lemma_summary_order_independent(a.drop_last(), b.remove(j));
        lemma_remove_one(a, last);
        lemma_remove_one(b, j);
    }
}

/// Two tables with the same entries, in whatever order, have footprint
/// sequences with the same elements.
pub proof fn lemma_permuted_tables<A, B>(a: Seq<A>, b: Seq<A>, f: spec_fn(A) -> B)
    requires
        a.to_multiset() =~= b.to_multiset(),
    ensures
        a.map_values(f).to_multiset() =~= b.map_values(f).to_multiset(),
    decreases a.len(),
{
    broadcast use group_to_multiset_ensures;

    if a.len() == 0 {
        assert(b.to_multiset().len() == 0);
        assert(a.map_values(f) =~= b.map_values(f));
    } else {
        let last = a.len() - 1;
        let x = a[last];
        assert(a.contains(x));
        assert(b.to_multiset().count(x) > 0);
        assert(b.contains(x));
        let j = choose|j: int| 0 <= j < b.len() && b[j] == x;
        assert(a.remove(last) =~= a.drop_last());
        assert(a.drop_last().to_multiset() =~= b.remove(j).to_multiset());
        lemma_permuted_tables(a.drop_last(), b.remove(j), f);
        let fa = a.map_values(f);
        let fb = b.map_values(f);
        assert(fa =~= a.drop_last().map_values(f).push(f(x)));
        assert(b.remove(j).map_values(f) =~= fb.remove(j));
        assert(fb[j] == f(x));
        assert(fb.to_multiset().count(f(x)) > 0);
        assert(fb.to_multiset() =~= fb.to_multiset().remove(f(x)).insert(f(x)));
    }
}

/// Accumulating one table does not depend on the order of its entries.
pub proof fn lemma_table_order_independent<K, V: RetainedSize>(
    a: Seq<TableEntry<K, V>>,
    b: Seq<TableEntry<K, V>>,
)
    requires
        a.to_multiset() =~= b.to_multiset(),
    ensures
        entry_sizes(a).len() == entry_sizes(b).len(),
        present_count(entry_sizes(a)) == present_count(entry_sizes(b)),
        present_total(entry_sizes(a)) == present_total(entry_sizes(b)),
{
    let f = |e: TableEntry<K, V>| entry_size(e);
    lemma_permuted_tables(a, b, f);
    assert(entry_sizes(a) =~= a.map_values(f));
    assert(entry_sizes(b) =~= b.map_values(f));
    lemma_summary_order_independent(entry_sizes(a), entry_sizes(b));
}

/// A library's symbol index, described by what the report reads of it: how
/// many symbols it indexes and its own footprint in bytes.
#[derive(Clone, Copy, Debug, PartialEq, Eq, Structural)]
pub struct SymbolIndex {
    pub symbol_count: usize,
    pub memory_size: usize,
}

/// The symbol counts of the indexes present in a table, in order.
pub open spec fn symbol_counts<K>(s: Seq<TableEntry<K, SymbolIndex>>) -> Seq<Option<usize>> {
    s.map_values(
        |e: TableEntry<K, SymbolIndex>|
            match e.value {
                Some(v) => Some(v.symbol_count),
                None => None,
            },
    )
}

/// The footprints of the indexes present in a table, in order.
pub open spec fn symbol_sizes<K>(s: Seq<TableEntry<K, SymbolIndex>>) -> Seq<Option<usize>> {
    s.map_values(
        |e: TableEntry<K, SymbolIndex>|
            match e.value {
                Some(v) => Some(v.memory_size),
                None => None,
            },
    )
}

/// Statistics of the library symbol table: the symbols indexed over all
/// source roots, and the bytes their indexes take.
#[derive(Clone, Copy, Debug, PartialEq, Eq, Structural)]
pub struct LibrarySymbolsStats {
    pub total: usize,
    pub size: Bytes,
}

impl LibrarySymbolsStats {
    /// These statistics sum exactly the given symbol counts and footprints.
    pub open spec fn summarizes(self, counts: Seq<Option<usize>>, sizes: Seq<Option<usize>>) -> bool {
        &&& self.total == present_total(counts)
        &&& self.size.0 == present_total(sizes)
    }

    /// Accumulates the symbol table in a single pass. The result is none
    /// exactly when the symbol count or the bytes do not fit in a `usize`.
    pub fn accumulate<K>(entries: &Vec<TableEntry<K, SymbolIndex>>) -> (r: Option<
        LibrarySymbolsStats,
    >)
        ensures
            r is Some <==> present_total(symbol_counts(entries@)) <= usize::MAX
                && present_total(symbol_sizes(entries@)) <= usize::MAX,
            r matches Some(s) ==> s.summarizes(symbol_counts(entries@), symbol_sizes(entries@)),
    {
        let ghost counts = symbol_counts(entries@);
        let ghost sizes = symbol_sizes(entries@);
        let mut res = LibrarySymbolsStats { total: 0, size: Bytes(0) };
        let mut i: usize = 0;
        while i < entries.len()
            invariant
                i <= entries.len(),
                counts == symbol_counts(entries@),
                sizes == symbol_sizes(entries@),
                res.summarizes(counts.take(i as int), sizes.take(i as int)),
            decreases entries.len() - i,
        {
            assert(counts.take(i + 1).drop_last() =~= counts.take(i as int));
            assert(sizes.take(i + 1).drop_last() =~= sizes.take(i as int));
            if let Some(index) = &entries[i].value {
                if res.total > usize::MAX - index.symbol_count || res.size.0 > usize::MAX
                    - index.memory_size {
                    proof {
                        lemma_present_total_prefix(counts, i + 1);
                        lemma_present_total_prefix(sizes, i + 1);
                    }
                    return None;
                }
                res.total = res.total + index.symbol_count;
                res.size.add_assign(index.memory_size);
            }
            i = i + 1;
        }
        assert(counts.take(entries.len() as int) =~= counts);
        assert(sizes.take(entries.len() as int) =~= sizes);
        Some(res)
    }
}

} // verus!
