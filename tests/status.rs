use ide_status::bytes::Bytes;
use ide_status::memory::{MemoryStats, StatusError};
use ide_status::report::{gc_age_secs, render_status, status, TableStats, Timestamp};
use ide_status::stats::{CategorySummary, LibrarySymbolsStats, SymbolIndex, SyntaxTree, TableEntry};
use ide_status::text::push_decimal;

fn entry<K, V>(key: K, value: Option<V>) -> TableEntry<K, V> {
    TableEntry { key, value }
}

fn tree(size: usize) -> SyntaxTree {
    SyntaxTree { subtree_size: size }
}

fn index(symbols: usize, size: usize) -> SymbolIndex {
    SymbolIndex { symbol_count: symbols, memory_size: size }
}

#[test]
fn bytes_below_four_kilobytes_are_plain() {
    assert_eq!(Bytes(0).to_string(), "0 bytes");
    assert_eq!(Bytes(1).to_string(), "1 bytes");
    assert_eq!(Bytes(4095).to_string(), "4095 bytes");
}

#[test]
fn bytes_switch_to_kilobytes_at_4096() {
    assert_eq!(Bytes(4096).to_string(), "4kb");
    assert_eq!(Bytes(5000).to_string(), "4kb");
    assert_eq!(Bytes(4096 * 1024 - 1).to_string(), "4095kb");
}

#[test]
fn bytes_switch_to_megabytes_at_4096_kilobytes() {
    assert_eq!(Bytes(4096 * 1024).to_string(), "4mb");
    assert_eq!(Bytes(5 * 1024 * 1024 * 1024).to_string(), "5120mb");
    assert_eq!(Bytes(4096 * 1024 + 1024 * 1024 - 1).to_string(), "4mb");
}

#[test]
fn bytes_add_assign_accumulates() {
    let mut b = Bytes(10);
    b.add_assign(4086);
    assert_eq!(b, Bytes(4096));
    b.add_assign(0);
    assert_eq!(b.to_string(), "4kb");
}

#[test]
fn decimal_digits_are_appended() {
    let mut s = String::from("n=");
    push_decimal(&mut s, 0);
    s.push(',');
    push_decimal(&mut s, 1234567890);
    s.push(',');
    push_decimal(&mut s, u64::MAX);
    assert_eq!(s, "n=0,1234567890,18446744073709551615");
}

#[test]
fn empty_table_gives_zero_summary() {
    let files: Vec<TableEntry<u32, String>> = Vec::new();
    let s = CategorySummary::accumulate(&files).unwrap();
    assert_eq!(
        s,
        CategorySummary { total_entries: 0, retained_entries: 0, retained_size: Bytes(0) }
    );
    assert_eq!(s.files_text(), "0 (0 bytes) files");
    assert_eq!(s.trees_text(), "0 trees, 0 (0 bytes) retained");
    let symbols: Vec<TableEntry<u32, SymbolIndex>> = Vec::new();
    let l = LibrarySymbolsStats::accumulate(&symbols).unwrap();
    assert_eq!(l, LibrarySymbolsStats { total: 0, size: Bytes(0) });
    assert_eq!(l.to_string(), "0 (0 bytes) symbols");
}

#[test]
fn file_texts_are_sized_in_utf8_bytes() {
    let files = vec![
        entry(1u32, Some(String::from("fn main() {}"))),
        entry(2u32, Some(String::from("é"))),
        entry(3u32, None),
    ];
    let s = CategorySummary::accumulate(&files).unwrap();
    assert_eq!(s.total_entries, 3);
    assert_eq!(s.retained_entries, 2);
    assert_eq!(s.retained_size, Bytes(14));
    assert_eq!(s.files_text(), "3 (14 bytes) files");
}

#[test]
fn absent_trees_count_but_are_not_retained() {
    let trees = vec![entry(1u32, Some(tree(3000))), entry(2u32, None), entry(3u32, Some(tree(2000)))];
    let s = CategorySummary::accumulate(&trees).unwrap();
    assert_eq!(
        s,
        CategorySummary { total_entries: 3, retained_entries: 2, retained_size: Bytes(5000) }
    );
    assert!(s.retained_entries <= s.total_entries);
    assert_eq!(s.trees_text(), "3 trees, 2 (4kb) retained");
}

#[test]
fn empty_trees_are_retained_with_zero_size() {
    let trees = vec![entry(1u32, Some(tree(0)))];
    let s = CategorySummary::accumulate(&trees).unwrap();
    assert_eq!(s.retained_entries, 1);
    assert_eq!(s.retained_size, Bytes(0));
}

#[test]
fn macro_expansion_without_a_tree_is_not_retained() {
    let macros: Vec<TableEntry<u32, Option<SyntaxTree>>> = vec![
        entry(1, Some(Some(tree(100)))),
        entry(2, Some(None)),
        entry(3, None),
        entry(4, Some(Some(tree(0)))),
    ];
    let s = CategorySummary::accumulate(&macros).unwrap();
    assert_eq!(
        s,
        CategorySummary { total_entries: 4, retained_entries: 2, retained_size: Bytes(100) }
    );
}

#[test]
fn accumulation_ignores_entry_order() {
    let a = vec![entry(1u32, Some(tree(7))), entry(2u32, None), entry(3u32, Some(tree(4096)))];
    let b = vec![entry(3u32, Some(tree(4096))), entry(1u32, Some(tree(7))), entry(2u32, None)];
    assert_eq!(CategorySummary::accumulate(&a), CategorySummary::accumulate(&b));
}

#[test]
fn symbols_sum_counts_and_footprints() {
    let symbols = vec![entry(1u32, Some(index(100, 3000))), entry(2u32, Some(index(20, 2000))), entry(3u32, None)];
    let l = LibrarySymbolsStats::accumulate(&symbols).unwrap();
    assert_eq!(l, LibrarySymbolsStats { total: 120, size: Bytes(5000) });
    assert_eq!(l.to_string(), "120 (4kb) symbols");
}

#[test]
fn retained_size_overflow_is_reported() {
    let trees = vec![entry(1u32, Some(tree(usize::MAX))), entry(2u32, Some(tree(1)))];
    assert_eq!(CategorySummary::accumulate(&trees), None);
    let fits = vec![entry(1u32, Some(tree(usize::MAX))), entry(2u32, Some(tree(0)))];
    assert!(CategorySummary::accumulate(&fits).is_some());
}

#[test]
fn symbol_count_overflow_is_reported() {
    let symbols = vec![entry(1u32, Some(index(usize::MAX, 1))), entry(2u32, Some(index(1, 1)))];
    assert_eq!(LibrarySymbolsStats::accumulate(&symbols), None);
}

#[test]
fn memory_without_profiling_is_zero() {
    assert_eq!(MemoryStats::current(false), Ok(MemoryStats { allocated: Bytes(0), resident: Bytes(0) }));
    assert_eq!(MemoryStats::current(false).unwrap().to_string(), "0 bytes allocated 0 bytes resident");
}

#[test]
fn memory_with_profiling_reads_jemalloc() {
    let m = MemoryStats::current(true).unwrap();
    assert!(m.to_string().contains(" allocated "));
}

#[test]
fn memory_counters_map_failures_to_errors() {
    assert_eq!(
        MemoryStats::from_counters(Some(5000), Some(8 * 1024 * 1024)),
        Ok(MemoryStats { allocated: Bytes(5000), resident: Bytes(8 * 1024 * 1024) })
    );
    assert_eq!(MemoryStats::from_counters(None, Some(1)), Err(StatusError::StatsReadFailed));
    assert_eq!(MemoryStats::from_counters(Some(1), None), Err(StatusError::StatsReadFailed));
    let m = MemoryStats::from_counters(Some(5000), Some(8 * 1024 * 1024)).unwrap();
    assert_eq!(m.to_string(), "4kb allocated 8mb resident");
}

#[test]
fn refused_refresh_is_an_error() {
    assert_eq!(MemoryStats::snapshot(None, Some(1), Some(2)), Err(StatusError::StatsRefreshFailed));
    assert_eq!(MemoryStats::snapshot(None, None, None), Err(StatusError::StatsRefreshFailed));
    assert_eq!(MemoryStats::snapshot(Some(3), None, Some(2)), Err(StatusError::StatsReadFailed));
    assert_eq!(
        MemoryStats::snapshot(Some(3), Some(1), Some(2)),
        Ok(MemoryStats { allocated: Bytes(1), resident: Bytes(2) })
    );
}

#[test]
fn gc_age_truncates_to_whole_seconds() {
    let at = |n: u64| Timestamp { nanos: n };
    assert_eq!(gc_age_secs(at(0), at(0)), 0);
    assert_eq!(gc_age_secs(at(0), at(999_999_999)), 0);
    assert_eq!(gc_age_secs(at(0), at(1_000_000_000)), 1);
    assert_eq!(gc_age_secs(at(500), at(2_999_999_999)), 2);
    assert_eq!(gc_age_secs(at(5_000_000_000), at(1_000_000_000)), 0);
}

fn sample_tables() -> (
    Vec<TableEntry<u32, String>>,
    Vec<TableEntry<u32, SymbolIndex>>,
    Vec<TableEntry<u32, SyntaxTree>>,
    Vec<TableEntry<u64, Option<SyntaxTree>>>,
) {
    let files = vec![entry(1, Some(String::from("abc"))), entry(2, Some(String::from("de")))];
    let symbols = vec![entry(0, Some(index(42, 10_000)))];
    let trees = vec![entry(1, Some(tree(6000))), entry(2, None)];
    let macros = vec![entry(7, Some(None)), entry(8, Some(Some(tree(12))))];
    (files, symbols, trees, macros)
}

#[test]
fn report_has_fixed_layout() {
    let (files, symbols, trees, macros) = sample_tables();
    let r = status(&files, &symbols, &trees, &macros, false, Timestamp { nanos: 0 }, Timestamp { nanos: 65_500_000_000 });
    assert_eq!(
        r.unwrap(),
        "2 (5 bytes) files\n42 (9kb) symbols\n2 trees, 1 (5kb) retained\n2 trees, 1 (12 bytes) retained (macros)\n\n\nmemory:\n0 bytes allocated 0 bytes resident\ngc 65 seconds ago"
    );
}

#[test]
fn report_of_empty_tables() {
    let tables = TableStats::collect::<u32, u32, u32, u32>(&Vec::new(), &Vec::new(), &Vec::new(), &Vec::new()).unwrap();
    let memory = MemoryStats::zero();
    assert_eq!(
        render_status(&tables, &memory, 0),
        "0 (0 bytes) files\n0 (0 bytes) symbols\n0 trees, 0 (0 bytes) retained\n0 trees, 0 (0 bytes) retained (macros)\n\n\nmemory:\n0 bytes allocated 0 bytes resident\ngc 0 seconds ago"
    );
}

#[test]
fn report_is_repeatable_and_order_independent() {
    let (files, symbols, trees, macros) = sample_tables();
    let last = Timestamp { nanos: 1_000 };
    let now = Timestamp { nanos: 3_000_000_000 };
    let first = status(&files, &symbols, &trees, &macros, false, last, now).unwrap();
    let second = status(&files, &symbols, &trees, &macros, false, last, now).unwrap();
    assert_eq!(first, second);
    let (mut files2, symbols2, mut trees2, mut macros2) = sample_tables();
    files2.reverse();
    trees2.reverse();
    macros2.reverse();
    let third = status(&files2, &symbols2, &trees2, &macros2, false, last, now).unwrap();
    assert_eq!(first, third);
}

#[test]
fn report_fails_on_overflowing_table() {
    let (files, symbols, _, macros) = sample_tables();
    let trees = vec![entry(1u32, Some(tree(usize::MAX))), entry(2u32, Some(tree(usize::MAX)))];
    let r = status(&files, &symbols, &trees, &macros, false, Timestamp { nanos: 0 }, Timestamp { nanos: 0 });
    assert_eq!(r, Err(StatusError::SizeOverflow));
}
