//! The status report: one line per tracked table, the allocator counters and
//! the age of the last garbage collection, in a fixed order.

use vstd::prelude::*;

use crate::bytes::bytes_text;
use crate::memory::{memory_text, MemoryStats, StatusError};
use crate::stats::{
    entry_sizes, lemma_permuted_tables, lemma_summary_order_independent,
    lemma_table_order_independent, present_count, present_total, symbol_counts, symbol_sizes,
    CategorySummary, LibrarySymbolsStats, SymbolIndex, SyntaxTree, TableEntry,
};
use crate::text::{decimal, push_decimal};

verus! {

/// A point in time, in nanoseconds from an origin that the caller fixes.
#[derive(Clone, Copy, Debug, PartialEq, Eq, Structural)]
pub struct Timestamp {
    pub nanos: u64,
}

pub const NANOS_PER_SEC: u64 = 1_000_000_000;

/// Whole seconds from `last_gc` to `now`; zero when `last_gc` lies after `now`.
pub open spec fn gc_age(last_gc: nat, now: nat) -> nat {
    if last_gc <= now {
        ((now - last_gc) / (NANOS_PER_SEC as int)) as nat
    } else {
        0
    }
}

/// The seconds elapsed since the last garbage collection, truncated.
pub fn gc_age_secs(last_gc: Timestamp, now: Timestamp) -> (r: u64)
    ensures
        r == gc_age(last_gc.nanos as nat, now.nanos as nat),
{
    if last_gc.nanos <= now.nanos {
        (now.nanos - last_gc.nanos) / NANOS_PER_SEC
    } else {
        0
    }
}

/// The line of the file-text table.
pub open spec fn files_line(total: nat, size: nat) -> Seq<char> {
    decimal(total) + " ("@ + bytes_text(size) + ") files"@
}

/// The line of the library-symbol table.
pub open spec fn symbols_line(total: nat, size: nat) -> Seq<char> {
    decimal(total) + " ("@ + bytes_text(size) + ") symbols"@
}

/// The line of a syntax-tree table.
pub open spec fn trees_line(total: nat, retained: nat, size: nat) -> Seq<char> {
    decimal(total) + " trees, "@ + decimal(retained) + " ("@ + bytes_text(size) + ") retained"@
}

impl CategorySummary {
    /// The line of this summary as a file-text table, such as `0 (0 bytes) files`.
    pub fn files_text(&self) -> (r: String)
        ensures
            r@ == files_line(self.total_entries as nat, self.retained_size.0 as nat),
    {
        let mut out = String::new();
        push_decimal(&mut out, self.total_entries as u64);
        out.append(" (");
        self.retained_size.push_text(&mut out);
        out.append(") files");
        out
    }

    /// The line of this summary as a syntax-tree table, such as
    /// `3 trees, 2 (5kb) retained`.
    pub fn trees_text(&self) -> (r: String)
        ensures
            r@ == trees_line(
                self.total_entries as nat,
                self.retained_entries as nat,
                self.retained_size.0 as nat,
            ),
    {
        let mut out = String::new();
        push_decimal(&mut out, self.total_entries as u64);
        out.append(" trees, ");
        push_decimal(&mut out, self.retained_entries as u64);
        out.append(" (");
        self.retained_size.push_text(&mut out);
        out.append(") retained");
        out
    }
}

impl LibrarySymbolsStats {
    /// The line of these statistics, such as `120 (4kb) symbols`.
    pub fn to_string(&self) -> (r: String)
        ensures
            r@ == symbols_line(self.total as nat, self.size.0 as nat),
    {
        let mut out = String::new();
        push_decimal(&mut out, self.total as u64);
        out.append(" (");
        self.size.push_text(&mut out);
        out.append(") symbols");
        out
    }
}

/// The statistics of the four tracked tables.
#[derive(Clone, Copy, Debug, PartialEq, Eq, Structural)]
pub struct TableStats {
    pub files: CategorySummary,
    pub symbols: LibrarySymbolsStats,
    pub syntax_trees: CategorySummary,
    pub macro_syntax_trees: CategorySummary,
}

/// The bytes and symbol counts of the four tables all fit in a `usize`.
pub open spec fn tables_fit<F, S, T, M>(
    files: Seq<TableEntry<F, String>>,
    symbols: Seq<TableEntry<S, SymbolIndex>>,
    trees: Seq<TableEntry<T, SyntaxTree>>,
    macro_trees: Seq<TableEntry<M, Option<SyntaxTree>>>,
) -> bool {
    &&& present_total(entry_sizes(files)) <= usize::MAX
    &&& present_total(symbol_counts(symbols)) <= usize::MAX
    &&& present_total(symbol_sizes(symbols)) <= usize::MAX
    &&& present_total(entry_sizes(trees)) <= usize::MAX
    &&& present_total(entry_sizes(macro_trees)) <= usize::MAX
}

/// The report text of the four tables, a memory snapshot and a garbage
/// collection age in seconds.
pub open spec fn report_text<F, S, T, M>(
    files: Seq<TableEntry<F, String>>,
    symbols: Seq<TableEntry<S, SymbolIndex>>,
    trees: Seq<TableEntry<T, SyntaxTree>>,
    macro_trees: Seq<TableEntry<M, Option<SyntaxTree>>>,
    allocated: nat,
    resident: nat,
    gc_secs: nat,
) -> Seq<char> {
    let f = entry_sizes(files);
    let t = entry_sizes(trees);
    let m = entry_sizes(macro_trees);
    files_line(f.len(), present_total(f)) + "\n"@ + symbols_line(
        present_total(symbol_counts(symbols)),
        present_total(symbol_sizes(symbols)),
    ) + "\n"@ + trees_line(t.len(), present_count(t), present_total(t)) + "\n"@ + trees_line(
        m.len(),
        present_count(m),
        present_total(m),
    ) + " (macros)\n\n\nmemory:\n"@ + memory_text(allocated, resident) + "\ngc "@ + decimal(
        gc_secs,
    ) + " seconds ago"@
}

impl TableStats {
    /// These statistics are those of the given tables.
    pub open spec fn describes<F, S, T, M>(
        self,
        files: Seq<TableEntry<F, String>>,
        symbols: Seq<TableEntry<S, SymbolIndex>>,
        trees: Seq<TableEntry<T, SyntaxTree>>,
        macro_trees: Seq<TableEntry<M, Option<SyntaxTree>>>,
    ) -> bool {
        &&& self.files.summarizes(entry_sizes(files))
        &&& self.symbols.summarizes(symbol_counts(symbols), symbol_sizes(symbols))
        &&& self.syntax_trees.summarizes(entry_sizes(trees))
        &&& self.macro_syntax_trees.summarizes(entry_sizes(macro_trees))
    }

    /// Accumulates the four tables, in the report's order of work: file
    /// texts, syntax trees, macro syntax trees, library symbols.
    pub fn collect<F, S, T, M>(
        files: &Vec<TableEntry<F, String>>,
        symbols: &Vec<TableEntry<S, SymbolIndex>>,
        trees: &Vec<TableEntry<T, SyntaxTree>>,
        macro_trees: &Vec<TableEntry<M, Option<SyntaxTree>>>,
    ) -> (r: Result<TableStats, StatusError>)
        ensures
            r is Ok <==> tables_fit(files@, symbols@, trees@, macro_trees@),
            r matches Ok(t) ==> t.describes(files@, symbols@, trees@, macro_trees@),
            r matches Err(e) ==> e == StatusError::SizeOverflow,
    {
        let files = match CategorySummary::accumulate(files) {
            Some(s) => s,
            None => return Err(StatusError::SizeOverflow),
        };
        let syntax_trees = match CategorySummary::accumulate(trees) {
            Some(s) => s,
            None => return Err(StatusError::SizeOverflow),
        };
        let macro_syntax_trees = match CategorySummary::accumulate(macro_trees) {
            Some(s) => s,
            None => return Err(StatusError::SizeOverflow),
        };
        let symbols = match LibrarySymbolsStats::accumulate(symbols) {
            Some(s) => s,
            None => return Err(StatusError::SizeOverflow),
        };
        Ok(TableStats { files, symbols, syntax_trees, macro_syntax_trees })
    }
}

/// Renders the report from the tables' statistics, a memory snapshot and the
/// garbage collection age.
pub fn render_status(tables: &TableStats, memory: &MemoryStats, gc_age_secs: u64) -> (r: String)
    ensures
        r@ == files_line(tables.files.total_entries as nat, tables.files.retained_size.0 as nat)
            + "\n"@ + symbols_line(tables.symbols.total as nat, tables.symbols.size.0 as nat)
            + "\n"@ + trees_line(
            tables.syntax_trees.total_entries as nat,
            tables.syntax_trees.retained_entries as nat,
            tables.syntax_trees.retained_size.0 as nat,
        ) + "\n"@ + trees_line(
            tables.macro_syntax_trees.total_entries as nat,
            tables.macro_syntax_trees.retained_entries as nat,
            tables.macro_syntax_trees.retained_size.0 as nat,
        ) + " (macros)\n\n\nmemory:\n"@ + memory_text(
            memory.allocated.0 as nat,
            memory.resident.0 as nat,
        ) + "\ngc "@ + decimal(gc_age_secs as nat) + " seconds ago"@,
{
    let mut out = tables.files.files_text();
    out.append("\n");
    out.append(tables.symbols.to_string().as_str());
    out.append("\n");
    out.append(tables.syntax_trees.trees_text().as_str());
    out.append("\n");
    out.append(tables.macro_syntax_trees.trees_text().as_str());
    out.append(" (macros)\n\n\nmemory:\n");
    out.append(memory.to_string().as_str());
    out.append("\ngc ");
    push_decimal(&mut out, gc_age_secs);
    out.append(" seconds ago");
    out
}

/// Builds the status report: accumulates the four tables, reads the memory
/// snapshot, and measures the time since the last garbage collection.
pub fn status<F, S, T, M>(
    files: &Vec<TableEntry<F, String>>,
    symbols: &Vec<TableEntry<S, SymbolIndex>>,
    trees: &Vec<TableEntry<T, SyntaxTree>>,
    macro_trees: &Vec<TableEntry<M, Option<SyntaxTree>>>,
    profiling_enabled: bool,
    last_gc: Timestamp,
    now: Timestamp,
) -> (r: Result<String, StatusError>)
    ensures
        !tables_fit(files@, symbols@, trees@, macro_trees@) ==> r == Err::<
            String,
            StatusError,
        >(StatusError::SizeOverflow),
        tables_fit(files@, symbols@, trees@, macro_trees@) ==> r != Err::<String, StatusError>(
            StatusError::SizeOverflow,
        ),
        tables_fit(files@, symbols@, trees@, macro_trees@) && !profiling_enabled ==> (r matches Ok(
            s,
        ) && s@ == report_text(
            files@,
            symbols@,
            trees@,
            macro_trees@,
            0,
            0,
            gc_age(last_gc.nanos as nat, now.nanos as nat),
        )),
        r matches Ok(s) ==> exists|allocated: usize, resident: usize|
            s@ == report_text(
                files@,
                symbols@,
                trees@,
                macro_trees@,
                allocated as nat,
                resident as nat,
                gc_age(last_gc.nanos as nat, now.nanos as nat),
            ),
        r matches Err(e) ==> e == StatusError::SizeOverflow || e == StatusError::StatsRefreshFailed
            || e == StatusError::StatsReadFailed,
{
    let tables = match TableStats::collect(files, symbols, trees, macro_trees) {
        Ok(t) => t,
        Err(e) => return Err(e),
    };
    let memory = match MemoryStats::current(profiling_enabled) {
        Ok(m) => m,
        Err(e) => return Err(e),
    };
    let age = gc_age_secs(last_gc, now);
    let text = render_status(&tables, &memory, age);
    assert(text@ == report_text(
        files@,
        symbols@,
        trees@,
        macro_trees@,
        memory.allocated.0 as nat,
        memory.resident.0 as nat,
        age as nat,
    ));
    Ok(text)
}

/// Reports do not depend on the order in which the tables are enumerated:
/// tables with the same entries, a same memory snapshot and a same garbage
/// collection age give the same report, and overflow in the same way.
pub proof fn lemma_report_order_independent<F, S, T, M>(
    files: Seq<TableEntry<F, String>>,
    files2: Seq<TableEntry<F, String>>,
    symbols: Seq<TableEntry<S, SymbolIndex>>,
    symbols2: Seq<TableEntry<S, SymbolIndex>>,
    trees: Seq<TableEntry<T, SyntaxTree>>,
    trees2: Seq<TableEntry<T, SyntaxTree>>,
    macro_trees: Seq<TableEntry<M, Option<SyntaxTree>>>,
    macro_trees2: Seq<TableEntry<M, Option<SyntaxTree>>>,
    allocated: nat,
    resident: nat,
    gc_secs: nat,
)
    requires
        files.to_multiset() =~= files2.to_multiset(),
        symbols.to_multiset() =~= symbols2.to_multiset(),
        trees.to_multiset() =~= trees2.to_multiset(),
        macro_trees.to_multiset() =~= macro_trees2.to_multiset(),
    ensures
        tables_fit(files, symbols, trees, macro_trees) == tables_fit(
            files2,
            symbols2,
            trees2,
            macro_trees2,
        ),
        report_text(files, symbols, trees, macro_trees, allocated, resident, gc_secs)
            == report_text(files2, symbols2, trees2, macro_trees2, allocated, resident, gc_secs),
{
    lemma_table_order_independent(files, files2);
    lemma_table_order_independent(trees, trees2);
    lemma_table_order_independent(macro_trees, macro_trees2);
    let counts = |e: TableEntry<S, SymbolIndex>|
        match e.value {
            Some(v) => Some(v.symbol_count),
            None => None,
        };
    let sizes = |e: TableEntry<S, SymbolIndex>|
        match e.value {
            Some(v) => Some(v.memory_size),
            None => None,
        };
    lemma_permuted_tables(symbols, symbols2, counts);
    lemma_permuted_tables(symbols, symbols2, sizes);
    assert(symbol_counts(symbols) =~= symbols.map_values(counts));
    assert(symbol_counts(symbols2) =~= symbols2.map_values(counts));
    assert(symbol_sizes(symbols) =~= symbols.map_values(sizes));
    assert(symbol_sizes(symbols2) =~= symbols2.map_values(sizes));
    lemma_summary_order_independent(symbol_counts(symbols), symbol_counts(symbols2));
    lemma_summary_order_independent(symbol_sizes(symbols), symbol_sizes(symbols2));
}

} // verus!
