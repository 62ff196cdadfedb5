//! Allocator counters of the whole process.

use vstd::prelude::*;

use crate::bytes::{bytes_text, Bytes};

verus! {

/// Why a status report could not be produced.
#[derive(Clone, Copy, Debug, PartialEq, Eq, Structural)]
pub enum StatusError {
    /// The bytes or symbols of a table do not fit in a `usize`.
    SizeOverflow,
    /// The allocator refused to refresh its statistics.
    StatsRefreshFailed,
    /// The allocator refused to report a counter.
    StatsReadFailed,
}

/// Bytes allocated and bytes resident, at one point in time.
#[derive(Clone, Copy, Debug, PartialEq, Eq, Structural)]
pub struct MemoryStats {
    pub allocated: Bytes,
    pub resident: Bytes,
}

/// The text of a memory snapshot.
pub open spec fn memory_text(allocated: nat, resident: nat) -> Seq<char> {
    bytes_text(allocated) + " allocated "@ + bytes_text(resident) + " resident"@
}

/// Relies on jemalloc_ctl::epoch, which advances jemalloc's statistics epoch
/// so that the cached counters are refreshed; none when jemalloc fails.
#[verifier::external_body]
fn advance_epoch() -> (r: Option<u64>) {
    jemalloc_ctl::epoch().ok()
}

/// Relies on jemalloc_ctl::stats::allocated, the bytes allocated by the
/// application as of the last epoch; none when jemalloc fails.
#[verifier::external_body]
fn read_allocated() -> (r: Option<usize>) {
    jemalloc_ctl::stats::allocated().ok()
}

/// Relies on jemalloc_ctl::stats::resident, the bytes in resident pages
/// mapped by the allocator as of the last epoch; none when jemalloc fails.
#[verifier::external_body]
fn read_resident() -> (r: Option<usize>) {
    jemalloc_ctl::stats::resident().ok()
}

impl MemoryStats {
    /// The snapshot of a process whose allocator keeps no statistics.
    pub fn zero() -> (r: MemoryStats)
        ensures
            r.allocated.0 == 0,
            r.resident.0 == 0,
    {
        MemoryStats { allocated: Bytes(0), resident: Bytes(0) }
    }

    /// A snapshot from the two counters as read from the allocator: an error
    /// when either read failed.
    pub fn from_counters(allocated: Option<usize>, resident: Option<usize>) -> (r: Result<
        MemoryStats,
        StatusError,
    >)
        ensures
            r is Ok <==> allocated is Some && resident is Some,
            r matches Ok(m) ==> Some(m.allocated.0) == allocated && Some(m.resident.0) == resident,
            r matches Err(e) ==> e == StatusError::StatsReadFailed,
    {
        match (allocated, resident) {
            (Some(a), Some(r)) => Ok(MemoryStats { allocated: Bytes(a), resident: Bytes(r) }),
            _ => Err(StatusError::StatsReadFailed),
        }
    }

    /// A snapshot from the results of a statistics refresh and of the two
    /// counter reads: a refused refresh is an error whatever the reads gave,
    /// and otherwise the counters decide as in [`MemoryStats::from_counters`].
    pub fn snapshot(epoch: Option<u64>, allocated: Option<usize>, resident: Option<usize>) -> (r:
        Result<MemoryStats, StatusError>)
        ensures
            epoch is None ==> r == Err::<MemoryStats, StatusError>(StatusError::StatsRefreshFailed),
            epoch is Some ==> (r is Ok <==> allocated is Some && resident is Some),
            epoch is Some ==> (r matches Ok(m) ==> Some(m.allocated.0) == allocated && Some(
                m.resident.0,
            ) == resident),
            epoch is Some ==> (r matches Err(e) ==> e == StatusError::StatsReadFailed),
    {
        if epoch.is_none() {
            return Err(StatusError::StatsRefreshFailed);
        }
        MemoryStats::from_counters(allocated, resident)
    }

    /// The current snapshot. Without a profiling allocator it is zero for
    /// both counters. With one, the statistics are refreshed first, then both
    /// counters are read, and [`MemoryStats::snapshot`] decides from what
    /// came back.
    pub fn current(profiling_enabled: bool) -> (r: Result<MemoryStats, StatusError>)
        ensures
            !profiling_enabled ==> (r matches Ok(m) && m.allocated.0 == 0 && m.resident.0 == 0),
            r matches Err(e) ==> e == StatusError::StatsRefreshFailed || e
                == StatusError::StatsReadFailed,
    {
        if !profiling_enabled {
            return Ok(MemoryStats::zero());
        }
        let epoch = advance_epoch();
        let allocated = read_allocated();
        let resident = read_resident();
        MemoryStats::snapshot(epoch, allocated, resident)
    }

    /// The text of this snapshot, such as `12mb allocated 14mb resident`.
    pub fn to_string(&self) -> (r: String)
        ensures
            r@ == memory_text(self.allocated.0 as nat, self.resident.0 as nat),
    {
        let mut out = String::new();
        self.allocated.push_text(&mut out);
        out.append(" allocated ");
        self.resident.push_text(&mut out);
        out.append(" resident");
        out
    }
}

} // verus!
