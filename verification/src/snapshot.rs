//! The point-in-time system snapshot the dashboard renders.
//!
//! Percentages arrive as integer tenths (87.3% is 873) and load averages
//! as integer hundredths, so every field is a plain value the rendering
//! logic can reason about exactly.

use vstd::prelude::*;

verus! {

/// One CPU core's utilization; its position in `Snapshot::cores` is its
/// display ordinal.
#[derive(Clone, Copy, Debug, PartialEq, Eq)]
pub struct CoreSample {
    /// Usage percentage in tenths, 0..=1000.
    pub usage_tenths: u32,
}

/// Used and total byte counts for memory or swap.
#[derive(Clone, Copy, Debug, PartialEq, Eq)]
pub struct MemoryStats {
    pub used_bytes: u64,
    pub total_bytes: u64,
}

/// The 1/5/15-minute load averages, in hundredths.
#[derive(Clone, Copy, Debug, PartialEq, Eq)]
pub struct LoadAverage {
    pub one_hundredths: u64,
    pub five_hundredths: u64,
    pub fifteen_hundredths: u64,
}

/// A process's scheduling state; anything beyond the three common states
/// carries the first character of the platform's status word (`'?'` when
/// that word is empty).
#[derive(Clone, Copy, Debug, PartialEq, Eq)]
pub enum ProcessStatus {
    Running,
    Sleeping,
    Zombie,
    Other(char),
}

/// One process as the primary metrics provider reports it.
#[derive(Clone, Debug, PartialEq, Eq)]
pub struct ProcessSample {
    pub pid: u32,
    pub owner_id: Option<u32>,
    pub command: Vec<String>,
    pub status: ProcessStatus,
    /// CPU percentage in tenths; may exceed 1000 on multi-core loads.
    pub cpu_tenths: u32,
    pub virtual_memory_bytes: u64,
    pub resident_memory_bytes: u64,
    pub run_time_seconds: u64,
}

/// Everything one frame renders, captured at one instant.
#[derive(Clone, Debug, PartialEq, Eq)]
pub struct Snapshot {
    pub cores: Vec<CoreSample>,
    pub memory: MemoryStats,
    pub swap: MemoryStats,
    pub processes: Vec<ProcessSample>,
    pub load_average: LoadAverage,
    pub uptime_seconds: u64,
}

} // verus!
