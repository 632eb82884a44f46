//! The read-only records the evaluator consumes beside the snapshot:
//! configuration, telemetry and policy thresholds.
//!
//! Scalar readings (concentrations, drift, the floor) are carried as
//! order-preserving unsigned codes: any encoding of the underlying physical
//! magnitude under which a larger reading gets a larger code. The evaluator
//! only ever compares a reading against the policy bound encoded the same way, so
//! the ordering is all it relies on. (One such code is the sign-folded
//! IEEE-754 bit pattern; the edge that samples the sensors owns the
//! conversion, including the side on which a NaN lands.)

use vstd::prelude::*;

verus! {

/// Emulator build and runtime posture, supplied once per evaluation.
#[derive(Debug, Clone, PartialEq, Eq)]
pub struct EmulatorConfig {
    /// Deterministic emulator build id (e.g. a truncated commit hash).
    pub build_id: [u8; 20],
    /// Deterministic hash of the runtime parameters.
    pub config_hash_sha256: [u8; 32],
    /// Temporal budget for one frame, in microseconds.
    pub max_frame_delta_us: u32,
    /// The sentinel floor, as an order-preserving code of the margin.
    pub kaiser_floor: u64,
}

/// Live measurements that can trigger a refusal. Fresh per evaluation; the
/// evaluator keeps no history.
#[derive(Debug, Clone, PartialEq, Eq)]
pub struct ContaminationTelemetry {
    /// Chemical spike detector outputs, as order-preserving codes of the
    /// measured concentrations.
    pub acetaldehyde_ppm: u64,
    pub ethanol_ppm: u64,
    /// Instrument drift magnitude, as an order-preserving code.
    pub instrument_drift_mm: u64,
    /// Bio-intrusion boolean from the classifier or sensor.
    pub biological_intrusion_flag: bool,
    /// Deterministic impossible-worldline signal from the planner.
    pub worldline_impossible_flag: bool,
}

/// Thresholds are policy, not code: the evaluator reads them as data, encoded
/// exactly as the matching telemetry and configuration readings are.
#[derive(Debug, Clone, PartialEq, Eq)]
pub struct RefusalPolicy {
    pub acetaldehyde_ppm_max: u64,
    pub ethanol_ppm_max: u64,
    pub instrument_drift_mm_max: u64,
    pub kaiser_floor_min: u64,
}

} // verus!
