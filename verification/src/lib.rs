//! A deterministic policy-evaluation checkpoint for simulated-scene
//! processing.
//!
//! Given an immutable scene snapshot (seen twice, before and after the
//! refusal path), a runtime configuration, live telemetry, and a set of
//! policy thresholds, the evaluator decides whether processing may continue or
//! must halt, and returns a stable, ordered list of findings explaining the
//! decision. The evaluator is a single-shot pure predicate: it never mutates its
//! inputs, never fails, and reports every detectable problem as data inside
//! a normally returned verdict.

mod capsule;
mod laws;
mod records;
mod refusal;
mod taxonomy;
mod verdict;

pub use capsule::CapsuleDigest;
pub use capsule::SceneCapsule;
pub use capsule::all_zero_bytes;
pub use capsule::bytes32_eq;
pub use capsule::bytes32_is_zero;
pub use capsule::digest_scene_capsule_placeholder;
pub use capsule::spec_capsule_digest;
pub use capsule::utf8_len;
pub use laws::lemma_clean_pass_characterized;
pub use laws::lemma_digest_reflects_identifier_length;
pub use laws::lemma_drift_precedes_floor;
pub use laws::lemma_findings_ordered;
pub use laws::lemma_mutation_forces_halt;
pub use laws::lemma_refusal_deterministic;
pub use laws::lemma_stage3_impossibility_propagates;
pub use laws::lemma_verdict_findings_ordered;
pub use laws::lemma_zeroed_anchors_double_finding;
pub use laws::sorted_by_class_priority;
pub use records::ContaminationTelemetry;
pub use records::EmulatorConfig;
pub use records::RefusalPolicy;
pub use refusal::anchors_zeroed;
pub use refusal::biological_intrusion;
pub use refusal::chemical_spike;
pub use refusal::degenerate_linkage;
pub use refusal::detail_anchors_zeroed;
pub use refusal::detail_biological;
pub use refusal::detail_chemical;
pub use refusal::detail_degenerate_linkage;
pub use refusal::detail_drift;
pub use refusal::detail_floor;
pub use refusal::detail_mutation;
pub use refusal::detail_worldline;
pub use refusal::drift_exceeded;
pub use refusal::enforce_halted_forbids;
pub use refusal::expected_findings;
pub use refusal::floor_breached;
pub use refusal::mutation_detected;
pub use refusal::opt_finding;
pub use refusal::stage5_refusal_contract;
pub use refusal::verdict_obeys;
pub use refusal::worldline_flagged;
pub use taxonomy::ArmPhase;
pub use taxonomy::ContaminationClass;
pub use taxonomy::class_priority;
pub use verdict::RefusalFinding;
pub use verdict::RefusalVerdict;
pub use verdict::findings_view;
