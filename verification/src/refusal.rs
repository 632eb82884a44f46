//! The refusal evaluator: a single-shot pure predicate over its inputs.
//!
//! Every anomalous condition — mutation between the two snapshot views,
//! contamination, drift, a degraded policy posture — is modeled as a
//! finding inside a normally returned verdict, never as a fault: a refusal
//! stage must never itself be short-circuited by a runtime failure. There is
//! no early exit; every applicable check runs and contributes to the same
//! verdict, and the findings come out sorted by the fixed class priority,
//! with emission order preserved within a class.

use vstd::prelude::*;

use crate::capsule::SceneCapsule;
use crate::capsule::all_zero_bytes;
use crate::capsule::bytes32_eq;
use crate::capsule::bytes32_is_zero;
use crate::capsule::digest_scene_capsule_placeholder;
use crate::capsule::spec_capsule_digest;
use crate::records::ContaminationTelemetry;
use crate::records::EmulatorConfig;
use crate::records::RefusalPolicy;
use crate::taxonomy::ArmPhase;
use crate::taxonomy::ContaminationClass;
use crate::verdict::RefusalFinding;
use crate::verdict::RefusalVerdict;
use crate::verdict::findings_view;

verus! {

/// True exactly when `phase` is `Halted`: the single choke-point a caller
/// uses to block further tool use, generation or planning. The evaluator
/// only reports; enforcement belongs to the caller.
pub fn enforce_halted_forbids(phase: ArmPhase) -> (r: bool)
    ensures
        r == (phase == ArmPhase::Halted),
{
    matches!(phase, ArmPhase::Halted)
}

// The closed set of reason texts. Findings carry these literals and nothing
// else, so verdicts are diffable byte for byte.

pub open spec fn detail_mutation() -> Seq<char> {
    "SceneCapsule mutated under refusal path (before != after)"@
}

pub open spec fn detail_worldline() -> Seq<char> {
    "Impossible worldline flagged (Stage 3 abortion)"@
}

pub open spec fn detail_anchors_zeroed() -> Seq<char> {
    "Merkle anchors are zeroed (lineage undefined)"@
}

pub open spec fn detail_degenerate_linkage() -> Seq<char> {
    "prev_root equals merkle_root (degenerate linkage)"@
}

pub open spec fn detail_biological() -> Seq<char> {
    "Biological intrusion flag asserted"@
}

pub open spec fn detail_chemical() -> Seq<char> {
    "Chemical spike exceeds policy thresholds"@
}

pub open spec fn detail_drift() -> Seq<char> {
    "Instrument drift exceeds policy threshold"@
}

pub open spec fn detail_floor() -> Seq<char> {
    "Kaiser floor below minimum (spectral firewall weakened)"@
}

// The eight guard conditions, one spec function each. Their internal check
// order never shows in the output, so they are stated independently.

/// The two snapshot views disagree on the digest: something upstream broke
/// the call-purity the refusal path requires.
pub open spec fn mutation_detected(before: SceneCapsule, after: SceneCapsule) -> bool {
    spec_capsule_digest(before) != spec_capsule_digest(after)
}

/// An impossible worldline was flagged, by the upstream abort recorded in
/// the snapshot or by live telemetry.
pub open spec fn worldline_flagged(before: SceneCapsule, tel: ContaminationTelemetry) -> bool {
    before.stage3_impossible_worldline || tel.worldline_impossible_flag
}

/// Both chain anchors are all-zero: lineage is undefined.
pub open spec fn anchors_zeroed(before: SceneCapsule) -> bool {
    all_zero_bytes(before.prev_root@) && all_zero_bytes(before.merkle_root@)
}

/// The previous root equals the current root, zeroed or not: degenerate
/// linkage, checked independently of `anchors_zeroed`.
pub open spec fn degenerate_linkage(before: SceneCapsule) -> bool {
    before.prev_root@ == before.merkle_root@
}

pub open spec fn biological_intrusion(tel: ContaminationTelemetry) -> bool {
    tel.biological_intrusion_flag
}

/// Either concentration strictly exceeds its policy maximum; one finding is
/// emitted even when both do.
pub open spec fn chemical_spike(tel: ContaminationTelemetry, policy: RefusalPolicy) -> bool {
    tel.acetaldehyde_ppm > policy.acetaldehyde_ppm_max || tel.ethanol_ppm > policy.ethanol_ppm_max
}

pub open spec fn drift_exceeded(tel: ContaminationTelemetry, policy: RefusalPolicy) -> bool {
    tel.instrument_drift_mm > policy.instrument_drift_mm_max
}

/// The configured floor fell strictly below the policy minimum. This shares
/// the `InstrumentDrift` class with `drift_exceeded` but is a separate
/// condition; both findings may appear together, drift first.
pub open spec fn floor_breached(cfg: EmulatorConfig, policy: RefusalPolicy) -> bool {
    cfg.kaiser_floor < policy.kaiser_floor_min
}

/// One optional finding: a singleton when its guard fired, else empty.
pub open spec fn opt_finding(cond: bool, c: ContaminationClass, d: Seq<char>) -> Seq<
    (ContaminationClass, Seq<char>),
> {
    if cond {
        seq![(c, d)]
    } else {
        Seq::empty()
    }
}

/// The exact finding list the evaluator owes for these inputs: the fired guards'
/// findings, in class-priority order, drift before floor and zeroed anchors
/// before degenerate linkage within their shared classes.
pub open spec fn expected_findings(
    before: SceneCapsule,
    after: SceneCapsule,
    cfg: EmulatorConfig,
    tel: ContaminationTelemetry,
    policy: RefusalPolicy,
) -> Seq<(ContaminationClass, Seq<char>)> {
    opt_finding(
        biological_intrusion(tel),
        ContaminationClass::BiologicalIntrusion,
        detail_biological(),
    ) + opt_finding(chemical_spike(tel, policy), ContaminationClass::ChemicalSpike, detail_chemical())
        + opt_finding(drift_exceeded(tel, policy), ContaminationClass::InstrumentDrift, detail_drift())
        + opt_finding(floor_breached(cfg, policy), ContaminationClass::InstrumentDrift, detail_floor())
        + opt_finding(anchors_zeroed(before), ContaminationClass::LineageBreak, detail_anchors_zeroed())
        + opt_finding(
        degenerate_linkage(before),
        ContaminationClass::LineageBreak,
        detail_degenerate_linkage(),
    ) + opt_finding(
        mutation_detected(before, after),
        ContaminationClass::WorldlineImpossibility,
        detail_mutation(),
    ) + opt_finding(
        worldline_flagged(before, tel),
        ContaminationClass::WorldlineImpossibility,
        detail_worldline(),
    )
}

/// What the evaluator promises of a verdict for these inputs: the findings are
/// exactly the expected ones, `ok` holds exactly when there are none, and
/// the next phase is `Verifying` on `ok` and `Halted` otherwise.
pub open spec fn verdict_obeys(
    v: RefusalVerdict,
    before: SceneCapsule,
    after: SceneCapsule,
    cfg: EmulatorConfig,
    tel: ContaminationTelemetry,
    policy: RefusalPolicy,
) -> bool {
    &&& findings_view(v) == expected_findings(before, after, cfg, tel, policy)
    &&& v.ok == (expected_findings(before, after, cfg, tel, policy).len() == 0)
    &&& v.next_phase == (if v.ok {
        ArmPhase::Verifying
    } else {
        ArmPhase::Halted
    })
}

/// Evaluates the contamination-refusal checkpoint. Pure and total: it never
/// mutates the snapshot, never fails, and returns the one verdict
/// `verdict_obeys` fixes for these inputs.
#[verifier::rlimit(60)]
pub fn stage5_refusal_contract(
    scene_before: &SceneCapsule,
    scene_after: &SceneCapsule,
    cfg: &EmulatorConfig,
    tel: &ContaminationTelemetry,
    policy: &RefusalPolicy,
) -> (v: RefusalVerdict)
    ensures
        verdict_obeys(v, *scene_before, *scene_after, *cfg, *tel, *policy),
{
    let before_digest = digest_scene_capsule_placeholder(scene_before);
    let after_digest = digest_scene_capsule_placeholder(scene_after);
    let mutated = !bytes32_eq(&before_digest.0, &after_digest.0);
    let worldline = scene_before.stage3_impossible_worldline || tel.worldline_impossible_flag;
    let zeroed = bytes32_is_zero(&scene_before.prev_root) && bytes32_is_zero(
        &scene_before.merkle_root,
    );
    let degenerate = bytes32_eq(&scene_before.prev_root, &scene_before.merkle_root);
    let biological = tel.biological_intrusion_flag;
    let chemical = tel.acetaldehyde_ppm > policy.acetaldehyde_ppm_max || tel.ethanol_ppm
        > policy.ethanol_ppm_max;
    let drift = tel.instrument_drift_mm > policy.instrument_drift_mm_max;
    let floor = cfg.kaiser_floor < policy.kaiser_floor_min;

    let ghost b1 = opt_finding(
        biological_intrusion(*tel),
        ContaminationClass::BiologicalIntrusion,
        detail_biological(),
    );
    let ghost b2 = opt_finding(
        chemical_spike(*tel, *policy),
        ContaminationClass::ChemicalSpike,
        detail_chemical(),
    );
    let ghost b3 = opt_finding(
        drift_exceeded(*tel, *policy),
        ContaminationClass::InstrumentDrift,
        detail_drift(),
    );
    let ghost b4 = opt_finding(
        floor_breached(*cfg, *policy),
        ContaminationClass::InstrumentDrift,
        detail_floor(),
    );
    let ghost b5 = opt_finding(
        anchors_zeroed(*scene_before),
        ContaminationClass::LineageBreak,
        detail_anchors_zeroed(),
    );
    let ghost b6 = opt_finding(
        degenerate_linkage(*scene_before),
        ContaminationClass::LineageBreak,
        detail_degenerate_linkage(),
    );
    let ghost b7 = opt_finding(
        mutation_detected(*scene_before, *scene_after),
        ContaminationClass::WorldlineImpossibility,
        detail_mutation(),
    );
    let ghost b8 = opt_finding(
        worldline_flagged(*scene_before, *tel),
        ContaminationClass::WorldlineImpossibility,
        detail_worldline(),
    );

    // Emit directly in class-priority order; within a class the emission
    // order below is itself part of the contract.
    let mut findings: Vec<RefusalFinding> = Vec::new();
    if biological {
        findings.push(
            RefusalFinding {
                class: ContaminationClass::BiologicalIntrusion,
                detail: "Biological intrusion flag asserted",
            },
        );
    }
    proof {
        assert(findings@.map_values(|f: RefusalFinding| f@) =~~= b1);
    }
    if chemical {
        findings.push(
            RefusalFinding {
                class: ContaminationClass::ChemicalSpike,
                detail: "Chemical spike exceeds policy thresholds",
            },
        );
    }
    proof {
        assert(findings@.map_values(|f: RefusalFinding| f@) =~~= b1 + b2);
    }
    if drift {
        findings.push(
            RefusalFinding {
                class: ContaminationClass::InstrumentDrift,
                detail: "Instrument drift exceeds policy threshold",
            },
        );
    }
    proof {
        assert(findings@.map_values(|f: RefusalFinding| f@) =~~= b1 + b2 + b3);
    }
    if floor {
        findings.push(
            RefusalFinding {
                class: ContaminationClass::InstrumentDrift,
                detail: "Kaiser floor below minimum (spectral firewall weakened)",
            },
        );
    }
    proof {
        assert(findings@.map_values(|f: RefusalFinding| f@) =~~= b1 + b2 + b3 + b4);
    }
    if zeroed {
        findings.push(
            RefusalFinding {
                class: ContaminationClass::LineageBreak,
                detail: "Merkle anchors are zeroed (lineage undefined)",
            },
        );
    }
    proof {
        assert(findings@.map_values(|f: RefusalFinding| f@) =~~= b1 + b2 + b3 + b4 + b5);
    }
    if degenerate {
        findings.push(
            RefusalFinding {
                class: ContaminationClass::LineageBreak,
                detail: "prev_root equals merkle_root (degenerate linkage)",
            },
        );
    }
    proof {
        assert(findings@.map_values(|f: RefusalFinding| f@) =~~= b1 + b2 + b3 + b4 + b5 + b6);
    }
    if mutated {
        findings.push(
            RefusalFinding {
                class: ContaminationClass::WorldlineImpossibility,
                detail: "SceneCapsule mutated under refusal path (before != after)",
            },
        );
    }
    proof {
        assert(findings@.map_values(|f: RefusalFinding| f@) =~~= b1 + b2 + b3 + b4 + b5 + b6 + b7);
    }
    if worldline {
        findings.push(
            RefusalFinding {
                class: ContaminationClass::WorldlineImpossibility,
                detail: "Impossible worldline flagged (Stage 3 abortion)",
            },
        );
    }
    proof {
        assert(findings@.map_values(|f: RefusalFinding| f@) =~~= b1 + b2 + b3 + b4 + b5 + b6 + b7
            + b8);
        assert(expected_findings(*scene_before, *scene_after, *cfg, *tel, *policy) == b1 + b2 + b3
            + b4 + b5 + b6 + b7 + b8);
    }
    if findings.len() == 0 {
        RefusalVerdict { ok: true, next_phase: ArmPhase::Verifying, findings }
    } else {
        RefusalVerdict { ok: false, next_phase: ArmPhase::Halted, findings }
    }
}

} // verus!
