//! The evaluator's global guarantees, stated and proved once: determinism,
//! the characterization of a clean pass, propagation of flagged
//! impossibilities and detected mutation, the double finding on zeroed
//! anchors, and the ordering invariant on the finding list.

use vstd::prelude::*;

use crate::capsule::SceneCapsule;
use crate::capsule::spec_capsule_digest;
use crate::capsule::utf8_len;
use crate::records::ContaminationTelemetry;
use crate::records::EmulatorConfig;
use crate::records::RefusalPolicy;
use crate::refusal::anchors_zeroed;
use crate::refusal::biological_intrusion;
use crate::refusal::chemical_spike;
use crate::refusal::degenerate_linkage;
use crate::refusal::detail_anchors_zeroed;
use crate::refusal::detail_degenerate_linkage;
use crate::refusal::detail_biological;
use crate::refusal::detail_chemical;
use crate::refusal::detail_drift;
use crate::refusal::detail_floor;
use crate::refusal::detail_mutation;
use crate::refusal::detail_worldline;
use crate::refusal::drift_exceeded;
use crate::refusal::expected_findings;
use crate::refusal::floor_breached;
use crate::refusal::mutation_detected;
use crate::refusal::opt_finding;
use crate::refusal::verdict_obeys;
use crate::refusal::worldline_flagged;
use crate::taxonomy::ArmPhase;
use crate::taxonomy::ContaminationClass;
use crate::taxonomy::class_priority;
use crate::verdict::RefusalVerdict;
use crate::verdict::findings_view;

verus! {

/// A finding list is ordered when class priorities never decrease along it.
pub open spec fn sorted_by_class_priority(s: Seq<(ContaminationClass, Seq<char>)>) -> bool {
    forall|i: int, j: int|
        0 <= i <= j < s.len() ==> class_priority(s[i].0) <= class_priority(s[j].0)
}

/// Purity and determinism: the evaluator's contract fixes one verdict per input,
/// so any two verdicts it allows for identical inputs agree bit for bit —
/// same decision, same phase, same finding sequence.
pub proof fn lemma_refusal_deterministic(
    v1: RefusalVerdict,
    v2: RefusalVerdict,
    before: SceneCapsule,
    after: SceneCapsule,
    cfg: EmulatorConfig,
    tel: ContaminationTelemetry,
    policy: RefusalPolicy,
)
    requires
        verdict_obeys(v1, before, after, cfg, tel, policy),
        verdict_obeys(v2, before, after, cfg, tel, policy),
    ensures
        v1.ok == v2.ok,
        v1.next_phase == v2.next_phase,
        findings_view(v1) == findings_view(v2),
{
}

/// A clean pass, exactly: the evaluator says `ok` — and moves to `Verifying` —
/// if and only if not one of the eight guards fired.
pub proof fn lemma_clean_pass_characterized(
    v: RefusalVerdict,
    before: SceneCapsule,
    after: SceneCapsule,
    cfg: EmulatorConfig,
    tel: ContaminationTelemetry,
    policy: RefusalPolicy,
)
    requires
        verdict_obeys(v, before, after, cfg, tel, policy),
    ensures
        v.ok <==> {
            &&& !mutation_detected(before, after)
            &&& !worldline_flagged(before, tel)
            &&& !anchors_zeroed(before)
            &&& !degenerate_linkage(before)
            &&& !biological_intrusion(tel)
            &&& !chemical_spike(tel, policy)
            &&& !drift_exceeded(tel, policy)
            &&& !floor_breached(cfg, policy)
        },
        v.ok <==> v.next_phase == ArmPhase::Verifying,
        !v.ok <==> v.next_phase == ArmPhase::Halted,
{
}

/// An impossible worldline recorded by the upstream abort propagates: the
/// verdict halts and carries the worldline-impossibility finding.
pub proof fn lemma_stage3_impossibility_propagates(
    v: RefusalVerdict,
    before: SceneCapsule,
    after: SceneCapsule,
    cfg: EmulatorConfig,
    tel: ContaminationTelemetry,
    policy: RefusalPolicy,
)
    requires
        before.stage3_impossible_worldline,
        verdict_obeys(v, before, after, cfg, tel, policy),
    ensures
        !v.ok,
        v.next_phase == ArmPhase::Halted,
        exists|i: int|
            #![auto]
            0 <= i < v.findings@.len() && v.findings@[i]@ == (
            ContaminationClass::WorldlineImpossibility,
            detail_worldline(),
            ),
{
    let e = expected_findings(before, after, cfg, tel, policy);
    let last = e.len() - 1;
    assert(e[last] == (ContaminationClass::WorldlineImpossibility, detail_worldline()));
    assert(v.findings@[last]@ == findings_view(v)[last]);
}

/// A digest difference between the two snapshot views is itself a
/// constitutional violation: the verdict halts and carries the mutation
/// finding, whose text names the broken before/after equality.
pub proof fn lemma_mutation_forces_halt(
    v: RefusalVerdict,
    before: SceneCapsule,
    after: SceneCapsule,
    cfg: EmulatorConfig,
    tel: ContaminationTelemetry,
    policy: RefusalPolicy,
)
    requires
        mutation_detected(before, after),
        verdict_obeys(v, before, after, cfg, tel, policy),
    ensures
        !v.ok,
        v.next_phase == ArmPhase::Halted,
        exists|i: int|
            #![auto]
            0 <= i < v.findings@.len() && v.findings@[i]@ == (
            ContaminationClass::WorldlineImpossibility,
            detail_mutation(),
            ),
{
    let e = expected_findings(before, after, cfg, tel, policy);
    let n1: int = if biological_intrusion(tel) {
        1
    } else {
        0
    };
    let n2: int = if chemical_spike(tel, policy) {
        1
    } else {
        0
    };
    let n3: int = if drift_exceeded(tel, policy) {
        1
    } else {
        0
    };
    let n4: int = if floor_breached(cfg, policy) {
        1
    } else {
        0
    };
    let n5: int = if anchors_zeroed(before) {
        1
    } else {
        0
    };
    let n6: int = if degenerate_linkage(before) {
        1
    } else {
        0
    };
    let at = n1 + n2 + n3 + n4 + n5 + n6;
    assert(e[at] == (ContaminationClass::WorldlineImpossibility, detail_mutation()));
    assert(v.findings@[at]@ == findings_view(v)[at]);
}

/// The placeholder digest does see an identifier mutation that changes the
/// identifier's UTF-8 byte length (mod 256): the two digests then differ in
/// their first byte.
pub proof fn lemma_digest_reflects_identifier_length(before: SceneCapsule, after: SceneCapsule)
    requires
        utf8_len(before.scene_id@) % 256 != utf8_len(after.scene_id@) % 256,
    ensures
        mutation_detected(before, after),
{
    reveal(spec_capsule_digest);
    assert(spec_capsule_digest(before)[0] != spec_capsule_digest(after)[0]);
}

/// Zeroed chain anchors fire both lineage guards at once: the finding list
/// carries two distinct `LineageBreak` entries, zeroed anchors first,
/// degenerate linkage second.
pub proof fn lemma_zeroed_anchors_double_finding(
    before: SceneCapsule,
    after: SceneCapsule,
    cfg: EmulatorConfig,
    tel: ContaminationTelemetry,
    policy: RefusalPolicy,
)
    requires
        anchors_zeroed(before),
    ensures
        degenerate_linkage(before),
        exists|i: int, j: int|
            #![auto]
            0 <= i < j < expected_findings(before, after, cfg, tel, policy).len()
                && expected_findings(before, after, cfg, tel, policy)[i] == (
            ContaminationClass::LineageBreak,
            detail_anchors_zeroed(),
            ) && expected_findings(before, after, cfg, tel, policy)[j] == (
            ContaminationClass::LineageBreak,
            detail_degenerate_linkage(),
            ),
{
    assert(before.prev_root@ =~= before.merkle_root@);
    let e = expected_findings(before, after, cfg, tel, policy);
    let n1: int = if biological_intrusion(tel) {
        1
    } else {
        0
    };
    let n2: int = if chemical_spike(tel, policy) {
        1
    } else {
        0
    };
    let n3: int = if drift_exceeded(tel, policy) {
        1
    } else {
        0
    };
    let n4: int = if floor_breached(cfg, policy) {
        1
    } else {
        0
    };
    let at = n1 + n2 + n3 + n4;
    assert(e[at] == (ContaminationClass::LineageBreak, detail_anchors_zeroed()));
    assert(e[at + 1] == (ContaminationClass::LineageBreak, detail_degenerate_linkage()));
}

/// When both instrument-class guards fire, their emission order survives
/// the class-priority ordering: the drift finding precedes the floor one.
pub proof fn lemma_drift_precedes_floor(
    before: SceneCapsule,
    after: SceneCapsule,
    cfg: EmulatorConfig,
    tel: ContaminationTelemetry,
    policy: RefusalPolicy,
)
    requires
        drift_exceeded(tel, policy),
        floor_breached(cfg, policy),
    ensures
        exists|i: int, j: int|
            #![auto]
            0 <= i < j < expected_findings(before, after, cfg, tel, policy).len()
                && expected_findings(before, after, cfg, tel, policy)[i] == (
            ContaminationClass::InstrumentDrift,
            detail_drift(),
            ) && expected_findings(before, after, cfg, tel, policy)[j] == (
            ContaminationClass::InstrumentDrift,
            detail_floor(),
            ),
{
    let e = expected_findings(before, after, cfg, tel, policy);
    let n1: int = if biological_intrusion(tel) {
        1
    } else {
        0
    };
    let n2: int = if chemical_spike(tel, policy) {
        1
    } else {
        0
    };
    let at = n1 + n2;
    assert(e[at] == (ContaminationClass::InstrumentDrift, detail_drift()));
    assert(e[at + 1] == (ContaminationClass::InstrumentDrift, detail_floor()));
}

/// One step of the ordering proof: appending an optional finding whose
/// class priority is at least every priority already present keeps the
/// list sorted and keeps that priority an upper bound.
proof fn lemma_extend_sorted(
    s: Seq<(ContaminationClass, Seq<char>)>,
    cond: bool,
    c: ContaminationClass,
    d: Seq<char>,
    p: int,
)
    requires
        sorted_by_class_priority(s),
        forall|i: int| 0 <= i < s.len() ==> class_priority(#[trigger] s[i].0) <= p,
        p <= class_priority(c),
    ensures
        sorted_by_class_priority(s + opt_finding(cond, c, d)),
        forall|i: int|
            0 <= i < (s + opt_finding(cond, c, d)).len() ==> class_priority(
                #[trigger] (s + opt_finding(cond, c, d))[i].0,
            ) <= class_priority(c),
{
}

/// The ordering invariant: whatever fired, the finding list comes out
/// sorted by the fixed class priority — biological, chemical, instrument,
/// lineage, worldline.
pub proof fn lemma_findings_ordered(
    before: SceneCapsule,
    after: SceneCapsule,
    cfg: EmulatorConfig,
    tel: ContaminationTelemetry,
    policy: RefusalPolicy,
)
    ensures
        sorted_by_class_priority(expected_findings(before, after, cfg, tel, policy)),
{
    let b1 = opt_finding(
        biological_intrusion(tel),
        ContaminationClass::BiologicalIntrusion,
        detail_biological(),
    );
    let b2 = opt_finding(
        chemical_spike(tel, policy),
        ContaminationClass::ChemicalSpike,
        detail_chemical(),
    );
    let empty = Seq::<(ContaminationClass, Seq<char>)>::empty();
    lemma_extend_sorted(
        empty,
        biological_intrusion(tel),
        ContaminationClass::BiologicalIntrusion,
        detail_biological(),
        10,
    );
    assert(empty + b1 =~= b1);
    lemma_extend_sorted(
        b1,
        chemical_spike(tel, policy),
        ContaminationClass::ChemicalSpike,
        detail_chemical(),
        10,
    );
    lemma_extend_sorted(
        b1 + b2,
        drift_exceeded(tel, policy),
        ContaminationClass::InstrumentDrift,
        detail_drift(),
        20,
    );
    let s3 = b1 + b2 + opt_finding(
        drift_exceeded(tel, policy),
        ContaminationClass::InstrumentDrift,
        detail_drift(),
    );
    lemma_extend_sorted(
        s3,
        floor_breached(cfg, policy),
        ContaminationClass::InstrumentDrift,
        detail_floor(),
        30,
    );
    let s4 = s3 + opt_finding(
        floor_breached(cfg, policy),
        ContaminationClass::InstrumentDrift,
        detail_floor(),
    );
    lemma_extend_sorted(
        s4,
        anchors_zeroed(before),
        ContaminationClass::LineageBreak,
        detail_anchors_zeroed(),
        30,
    );
    let s5 = s4 + opt_finding(
        anchors_zeroed(before),
        ContaminationClass::LineageBreak,
        detail_anchors_zeroed(),
    );
    lemma_extend_sorted(
        s5,
        degenerate_linkage(before),
        ContaminationClass::LineageBreak,
        detail_degenerate_linkage(),
        40,
    );
    let s6 = s5 + opt_finding(
        degenerate_linkage(before),
        ContaminationClass::LineageBreak,
        detail_degenerate_linkage(),
    );
    lemma_extend_sorted(
        s6,
        mutation_detected(before, after),
        ContaminationClass::WorldlineImpossibility,
        detail_mutation(),
        40,
    );
    let s7 = s6 + opt_finding(
        mutation_detected(before, after),
        ContaminationClass::WorldlineImpossibility,
        detail_mutation(),
    );
    lemma_extend_sorted(
        s7,
        worldline_flagged(before, tel),
        ContaminationClass::WorldlineImpossibility,
        detail_worldline(),
        50,
    );
}

/// The ordering invariant, read off the returned value itself: any verdict
/// the evaluator allows carries its findings sorted by class priority.
pub proof fn lemma_verdict_findings_ordered(
    v: RefusalVerdict,
    before: SceneCapsule,
    after: SceneCapsule,
    cfg: EmulatorConfig,
    tel: ContaminationTelemetry,
    policy: RefusalPolicy,
)
    requires
        verdict_obeys(v, before, after, cfg, tel, policy),
    ensures
        sorted_by_class_priority(findings_view(v)),
{
    lemma_findings_ordered(before, after, cfg, tel, policy);
}

} // verus!
