use stage5_refusal::ArmPhase;
use stage5_refusal::ContaminationClass;
use stage5_refusal::ContaminationTelemetry;
use stage5_refusal::EmulatorConfig;
use stage5_refusal::RefusalPolicy;
use stage5_refusal::SceneCapsule;
use stage5_refusal::enforce_halted_forbids;
use stage5_refusal::stage5_refusal_contract;

fn mk_scene() -> SceneCapsule {
    SceneCapsule {
        scene_id: "batavia.1924.fermentation.v1".to_string(),
        world_id: "world:batavia-lab".to_string(),
        corridor_id: "corridor:fermentation-dynamics".to_string(),
        finality_tag: "2026.GOLD".to_string(),
        genesis_hash_sha256: [1u8; 32],
        vaulted_blob_sha256: [2u8; 32],
        merkle_root: [3u8; 32],
        prev_root: [4u8; 32],
        stage3_impossible_worldline: false,
    }
}

fn mk_cfg() -> EmulatorConfig {
    EmulatorConfig {
        build_id: [9u8; 20],
        config_hash_sha256: [8u8; 32],
        max_frame_delta_us: 1490,
        kaiser_floor: 0.985f64.to_bits(),
    }
}

fn mk_policy() -> RefusalPolicy {
    RefusalPolicy {
        acetaldehyde_ppm_max: 50.0f64.to_bits(),
        ethanol_ppm_max: 500.0f64.to_bits(),
        instrument_drift_mm_max: 0.000001f64.to_bits(), // 1e-6 mm threshold
        kaiser_floor_min: 0.985f64.to_bits(),
    }
}

fn mk_clean_tel() -> ContaminationTelemetry {
    ContaminationTelemetry {
        acetaldehyde_ppm: 10.0f64.to_bits(),
        ethanol_ppm: 200.0f64.to_bits(),
        instrument_drift_mm: 0.0f64.to_bits(),
        biological_intrusion_flag: false,
        worldline_impossible_flag: false,
    }
}

#[test]
fn passes_when_clean_and_pure() {
    let scene = mk_scene();
    let cfg = mk_cfg();
    let policy = mk_policy();
    let tel = mk_clean_tel();

    let verdict = stage5_refusal_contract(&scene, &scene, &cfg, &tel, &policy);
    assert!(verdict.ok);
    assert_eq!(verdict.next_phase, ArmPhase::Verifying);
    assert!(verdict.findings.is_empty());
    assert!(!enforce_halted_forbids(verdict.next_phase));
}

#[test]
fn halts_on_chemical_spike() {
    let scene = mk_scene();
    let cfg = mk_cfg();
    let policy = mk_policy();
    let mut tel = mk_clean_tel();
    tel.acetaldehyde_ppm = 999.0f64.to_bits();

    let verdict = stage5_refusal_contract(&scene, &scene, &cfg, &tel, &policy);
    assert!(!verdict.ok);
    assert_eq!(verdict.next_phase, ArmPhase::Halted);
    assert!(enforce_halted_forbids(verdict.next_phase));
    assert!(verdict
        .findings
        .iter()
        .any(|f| f.class == ContaminationClass::ChemicalSpike));
}

#[test]
fn halts_if_scene_mutates_under_refusal_path() {
    let before = mk_scene();
    let mut after = mk_scene();
    // simulate mutation
    after.scene_id = "batavia.1924.fermentation.v1.MUTATED".to_string();

    let cfg = mk_cfg();
    let policy = mk_policy();
    let tel = mk_clean_tel();

    // Even with clean telemetry, mutation forces HALT.
    let verdict = stage5_refusal_contract(&before, &after, &cfg, &tel, &policy);
    assert!(!verdict.ok);
    assert_eq!(verdict.next_phase, ArmPhase::Halted);
    assert!(verdict
        .findings
        .iter()
        .any(|f| f.detail.contains("before != after")));
}

#[test]
fn halts_on_stage3_impossible_worldline() {
    let mut scene = mk_scene();
    scene.stage3_impossible_worldline = true;

    let cfg = mk_cfg();
    let policy = mk_policy();
    let tel = mk_clean_tel();

    let verdict = stage5_refusal_contract(&scene, &scene, &cfg, &tel, &policy);
    assert!(!verdict.ok);
    assert_eq!(verdict.next_phase, ArmPhase::Halted);
    assert!(verdict
        .findings
        .iter()
        .any(|f| f.class == ContaminationClass::WorldlineImpossibility));
}

#[test]
fn chemical_spike_is_one_finding_even_when_both_exceed() {
    let scene = mk_scene();
    let cfg = mk_cfg();
    let policy = mk_policy();
    let mut tel = mk_clean_tel();
    tel.acetaldehyde_ppm = 999.0f64.to_bits();
    tel.ethanol_ppm = 9999.0f64.to_bits();

    let verdict = stage5_refusal_contract(&scene, &scene, &cfg, &tel, &policy);
    assert!(!verdict.ok);
    assert_eq!(verdict.findings.len(), 1);
    assert_eq!(verdict.findings[0].class, ContaminationClass::ChemicalSpike);
    assert_eq!(
        verdict.findings[0].detail,
        "Chemical spike exceeds policy thresholds"
    );
}

#[test]
fn thresholds_are_strict_comparisons() {
    let scene = mk_scene();
    let policy = mk_policy();
    // Readings exactly at their bounds do not fire; the floor exactly at
    // its minimum does not fire either.
    let mut cfg = mk_cfg();
    cfg.kaiser_floor = 0.985f64.to_bits();
    let mut tel = mk_clean_tel();
    tel.acetaldehyde_ppm = 50.0f64.to_bits();
    tel.ethanol_ppm = 500.0f64.to_bits();
    tel.instrument_drift_mm = 0.000001f64.to_bits();

    let verdict = stage5_refusal_contract(&scene, &scene, &cfg, &tel, &policy);
    assert!(verdict.ok);
    assert!(verdict.findings.is_empty());
}

#[test]
fn drift_and_floor_breach_fire_in_emission_order() {
    let scene = mk_scene();
    let policy = mk_policy();
    let mut cfg = mk_cfg();
    cfg.kaiser_floor = 0.5f64.to_bits();
    let mut tel = mk_clean_tel();
    tel.instrument_drift_mm = 5.0f64.to_bits();

    let verdict = stage5_refusal_contract(&scene, &scene, &cfg, &tel, &policy);
    assert!(!verdict.ok);
    assert_eq!(verdict.findings.len(), 2);
    assert_eq!(verdict.findings[0].class, ContaminationClass::InstrumentDrift);
    assert_eq!(
        verdict.findings[0].detail,
        "Instrument drift exceeds policy threshold"
    );
    assert_eq!(verdict.findings[1].class, ContaminationClass::InstrumentDrift);
    assert_eq!(
        verdict.findings[1].detail,
        "Kaiser floor below minimum (spectral firewall weakened)"
    );
}

#[test]
fn zeroed_anchors_give_two_lineage_findings() {
    let mut scene = mk_scene();
    scene.prev_root = [0u8; 32];
    scene.merkle_root = [0u8; 32];
    let cfg = mk_cfg();
    let policy = mk_policy();
    let tel = mk_clean_tel();

    let verdict = stage5_refusal_contract(&scene, &scene, &cfg, &tel, &policy);
    assert!(!verdict.ok);
    assert_eq!(verdict.findings.len(), 2);
    assert_eq!(verdict.findings[0].class, ContaminationClass::LineageBreak);
    assert_eq!(
        verdict.findings[0].detail,
        "Merkle anchors are zeroed (lineage undefined)"
    );
    assert_eq!(verdict.findings[1].class, ContaminationClass::LineageBreak);
    assert_eq!(
        verdict.findings[1].detail,
        "prev_root equals merkle_root (degenerate linkage)"
    );
}

#[test]
fn equal_nonzero_anchors_give_one_lineage_finding() {
    let mut scene = mk_scene();
    scene.prev_root = [7u8; 32];
    scene.merkle_root = [7u8; 32];
    let cfg = mk_cfg();
    let policy = mk_policy();
    let tel = mk_clean_tel();

    let verdict = stage5_refusal_contract(&scene, &scene, &cfg, &tel, &policy);
    assert!(!verdict.ok);
    assert_eq!(verdict.findings.len(), 1);
    assert_eq!(verdict.findings[0].class, ContaminationClass::LineageBreak);
    assert_eq!(
        verdict.findings[0].detail,
        "prev_root equals merkle_root (degenerate linkage)"
    );
}

#[test]
fn biological_intrusion_flag_halts() {
    let scene = mk_scene();
    let cfg = mk_cfg();
    let policy = mk_policy();
    let mut tel = mk_clean_tel();
    tel.biological_intrusion_flag = true;

    let verdict = stage5_refusal_contract(&scene, &scene, &cfg, &tel, &policy);
    assert!(!verdict.ok);
    assert_eq!(verdict.findings.len(), 1);
    assert_eq!(
        verdict.findings[0].class,
        ContaminationClass::BiologicalIntrusion
    );
    assert_eq!(verdict.findings[0].detail, "Biological intrusion flag asserted");
}

#[test]
fn worldline_telemetry_flag_halts() {
    let scene = mk_scene();
    let cfg = mk_cfg();
    let policy = mk_policy();
    let mut tel = mk_clean_tel();
    tel.worldline_impossible_flag = true;

    let verdict = stage5_refusal_contract(&scene, &scene, &cfg, &tel, &policy);
    assert!(!verdict.ok);
    assert_eq!(verdict.findings.len(), 1);
    assert_eq!(
        verdict.findings[0].class,
        ContaminationClass::WorldlineImpossibility
    );
    assert_eq!(
        verdict.findings[0].detail,
        "Impossible worldline flagged (Stage 3 abortion)"
    );
}

#[test]
fn findings_come_out_in_class_priority_order() {
    // Fire biological, chemical and both lineage guards at once; the list
    // must come out biological, chemical, lineage, lineage.
    let mut scene = mk_scene();
    scene.prev_root = [0u8; 32];
    scene.merkle_root = [0u8; 32];
    let cfg = mk_cfg();
    let policy = mk_policy();
    let mut tel = mk_clean_tel();
    tel.biological_intrusion_flag = true;
    tel.ethanol_ppm = 1000.0f64.to_bits();

    let verdict = stage5_refusal_contract(&scene, &scene, &cfg, &tel, &policy);
    assert!(!verdict.ok);
    let classes: Vec<ContaminationClass> = verdict.findings.iter().map(|f| f.class).collect();
    assert_eq!(
        classes,
        vec![
            ContaminationClass::BiologicalIntrusion,
            ContaminationClass::ChemicalSpike,
            ContaminationClass::LineageBreak,
            ContaminationClass::LineageBreak,
        ]
    );
    assert_eq!(
        verdict.findings[2].detail,
        "Merkle anchors are zeroed (lineage undefined)"
    );
    assert_eq!(
        verdict.findings[3].detail,
        "prev_root equals merkle_root (degenerate linkage)"
    );
}

#[test]
fn mutation_and_worldline_keep_emission_order() {
    let before = mk_scene();
    let mut after = mk_scene();
    after.finality_tag = "2026.GOLD.BROKEN".to_string();
    let cfg = mk_cfg();
    let policy = mk_policy();
    let mut tel = mk_clean_tel();
    tel.worldline_impossible_flag = true;

    let verdict = stage5_refusal_contract(&before, &after, &cfg, &tel, &policy);
    assert!(!verdict.ok);
    assert_eq!(verdict.findings.len(), 2);
    assert_eq!(
        verdict.findings[0].detail,
        "SceneCapsule mutated under refusal path (before != after)"
    );
    assert_eq!(
        verdict.findings[1].detail,
        "Impossible worldline flagged (Stage 3 abortion)"
    );
}

#[test]
fn repeated_calls_are_bit_identical() {
    let mut scene = mk_scene();
    scene.prev_root = [0u8; 32];
    scene.merkle_root = [0u8; 32];
    let cfg = mk_cfg();
    let policy = mk_policy();
    let mut tel = mk_clean_tel();
    tel.acetaldehyde_ppm = 999.0f64.to_bits();
    tel.biological_intrusion_flag = true;

    let first = stage5_refusal_contract(&scene, &scene, &cfg, &tel, &policy);
    let second = stage5_refusal_contract(&scene, &scene, &cfg, &tel, &policy);
    assert_eq!(first, second);
}
