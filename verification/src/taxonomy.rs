//! The closed taxonomy the evaluator speaks: processing phases and
//! contamination classes, with the fixed priority that orders findings.

use vstd::prelude::*;

verus! {

/// A named processing stage of the surrounding state machine. The evaluator
/// itself only ever produces `Verifying` (proceed) or `Halted` (stop); the
/// other phases exist for the callers' own sequencing.
#[derive(Debug, Clone, Copy, PartialEq, Eq, Structural)]
pub enum ArmPhase {
    Orienting,
    Retrieving,
    Planning,
    Generating,
    Verifying,
    Correcting,
    Halted,
}

/// The contamination taxonomy: exactly five classes, a closed set. Adding a
/// class requires extending both this enumeration and `class_priority`.
#[derive(Debug, Clone, Copy, PartialEq, Eq, Structural)]
pub enum ContaminationClass {
    BiologicalIntrusion,
    ChemicalSpike,
    InstrumentDrift,
    LineageBreak,
    WorldlineImpossibility,
}

/// The fixed per-class priority that orders the findings of a verdict;
/// lower values sort first, and the gaps leave room for refinement without
/// renumbering.
pub open spec fn class_priority(c: ContaminationClass) -> int {
    match c {
        ContaminationClass::BiologicalIntrusion => 10,
        ContaminationClass::ChemicalSpike => 20,
        ContaminationClass::InstrumentDrift => 30,
        ContaminationClass::LineageBreak => 40,
        ContaminationClass::WorldlineImpossibility => 50,
    }
}

impl ContaminationClass {
    /// The canonical upper-snake display name of the class.
    pub open spec fn spec_display_name(self) -> Seq<char> {
        match self {
            ContaminationClass::BiologicalIntrusion => "BIOLOGICAL_INTRUSION"@,
            ContaminationClass::ChemicalSpike => "CHEMICAL_SPIKE"@,
            ContaminationClass::InstrumentDrift => "INSTRUMENT_DRIFT"@,
            ContaminationClass::LineageBreak => "LINEAGE_BREAK"@,
            ContaminationClass::WorldlineImpossibility => "WORLDLINE_IMPOSSIBILITY"@,
        }
    }

    /// Returns the canonical upper-snake display name of the class.
    pub fn display_name(&self) -> (r: &'static str)
        ensures
            r@ == self.spec_display_name(),
    {
        match self {
            ContaminationClass::BiologicalIntrusion => "BIOLOGICAL_INTRUSION",
            ContaminationClass::ChemicalSpike => "CHEMICAL_SPIKE",
            ContaminationClass::InstrumentDrift => "INSTRUMENT_DRIFT",
            ContaminationClass::LineageBreak => "LINEAGE_BREAK",
            ContaminationClass::WorldlineImpossibility => "WORLDLINE_IMPOSSIBILITY",
        }
    }
}

} // verus!
