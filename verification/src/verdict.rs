//! Findings and verdicts: the evaluator's only output.

use vstd::prelude::*;

use crate::taxonomy::ArmPhase;
use crate::taxonomy::ContaminationClass;

verus! {

/// One detected policy or integrity violation. The detail text always comes
/// from a small closed set of pre-written literals — never interpolated from
/// runtime values — so verdicts are fully deterministic and diffable.
#[derive(Debug, Clone, PartialEq, Eq)]
pub struct RefusalFinding {
    pub class: ContaminationClass,
    pub detail: &'static str,
}

impl View for RefusalFinding {
    type V = (ContaminationClass, Seq<char>);

    open spec fn view(&self) -> (ContaminationClass, Seq<char>) {
        (self.class, self.detail@)
    }
}

/// The evaluator's complete output: either proceed (`ok`, next phase
/// `Verifying`, no findings) or halt (`!ok`, next phase `Halted`, carrying
/// every applicable finding in class-priority order).
#[derive(Debug, Clone, PartialEq, Eq)]
pub struct RefusalVerdict {
    pub ok: bool,
    pub next_phase: ArmPhase,
    pub findings: Vec<RefusalFinding>,
}

/// The findings of a verdict, as the (class, detail text) pairs the
/// contracts speak of.
pub open spec fn findings_view(v: RefusalVerdict) -> Seq<(ContaminationClass, Seq<char>)> {
    v.findings@.map_values(|f: RefusalFinding| f@)
}

} // verus!
