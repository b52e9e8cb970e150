//! The environment sanitizer's plan: which ambient capabilities to strip
//! from a fresh evaluation context, which shared prototypes to freeze,
//! and which replacements to install, in an order that is safe to apply.
//!
//! Removals come first, then the freezes, then the installations of the
//! replacement console and the fetch binding — installing onto a frozen
//! target would fail, so every freeze must precede every installation.
use vstd::prelude::*;

verus! {

/// One step of sanitizing a fresh evaluation context.
#[derive(Debug, PartialEq)]
pub enum SanitizeStep {
    /// Delete this global binding; its absence is not an error.
    RemoveGlobal(String),
    /// Freeze this shared prototype object.
    FreezePrototype(String),
    /// Install the replacement console that records to the transcript.
    InstallConsole,
    /// Install the policy-checked fetch binding.
    InstallFetch,
}

/// A plan applies cleanly when every removal precedes every freeze and
/// every freeze precedes every installation.
pub open spec fn spec_plan_ordered(steps: Seq<SanitizeStep>) -> bool {
    forall|i: int, j: int|
        0 <= i < j < steps.len() ==> !((#[trigger] steps[i] matches SanitizeStep::FreezePrototype(
            _,
        ) && #[trigger] steps[j] matches SanitizeStep::RemoveGlobal(_)) || ((steps[i] matches
        SanitizeStep::InstallConsole || steps[i] matches SanitizeStep::InstallFetch) && !(steps[j]
        matches SanitizeStep::InstallConsole || steps[j] matches SanitizeStep::InstallFetch)))
}

/// The sanitizer's fixed plan: strip the code-loading and timer globals,
/// freeze the object and array prototypes, then install the replacement
/// console and the fetch binding.
pub fn sanitize_plan() -> (r: Vec<SanitizeStep>)
    ensures
        r@.len() == 8,
        r@[0] matches SanitizeStep::RemoveGlobal(g) && g@ == "eval"@,
        r@[1] matches SanitizeStep::RemoveGlobal(g) && g@ == "Function"@,
        r@[2] matches SanitizeStep::RemoveGlobal(g) && g@ == "setTimeout"@,
        r@[3] matches SanitizeStep::RemoveGlobal(g) && g@ == "setInterval"@,
        r@[4] matches SanitizeStep::FreezePrototype(p) && p@ == "Object.prototype"@,
        r@[5] matches SanitizeStep::FreezePrototype(p) && p@ == "Array.prototype"@,
        r@[6] is InstallConsole,
        r@[7] is InstallFetch,
        spec_plan_ordered(r@),
{
    let mut steps: Vec<SanitizeStep> = Vec::new();
    steps.push(SanitizeStep::RemoveGlobal(String::from_str("eval")));
    steps.push(SanitizeStep::RemoveGlobal(String::from_str("Function")));
    steps.push(SanitizeStep::RemoveGlobal(String::from_str("setTimeout")));
    steps.push(SanitizeStep::RemoveGlobal(String::from_str("setInterval")));
    steps.push(SanitizeStep::FreezePrototype(String::from_str("Object.prototype")));
    steps.push(SanitizeStep::FreezePrototype(String::from_str("Array.prototype")));
    steps.push(SanitizeStep::InstallConsole);
    steps.push(SanitizeStep::InstallFetch);
    steps
}

} // verus!
