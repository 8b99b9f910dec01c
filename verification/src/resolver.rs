//! The junction resolver: what the platform's answers about one path mean.
//!
//! Resolving a path takes up to two platform queries. The caller asks whether
//! the path is a junction and hands the answer to [`after_probe`]; only if
//! that asks for the target does the caller read it and hand the answer to
//! [`after_target`]. Neither query opens what the path leads to.

use vstd::prelude::*;
use crate::error::{AccessFailure, AccessStage, ErrorCategory, PlatformError};
use crate::path::NativePath;

verus! {

/// What resolving a path found.
#[derive(Clone, Debug, PartialEq, Eq)]
pub enum JunctionOutcome {
    /// The path is a junction that leads to the given target.
    IsJunction(NativePath),
    /// The path is no junction, or is not there at all.
    NotAJunction,
    /// No definitive answer could be had.
    AccessError(AccessFailure),
}

/// Where resolution stands once the junction test has been answered.
#[derive(Clone, Debug, PartialEq, Eq)]
pub enum ProbeStep {
    /// The path is a junction: its target has to be read next.
    NeedTarget,
    /// Nothing more to ask.
    Resolved(JunctionOutcome),
}

/// The step that follows an answer to the junction test.
pub open spec fn probe_step(answer: Result<bool, PlatformError>) -> ProbeStep {
    match answer {
        Ok(true) => ProbeStep::NeedTarget,
        Ok(false) => ProbeStep::Resolved(JunctionOutcome::NotAJunction),
        Err(cause) => if cause.denies_junction() {
            ProbeStep::Resolved(JunctionOutcome::NotAJunction)
        } else {
            ProbeStep::Resolved(
                JunctionOutcome::AccessError(
                    AccessFailure { stage: AccessStage::JunctionTest, cause },
                ),
            )
        },
    }
}

/// The outcome that follows an answer to the target query of a junction.
pub open spec fn target_outcome(answer: Result<NativePath, PlatformError>) -> JunctionOutcome {
    match answer {
        Ok(target) => JunctionOutcome::IsJunction(target),
        Err(cause) => JunctionOutcome::AccessError(
            AccessFailure { stage: AccessStage::TargetLookup, cause },
        ),
    }
}

/// The outcome of a whole resolution, given the platform's answer to the
/// junction test and the answer it gives to the target query.
pub open spec fn resolution(
    probe: Result<bool, PlatformError>,
    target: Result<NativePath, PlatformError>,
) -> JunctionOutcome {
    match probe_step(probe) {
        ProbeStep::NeedTarget => target_outcome(target),
        ProbeStep::Resolved(outcome) => outcome,
    }
}

/// Decides what the answer to the junction test means: a definite outcome,
/// or the need to read the junction's target.
pub fn after_probe(answer: Result<bool, PlatformError>) -> (step: ProbeStep)
    ensures
        step == probe_step(answer),
{
    match answer {
        Ok(is_junction) => {
            if is_junction {
                ProbeStep::NeedTarget
            } else {
                ProbeStep::Resolved(JunctionOutcome::NotAJunction)
            }
        },
        Err(cause) => match cause.category() {
            ErrorCategory::NotAReparsePoint => ProbeStep::Resolved(JunctionOutcome::NotAJunction),
            ErrorCategory::NoSuchAttribute => ProbeStep::Resolved(JunctionOutcome::NotAJunction),
            ErrorCategory::Other => ProbeStep::Resolved(
                JunctionOutcome::AccessError(
                    AccessFailure { stage: AccessStage::JunctionTest, cause },
                ),
            ),
        },
    }
}

/// Decides the outcome for a junction from the answer to its target query.
/// A failed query keeps the knowledge that the path is a junction.
pub fn after_target(answer: Result<NativePath, PlatformError>) -> (outcome: JunctionOutcome)
    ensures
        outcome == target_outcome(answer),
{
    match answer {
        Ok(target) => JunctionOutcome::IsJunction(target),
        Err(cause) => JunctionOutcome::AccessError(
            AccessFailure { stage: AccessStage::TargetLookup, cause },
        ),
    }
}

/// Resolves a path from both answers at once, for a caller that has them.
/// The target answer is looked at only where the path is a junction.
pub fn resolve(
    probe: Result<bool, PlatformError>,
    target: Result<NativePath, PlatformError>,
) -> (outcome: JunctionOutcome)
    ensures
        outcome == resolution(probe, target),
{
    match after_probe(probe) {
        ProbeStep::NeedTarget => after_target(target),
        ProbeStep::Resolved(outcome) => outcome,
    }
}

/// A path that the platform reports as no junction, as no reparse point or
/// as absent resolves to `NotAJunction`, whatever a target query would say.
pub proof fn plain_path_is_not_a_junction(
    probe: Result<bool, PlatformError>,
    target: Result<NativePath, PlatformError>,
)
    requires
        probe == Ok::<bool, PlatformError>(false) || (probe is Err
            && probe->Err_0.denies_junction()),
    ensures
        probe_step(probe) == ProbeStep::Resolved(JunctionOutcome::NotAJunction),
        resolution(probe, target) == JunctionOutcome::NotAJunction,
{
}

/// A junction whose target the platform reads as `target` resolves to
/// `IsJunction(target)`, the target unchanged.
pub proof fn junction_resolves_to_its_target(target: NativePath)
    ensures
        resolution(Ok(true), Ok(target)) == JunctionOutcome::IsJunction(target),
{
}

/// An access error is never taken for a negative answer: resolution ends in
/// `AccessError` exactly when the junction test failed with an error that
/// does not deny a junction, or the target of a junction could not be read.
pub proof fn access_error_is_kept_apart(
    probe: Result<bool, PlatformError>,
    target: Result<NativePath, PlatformError>,
)
    ensures
        resolution(probe, target) is AccessError <==> (probe is Err
            && !probe->Err_0.denies_junction()) || (probe == Ok::<bool, PlatformError>(true)
            && target is Err),
        resolution(probe, target) is IsJunction <==> probe == Ok::<bool, PlatformError>(true)
            && target is Ok,
{
}

} // verus!
