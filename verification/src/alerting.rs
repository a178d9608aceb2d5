//! The decisions taken when a pointing deviation is evaluated: whether it raises an
//! alert and at which level, then storing it, delivering it to the broker and marking it
//! delivered, each step only after the one before it succeeded.
//!
//! The deviation and its thresholds are compared by the caller; the step function takes
//! the two comparisons as booleans.

use vstd::prelude::*;
use crate::messaging::PublishOutcome;

verus! {

/// The severity of a pointing-deviation alert.
#[derive(Clone, Copy, Debug, PartialEq, Eq, Structural)]
pub enum AlertLevel {
    Warning,
    Critical,
}

impl AlertLevel {
    pub open spec fn spec_text(self) -> Seq<char> {
        match self {
            AlertLevel::Warning => "WARNING"@,
            AlertLevel::Critical => "CRITICAL"@,
        }
    }

    /// The level as it is stored and published.
    pub fn as_str(&self) -> (text: &'static str)
        ensures
            text@ == self.spec_text(),
    {
        match self {
            AlertLevel::Warning => "WARNING",
            AlertLevel::Critical => "CRITICAL",
        }
    }
}

/// No alert unless the deviation exceeds the warning threshold; critical when it also
/// exceeds the critical threshold.
pub open spec fn spec_alert_level(exceeds_warning: bool, exceeds_critical: bool) -> Option<AlertLevel> {
    if !exceeds_warning {
        None
    } else if exceeds_critical {
        Some(AlertLevel::Critical)
    } else {
        Some(AlertLevel::Warning)
    }
}

/// The level of the alert a deviation raises, if any.
pub fn alert_level(exceeds_warning: bool, exceeds_critical: bool) -> (level: Option<AlertLevel>)
    ensures
        level == spec_alert_level(exceeds_warning, exceeds_critical),
{
    if !exceeds_warning {
        None
    } else if exceeds_critical {
        Some(AlertLevel::Critical)
    } else {
        Some(AlertLevel::Warning)
    }
}

/// Where the handling of one evaluated deviation stands.
#[derive(Clone, Copy, Debug, PartialEq, Eq, Structural)]
pub enum AlertPhase {
    /// The deviation has not been compared yet.
    Evaluating,
    /// The alert is being stored.
    Storing,
    /// The stored alert is being delivered to the broker.
    Publishing,
    /// The delivered alert is being marked as delivered.
    Marking,
    /// Nothing more is done.
    Done,
}

/// What the caller reports back after doing the previous action.
#[derive(Clone, Copy, Debug, PartialEq, Eq, Structural)]
pub enum AlertStepEvent {
    /// The deviation was compared with the warning and critical thresholds.
    Evaluated { exceeds_warning: bool, exceeds_critical: bool },
    /// Storing the alert succeeded or failed.
    Stored { ok: bool },
    /// How the delivery to the broker ended.
    Published(PublishOutcome),
    /// The delivered mark was written (or could not be; the alert was delivered either way).
    Marked,
}

/// What the caller does next.
#[derive(Clone, Copy, Debug, PartialEq, Eq, Structural)]
pub enum AlertAction {
    /// Store a new alert of this level.
    Store(AlertLevel),
    /// Deliver the stored alert to the broker.
    Publish,
    /// Mark the stored alert as delivered.
    MarkPublished,
    /// Stop.
    Finish,
}

/// The next phase and action after `event` in `phase`. An event that does not belong to
/// the phase ends the handling.
pub open spec fn spec_alert_step(phase: AlertPhase, event: AlertStepEvent) -> (AlertPhase, AlertAction) {
    match (phase, event) {
        (AlertPhase::Evaluating, AlertStepEvent::Evaluated { exceeds_warning, exceeds_critical }) => {
            match spec_alert_level(exceeds_warning, exceeds_critical) {
                Some(level) => (AlertPhase::Storing, AlertAction::Store(level)),
                None => (AlertPhase::Done, AlertAction::Finish),
            }
        },
        (AlertPhase::Storing, AlertStepEvent::Stored { ok }) => if ok {
            (AlertPhase::Publishing, AlertAction::Publish)
        } else {
            (AlertPhase::Done, AlertAction::Finish)
        },
        (AlertPhase::Publishing, AlertStepEvent::Published(outcome)) => if outcome
            == PublishOutcome::Delivered {
            (AlertPhase::Marking, AlertAction::MarkPublished)
        } else {
            (AlertPhase::Done, AlertAction::Finish)
        },
        _ => (AlertPhase::Done, AlertAction::Finish),
    }
}

/// One step of handling an evaluated deviation.
pub fn alert_step(phase: AlertPhase, event: AlertStepEvent) -> (next: (AlertPhase, AlertAction))
    ensures
        next == spec_alert_step(phase, event),
{
    match (phase, event) {
        (AlertPhase::Evaluating, AlertStepEvent::Evaluated { exceeds_warning, exceeds_critical }) => {
            match alert_level(exceeds_warning, exceeds_critical) {
                Some(level) => (AlertPhase::Storing, AlertAction::Store(level)),
                None => (AlertPhase::Done, AlertAction::Finish),
            }
        },
        (AlertPhase::Storing, AlertStepEvent::Stored { ok }) => if ok {
            (AlertPhase::Publishing, AlertAction::Publish)
        } else {
            (AlertPhase::Done, AlertAction::Finish)
        },
        (AlertPhase::Publishing, AlertStepEvent::Published(outcome)) => match outcome {
            PublishOutcome::Delivered => (AlertPhase::Marking, AlertAction::MarkPublished),
            _ => (AlertPhase::Done, AlertAction::Finish),
        },
        _ => (AlertPhase::Done, AlertAction::Finish),
    }
}

/// The order of the steps: an alert is stored only when the deviation exceeds the
/// warning threshold, at the level the comparisons give; it is delivered only after it
/// was stored; it is marked delivered only after the broker accepted it; and once done,
/// nothing more happens.
pub proof fn lemma_alert_steps_in_order(phase: AlertPhase, event: AlertStepEvent)
    ensures
        spec_alert_step(phase, event).1 matches AlertAction::Store(level) ==> (phase
            == AlertPhase::Evaluating && event is Evaluated && event->exceeds_warning && level == (
        if event->exceeds_critical {
            AlertLevel::Critical
        } else {
            AlertLevel::Warning
        })),
        spec_alert_step(phase, event).1 == AlertAction::Publish ==> phase == AlertPhase::Storing
            && event == (AlertStepEvent::Stored { ok: true }),
        spec_alert_step(phase, event).1 == AlertAction::MarkPublished ==> phase
            == AlertPhase::Publishing && event == AlertStepEvent::Published(
            PublishOutcome::Delivered,
        ),
        phase == AlertPhase::Done ==> spec_alert_step(phase, event) == (
            AlertPhase::Done,
            AlertAction::Finish,
        ),
{
}

/// A deviation raises an alert exactly when it exceeds the warning threshold: critical
/// when it also exceeds the critical threshold, a warning otherwise.
pub proof fn lemma_alert_level_by_thresholds(exceeds_warning: bool, exceeds_critical: bool)
    ensures
        spec_alert_level(exceeds_warning, exceeds_critical) is Some <==> exceeds_warning,
        spec_alert_level(exceeds_warning, exceeds_critical) == Some(AlertLevel::Critical) <==> (
        exceeds_warning && exceeds_critical),
        spec_alert_level(exceeds_warning, exceeds_critical) == Some(AlertLevel::Warning) <==> (
        exceeds_warning && !exceeds_critical),
{
}

/// Each step does what the one before it allows, and only that: an evaluated deviation
/// above the warning threshold is stored at its level and anything else ends the
/// handling; a stored alert is delivered exactly when storing succeeded; a delivered
/// alert is marked exactly when the broker accepted it; after marking, the handling
/// ends.
pub proof fn lemma_alert_step_outcomes(exceeds_warning: bool, exceeds_critical: bool, ok: bool, outcome: PublishOutcome)
    ensures
        spec_alert_step(
            AlertPhase::Evaluating,
            AlertStepEvent::Evaluated { exceeds_warning, exceeds_critical },
        ) == if exceeds_warning {
            (
                AlertPhase::Storing,
                AlertAction::Store(
                    if exceeds_critical {
                        AlertLevel::Critical
                    } else {
                        AlertLevel::Warning
                    },
                ),
            )
        } else {
            (AlertPhase::Done, AlertAction::Finish)
        },
        spec_alert_step(AlertPhase::Storing, AlertStepEvent::Stored { ok }) == if ok {
            (AlertPhase::Publishing, AlertAction::Publish)
        } else {
            (AlertPhase::Done, AlertAction::Finish)
        },
        spec_alert_step(AlertPhase::Publishing, AlertStepEvent::Published(outcome)) == if outcome
            == PublishOutcome::Delivered {
            (AlertPhase::Marking, AlertAction::MarkPublished)
        } else {
            (AlertPhase::Done, AlertAction::Finish)
        },
        spec_alert_step(AlertPhase::Marking, AlertStepEvent::Marked) == (
            AlertPhase::Done,
            AlertAction::Finish,
        ),
{
}

/// A warning is stored and published as `WARNING`, a critical alert as `CRITICAL`.
pub proof fn lemma_alert_level_texts()
    ensures
        AlertLevel::Warning.spec_text() == "WARNING"@,
        AlertLevel::Critical.spec_text() == "CRITICAL"@,
{
}

} // verus!
