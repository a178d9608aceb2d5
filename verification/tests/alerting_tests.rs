use sinan_backend::alerting::{alert_level, alert_step, AlertAction, AlertLevel, AlertPhase, AlertStepEvent};
use sinan_backend::messaging::PublishOutcome;

#[test]
fn levels_follow_the_two_thresholds() {
    assert_eq!(alert_level(false, false), None);
    assert_eq!(alert_level(false, true), None);
    assert_eq!(alert_level(true, false), Some(AlertLevel::Warning));
    assert_eq!(alert_level(true, true), Some(AlertLevel::Critical));
    assert_eq!(AlertLevel::Warning.as_str(), "WARNING");
    assert_eq!(AlertLevel::Critical.as_str(), "CRITICAL");
}

#[test]
fn a_delivered_alert_is_stored_published_then_marked() {
    let (p, a) = alert_step(AlertPhase::Evaluating, AlertStepEvent::Evaluated { exceeds_warning: true, exceeds_critical: true });
    assert_eq!((p, a), (AlertPhase::Storing, AlertAction::Store(AlertLevel::Critical)));
    let (p, a) = alert_step(p, AlertStepEvent::Stored { ok: true });
    assert_eq!((p, a), (AlertPhase::Publishing, AlertAction::Publish));
    let (p, a) = alert_step(p, AlertStepEvent::Published(PublishOutcome::Delivered));
    assert_eq!((p, a), (AlertPhase::Marking, AlertAction::MarkPublished));
    let (p, a) = alert_step(p, AlertStepEvent::Marked);
    assert_eq!((p, a), (AlertPhase::Done, AlertAction::Finish));
}

#[test]
fn failures_stop_the_handling() {
    let quiet = alert_step(AlertPhase::Evaluating, AlertStepEvent::Evaluated { exceeds_warning: false, exceeds_critical: true });
    assert_eq!(quiet, (AlertPhase::Done, AlertAction::Finish));
    assert_eq!(alert_step(AlertPhase::Storing, AlertStepEvent::Stored { ok: false }), (AlertPhase::Done, AlertAction::Finish));
    for outcome in [PublishOutcome::Skipped, PublishOutcome::Failed] {
        assert_eq!(alert_step(AlertPhase::Publishing, AlertStepEvent::Published(outcome)), (AlertPhase::Done, AlertAction::Finish));
    }
    assert_eq!(alert_step(AlertPhase::Done, AlertStepEvent::Marked), (AlertPhase::Done, AlertAction::Finish));
    assert_eq!(alert_step(AlertPhase::Storing, AlertStepEvent::Marked), (AlertPhase::Done, AlertAction::Finish));
}
