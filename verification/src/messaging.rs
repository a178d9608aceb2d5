//! Message-broker topics under which alerts and status updates are published.

use vstd::prelude::*;

verus! {

/// The alert type of a pointing-deviation alert.
pub const POINTING_DEVIATION_ALERT: &'static str = "POINTING_DEVIATION";

/// What `str::to_lowercase` returns for a text: its characters mapped to lowercase by the
/// Unicode `Lowercase` property.
pub uninterp spec fn lowercase_text(s: Seq<char>) -> Seq<char>;

/// Calls `str::to_lowercase`. The contract names its result and states nothing more of
/// it: Unicode case mapping is not restated here.
#[verifier::external_body]
fn to_lowercase(s: &str) -> (lowered: String)
    ensures
        lowered@ == lowercase_text(s@),
{
    s.to_lowercase()
}

/// The topic `suffix` under `base`: the base topic, a slash and the suffix.
pub fn subtopic(base: &str, suffix: &str) -> (topic: String)
    ensures
        topic@ == base@ + "/"@ + suffix@,
{
    let mut topic = String::from_str(base);
    topic.append("/");
    topic.append(suffix);
    topic
}

/// The topic of an alert: the lowercase alert type under the base topic.
pub fn alert_topic(base: &str, alert_type: &str) -> (topic: String)
    ensures
        topic@ == base@ + "/"@ + lowercase_text(alert_type@),
{
    let lowered = to_lowercase(alert_type);
    subtopic(base, lowered.as_str())
}

/// The topic of a device's status updates: `status/` and the device under the base topic.
pub fn status_topic(base: &str, device_id: &str) -> (topic: String)
    ensures
        topic@ == base@ + "/status/"@ + device_id@,
{
    let mut topic = String::from_str(base);
    topic.append("/status/");
    topic.append(device_id);
    topic
}

/// Whether a message can be published: the service is enabled and has a client.
pub fn can_publish(enabled: bool, has_client: bool) -> (ready: bool)
    ensures
        ready == (enabled && has_client),
{
    enabled && has_client
}

/// How an attempt to deliver an alert to the broker ended.
#[derive(Clone, Copy, Debug, PartialEq, Eq, Structural)]
pub enum PublishOutcome {
    /// The broker accepted the alert.
    Delivered,
    /// Publishing is disabled; nothing was sent.
    Skipped,
    /// The broker refused the alert or could not be reached.
    Failed,
}

/// The positions, in order, of the alerts not yet delivered.
pub open spec fn spec_undelivered(published: Seq<bool>) -> Seq<int>
    decreases published.len(),
{
    if published.len() == 0 {
        Seq::empty()
    } else if published.last() {
        spec_undelivered(published.drop_last())
    } else {
        spec_undelivered(published.drop_last()).push(published.len() - 1)
    }
}

/// The number of deliveries that succeeded.
pub open spec fn spec_delivered_count(outcomes: Seq<PublishOutcome>) -> nat
    decreases outcomes.len(),
{
    if outcomes.len() == 0 {
        0
    } else {
        spec_delivered_count(outcomes.drop_last()) + if outcomes.last() == PublishOutcome::Delivered {
            1nat
        } else {
            0nat
        }
    }
}

/// Chooses the alerts to send again: those whose `mqtt_published` flag is not set,
/// in the order they were given.
pub fn alerts_to_republish(published: &Vec<bool>) -> (positions: Vec<usize>)
    ensures
        positions@.map_values(|i: usize| i as int) == spec_undelivered(published@),
{
    let mut positions: Vec<usize> = Vec::new();
    let mut i: usize = 0;
    while i < published.len()
        invariant
            i <= published.len(),
            positions@.map_values(|k: usize| k as int) == spec_undelivered(published@.subrange(0, i as int)),
        decreases published.len() - i,
    {
        let ghost before = positions@;
        assert(published@.subrange(0, i + 1).drop_last() =~= published@.subrange(0, i as int));
        if !published[i] {
            positions.push(i);
            assert(positions@.map_values(|k: usize| k as int) =~= before.map_values(|k: usize| k as int).push(i as int));
        }
        i = i + 1;
    }
    assert(published@.subrange(0, published@.len() as int) =~= published@);
    positions
}

/// Counts the alerts that were delivered again.
pub fn delivered_count(outcomes: &Vec<PublishOutcome>) -> (count: usize)
    ensures
        count as nat == spec_delivered_count(outcomes@),
{
    let mut count: usize = 0;
    let mut i: usize = 0;
    while i < outcomes.len()
        invariant
            i <= outcomes.len(),
            count <= i,
            count as nat == spec_delivered_count(outcomes@.subrange(0, i as int)),
        decreases outcomes.len() - i,
    {
        assert(outcomes@.subrange(0, i + 1).drop_last() =~= outcomes@.subrange(0, i as int));
        if outcomes[i] == PublishOutcome::Delivered {
            count = count + 1;
        }
        i = i + 1;
    }
    assert(outcomes@.subrange(0, outcomes@.len() as int) =~= outcomes@);
    count
}

/// The delivered count is the number of outcomes that are deliveries: the outcomes
/// kept by a filter on `Delivered`; all of them when every delivery succeeded, none
/// when none did.
pub proof fn lemma_delivered_count_counts_deliveries(outcomes: Seq<PublishOutcome>)
    ensures
        spec_delivered_count(outcomes) == outcomes.filter(
            |o: PublishOutcome| o == PublishOutcome::Delivered,
        ).len(),
        (forall|i: int| 0 <= i < outcomes.len() ==> outcomes[i] == PublishOutcome::Delivered)
            ==> spec_delivered_count(outcomes) == outcomes.len(),
        (forall|i: int| 0 <= i < outcomes.len() ==> outcomes[i] != PublishOutcome::Delivered)
            ==> spec_delivered_count(outcomes) == 0,
    decreases outcomes.len(),
{
    reveal(Seq::filter);
    if outcomes.len() > 0 {
        let rest = outcomes.drop_last();
        lemma_delivered_count_counts_deliveries(rest);
        assert forall|i: int| 0 <= i < rest.len() implies rest[i] == outcomes[i] by {}
        if forall|i: int| 0 <= i < outcomes.len() ==> outcomes[i] == PublishOutcome::Delivered {
            assert(outcomes[outcomes.len() - 1] == PublishOutcome::Delivered);
        }
        if forall|i: int| 0 <= i < outcomes.len() ==> outcomes[i] != PublishOutcome::Delivered {
            assert(outcomes[outcomes.len() - 1] != PublishOutcome::Delivered);
        }
    }
}

/// An alert is chosen for another delivery exactly when it has not been delivered.
pub proof fn lemma_republish_exactly_undelivered(published: Seq<bool>, i: int)
    ensures
        spec_undelivered(published).contains(i) <==> (0 <= i < published.len() && !published[i]),
    decreases published.len(),
{
    if published.len() > 0 {
        let rest = published.drop_last();
        lemma_republish_exactly_undelivered(rest, i);
        if !published.last() {
            let s = spec_undelivered(rest);
            let t = s.push(published.len() - 1);
            if t.contains(i) && i != published.len() - 1 {
                let k = choose|k: int| 0 <= k < t.len() && #[trigger] t[k] == i;
                assert(s[k] == i);
            }
            if s.contains(i) {
                let k = choose|k: int| 0 <= k < s.len() && #[trigger] s[k] == i;
                assert(t[k] == i);
            }
            if i == published.len() - 1 {
                assert(t[s.len() as int] == i);
            }
        }
    }
}

/// The alerts to send again are listed in the order they were given: positions within
/// the list, strictly increasing, so each undelivered alert appears once.
pub proof fn lemma_republish_in_order(published: Seq<bool>)
    ensures
        forall|k: int|
            0 <= k < spec_undelivered(published).len() ==> 0 <= #[trigger] spec_undelivered(
                published,
            )[k] < published.len(),
        forall|j: int, k: int|
            0 <= j < k < spec_undelivered(published).len() ==> #[trigger] spec_undelivered(
                published,
            )[j] < #[trigger] spec_undelivered(published)[k],
    decreases published.len(),
{
    if published.len() > 0 {
        let rest = published.drop_last();
        lemma_republish_in_order(rest);
        let r = spec_undelivered(rest);
        let u = spec_undelivered(published);
        if published.last() {
            assert(u == r);
        } else {
            assert(u == r.push(published.len() - 1));
            assert forall|k: int| 0 <= k < u.len() implies 0 <= #[trigger] u[k] < published.len() by {
                if k < r.len() {
                    assert(u[k] == r[k]);
                }
            }
            assert forall|j: int, k: int| 0 <= j < k < u.len() implies #[trigger] u[j] < #[trigger] u[k] by {
                assert(u[j] == r[j]);
                if k < r.len() {
                    assert(u[k] == r[k]);
                }
            }
        }
    }
}

} // verus!
