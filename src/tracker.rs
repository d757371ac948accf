use vstd::prelude::*;

use crate::message::{NoticeView, Notification};
use crate::notice::{
    status_notice, status_notification, tier_notice, tier_notification, with_percent,
};
use crate::reading::{capacity_tier, tier_of, BatteryReading, CapacityTier, ChargeStatus};

verus! {

/// What the watcher last saw: `None` until the first reading.
#[derive(Clone, Copy, Debug, PartialEq, Eq)]
pub struct TrackedState {
    pub last_status: Option<ChargeStatus>,
    pub last_tier: Option<CapacityTier>,
}

impl TrackedState {
    /// The state before any reading.
    pub fn new() -> (s: TrackedState)
        ensures
            s.last_status is None,
            s.last_tier is None,
    {
        TrackedState { last_status: None, last_tier: None }
    }
}

/// The notification of an option, as a sequence of zero or one.
pub open spec fn as_seq(n: Option<NoticeView>) -> Seq<NoticeView> {
    match n {
        Some(v) => seq![v],
        None => Seq::empty(),
    }
}

/// Whether `now` differs from what was seen last.
pub open spec fn changed<T>(last: Option<T>, now: T) -> bool {
    last != Some(now)
}

/// Whether a reading has the charging state's "Battery Full" notification
/// go out: the state has just turned full.
pub open spec fn full_announced(s: TrackedState, r: BatteryReading) -> bool {
    changed(s.last_status, r.status) && r.status == ChargeStatus::Full
}

/// The notifications that a reading calls for: one for a new charging state,
/// then one for a new capacity tier, each where its value has one. A full
/// tier is not announced a second time where the charging state has just
/// turned full.
pub open spec fn notices(s: TrackedState, r: BatteryReading) -> Seq<NoticeView> {
    let tier = tier_of(r.charge as nat);
    let for_status = if changed(s.last_status, r.status) {
        as_seq(status_notice(r.status, r.charge as nat))
    } else {
        Seq::empty()
    };
    let for_tier = if changed(s.last_tier, tier) {
        as_seq(tier_notice(tier, full_announced(s, r), r.charge as nat))
    } else {
        Seq::empty()
    };
    for_status + for_tier
}

/// `out` holds exactly the notifications `expected`, in that order.
pub open spec fn shows(out: Seq<Notification>, expected: Seq<NoticeView>) -> bool {
    &&& out.len() == expected.len()
    &&& forall|i: int| 0 <= i < out.len() ==> (#[trigger] out[i])@ == expected[i]
}

/// What the watcher has seen after a reading.
pub open spec fn seen_after(r: BatteryReading) -> TrackedState {
    TrackedState { last_status: Some(r.status), last_tier: Some(tier_of(r.charge as nat)) }
}

fn push_opt(out: &mut Vec<Notification>, n: Option<Notification>)
    ensures
        final(out)@.map_values(|x: Notification| x@) == old(out)@.map_values(
            |x: Notification| x@,
        ) + as_seq(crate::notice::opt_view(n)),
{
    let ghost before = out@;
    match n {
        Some(n) => {
            out.push(n);
            assert(out@.map_values(|x: Notification| x@) =~= before.map_values(
                |x: Notification| x@,
            ).push(n@));
        },
        None => {
            assert(out@.map_values(|x: Notification| x@) =~= before.map_values(
                |x: Notification| x@,
            ) + Seq::<NoticeView>::empty());
        },
    }
}

/// Compares a reading with what was seen last, returns the notifications
/// that it calls for, and records the reading as seen.
pub fn evaluate(reading: &BatteryReading, state: &mut TrackedState) -> (out: Vec<Notification>)
    ensures
        shows(out@, notices(*old(state), *reading)),
        *final(state) == seen_after(*reading),
{
    let mut out: Vec<Notification> = Vec::new();
    assert(out@.map_values(|x: Notification| x@) =~= Seq::<NoticeView>::empty());
    let status = reading.status;
    let status_changed = match state.last_status {
        Some(last) => last != status,
        None => true,
    };
    if status_changed {
        push_opt(&mut out, status_notification(status, reading.charge));
        state.last_status = Some(status);
    }
    let tier = capacity_tier(reading.charge);
    let tier_changed = match state.last_tier {
        Some(last) => last != tier,
        None => true,
    };
    if tier_changed {
        let full_status_sent = status_changed && status == ChargeStatus::Full;
        push_opt(&mut out, tier_notification(tier, full_status_sent, reading.charge));
        state.last_tier = Some(tier);
    }
    assert(out@.map_values(|x: Notification| x@) =~= notices(*old(state), *reading));
    assert forall|i: int| 0 <= i < out@.len() implies #[trigger] out@[i]@ == notices(
        *old(state),
        *reading,
    )[i] by {
        assert(out@.map_values(|x: Notification| x@)[i] == out@[i]@);
    }
    out
}

/// Evaluating a reading a second time, with nothing read in between, calls
/// for no notification, whatever the state was before the first time (the
/// first time always leaves `seen_after(r)`).
pub proof fn lemma_evaluate_twice_is_quiet(r: BatteryReading)
    ensures
        notices(seen_after(r), r) == Seq::<NoticeView>::empty(),
{
    assert(notices(seen_after(r), r) =~= Seq::<NoticeView>::empty());
}

/// A full battery whose charging state has just turned full is announced
/// once, by the charging state's notification alone.
pub proof fn lemma_full_announced_once(s: TrackedState, r: BatteryReading)
    requires
        s.last_status != Some(ChargeStatus::Full),
        r.status == ChargeStatus::Full,
        r.charge >= crate::reading::FULL_LEVEL,
    ensures
        notices(s, r) == seq![status_notice(ChargeStatus::Full, r.charge as nat).unwrap()],
        notices(s, r)[0].0 == "Battery Full"@,
{
    assert(notices(s, r) =~= seq![status_notice(ChargeStatus::Full, r.charge as nat).unwrap()]);
}

/// Where the charging state was already full, a tier that turns full is
/// announced by the tier's own notification, once.
pub proof fn lemma_full_tier_announced_after_full_status(s: TrackedState, r: BatteryReading)
    requires
        s.last_status == Some(ChargeStatus::Full),
        s.last_tier != Some(CapacityTier::Full),
        r.status == ChargeStatus::Full,
        r.charge >= crate::reading::FULL_LEVEL,
    ensures
        notices(s, r) == seq![tier_notice(CapacityTier::Full, false, r.charge as nat).unwrap()],
        notices(s, r)[0].1 == with_percent("Battery is at "@, r.charge as nat, "%."@),
{
    assert(notices(s, r) =~= seq![tier_notice(CapacityTier::Full, false, r.charge as nat).unwrap()]);
}

} // verus!
