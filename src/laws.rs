use vstd::prelude::*;
use crate::engine::{
    Effect, absent, all_offline, fire_effects, fired, observe_status, reconcile_effects,
    reconcile_one, timer_applied, with_status,
};
use crate::friend::Friend;
use crate::policy::{Action, Settings, arm_decision, decision, fire_holds, is_ignored, is_meaningful};
use crate::status::FriendStatus;

verus! {

/// `f` after a run of status reports, in order.
pub open spec fn after_reports(f: Friend, reports: Seq<FriendStatus>, settings: Settings) -> Friend
    decreases reports.len(),
{
    if reports.len() == 0 {
        f
    } else {
        observe_status(after_reports(f, reports.drop_last(), settings), reports.last(), settings)
    }
}

/// A lost connection leaves every friend offline, whatever its status was,
/// changes nothing else, and applying it again changes nothing more.
pub proof fn disconnect_forces_offline(fs: Seq<Friend>)
    ensures
        all_offline(fs).len() == fs.len(),
        forall|i: int| 0 <= i < fs.len() ==> (#[trigger] all_offline(fs)[i]).status == FriendStatus::Offline,
        forall|i: int| 0 <= i < fs.len() ==> all_offline(fs)[i] == with_status(fs[i], FriendStatus::Offline),
        all_offline(all_offline(fs)) == all_offline(fs),
{
    assert(all_offline(all_offline(fs)) =~= all_offline(fs));
}

/// A delayed check whose token is not the friend's current one changes
/// nothing and causes no effect, whatever happened in between.
pub proof fn stale_timer_is_silent(
    fs: Seq<Friend>,
    fs2: Seq<Friend>,
    effects: Seq<Effect>,
    uuid: u128,
    timer_id: u128,
    settings: Settings,
)
    requires
        timer_applied(fs, fs2, effects, uuid, timer_id, settings),
        forall|i: int| 0 <= i < fs.len() && fs[i].uuid == uuid ==> fs[i].timer_id != timer_id,
    ensures
        fs2 == fs,
        effects.len() == 0,
{
    if !absent(fs, uuid) {
        let i = choose|i: int| 0 <= i < fs.len() && fs[i].uuid == uuid;
        assert(fs[i].uuid == uuid);
    }
}

/// With `Away` not activating, leaving `Online` for `Away` and coming back are
/// both meaningful changes, yet the round trip arms exactly one check: going
/// `Away` is ignored, coming back `Online` arms.
pub proof fn away_round_trip_arms_once(f: Friend, settings: Settings)
    requires
        !settings.notify_away_status,
        f.enabled,
        !f.timer_pending,
        f.status == FriendStatus::Online,
    ensures
        is_meaningful(FriendStatus::Online, FriendStatus::Away, settings),
        is_meaningful(FriendStatus::Away, FriendStatus::Online, settings),
        is_ignored(FriendStatus::Away, settings),
        decision(f, FriendStatus::Away, settings) == Action::Idle,
        decision(observe_status(f, FriendStatus::Away, settings), FriendStatus::Online, settings)
            == Action::ArmTimer(f.notify_timer),
{
}

/// A friend whose watch is off is never acted on: no report in any run of
/// reports, no snapshot and no rearm arms a check for it.
pub proof fn disabled_is_silent(f: Friend, reports: Seq<FriendStatus>, settings: Settings)
    requires
        !f.enabled,
    ensures
        forall|k: int| 0 <= k < reports.len()
            ==> decision(#[trigger] after_reports(f, reports.take(k), settings), reports[k], settings) == Action::Idle,
        forall|ps: Seq<(String, String)>| #[trigger] reconcile_effects(f, ps, settings) == Seq::<Effect>::empty(),
        arm_decision(f, settings) == Action::Idle,
    decreases reports.len(),
{
    assert forall|k: int| 0 <= k < reports.len() implies !(#[trigger] after_reports(f, reports.take(k), settings)).enabled by {
        reports_keep_enabled(f, reports.take(k), settings);
    }
}

/// Status reports never change whether the watch is on.
pub proof fn reports_keep_enabled(f: Friend, reports: Seq<FriendStatus>, settings: Settings)
    ensures
        after_reports(f, reports, settings).enabled == f.enabled,
    decreases reports.len(),
{
    if reports.len() > 0 {
        reports_keep_enabled(f, reports.drop_last(), settings);
    }
}

/// A snapshot arms at most one check per friend, only for a watched friend
/// with none outstanding, and records it as outstanding: at most one check
/// per friend carries its current token.
pub proof fn snapshot_arms_at_most_once(f: Friend, ps: Seq<(String, String)>, settings: Settings)
    requires
        reconcile_effects(f, ps, settings).len() > 0,
    ensures
        f.enabled,
        !f.timer_pending,
        reconcile_effects(f, ps, settings)
            == seq![Effect::SpawnTimer { uuid: f.uuid, timer_id: f.timer_id, secs: f.notify_timer }],
        reconcile_one(f, ps, settings).timer_pending,
        reconcile_one(f, ps, settings).timer_id == f.timer_id,
{
}

/// A successful check of a repeating friend arms exactly one next check: the
/// last effect, with the friend's delay and the token current at firing; the
/// friend then has a check outstanding under that same token.
pub proof fn repeat_rearms_once(f: Friend, settings: Settings)
    requires
        fire_holds(f, settings),
        f.is_repeat,
    ensures
        fire_effects(f, settings).len() >= 2,
        fire_effects(f, settings).last()
            == (Effect::SpawnTimer { uuid: f.uuid, timer_id: f.timer_id, secs: f.notify_timer }),
        forall|k: int| 0 <= k < fire_effects(f, settings).len() - 1
            ==> !(#[trigger] fire_effects(f, settings)[k] is SpawnTimer),
        fired(f, settings).timer_pending,
        fired(f, settings).timer_id == f.timer_id,
{
}

} // verus!
