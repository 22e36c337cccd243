use vstd::prelude::*;
use crate::friend::Friend;
use crate::status::FriendStatus;

verus! {

/// Global settings shared by every watched friend.
#[derive(Clone, Copy, Debug, PartialEq, Eq, Structural)]
pub struct Settings {
    /// Whether a successful check also shows an OS notification.
    pub native_notification: bool,
    /// Playback volume, 0 to 100.
    pub volume: u8,
    /// Whether `Away` counts as activating.
    pub notify_away_status: bool,
    /// Whether `InGame` counts as activating.
    pub notify_in_game_status: bool,
}

impl Settings {
    pub open spec fn wf(&self) -> bool {
        self.volume <= 100
    }
}

impl Default for Settings {
    fn default() -> (r: Settings)
        ensures
            !r.native_notification,
            r.volume == 100,
            !r.notify_away_status,
            r.notify_in_game_status,
    {
        Settings {
            native_notification: false,
            volume: 100,
            notify_away_status: false,
            notify_in_game_status: true,
        }
    }
}

/// A status that, under the settings, should lead to a notification.
pub open spec fn is_activating(s: FriendStatus, settings: Settings) -> bool {
    ||| s == FriendStatus::Online
    ||| (settings.notify_away_status && s == FriendStatus::Away)
    ||| (settings.notify_in_game_status && s == FriendStatus::InGame)
}

/// A status that the settings switched off as a trigger.
pub open spec fn is_ignored(s: FriendStatus, settings: Settings) -> bool {
    ||| (s == FriendStatus::Away && !settings.notify_away_status)
    ||| (s == FriendStatus::InGame && !settings.notify_in_game_status)
}

/// A transition across the activating / non-activating boundary.
pub open spec fn is_meaningful(from: FriendStatus, to: FriendStatus, settings: Settings) -> bool {
    is_activating(from, settings) != is_activating(to, settings)
}

/// What the policy asks for on a status report.
#[derive(Clone, Copy, Debug, PartialEq, Eq, Structural)]
pub enum Action {
    /// Nothing to do.
    Idle,
    /// Schedule a delayed check after this many seconds.
    ArmTimer(u16),
}

/// The policy's answer when `friend` is reported with status `to`.
///
/// A disabled friend is never acted on. An enabled one gets a delayed check
/// on a meaningful change into a status that is not ignored, unless a check
/// carrying its current token is already outstanding: that one decides.
pub open spec fn decision(friend: Friend, to: FriendStatus, settings: Settings) -> Action {
    if friend.enabled && !friend.timer_pending && is_meaningful(friend.status, to, settings)
        && !is_ignored(to, settings) {
        Action::ArmTimer(friend.notify_timer)
    } else {
        Action::Idle
    }
}

/// The policy's answer when the watch of `friend` is (re)armed while its last
/// known status stays as it is: a delayed check if that status activates.
pub open spec fn arm_decision(friend: Friend, settings: Settings) -> Action {
    if friend.enabled && is_activating(friend.status, settings) {
        Action::ArmTimer(friend.notify_timer)
    } else {
        Action::Idle
    }
}

/// Whether a delayed check that carries the current token notifies: the
/// friend is still watched and its status still activates.
pub open spec fn fire_holds(friend: Friend, settings: Settings) -> bool {
    friend.enabled && is_activating(friend.status, settings)
}

pub fn activating(s: FriendStatus, settings: &Settings) -> (r: bool)
    ensures
        r == is_activating(s, *settings),
{
    match s {
        FriendStatus::Online => true,
        FriendStatus::Away => settings.notify_away_status,
        FriendStatus::InGame => settings.notify_in_game_status,
        _ => false,
    }
}

pub fn ignored(s: FriendStatus, settings: &Settings) -> (r: bool)
    ensures
        r == is_ignored(s, *settings),
{
    match s {
        FriendStatus::Away => !settings.notify_away_status,
        FriendStatus::InGame => !settings.notify_in_game_status,
        _ => false,
    }
}

/// Decides what a status report for `friend` asks for.
pub fn decide(friend: &Friend, to: FriendStatus, settings: &Settings) -> (r: Action)
    ensures
        r == decision(*friend, to, *settings),
{
    let meaningful = activating(friend.status, settings) != activating(to, settings);
    if friend.enabled && !friend.timer_pending && meaningful && !ignored(to, settings) {
        Action::ArmTimer(friend.notify_timer)
    } else {
        Action::Idle
    }
}

/// Decides what (re)arming the watch of `friend` asks for.
pub fn decide_on_arm(friend: &Friend, settings: &Settings) -> (r: Action)
    ensures
        r == arm_decision(*friend, *settings),
{
    if friend.enabled && activating(friend.status, settings) {
        Action::ArmTimer(friend.notify_timer)
    } else {
        Action::Idle
    }
}

/// Re-validates a delayed check whose token is current.
pub fn check_fire(friend: &Friend, settings: &Settings) -> (r: bool)
    ensures
        r == fire_holds(*friend, *settings),
{
    friend.enabled && activating(friend.status, settings)
}

} // verus!
