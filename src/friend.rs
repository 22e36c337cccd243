use vstd::prelude::*;
use crate::sounds::{sound_label, sound_path};
use crate::status::FriendStatus;

verus! {

/// Shortest delay, in seconds, between an activation and its notification.
pub const MIN_NOTIFY_TIMER: u16 = 5;

/// Longest delay, in seconds, between an activation and its notification.
pub const MAX_NOTIFY_TIMER: u16 = 100;

/// Relies on `uuid::Uuid::new_v4`: a random version-4 UUID, read as its
/// 128-bit big-endian value; used for friend identities and generation
/// tokens. Nothing is promised of the value.
#[verifier::external_body]
pub(crate) fn random_uuid() -> (r: u128) {
    uuid::Uuid::new_v4().as_u128()
}

/// A notification sound: its label in the catalog and the file it plays.
#[derive(Clone, Debug)]
pub struct Sound {
    pub label: String,
    pub path: String,
}

/// A watched friend.
///
/// `uuid` is the stable identity; `timer_id` is the generation token that a
/// delayed check carries and that must still be current when it fires.
/// `name` is the `name#tag` identity matched case-insensitively against the
/// presence source. `sound` is the catalog entry played on notification.
/// `timer_pending` records that a delayed check carrying the current token is
/// still outstanding.
#[derive(Clone, Debug)]
pub struct Friend {
    pub uuid: u128,
    pub timer_id: u128,
    pub enabled: bool,
    pub name: String,
    pub sound: Sound,
    pub is_repeat: bool,
    pub notify_timer: u16,
    pub status: FriendStatus,
    pub timer_pending: bool,
}

/// A delay that the watch accepts.
pub open spec fn valid_notify_timer(secs: u16) -> bool {
    MIN_NOTIFY_TIMER <= secs <= MAX_NOTIFY_TIMER
}

impl Friend {
    pub open spec fn wf(&self) -> bool {
        valid_notify_timer(self.notify_timer)
    }

    /// A new, disabled, offline friend with the given identity and token, an
    /// empty name, the first sound of the catalog and the shortest delay.
    pub fn with_ids(uuid: u128, timer_id: u128) -> (r: Friend)
        ensures
            r.wf(),
            r.uuid == uuid,
            r.timer_id == timer_id,
            !r.enabled,
            r.name@ == Seq::<char>::empty(),
            r.sound.label@ == sound_label(0),
            r.sound.path@ == sound_path(0),
            !r.is_repeat,
            r.notify_timer == MIN_NOTIFY_TIMER,
            r.status == FriendStatus::Offline,
            !r.timer_pending,
    {
        Friend {
            uuid,
            timer_id,
            enabled: false,
            name: String::new(),
            sound: Sound {
                label: "Sound 1".to_owned(),
                path: "assets/notification-1.mp3".to_owned(),
            },
            is_repeat: false,
            notify_timer: MIN_NOTIFY_TIMER,
            status: FriendStatus::Offline,
            timer_pending: false,
        }
    }
}

impl Default for Friend {
    /// A new friend with a random identity and token (see `with_ids`).
    fn default() -> (r: Friend)
        ensures
            r.wf(),
            !r.enabled,
            r.name@ == Seq::<char>::empty(),
            !r.is_repeat,
            r.notify_timer == MIN_NOTIFY_TIMER,
            r.status == FriendStatus::Offline,
            !r.timer_pending,
    {
        let uuid = random_uuid();
        let timer_id = random_uuid();
        Friend::with_ids(uuid, timer_id)
    }
}

/// Friends are told apart by their `uuid` alone: two friends may share a name.
impl PartialEq for Friend {
    fn eq(&self, other: &Friend) -> (r: bool) {
        self.uuid == other.uuid
    }
}

impl vstd::std_specs::cmp::PartialEqSpecImpl for Friend {
    open spec fn obeys_eq_spec() -> bool {
        true
    }

    open spec fn eq_spec(&self, other: &Friend) -> bool {
        self.uuid == other.uuid
    }
}

} // verus!
