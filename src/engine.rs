use vstd::prelude::*;
use crate::friend::{
    Friend, MAX_NOTIFY_TIMER, MIN_NOTIFY_TIMER, Sound, random_uuid, valid_notify_timer,
};
use crate::policy::{
    Action, Settings, arm_decision, check_fire, decide, decide_on_arm, decision, fire_holds,
};
use crate::status::{FriendStatus, status_of};
use crate::text::{fold_case, same_identity};

verus! {

/// Most friends the watch-list holds.
pub const MAX_FRIENDS: usize = 10;

/// Fewest friends the watch-list holds.
pub const MIN_FRIENDS: usize = 1;

/// A message into the reconciliation loop.
#[derive(Debug)]
pub enum GuiMessage {
    /// Whether the presence source is reachable.
    ClientStatus(bool),
    /// A snapshot: `(identity, raw availability)` for each reported player.
    FriendStatus(Vec<(String, String)>),
    /// A delayed check for friend `uuid`, armed with token `timer_id`, is due.
    TimerFired { uuid: u128, timer_id: u128 },
}

/// A command for the audio sink.
#[derive(Debug, PartialEq, Eq)]
pub enum SoundMessage {
    /// Play the sound file at this path.
    PlaySound(String),
    /// Set the playback volume, 0 to 100.
    SetVolume(u8),
}

/// A side effect that the reconciliation loop asks its collaborators for.
#[derive(Debug, PartialEq, Eq)]
pub enum Effect {
    /// Sleep `secs` seconds, then send `TimerFired { uuid, timer_id }` back.
    SpawnTimer { uuid: u128, timer_id: u128, secs: u16 },
    /// A command for the audio sink.
    Sound(SoundMessage),
    /// Show an OS notification that the named friend is online.
    ShowNotification(String),
}

/// `f` with its status replaced.
pub open spec fn with_status(f: Friend, s: FriendStatus) -> Friend {
    Friend { status: s, ..f }
}

/// Every friend forced offline.
pub open spec fn all_offline(fs: Seq<Friend>) -> Seq<Friend> {
    Seq::new(fs.len(), |i: int| with_status(fs[i], FriendStatus::Offline))
}

/// The timers that an action of the policy starts for `f`.
pub open spec fn arm_effects(f: Friend, a: Action) -> Seq<Effect> {
    match a {
        Action::Idle => Seq::empty(),
        Action::ArmTimer(secs) => seq![Effect::SpawnTimer { uuid: f.uuid, timer_id: f.timer_id, secs }],
    }
}

/// `f` after a report of status `to`: the status always follows the report,
/// and a timer armed by the policy is recorded as outstanding.
pub open spec fn observe_status(f: Friend, to: FriendStatus, settings: Settings) -> Friend {
    Friend {
        status: to,
        timer_pending: f.timer_pending || decision(f, to, settings) != Action::Idle,
        ..f
    }
}

/// Index of the first entry at or after `j` whose identity matches `name`
/// case-insensitively.
pub open spec fn match_index_from(ps: Seq<(String, String)>, name: Seq<char>, j: int) -> Option<int>
    decreases ps.len() - j,
{
    if j < 0 || j >= ps.len() {
        None
    } else if same_identity(ps[j].0@, name) {
        Some(j)
    } else {
        match_index_from(ps, name, j + 1)
    }
}

/// Index of the first snapshot entry whose identity matches `name`.
pub open spec fn match_index(ps: Seq<(String, String)>, name: Seq<char>) -> Option<int> {
    match_index_from(ps, name, 0)
}

/// `f` after a snapshot: a friend missing from it is forced offline without
/// asking the policy; a listed one takes the reported status.
pub open spec fn reconcile_one(f: Friend, ps: Seq<(String, String)>, settings: Settings) -> Friend {
    match match_index(ps, f.name@) {
        None => with_status(f, FriendStatus::Offline),
        Some(j) => observe_status(f, status_of(ps[j].1@), settings),
    }
}

/// The effects that a snapshot causes for `f`.
pub open spec fn reconcile_effects(f: Friend, ps: Seq<(String, String)>, settings: Settings) -> Seq<Effect> {
    match match_index(ps, f.name@) {
        None => Seq::empty(),
        Some(j) => arm_effects(f, decision(f, status_of(ps[j].1@), settings)),
    }
}

/// The effects that a snapshot causes, friend after friend.
pub open spec fn snapshot_effects(fs: Seq<Friend>, ps: Seq<(String, String)>, settings: Settings) -> Seq<Effect>
    decreases fs.len(),
{
    if fs.len() == 0 {
        Seq::empty()
    } else {
        snapshot_effects(fs.drop_last(), ps, settings) + reconcile_effects(fs.last(), ps, settings)
    }
}

/// No two friends share a `uuid`.
pub open spec fn distinct_uuids(fs: Seq<Friend>) -> bool {
    forall|i: int, j: int| 0 <= i < fs.len() && 0 <= j < fs.len() && i != j ==> fs[i].uuid != fs[j].uuid
}

/// The friend with `uuid` is not in the list.
pub open spec fn absent(fs: Seq<Friend>, uuid: u128) -> bool {
    forall|i: int| 0 <= i < fs.len() ==> fs[i].uuid != uuid
}

/// A delayed check whose token is current: it notifies when the friend is
/// still watched and still activating, and a repeating friend then gets its
/// next check, with the same token and its full delay.
pub open spec fn fire_effects(f: Friend, settings: Settings) -> Seq<Effect> {
    if fire_holds(f, settings) {
        seq![Effect::Sound(SoundMessage::PlaySound(f.sound.path))]
            + (if settings.native_notification {
            seq![Effect::ShowNotification(f.name)]
        } else {
            Seq::empty()
        }) + (if f.is_repeat {
            seq![Effect::SpawnTimer { uuid: f.uuid, timer_id: f.timer_id, secs: f.notify_timer }]
        } else {
            Seq::empty()
        })
    } else {
        Seq::empty()
    }
}

/// `f` after a delayed check with its current token: a check stays
/// outstanding only where a repeat was armed.
pub open spec fn fired(f: Friend, settings: Settings) -> Friend {
    Friend { timer_pending: fire_holds(f, settings) && f.is_repeat, ..f }
}

/// What a `TimerFired { uuid, timer_id }` does to the watch-list `fs` (into
/// `fs2`, with `effects`): nothing for a removed friend or a stale token;
/// otherwise the check of `fire_effects`.
pub open spec fn timer_applied(
    fs: Seq<Friend>,
    fs2: Seq<Friend>,
    effects: Seq<Effect>,
    uuid: u128,
    timer_id: u128,
    settings: Settings,
) -> bool {
    &&& absent(fs, uuid) ==> fs2 == fs && effects == Seq::<Effect>::empty()
    &&& forall|i: int|
        0 <= i < fs.len() && #[trigger] fs[i].uuid == uuid ==> if fs[i].timer_id != timer_id {
            fs2 == fs && effects == Seq::<Effect>::empty()
        } else {
            fs2 == fs.update(i, fired(fs[i], settings)) && effects == fire_effects(fs[i], settings)
        }
}

/// `f` with a new generation token and, when its watch is on and its status
/// activates, a delayed check outstanding.
pub open spec fn rearmed(f: Friend, token: u128, settings: Settings) -> Friend {
    let g = Friend { timer_id: token, timer_pending: false, ..f };
    Friend { timer_pending: arm_decision(g, settings) != Action::Idle, ..g }
}

/// The delayed check that rearming `f` with `token` starts, if any.
pub open spec fn rearm_effects(f: Friend, token: u128, settings: Settings) -> Seq<Effect> {
    let g = Friend { timer_id: token, timer_pending: false, ..f };
    arm_effects(g, arm_decision(g, settings))
}

/// What turning the watch of friend `uuid` on or off does: a change of the
/// flag regenerates the token, which makes every outstanding check stale,
/// and turning it on over an activating status arms a check at once.
pub open spec fn enabled_applied(
    fs: Seq<Friend>,
    fs2: Seq<Friend>,
    effects: Seq<Effect>,
    uuid: u128,
    on: bool,
    token: u128,
    settings: Settings,
) -> bool {
    &&& absent(fs, uuid) ==> fs2 == fs && effects == Seq::<Effect>::empty()
    &&& forall|i: int|
        0 <= i < fs.len() && #[trigger] fs[i].uuid == uuid ==> if fs[i].enabled == on {
            fs2 == fs && effects == Seq::<Effect>::empty()
        } else {
            &&& fs2 == fs.update(i, rearmed(Friend { enabled: on, ..fs[i] }, token, settings))
            &&& effects == rearm_effects(Friend { enabled: on, ..fs[i] }, token, settings)
        }
}

/// What setting the repeat flag of friend `uuid` does: turning it on for a
/// watched friend rearms the watch as enabling does; otherwise only the
/// flag changes.
pub open spec fn repeat_applied(
    fs: Seq<Friend>,
    fs2: Seq<Friend>,
    effects: Seq<Effect>,
    uuid: u128,
    on: bool,
    token: u128,
    settings: Settings,
) -> bool {
    &&& absent(fs, uuid) ==> fs2 == fs && effects == Seq::<Effect>::empty()
    &&& forall|i: int|
        0 <= i < fs.len() && #[trigger] fs[i].uuid == uuid ==> if on && !fs[i].is_repeat
            && fs[i].enabled {
            &&& fs2 == fs.update(i, rearmed(Friend { is_repeat: on, ..fs[i] }, token, settings))
            &&& effects == rearm_effects(Friend { is_repeat: on, ..fs[i] }, token, settings)
        } else {
            fs2 == fs.update(i, Friend { is_repeat: on, ..fs[i] }) && effects == Seq::<Effect>::empty()
        }
}

/// A delay brought into bounds.
pub open spec fn clamp_timer(secs: u16) -> u16 {
    if secs < MIN_NOTIFY_TIMER {
        MIN_NOTIFY_TIMER
    } else if secs > MAX_NOTIFY_TIMER {
        MAX_NOTIFY_TIMER
    } else {
        secs
    }
}

/// A saved friend as it comes back: watch off, offline, nothing outstanding,
/// its delay in bounds.
pub open spec fn restored(f: Friend) -> Friend {
    Friend {
        enabled: false,
        status: FriendStatus::Offline,
        timer_pending: false,
        notify_timer: clamp_timer(f.notify_timer),
        ..f
    }
}

/// The saved friends that come back, in order: a repeated `uuid` and any
/// friend beyond the limit are dropped.
pub open spec fn restore_list(saved: Seq<Friend>) -> Seq<Friend>
    decreases saved.len(),
{
    if saved.len() == 0 {
        Seq::empty()
    } else {
        let prev = restore_list(saved.drop_last());
        if prev.len() < MAX_FRIENDS && absent(prev, saved.last().uuid) {
            prev.push(restored(saved.last()))
        } else {
            prev
        }
    }
}

/// Finds the first snapshot entry whose identity matches `name`
/// case-insensitively.
pub fn find_presence(presences: &Vec<(String, String)>, name: &String) -> (r: Option<usize>)
    ensures
        match r {
            None => match_index(presences@, name@) == None::<int>,
            Some(j) => j < presences@.len() && match_index(presences@, name@) == Some(j as int),
        },
{
    let wanted = fold_case(name);
    let n = presences.len();
    let mut j: usize = 0;
    while j < n
        invariant
            0 <= j <= n,
            n == presences@.len(),
            wanted@ == crate::text::lower_of(name@),
            match_index(presences@, name@) == match_index_from(presences@, name@, j as int),
        decreases n - j,
    {
        let key = fold_case(&presences[j].0);
        if key == wanted {
            return Some(j);
        }
        j = j + 1;
    }
    None
}

/// Owner of the watch-list: the only writer of statuses and tokens.
pub struct FriendsNotifierApp {
    pub friends: Vec<Friend>,
    /// Whether the presence source was reachable at its last report.
    pub client_status: bool,
    pub settings: Settings,
}

impl FriendsNotifierApp {
    pub open spec fn wf(&self) -> bool {
        &&& MIN_FRIENDS <= self.friends@.len() <= MAX_FRIENDS
        &&& forall|i: int| 0 <= i < self.friends@.len() ==> (#[trigger] self.friends@[i]).wf()
        &&& distinct_uuids(self.friends@)
        &&& self.settings.wf()
    }

    /// One new friend with a random identity, default settings, and the
    /// presence source not yet reached.
    pub fn new() -> (r: FriendsNotifierApp)
        ensures
            r.wf(),
            r.friends@.len() == 1,
            !r.friends@[0].enabled,
            r.friends@[0].status == FriendStatus::Offline,
            !r.client_status,
            r.settings == (Settings {
                native_notification: false,
                volume: 100,
                notify_away_status: false,
                notify_in_game_status: true,
            }),
    {
        let mut friends: Vec<Friend> = Vec::new();
        friends.push(Friend::default());
        FriendsNotifierApp { friends, client_status: false, settings: Settings::default() }
    }

    /// Rebuilds the watch-list from saved friends and settings (see
    /// `restore_list`); when none comes back, starts with one new friend. The
    /// volume is capped at 100 and the presence source counts as not reached.
    pub fn from_saved(settings: Settings, saved: Vec<Friend>) -> (r: FriendsNotifierApp)
        ensures
            r.wf(),
            !r.client_status,
            r.settings == (Settings {
                volume: if settings.volume > 100 { 100 } else { settings.volume },
                ..settings
            }),
            restore_list(saved@).len() > 0 ==> r.friends@ == restore_list(saved@),
            restore_list(saved@).len() == 0 ==> r.friends@.len() == 1 && !r.friends@[0].enabled
                && r.friends@[0].status == FriendStatus::Offline,
    {
        let ghost all = saved@;
        let mut rest = saved;
        let mut friends: Vec<Friend> = Vec::new();
        let n = rest.len();
        let mut i: usize = 0;
        while i < n
            invariant
                0 <= i <= n,
                n == all.len(),
                rest@ == all.skip(i as int),
                friends@ == restore_list(all.take(i as int)),
                friends@.len() <= MAX_FRIENDS,
                forall|k: int| 0 <= k < friends@.len() ==> (#[trigger] friends@[k]).wf(),
                distinct_uuids(friends@),
            decreases n - i,
        {
            assert(all.take(i as int + 1).drop_last() =~= all.take(i as int));
            assert(all.skip(i as int).remove(0) =~= all.skip(i as int + 1));
            let mut f = rest.remove(0);
            let ghost as_saved = f;
            assert(as_saved == all.take(i as int + 1).last());
            let mut fresh = friends.len() < MAX_FRIENDS;
            let mut j: usize = 0;
            while j < friends.len() && fresh
                invariant
                    0 <= j <= friends@.len(),
                    fresh ==> friends@.len() < MAX_FRIENDS,
                    fresh ==> forall|k: int| 0 <= k < j ==> friends@[k].uuid != f.uuid,
                    !fresh ==> !(friends@.len() < MAX_FRIENDS && absent(friends@, f.uuid)),
                decreases friends@.len() - j,
            {
                if friends[j].uuid == f.uuid {
                    fresh = false;
                }
                j = j + 1;
            }
            if fresh {
                f.enabled = false;
                f.status = FriendStatus::Offline;
                f.timer_pending = false;
                if f.notify_timer < MIN_NOTIFY_TIMER {
                    f.notify_timer = MIN_NOTIFY_TIMER;
                } else if f.notify_timer > MAX_NOTIFY_TIMER {
                    f.notify_timer = MAX_NOTIFY_TIMER;
                }
                assert(f == restored(as_saved));
                friends.push(f);
            }
            i = i + 1;
        }
        assert(all.take(n as int) =~= all);
        if friends.len() == 0 {
            friends.push(Friend::default());
        }
        let volume: u8 = if settings.volume > 100 { 100 } else { settings.volume };
        FriendsNotifierApp { friends, client_status: false, settings: Settings { volume, ..settings } }
    }

    /// Records whether the presence source is reachable. When it is not,
    /// every friend is forced offline: a closed client says nothing of who is
    /// online.
    pub fn apply_client_status(&mut self, connected: bool)
        requires
            old(self).wf(),
        ensures
            final(self).wf(),
            final(self).client_status == connected,
            final(self).settings == old(self).settings,
            final(self).friends@ == if connected {
                old(self).friends@
            } else {
                all_offline(old(self).friends@)
            },
    {
        self.client_status = connected;
        if !connected {
            let ghost before = self.friends@;
            let n = self.friends.len();
            let mut i: usize = 0;
            while i < n
                invariant
                    0 <= i <= n,
                    n == before.len(),
                    self.friends@.len() == n,
                    self.settings == old(self).settings,
                    self.client_status == connected,
                    forall|k: int| 0 <= k < i ==> self.friends@[k] == with_status(before[k], FriendStatus::Offline),
                    forall|k: int| i <= k < n ==> self.friends@[k] == before[k],
                decreases n - i,
            {
                self.friends[i].status = FriendStatus::Offline;
                i = i + 1;
            }
            assert(self.friends@ =~= all_offline(before));
            assert(forall|k: int| 0 <= k < n ==> self.friends@[k].uuid == before[k].uuid);
        }
    }
    /// Applies a snapshot: each friend takes the status reported for its
    /// identity and the policy decides on the transition; a friend missing
    /// from the snapshot is forced offline. Returns the timers to start.
    pub fn apply_friend_status(&mut self, presences: &Vec<(String, String)>) -> (effects: Vec<Effect>)
        requires
            old(self).wf(),
        ensures
            final(self).wf(),
            final(self).client_status == old(self).client_status,
            final(self).settings == old(self).settings,
            final(self).friends@.len() == old(self).friends@.len(),
            forall|i: int| 0 <= i < old(self).friends@.len() ==> final(self).friends@[i]
                == reconcile_one(old(self).friends@[i], presences@, old(self).settings),
            effects@ == snapshot_effects(old(self).friends@, presences@, old(self).settings),
    {
        let ghost before = self.friends@;
        let mut effects: Vec<Effect> = Vec::new();
        let n = self.friends.len();
        let mut i: usize = 0;
        while i < n
            invariant
                0 <= i <= n,
                n == before.len(),
                self.friends@.len() == n,
                self.settings == old(self).settings,
                self.client_status == old(self).client_status,
                forall|k: int| 0 <= k < i ==> self.friends@[k] == reconcile_one(before[k], presences@, self.settings),
                forall|k: int| i <= k < n ==> self.friends@[k] == before[k],
                effects@ == snapshot_effects(before.take(i as int), presences@, self.settings),
            decreases n - i,
        {
            let ghost prefix = before.take(i as int + 1);
            assert(prefix.drop_last() =~= before.take(i as int));
            assert(prefix.last() == before[i as int]);
            match find_presence(presences, &self.friends[i].name) {
                None => {
                    self.friends[i].status = FriendStatus::Offline;
                },
                Some(j) => {
                    let to = FriendStatus::from_raw(&presences[j].1);
                    let action = decide(&self.friends[i], to, &self.settings);
                    self.friends[i].status = to;
                    match action {
                        Action::Idle => {},
                        Action::ArmTimer(secs) => {
                            self.friends[i].timer_pending = true;
                            effects.push(Effect::SpawnTimer {
                                uuid: self.friends[i].uuid,
                                timer_id: self.friends[i].timer_id,
                                secs,
                            });
                        },
                    }
                },
            }
            i = i + 1;
        }
        assert(before.take(n as int) =~= before);
        assert(forall|k: int| 0 <= k < n ==> self.friends@[k].uuid == before[k].uuid);
        effects
    }
    /// Position of the friend with `uuid`, if it is in the list.
    pub fn index_of(&self, uuid: u128) -> (r: Option<usize>)
        requires
            self.wf(),
        ensures
            match r {
                None => absent(self.friends@, uuid),
                Some(i) => i < self.friends@.len() && self.friends@[i as int].uuid == uuid,
            },
    {
        let n = self.friends.len();
        let mut i: usize = 0;
        while i < n
            invariant
                0 <= i <= n,
                n == self.friends@.len(),
                forall|k: int| 0 <= k < i ==> self.friends@[k].uuid != uuid,
            decreases n - i,
        {
            if self.friends[i].uuid == uuid {
                return Some(i);
            }
            i = i + 1;
        }
        None
    }

    /// Handles a due delayed check: ignored for a removed friend or a stale
    /// token; otherwise re-validated, and on success the friend's sound is
    /// played, an OS notification is asked for where the settings want one,
    /// and a repeating friend gets its next check.
    pub fn timer_fired(&mut self, uuid: u128, timer_id: u128) -> (effects: Vec<Effect>)
        requires
            old(self).wf(),
        ensures
            final(self).wf(),
            final(self).client_status == old(self).client_status,
            final(self).settings == old(self).settings,
            timer_applied(old(self).friends@, final(self).friends@, effects@, uuid, timer_id, old(self).settings),
    {
        let mut effects: Vec<Effect> = Vec::new();
        match self.index_of(uuid) {
            None => {},
            Some(i) => {
                if self.friends[i].timer_id == timer_id {
                    let ghost f = self.friends@[i as int];
                    if check_fire(&self.friends[i], &self.settings) {
                        effects.push(Effect::Sound(SoundMessage::PlaySound(self.friends[i].sound.path.clone())));
                        if self.settings.native_notification {
                            effects.push(Effect::ShowNotification(self.friends[i].name.clone()));
                        }
                        if self.friends[i].is_repeat {
                            effects.push(Effect::SpawnTimer {
                                uuid: self.friends[i].uuid,
                                timer_id: self.friends[i].timer_id,
                                secs: self.friends[i].notify_timer,
                            });
                            self.friends[i].timer_pending = true;
                        } else {
                            self.friends[i].timer_pending = false;
                        }
                    } else {
                        self.friends[i].timer_pending = false;
                    }
                    assert(effects@ =~= fire_effects(f, self.settings));
                }
            },
        }
        effects
    }

    /// Rearms the watch of the friend at `i` with `token`, returning the check
    /// that this starts.
    fn rearm_at(&mut self, i: usize, token: u128) -> (effects: Vec<Effect>)
        requires
            old(self).wf(),
            i < old(self).friends@.len(),
        ensures
            final(self).wf(),
            final(self).client_status == old(self).client_status,
            final(self).settings == old(self).settings,
            final(self).friends@ == old(self).friends@.update(
                i as int,
                rearmed(old(self).friends@[i as int], token, old(self).settings),
            ),
            effects@ == rearm_effects(old(self).friends@[i as int], token, old(self).settings),
    {
        let mut effects: Vec<Effect> = Vec::new();
        self.friends[i].timer_id = token;
        self.friends[i].timer_pending = false;
        match decide_on_arm(&self.friends[i], &self.settings) {
            Action::Idle => {},
            Action::ArmTimer(secs) => {
                self.friends[i].timer_pending = true;
                effects.push(Effect::SpawnTimer { uuid: self.friends[i].uuid, timer_id: token, secs });
            },
        }
        assert(forall|k: int| 0 <= k < self.friends@.len() ==> self.friends@[k].uuid == old(self).friends@[k].uuid);
        effects
    }

    /// Turns the watch of friend `uuid` on or off with the given new token
    /// (see `enabled_applied`).
    pub fn set_enabled_with(&mut self, uuid: u128, on: bool, token: u128) -> (effects: Vec<Effect>)
        requires
            old(self).wf(),
        ensures
            final(self).wf(),
            final(self).client_status == old(self).client_status,
            final(self).settings == old(self).settings,
            enabled_applied(old(self).friends@, final(self).friends@, effects@, uuid, on, token, old(self).settings),
    {
        match self.index_of(uuid) {
            None => Vec::new(),
            Some(i) => {
                if self.friends[i].enabled == on {
                    Vec::new()
                } else {
                    let ghost f = Friend { enabled: on, ..self.friends@[i as int] };
                    self.friends[i].enabled = on;
                    let effects = self.rearm_at(i, token);
                    assert(self.friends@ =~= old(self).friends@.update(i as int, rearmed(f, token, self.settings)));
                    assert(forall|k: int| 0 <= k < old(self).friends@.len() && old(self).friends@[k].uuid == uuid ==> k == i);
                    effects
                }
            },
        }
    }

    /// Turns the watch of friend `uuid` on or off, drawing a fresh random
    /// token (see `enabled_applied`).
    pub fn set_enabled(&mut self, uuid: u128, on: bool) -> (effects: Vec<Effect>)
        requires
            old(self).wf(),
        ensures
            final(self).wf(),
            final(self).client_status == old(self).client_status,
            final(self).settings == old(self).settings,
            exists|token: u128|
                enabled_applied(old(self).friends@, final(self).friends@, effects@, uuid, on, token, old(self).settings),
    {
        let token = random_uuid();
        self.set_enabled_with(uuid, on, token)
    }

    /// Sets the repeat flag of friend `uuid`, with the token used if this
    /// rearms the watch (see `repeat_applied`).
    pub fn set_repeat_with(&mut self, uuid: u128, on: bool, token: u128) -> (effects: Vec<Effect>)
        requires
            old(self).wf(),
        ensures
            final(self).wf(),
            final(self).client_status == old(self).client_status,
            final(self).settings == old(self).settings,
            repeat_applied(old(self).friends@, final(self).friends@, effects@, uuid, on, token, old(self).settings),
    {
        match self.index_of(uuid) {
            None => Vec::new(),
            Some(i) => {
                let rearm = on && !self.friends[i].is_repeat && self.friends[i].enabled;
                let ghost f = Friend { is_repeat: on, ..self.friends@[i as int] };
                self.friends[i].is_repeat = on;
                assert(forall|k: int| 0 <= k < old(self).friends@.len() && old(self).friends@[k].uuid == uuid ==> k == i);
                if rearm {
                    let effects = self.rearm_at(i, token);
                    assert(self.friends@ =~= old(self).friends@.update(i as int, rearmed(f, token, self.settings)));
                    effects
                } else {
                    assert(forall|k: int| 0 <= k < self.friends@.len() ==> self.friends@[k].uuid == old(self).friends@[k].uuid);
                    Vec::new()
                }
            },
        }
    }

    /// Sets the repeat flag of friend `uuid`, drawing a fresh random token
    /// for a rearm (see `repeat_applied`).
    pub fn set_repeat(&mut self, uuid: u128, on: bool) -> (effects: Vec<Effect>)
        requires
            old(self).wf(),
        ensures
            final(self).wf(),
            final(self).client_status == old(self).client_status,
            final(self).settings == old(self).settings,
            exists|token: u128|
                repeat_applied(old(self).friends@, final(self).friends@, effects@, uuid, on, token, old(self).settings),
    {
        let token = random_uuid();
        self.set_repeat_with(uuid, on, token)
    }
    /// Sets the delay of friend `uuid`. Allowed only while its watch is off
    /// and for a delay in bounds; returns whether it was set.
    pub fn set_notify_timer(&mut self, uuid: u128, secs: u16) -> (r: bool)
        requires
            old(self).wf(),
        ensures
            final(self).wf(),
            final(self).client_status == old(self).client_status,
            final(self).settings == old(self).settings,
            absent(old(self).friends@, uuid) ==> !r && final(self).friends@ == old(self).friends@,
            forall|i: int|
                0 <= i < old(self).friends@.len() && #[trigger] old(self).friends@[i].uuid == uuid ==> {
                    &&& r == (!old(self).friends@[i].enabled && valid_notify_timer(secs))
                    &&& final(self).friends@ == if r {
                        old(self).friends@.update(i, Friend { notify_timer: secs, ..old(self).friends@[i] })
                    } else {
                        old(self).friends@
                    }
                },
    {
        match self.index_of(uuid) {
            None => false,
            Some(i) => {
                assert(forall|k: int| 0 <= k < old(self).friends@.len() && old(self).friends@[k].uuid == uuid ==> k == i);
                if !self.friends[i].enabled && MIN_NOTIFY_TIMER <= secs && secs <= MAX_NOTIFY_TIMER {
                    self.friends[i].notify_timer = secs;
                    assert(forall|k: int| 0 <= k < self.friends@.len() ==> self.friends@[k].uuid == old(self).friends@[k].uuid);
                    true
                } else {
                    false
                }
            },
        }
    }

    /// Renames friend `uuid`; returns whether it is in the list.
    pub fn rename(&mut self, uuid: u128, name: String) -> (r: bool)
        requires
            old(self).wf(),
        ensures
            final(self).wf(),
            final(self).client_status == old(self).client_status,
            final(self).settings == old(self).settings,
            r == !absent(old(self).friends@, uuid),
            !r ==> final(self).friends@ == old(self).friends@,
            forall|i: int|
                0 <= i < old(self).friends@.len() && #[trigger] old(self).friends@[i].uuid == uuid
                    ==> final(self).friends@ == old(self).friends@.update(i, Friend { name, ..old(self).friends@[i] }),
    {
        match self.index_of(uuid) {
            None => false,
            Some(i) => {
                assert(forall|k: int| 0 <= k < old(self).friends@.len() && old(self).friends@[k].uuid == uuid ==> k == i);
                self.friends[i].name = name;
                assert(forall|k: int| 0 <= k < self.friends@.len() ==> self.friends@[k].uuid == old(self).friends@[k].uuid);
                true
            },
        }
    }

    /// Chooses the sound of friend `uuid`; when it is in the list, returns
    /// the command that plays the new sound once as a preview.
    pub fn set_sound(&mut self, uuid: u128, sound: Sound) -> (r: Option<SoundMessage>)
        requires
            old(self).wf(),
        ensures
            final(self).wf(),
            final(self).client_status == old(self).client_status,
            final(self).settings == old(self).settings,
            absent(old(self).friends@, uuid) ==> r == None::<SoundMessage> && final(self).friends@ == old(self).friends@,
            forall|i: int|
                0 <= i < old(self).friends@.len() && #[trigger] old(self).friends@[i].uuid == uuid ==> {
                    &&& final(self).friends@ == old(self).friends@.update(i, Friend { sound, ..old(self).friends@[i] })
                    &&& r == Some(SoundMessage::PlaySound(sound.path))
                },
    {
        match self.index_of(uuid) {
            None => None,
            Some(i) => {
                assert(forall|k: int| 0 <= k < old(self).friends@.len() && old(self).friends@[k].uuid == uuid ==> k == i);
                let preview = sound.path.clone();
                self.friends[i].sound = sound;
                assert(forall|k: int| 0 <= k < self.friends@.len() ==> self.friends@[k].uuid == old(self).friends@[k].uuid);
                Some(SoundMessage::PlaySound(preview))
            },
        }
    }

    /// Appends `friend` to the list when there is room, its `uuid` is new and
    /// its delay is in bounds; returns whether it was added.
    pub fn add_friend(&mut self, friend: Friend) -> (r: bool)
        requires
            old(self).wf(),
        ensures
            final(self).wf(),
            final(self).client_status == old(self).client_status,
            final(self).settings == old(self).settings,
            r == (old(self).friends@.len() < MAX_FRIENDS && absent(old(self).friends@, friend.uuid) && friend.wf()),
            final(self).friends@ == if r {
                old(self).friends@.push(friend)
            } else {
                old(self).friends@
            },
    {
        if self.friends.len() >= MAX_FRIENDS || !(MIN_NOTIFY_TIMER <= friend.notify_timer
            && friend.notify_timer <= MAX_NOTIFY_TIMER) {
            return false;
        }
        match self.index_of(friend.uuid) {
            Some(_) => false,
            None => {
                self.friends.push(friend);
                true
            },
        }
    }

    /// Appends a new friend with a random identity (see `Friend::default`)
    /// when there is room; returns whether it was added.
    pub fn add_new_friend(&mut self) -> (r: bool)
        requires
            old(self).wf(),
        ensures
            final(self).wf(),
            final(self).client_status == old(self).client_status,
            final(self).settings == old(self).settings,
            old(self).friends@.len() >= MAX_FRIENDS ==> !r,
            !r ==> final(self).friends@ == old(self).friends@,
            r ==> {
                &&& final(self).friends@.len() == old(self).friends@.len() + 1
                &&& final(self).friends@.drop_last() == old(self).friends@
                &&& !final(self).friends@.last().enabled
                &&& final(self).friends@.last().status == FriendStatus::Offline
                &&& final(self).friends@.last().name@ == Seq::<char>::empty()
            },
    {
        if self.friends.len() >= MAX_FRIENDS {
            return false;
        }
        let friend = Friend::default();
        let r = self.add_friend(friend);
        if r {
            assert(self.friends@.drop_last() =~= old(self).friends@);
        }
        r
    }

    /// Removes friend `uuid`, unless it is the last one left; returns whether
    /// it was removed.
    pub fn remove_friend(&mut self, uuid: u128) -> (r: bool)
        requires
            old(self).wf(),
        ensures
            final(self).wf(),
            final(self).client_status == old(self).client_status,
            final(self).settings == old(self).settings,
            r == (!absent(old(self).friends@, uuid) && old(self).friends@.len() > MIN_FRIENDS),
            !r ==> final(self).friends@ == old(self).friends@,
            forall|i: int|
                0 <= i < old(self).friends@.len() && #[trigger] old(self).friends@[i].uuid == uuid && r
                    ==> final(self).friends@ == old(self).friends@.remove(i),
    {
        if self.friends.len() <= MIN_FRIENDS {
            return false;
        }
        match self.index_of(uuid) {
            None => false,
            Some(i) => {
                assert(forall|k: int| 0 <= k < old(self).friends@.len() && old(self).friends@[k].uuid == uuid ==> k == i);
                self.friends.remove(i);
                assert(forall|k: int| 0 <= k < self.friends@.len() ==> self.friends@[k] == old(self).friends@.remove(i as int)[k]);
                true
            },
        }
    }

    /// Removes the last friend, unless it is the only one; returns whether it
    /// was removed.
    pub fn remove_last(&mut self) -> (r: bool)
        requires
            old(self).wf(),
        ensures
            final(self).wf(),
            final(self).client_status == old(self).client_status,
            final(self).settings == old(self).settings,
            r == (old(self).friends@.len() > MIN_FRIENDS),
            final(self).friends@ == if r {
                old(self).friends@.drop_last()
            } else {
                old(self).friends@
            },
    {
        if self.friends.len() <= MIN_FRIENDS {
            return false;
        }
        let _ = self.friends.pop();
        assert(self.friends@ =~= old(self).friends@.drop_last());
        true
    }

    /// Sets the playback volume, capped at 100, and returns the command for
    /// the audio sink.
    pub fn set_volume(&mut self, volume: u8) -> (r: SoundMessage)
        requires
            old(self).wf(),
        ensures
            final(self).wf(),
            final(self).friends@ == old(self).friends@,
            final(self).client_status == old(self).client_status,
            final(self).settings == (Settings { volume: if volume > 100 { 100 } else { volume }, ..old(self).settings }),
            r == SoundMessage::SetVolume(final(self).settings.volume),
    {
        let v: u8 = if volume > 100 { 100 } else { volume };
        self.settings.volume = v;
        SoundMessage::SetVolume(v)
    }

    /// Handles one message of the inbox and returns the effects it asks for.
    pub fn handle_message(&mut self, msg: GuiMessage) -> (effects: Vec<Effect>)
        requires
            old(self).wf(),
        ensures
            final(self).wf(),
            final(self).settings == old(self).settings,
            match msg {
                GuiMessage::ClientStatus(connected) => {
                    &&& final(self).client_status == connected
                    &&& final(self).friends@ == if connected {
                        old(self).friends@
                    } else {
                        all_offline(old(self).friends@)
                    }
                    &&& effects@ == Seq::<Effect>::empty()
                },
                GuiMessage::FriendStatus(presences) => {
                    &&& final(self).client_status == old(self).client_status
                    &&& final(self).friends@.len() == old(self).friends@.len()
                    &&& forall|i: int| 0 <= i < old(self).friends@.len() ==> final(self).friends@[i]
                        == reconcile_one(old(self).friends@[i], presences@, old(self).settings)
                    &&& effects@ == snapshot_effects(old(self).friends@, presences@, old(self).settings)
                },
                GuiMessage::TimerFired { uuid, timer_id } => {
                    &&& final(self).client_status == old(self).client_status
                    &&& timer_applied(old(self).friends@, final(self).friends@, effects@, uuid, timer_id, old(self).settings)
                },
            },
    {
        match msg {
            GuiMessage::ClientStatus(connected) => {
                self.apply_client_status(connected);
                Vec::new()
            },
            GuiMessage::FriendStatus(presences) => self.apply_friend_status(&presences),
            GuiMessage::TimerFired { uuid, timer_id } => self.timer_fired(uuid, timer_id),
        }
    }
}

} // verus!
