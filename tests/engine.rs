use friends_notifier::engine::{MAX_FRIENDS, MIN_FRIENDS};
use friends_notifier::friend::{MAX_NOTIFY_TIMER, MIN_NOTIFY_TIMER};
use friends_notifier::policy::decide;
use friends_notifier::{
    Action, Effect, Friend, FriendStatus, FriendsNotifierApp, GuiMessage, Settings, Sound,
    SoundMessage,
};

const ID: u128 = 1;
const FIRST_TOKEN: u128 = 100;

fn settings(away: bool, in_game: bool) -> Settings {
    Settings {
        native_notification: false,
        volume: 100,
        notify_away_status: away,
        notify_in_game_status: in_game,
    }
}

fn named(uuid: u128, token: u128, name: &str) -> Friend {
    let mut f = Friend::with_ids(uuid, token);
    f.name = name.to_string();
    f
}

fn app_with(settings: Settings, friends: Vec<Friend>) -> FriendsNotifierApp {
    FriendsNotifierApp::from_saved(settings, friends)
}

fn one_friend(settings: Settings) -> FriendsNotifierApp {
    app_with(settings, vec![named(ID, FIRST_TOKEN, "Foo#EUW")])
}

fn snapshot(entries: &[(&str, &str)]) -> Vec<(String, String)> {
    entries
        .iter()
        .map(|(k, v)| (k.to_string(), v.to_string()))
        .collect()
}

fn spawn(uuid: u128, timer_id: u128, secs: u16) -> Effect {
    Effect::SpawnTimer { uuid, timer_id, secs }
}

fn play_first_sound() -> Effect {
    Effect::Sound(SoundMessage::PlaySound("assets/notification-1.mp3".to_string()))
}

#[test]
fn online_arms_then_plays() {
    let mut app = one_friend(settings(false, true));
    assert!(app.set_enabled_with(ID, true, 200).is_empty());
    let effects = app.apply_friend_status(&snapshot(&[("foo#euw", "chat")]));
    assert_eq!(app.friends[0].status, FriendStatus::Online);
    assert_eq!(effects, vec![spawn(ID, 200, 5)]);
    assert!(app.friends[0].timer_pending);
    let effects = app.timer_fired(ID, 200);
    assert_eq!(effects, vec![play_first_sound()]);
    assert!(!app.friends[0].timer_pending);
}

#[test]
fn offline_before_fire_is_silent() {
    let mut app = one_friend(settings(false, true));
    app.set_enabled_with(ID, true, 200);
    let effects = app.apply_friend_status(&snapshot(&[("foo#euw", "chat")]));
    assert_eq!(effects, vec![spawn(ID, 200, 5)]);
    let effects = app.apply_friend_status(&snapshot(&[("someone#else", "chat")]));
    assert!(effects.is_empty());
    assert_eq!(app.friends[0].status, FriendStatus::Offline);
    assert!(app.timer_fired(ID, 200).is_empty());
    assert!(!app.friends[0].timer_pending);
}

#[test]
fn enable_while_online_arms_at_once() {
    let mut app = one_friend(settings(false, true));
    let effects = app.apply_friend_status(&snapshot(&[("foo#euw", "chat")]));
    assert!(effects.is_empty());
    assert_eq!(app.friends[0].status, FriendStatus::Online);
    let effects = app.set_enabled_with(ID, true, 300);
    assert_eq!(effects, vec![spawn(ID, 300, 5)]);
    assert_eq!(app.friends[0].timer_id, 300);
    assert_eq!(app.timer_fired(ID, 300), vec![play_first_sound()]);
}

#[test]
fn away_activating_from_offline_and_online() {
    let st = settings(true, true);
    let mut app = one_friend(st);
    app.set_enabled_with(ID, true, 200);
    let effects = app.apply_friend_status(&snapshot(&[("foo#euw", "away")]));
    assert_eq!(effects, vec![spawn(ID, 200, 5)]);
    assert_eq!(app.friends[0].status, FriendStatus::Away);

    let mut online = named(ID, 200, "Foo#EUW");
    online.enabled = true;
    online.status = FriendStatus::Online;
    assert_eq!(decide(&online, FriendStatus::Away, &st), Action::Idle);
    let mut offline = online.clone();
    offline.status = FriendStatus::Offline;
    assert_eq!(decide(&offline, FriendStatus::Away, &st), Action::ArmTimer(5));
}

#[test]
fn disconnect_forces_everyone_offline() {
    let mut app = app_with(
        settings(false, true),
        vec![named(1, 10, "a#1"), named(2, 20, "b#2"), named(3, 30, "c#3")],
    );
    app.apply_friend_status(&snapshot(&[("a#1", "chat"), ("b#2", "away"), ("c#3", "dnd")]));
    assert_eq!(app.friends[0].status, FriendStatus::Online);
    assert_eq!(app.friends[1].status, FriendStatus::Away);
    assert_eq!(app.friends[2].status, FriendStatus::InGame);
    app.apply_client_status(false);
    assert!(!app.client_status);
    for f in app.friends.iter() {
        assert_eq!(f.status, FriendStatus::Offline);
    }
    app.apply_client_status(false);
    for f in app.friends.iter() {
        assert_eq!(f.status, FriendStatus::Offline);
    }
    app.apply_client_status(true);
    assert!(app.client_status);
}

#[test]
fn stale_token_after_toggle_is_ignored() {
    let mut app = one_friend(settings(false, true));
    app.set_enabled_with(ID, true, 200);
    app.apply_friend_status(&snapshot(&[("foo#euw", "chat")]));
    app.set_enabled_with(ID, false, 300);
    app.set_enabled_with(ID, true, 400);
    assert!(app.timer_fired(ID, 200).is_empty());
    assert!(app.timer_fired(ID, 300).is_empty());
    assert_eq!(app.timer_fired(ID, 400), vec![play_first_sound()]);
}

#[test]
fn timer_for_unknown_friend_is_ignored() {
    let mut app = one_friend(settings(false, true));
    assert!(app.timer_fired(99, FIRST_TOKEN).is_empty());
}

#[test]
fn away_boundaries_without_away_notifications() {
    let st = settings(false, true);
    let mut f = named(ID, 200, "x#1");
    f.enabled = true;
    f.status = FriendStatus::Online;
    assert_eq!(decide(&f, FriendStatus::Away, &st), Action::Idle);
    f.status = FriendStatus::Away;
    assert_eq!(decide(&f, FriendStatus::Online, &st), Action::ArmTimer(5));
}

#[test]
fn away_round_trip_through_snapshots_arms_once() {
    let mut app = one_friend(settings(false, true));
    app.set_enabled_with(ID, true, 200);
    let mut all = Vec::new();
    for raw in ["chat", "away", "chat"] {
        all.extend(app.apply_friend_status(&snapshot(&[("foo#euw", raw)])));
    }
    assert_eq!(all, vec![spawn(ID, 200, 5)]);
    assert_eq!(app.timer_fired(ID, 200), vec![play_first_sound()]);
}

#[test]
fn disabled_friend_is_silent() {
    let mut app = one_friend(settings(true, true));
    for raw in ["chat", "away", "dnd", "mobile", "offline", "chat"] {
        let effects = app.apply_friend_status(&snapshot(&[("foo#euw", raw)]));
        assert!(effects.is_empty());
    }
    assert_eq!(app.friends[0].status, FriendStatus::Online);
    assert!(app.timer_fired(ID, FIRST_TOKEN).is_empty());
}

#[test]
fn repeat_rearms_with_current_token() {
    let mut app = one_friend(settings(false, true));
    app.set_repeat_with(ID, true, 150);
    app.set_enabled_with(ID, true, 200);
    app.apply_friend_status(&snapshot(&[("foo#euw", "chat")]));
    let effects = app.timer_fired(ID, 200);
    assert_eq!(effects, vec![play_first_sound(), spawn(ID, 200, 5)]);
    assert!(app.friends[0].timer_pending);
    let effects = app.timer_fired(ID, 200);
    assert_eq!(effects, vec![play_first_sound(), spawn(ID, 200, 5)]);
}

#[test]
fn disable_while_repeat_pending_never_fires() {
    let mut app = one_friend(settings(false, true));
    app.set_repeat_with(ID, true, 150);
    app.set_enabled_with(ID, true, 200);
    app.apply_friend_status(&snapshot(&[("foo#euw", "chat")]));
    assert_eq!(app.timer_fired(ID, 200).len(), 2);
    app.set_enabled_with(ID, false, 300);
    assert!(app.timer_fired(ID, 200).is_empty());
    assert!(!app.friends[0].timer_pending);
}

#[test]
fn turning_repeat_on_rearms_an_online_watch() {
    let mut app = one_friend(settings(false, true));
    app.apply_friend_status(&snapshot(&[("foo#euw", "chat")]));
    app.set_enabled_with(ID, true, 200);
    let effects = app.set_repeat_with(ID, true, 250);
    assert_eq!(effects, vec![spawn(ID, 250, 5)]);
    assert!(app.timer_fired(ID, 200).is_empty());
    let effects = app.set_repeat_with(ID, false, 260);
    assert!(effects.is_empty());
    assert_eq!(app.friends[0].timer_id, 250);
    assert_eq!(app.timer_fired(ID, 250), vec![play_first_sound()]);
}

#[test]
fn native_notification_names_the_friend() {
    let mut st = settings(false, true);
    st.native_notification = true;
    let mut app = one_friend(st);
    app.set_enabled_with(ID, true, 200);
    app.apply_friend_status(&snapshot(&[("foo#euw", "chat")]));
    let effects = app.timer_fired(ID, 200);
    assert_eq!(
        effects,
        vec![play_first_sound(), Effect::ShowNotification("Foo#EUW".to_string())]
    );
}

#[test]
fn in_game_follows_its_setting() {
    let mut app = one_friend(settings(false, false));
    app.set_enabled_with(ID, true, 200);
    assert!(app.apply_friend_status(&snapshot(&[("foo#euw", "dnd")])).is_empty());
    let mut app = one_friend(settings(false, true));
    app.set_enabled_with(ID, true, 200);
    assert_eq!(
        app.apply_friend_status(&snapshot(&[("foo#euw", "dnd")])),
        vec![spawn(ID, 200, 5)]
    );
}

#[test]
fn matching_ignores_case() {
    let mut app = app_with(settings(false, true), vec![named(ID, FIRST_TOKEN, "FoO#eUw")]);
    app.apply_friend_status(&snapshot(&[("FOO#EUW", "chat")]));
    assert_eq!(app.friends[0].status, FriendStatus::Online);
}

#[test]
fn first_matching_entry_wins() {
    let mut app = one_friend(settings(false, true));
    app.apply_friend_status(&snapshot(&[("foo#euw", "away"), ("foo#euw", "chat")]));
    assert_eq!(app.friends[0].status, FriendStatus::Away);
}

#[test]
fn friends_sharing_a_name_stay_apart() {
    let mut app = app_with(
        settings(false, true),
        vec![named(1, 10, "same#1"), named(2, 20, "same#1")],
    );
    app.set_enabled_with(2, true, 21);
    let effects = app.apply_friend_status(&snapshot(&[("same#1", "chat")]));
    assert_eq!(effects, vec![spawn(2, 21, 5)]);
    assert!(app.timer_fired(1, 10).is_empty());
    assert_eq!(app.timer_fired(2, 21), vec![play_first_sound()]);
}

#[test]
fn handle_message_dispatches() {
    let mut app = one_friend(settings(false, true));
    app.set_enabled_with(ID, true, 200);
    let effects = app.handle_message(GuiMessage::FriendStatus(snapshot(&[("foo#euw", "chat")])));
    assert_eq!(effects, vec![spawn(ID, 200, 5)]);
    let effects = app.handle_message(GuiMessage::TimerFired { uuid: ID, timer_id: 200 });
    assert_eq!(effects, vec![play_first_sound()]);
    let effects = app.handle_message(GuiMessage::ClientStatus(false));
    assert!(effects.is_empty());
    assert_eq!(app.friends[0].status, FriendStatus::Offline);
}

#[test]
fn raw_availability_vocabulary() {
    assert_eq!(FriendStatus::from("chat".to_string()), FriendStatus::Online);
    assert_eq!(FriendStatus::from("dnd".to_string()), FriendStatus::InGame);
    assert_eq!(FriendStatus::from("mobile".to_string()), FriendStatus::Mobile);
    assert_eq!(FriendStatus::from("away".to_string()), FriendStatus::Away);
    assert_eq!(FriendStatus::from("offline".to_string()), FriendStatus::Offline);
    assert_eq!(FriendStatus::from("".to_string()), FriendStatus::Offline);
    assert_eq!(FriendStatus::from_raw(&"???".to_string()), FriendStatus::Offline);
    assert_eq!(FriendStatus::default(), FriendStatus::Offline);
}

#[test]
fn notify_timer_bounds_and_lock() {
    let mut app = one_friend(settings(false, true));
    assert!(!app.set_notify_timer(ID, MIN_NOTIFY_TIMER - 1));
    assert!(app.set_notify_timer(ID, MIN_NOTIFY_TIMER));
    assert!(app.set_notify_timer(ID, MAX_NOTIFY_TIMER));
    assert!(!app.set_notify_timer(ID, MAX_NOTIFY_TIMER + 1));
    assert_eq!(app.friends[0].notify_timer, 100);
    app.set_enabled_with(ID, true, 200);
    assert!(!app.set_notify_timer(ID, 30));
    assert_eq!(app.friends[0].notify_timer, 100);
    assert!(!app.set_notify_timer(99, 30));
}

#[test]
fn delay_is_used_for_the_timer() {
    let mut app = one_friend(settings(false, true));
    assert!(app.set_notify_timer(ID, 42));
    app.set_enabled_with(ID, true, 200);
    let effects = app.apply_friend_status(&snapshot(&[("foo#euw", "chat")]));
    assert_eq!(effects, vec![spawn(ID, 200, 42)]);
}

#[test]
fn list_size_limits() {
    let mut app = one_friend(settings(false, true));
    assert_eq!(app.friends.len(), MIN_FRIENDS);
    assert!(!app.remove_last());
    assert!(!app.remove_friend(ID));
    for k in 2..=10u128 {
        assert!(app.add_friend(named(k, k * 10, "x#1")));
    }
    assert_eq!(app.friends.len(), MAX_FRIENDS);
    assert!(!app.add_friend(named(11, 110, "x#1")));
    assert!(!app.add_new_friend());
    assert!(app.remove_friend(5));
    assert_eq!(app.friends.len(), 9);
    assert!(app.friends.iter().all(|f| f.uuid != 5));
    assert!(!app.add_friend(named(2, 1, "dup#1")));
    assert!(app.remove_last());
    assert_eq!(app.friends.len(), 8);
    assert_eq!(app.friends[7].uuid, 9);
}

#[test]
fn add_rejects_out_of_bounds_delay() {
    let mut app = one_friend(settings(false, true));
    let mut f = named(2, 20, "y#2");
    f.notify_timer = 4;
    assert!(!app.add_friend(f));
    assert!(app.add_new_friend());
    assert_eq!(app.friends.len(), 2);
    assert!(!app.friends[1].enabled);
}

#[test]
fn rename_and_sound() {
    let mut app = one_friend(settings(false, true));
    assert!(app.rename(ID, "bar#na1".to_string()));
    assert!(!app.rename(99, "x".to_string()));
    assert_eq!(app.friends[0].name, "bar#na1");
    let sound = Sound { label: "Sound 3".to_string(), path: "assets/notification-3.mp3".to_string() };
    assert_eq!(
        app.set_sound(ID, sound),
        Some(SoundMessage::PlaySound("assets/notification-3.mp3".to_string()))
    );
    assert_eq!(app.friends[0].sound.label, "Sound 3");
    let other = Sound { label: "Sound 4".to_string(), path: "p".to_string() };
    assert_eq!(app.set_sound(99, other), None);
}

#[test]
fn volume_is_capped() {
    let mut app = one_friend(settings(false, true));
    assert_eq!(app.set_volume(150), SoundMessage::SetVolume(100));
    assert_eq!(app.settings.volume, 100);
    assert_eq!(app.set_volume(40), SoundMessage::SetVolume(40));
    assert_eq!(app.settings.volume, 40);
}

#[test]
fn restore_resets_transient_state() {
    let mut a = named(1, 10, "a#1");
    a.enabled = true;
    a.status = FriendStatus::Online;
    a.timer_pending = true;
    a.notify_timer = 500;
    let mut b = named(2, 20, "b#2");
    b.notify_timer = 0;
    let dup = named(1, 30, "dup#1");
    let mut st = settings(true, false);
    st.volume = 250;
    let app = app_with(st, vec![a, dup, b]);
    assert_eq!(app.friends.len(), 2);
    assert_eq!(app.friends[0].uuid, 1);
    assert_eq!(app.friends[0].name, "a#1");
    assert!(!app.friends[0].enabled);
    assert_eq!(app.friends[0].status, FriendStatus::Offline);
    assert!(!app.friends[0].timer_pending);
    assert_eq!(app.friends[0].notify_timer, 100);
    assert_eq!(app.friends[1].uuid, 2);
    assert_eq!(app.friends[1].notify_timer, 5);
    assert_eq!(app.settings.volume, 100);
    assert!(app.settings.notify_away_status);
    assert!(!app.client_status);
}

#[test]
fn restore_keeps_at_most_ten() {
    let saved: Vec<Friend> = (1..=12u128).map(|k| named(k, k, "z#1")).collect();
    let app = app_with(settings(false, true), saved);
    assert_eq!(app.friends.len(), 10);
    assert_eq!(app.friends[9].uuid, 10);
}

#[test]
fn restore_from_nothing_starts_with_one_friend() {
    let app = app_with(settings(false, true), Vec::new());
    assert_eq!(app.friends.len(), 1);
    assert!(!app.friends[0].enabled);
    let fresh = FriendsNotifierApp::new();
    assert_eq!(fresh.friends.len(), 1);
    assert_eq!(fresh.settings, Settings::default());
    assert!(!fresh.settings.notify_away_status);
    assert!(fresh.settings.notify_in_game_status);
}

#[test]
fn random_identities_differ() {
    let a = Friend::default();
    let b = Friend::default();
    assert_ne!(a.uuid, b.uuid);
    assert_ne!(a.uuid, a.timer_id);
    assert_eq!(a.notify_timer, 5);
    assert_eq!(a.sound.path, "assets/notification-1.mp3");
    assert!(a != b);
    assert!(a == a.clone());
}

#[test]
fn reported_deactivation_arms_a_check_that_finds_nothing() {
    let mut app = one_friend(settings(false, true));
    app.apply_friend_status(&snapshot(&[("foo#euw", "chat")]));
    app.set_enabled_with(ID, true, 200);
    assert_eq!(app.timer_fired(ID, 200), vec![play_first_sound()]);
    let effects = app.apply_friend_status(&snapshot(&[("foo#euw", "offline")]));
    assert_eq!(effects, vec![spawn(ID, 200, 5)]);
    let effects = app.apply_friend_status(&snapshot(&[("foo#euw", "chat")]));
    assert!(effects.is_empty());
    assert_eq!(app.timer_fired(ID, 200), vec![play_first_sound()]);
    app.apply_friend_status(&snapshot(&[("foo#euw", "mobile")]));
    assert!(app.timer_fired(ID, 200).is_empty());
}
