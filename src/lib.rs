//! Presence-notification engine: reconciles polled presence snapshots
//! against a watch-list of friends, decides when a change of presence is
//! worth a notification, and invalidates stale delayed checks by generation
//! tokens instead of cancelling them.

pub mod status;
pub mod text;
pub mod friend;
pub mod sounds;
pub mod policy;
pub mod engine;
pub mod laws;

pub use engine::{Effect, FriendsNotifierApp, GuiMessage, SoundMessage};
pub use friend::{Friend, Sound};
pub use policy::{Action, Settings};
pub use status::FriendStatus;
