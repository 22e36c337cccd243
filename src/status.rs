use vstd::prelude::*;

verus! {

/// Normalized presence of a watched friend.
#[derive(Clone, Copy, Debug, PartialEq, Eq, Structural)]
pub enum FriendStatus {
    Online,
    InGame,
    Mobile,
    Away,
    Offline,
}

/// The status that a raw availability value stands for; anything outside the
/// vocabulary degrades to `Offline`.
pub open spec fn status_of(raw: Seq<char>) -> FriendStatus {
    if raw == "chat"@ {
        FriendStatus::Online
    } else if raw == "dnd"@ {
        FriendStatus::InGame
    } else if raw == "mobile"@ {
        FriendStatus::Mobile
    } else if raw == "away"@ {
        FriendStatus::Away
    } else {
        FriendStatus::Offline
    }
}

impl FriendStatus {
    /// Normalizes a raw availability value.
    pub fn from_raw(raw: &String) -> (r: FriendStatus)
        ensures
            r == status_of(raw@),
    {
        if *raw == "chat".to_owned() {
            FriendStatus::Online
        } else if *raw == "dnd".to_owned() {
            FriendStatus::InGame
        } else if *raw == "mobile".to_owned() {
            FriendStatus::Mobile
        } else if *raw == "away".to_owned() {
            FriendStatus::Away
        } else {
            FriendStatus::Offline
        }
    }
}

impl Default for FriendStatus {
    fn default() -> (r: FriendStatus)
        ensures
            r == FriendStatus::Offline,
    {
        FriendStatus::Offline
    }
}

impl From<String> for FriendStatus {
    fn from(value: String) -> (r: FriendStatus) {
        FriendStatus::from_raw(&value)
    }
}

impl vstd::std_specs::convert::FromSpecImpl<String> for FriendStatus {
    open spec fn obeys_from_spec() -> bool {
        true
    }

    open spec fn from_spec(v: String) -> FriendStatus {
        status_of(v@)
    }
}

} // verus!
