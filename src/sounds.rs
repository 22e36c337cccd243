use vstd::prelude::*;
use crate::friend::Sound;

verus! {

/// Number of sounds in the catalog.
pub const SOUND_COUNT: usize = 13;

/// Label of the catalog's `i`-th sound (the last one past the end).
pub open spec fn sound_label(i: int) -> Seq<char> {
    if i == 0 {
        "Sound 1"@
    } else if i == 1 {
        "Sound 2"@
    } else if i == 2 {
        "Sound 3"@
    } else if i == 3 {
        "Sound 4"@
    } else if i == 4 {
        "Sound 5"@
    } else if i == 5 {
        "Sound 6"@
    } else if i == 6 {
        "Sound 7"@
    } else if i == 7 {
        "Sound 8"@
    } else if i == 8 {
        "Sound 9"@
    } else if i == 9 {
        "Sound 10"@
    } else if i == 10 {
        "Sound 11"@
    } else if i == 11 {
        "Sound 12"@
    } else {
        "Sound 13"@
    }
}

/// File of the catalog's `i`-th sound, relative to the working directory.
pub open spec fn sound_path(i: int) -> Seq<char> {
    if i == 0 {
        "assets/notification-1.mp3"@
    } else if i == 1 {
        "assets/notification-2.mp3"@
    } else if i == 2 {
        "assets/notification-3.mp3"@
    } else if i == 3 {
        "assets/notification-4.mp3"@
    } else if i == 4 {
        "assets/notification-5.mp3"@
    } else if i == 5 {
        "assets/notification-6.mp3"@
    } else if i == 6 {
        "assets/notification-7.mp3"@
    } else if i == 7 {
        "assets/notification-8.mp3"@
    } else if i == 8 {
        "assets/notification-9.mp3"@
    } else if i == 9 {
        "assets/notification-10.mp3"@
    } else if i == 10 {
        "assets/notification-11.mp3"@
    } else if i == 11 {
        "assets/notification-12.mp3"@
    } else {
        "assets/notification-13.mp3"@
    }
}

/// The `i`-th sound of the catalog.
fn entry(label: &str, path: &str) -> (r: Sound)
    ensures
        r.label@ == label@,
        r.path@ == path@,
{
    Sound { label: label.to_owned(), path: path.to_owned() }
}

/// The fixed catalog of notification sounds, in display order.
pub fn sound_catalog() -> (r: Vec<Sound>)
    ensures
        r@.len() == SOUND_COUNT,
        forall|i: int| 0 <= i < SOUND_COUNT ==> (#[trigger] r@[i]).label@ == sound_label(i) && r@[i].path@ == sound_path(i),
{
    let mut r: Vec<Sound> = Vec::new();
    r.push(entry("Sound 1", "assets/notification-1.mp3"));
    r.push(entry("Sound 2", "assets/notification-2.mp3"));
    r.push(entry("Sound 3", "assets/notification-3.mp3"));
    r.push(entry("Sound 4", "assets/notification-4.mp3"));
    r.push(entry("Sound 5", "assets/notification-5.mp3"));
    r.push(entry("Sound 6", "assets/notification-6.mp3"));
    r.push(entry("Sound 7", "assets/notification-7.mp3"));
    r.push(entry("Sound 8", "assets/notification-8.mp3"));
    r.push(entry("Sound 9", "assets/notification-9.mp3"));
    r.push(entry("Sound 10", "assets/notification-10.mp3"));
    r.push(entry("Sound 11", "assets/notification-11.mp3"));
    r.push(entry("Sound 12", "assets/notification-12.mp3"));
    r.push(entry("Sound 13", "assets/notification-13.mp3"));
    r
}

} // verus!
