use vstd::prelude::*;
use vstd::string::StringExecFns;

verus! {

/// What `str::to_lowercase` makes of a string.
pub uninterp spec fn lower_of(s: Seq<char>) -> Seq<char>;

/// Relies on `str::to_lowercase`: the lowercase form of `s`, which depends on
/// the characters of `s` alone.
#[verifier::external_body]
fn lowercase(s: &str) -> (r: String)
    ensures
        r@ == lower_of(s@),
{
    s.to_lowercase()
}

/// Two identities match when their lowercase forms are equal.
pub open spec fn same_identity(a: Seq<char>, b: Seq<char>) -> bool {
    lower_of(a) == lower_of(b)
}

/// Lowercase form of a string, for case-insensitive matching.
pub fn fold_case(s: &String) -> (r: String)
    ensures
        r@ == lower_of(s@),
{
    lowercase(s.as_str())
}

/// The identity under which the presence source lists a player: `name#tag`.
pub open spec fn riot_id(game_name: Seq<char>, game_tag: Seq<char>) -> Seq<char> {
    game_name + "#"@ + game_tag
}

/// Turns one entry reported by the presence source into the pair that a
/// snapshot carries: the lowercase `name#tag` identity and the lowercase
/// availability.
pub fn presence_entry(game_name: &str, game_tag: &str, availability: &str) -> (r: (String, String))
    ensures
        r.0@ == lower_of(riot_id(game_name@, game_tag@)),
        r.1@ == lower_of(availability@),
{
    let mut id = game_name.to_owned();
    id.append("#");
    id.append(game_tag);
    let key = lowercase(id.as_str());
    let avail = lowercase(availability);
    (key, avail)
}

} // verus!
