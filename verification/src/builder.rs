//! What one run of the fingerprint builder produces for a profile.

use crate::corpus::{entry_line, entry_text, normalized_title, title_text};
use crate::error::Error;
use crate::fingerprint::{build_fingerprint, profile_fingerprint, Profile, ProfileView};
use vstd::prelude::*;

verus! {

/// The fingerprint of a profile, the line to append to the corpus and the
/// confirmation to show.
#[derive(Clone, Debug, PartialEq, Eq)]
pub struct NewEntry {
    pub fingerprint: String,
    pub line: String,
    pub confirmation: String,
}

/// The confirmation shown once the entry for `name` is stored. It names the
/// entry by its title, the name without spaces.
pub open spec fn confirmation_text(name: Seq<char>) -> Seq<char> {
    "Your new entry "@ + title_text(name) + " added"@
}

/// `entry` is what the builder produces for `profile`: the profile's
/// fingerprint, stored under the name as it stands.
pub open spec fn is_entry_of(profile: ProfileView, entry: NewEntry) -> bool {
    &&& profile_fingerprint(profile) == Ok::<Seq<char>, Error>(entry.fingerprint@)
    &&& entry.line@ == entry_text(profile.name, entry.fingerprint@).push('\n')
    &&& entry.confirmation@ == confirmation_text(profile.name)
}

/// The confirmation for `name`.
pub fn confirmation(name: &str) -> (text: String)
    ensures
        text@ == confirmation_text(name@),
{
    let mut text = "Your new entry ".to_owned();
    let title = normalized_title(name);
    text.append(title.as_str());
    text.append(" added");
    text
}

/// Builds the corpus entry of a profile. It fails as `build_fingerprint`
/// does, and on the same profiles.
pub fn build_entry(profile: &Profile) -> (entry: Result<NewEntry, Error>)
    ensures
        match entry {
            Ok(e) => is_entry_of(profile@, e),
            Err(e) => profile_fingerprint(profile@) == Err::<Seq<char>, Error>(e),
        },
{
    match build_fingerprint(profile) {
        Ok(fingerprint) => {
            let line = entry_line(profile.name.as_str(), fingerprint.as_str());
            let confirmation = confirmation(profile.name.as_str());
            Ok(NewEntry { fingerprint, line, confirmation })
        },
        Err(e) => Err(e),
    }
}

} // verus!
