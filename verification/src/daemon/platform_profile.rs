//! The ACPI platform-profile attribute: which profile may be chosen, and
//! how what is read back is understood. Mirrors `battery`.
use vstd::prelude::*;

use crate::error::ControlError;
use crate::text::{
    all_white, lemma_trim_word_then_white, lemma_words_are_words, trim, trim_str, views, words,
    words_of,
};

verus! {

/// Where the kernel exposes the current platform profile.
pub const PROFILE_PATH: &'static str = "/sys/firmware/acpi/platform_profile";

/// Where the kernel lists the profiles this machine offers.
pub const CHOICES_PATH: &'static str = "/sys/firmware/acpi/platform_profile_choices";

/// The platform-profile control, when `profile_file_exists`: unlike the
/// battery's, it always lives at one fixed path, so finding it is just an
/// existence check.
pub fn discover_platform_path(profile_file_exists: bool) -> (r: Option<String>)
    ensures
        profile_file_exists ==> (r matches Some(p) && p@ == PROFILE_PATH@),
        !profile_file_exists ==> r is None,
{
    if profile_file_exists {
        Some(PROFILE_PATH.to_string())
    } else {
        None
    }
}

/// What reading the profile attribute yields: the read's failure as
/// `SysfsRead`, or else its trimmed contents.
pub fn profile_from_read(read: Result<String, std::io::Error>) -> (r: Result<String, ControlError>)
    ensures
        match read {
            Err(e) => r == Err::<String, ControlError>(ControlError::SysfsRead(e)),
            Ok(raw) => r matches Ok(p) && p@ == trim(raw@),
        },
{
    match read {
        Err(e) => Err(ControlError::SysfsRead(e)),
        Ok(raw) => Ok(trim_str(raw.as_str())),
    }
}

/// Checks `profile` against the offered choices, the white-space separated
/// words of `choices` (the contents of `platform_profile_choices`).
pub fn validate(profile: &str, choices: &str) -> (r: Result<(), ControlError>)
    ensures
        words(choices@).contains(profile@) ==> r == Ok::<(), ControlError>(()),
        !words(choices@).contains(profile@) ==> (r matches Err(
            ControlError::InvalidProfile { value, choices: offered },
        ) && value@ == profile@ && views(offered@) == words(choices@)),
{
    let offered = words_of(choices);
    let wanted = profile.to_string();
    let n = offered.len();
    let mut i: usize = 0;
    while i < n
        invariant
            i <= n == offered@.len(),
            views(offered@) == words(choices@),
            wanted@ == profile@,
            forall|k: int| 0 <= k < i ==> offered@[k]@ != profile@,
        decreases n - i,
    {
        if offered[i] == wanted {
            assert(words(choices@)[i as int] == profile@);
            return Ok(());
        }
        i = i + 1;
    }
    assert forall|k: int| 0 <= k < words(choices@).len() implies words(choices@)[k] != profile@ by {
        assert(words(choices@)[k] == offered@[k]@);
    }
    Err(ControlError::InvalidProfile { value: wanted, choices: offered })
}

/// A profile that passed validation reads back as itself, whatever white
/// space the kernel adds after it.
pub proof fn lemma_profile_round_trip(profile: Seq<char>, choices: Seq<char>, trailing: Seq<char>)
    requires
        words(choices).contains(profile),
        all_white(trailing),
    ensures
        trim(profile + trailing) == profile,
{
    lemma_words_are_words(choices);
    let i = choose|i: int| 0 <= i < words(choices).len() && words(choices)[i] == profile;
    assert(words(choices)[i] == profile);
    lemma_trim_word_then_white(profile, trailing);
}

} // verus!
