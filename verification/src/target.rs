//! Choosing the window to capture.

use vstd::prelude::*;

verus! {

/// A window that can be captured, as the capture facility lists it.
#[derive(Clone, Debug, PartialEq, Eq)]
pub struct WindowInfo {
    /// The identifier of the application that owns the window.
    pub app_identifier: String,
    pub title: String,
    pub width: u32,
    pub height: u32,
}

/// The lower-case form of a text, as the standard library gives it.
pub uninterp spec fn lowercase(text: Seq<char>) -> Seq<char>;

/// Whether `part` stands somewhere in `text`, character for character.
pub open spec fn occurs_in(part: Seq<char>, text: Seq<char>) -> bool {
    exists|at: int|
        0 <= at && at + part.len() <= text.len() && #[trigger] text.subrange(
            at,
            at + part.len(),
        ) == part
}

/// Calls `str::to_lowercase`.
///
/// Believed: the result is the lower-case form of the text, named
/// [`lowercase`], which depends on the text alone.
#[verifier::external_body]
fn lowered(text: &str) -> (lower: String)
    ensures
        lower@ == lowercase(text@),
{
    text.to_lowercase()
}

/// Calls `str::contains` with a string slice as the pattern.
///
/// Believed, as documented: the result says whether the pattern matches a
/// part of the text.
#[verifier::external_body]
fn has_part(text: &str, part: &str) -> (found: bool)
    ensures
        found == occurs_in(part@, text@),
{
    text.contains(part)
}

/// Whether a window with the given title and application identifier is one
/// to capture for `wanted`: it has a title, and its identifier holds
/// `wanted`, letter case aside.
pub open spec fn is_wanted(app_identifier: Seq<char>, title: Seq<char>, wanted: Seq<char>) -> bool {
    title.len() > 0 && occurs_in(lowercase(wanted), lowercase(app_identifier))
}

/// Where the first window to capture for `wanted` stands in a list, if the
/// list has one.
pub open spec fn first_wanted(windows: Seq<WindowInfo>, wanted: Seq<char>) -> Option<int>
    decreases windows.len(),
{
    if windows.len() == 0 {
        None
    } else {
        match first_wanted(windows.drop_last(), wanted) {
            Some(at) => Some(at),
            None => if is_wanted(windows.last().app_identifier@, windows.last().title@, wanted) {
                Some(windows.len() - 1)
            } else {
                None
            },
        }
    }
}

/// `first_wanted` is the first place where a wanted window stands.
pub proof fn lemma_first_wanted(windows: Seq<WindowInfo>, wanted: Seq<char>)
    ensures
        match first_wanted(windows, wanted) {
            Some(at) => {
                &&& 0 <= at < windows.len()
                &&& is_wanted(windows[at].app_identifier@, windows[at].title@, wanted)
                &&& forall|k: int|
                    0 <= k < at ==> !is_wanted(
                        (#[trigger] windows[k]).app_identifier@,
                        windows[k].title@,
                        wanted,
                    )
            },
            None => forall|k: int|
                0 <= k < windows.len() ==> !is_wanted(
                    (#[trigger] windows[k]).app_identifier@,
                    windows[k].title@,
                    wanted,
                ),
        },
    decreases windows.len(),
{
    if windows.len() > 0 {
        let earlier = windows.drop_last();
        lemma_first_wanted(earlier, wanted);
        assert forall|k: int| 0 <= k < earlier.len() implies earlier[k] == windows[k] by {}
        match first_wanted(earlier, wanted) {
            Some(at) => {
                assert(windows[at] == earlier[at]);
                assert forall|k: int| 0 <= k < at implies !is_wanted(
                    (#[trigger] windows[k]).app_identifier@,
                    windows[k].title@,
                    wanted,
                ) by {
                    assert(windows[k] == earlier[k]);
                }
            },
            None => {
                assert forall|k: int| 0 <= k < windows.len() - 1 implies !is_wanted(
                    (#[trigger] windows[k]).app_identifier@,
                    windows[k].title@,
                    wanted,
                ) by {
                    assert(windows[k] == earlier[k]);
                }
            },
        }
    }
}

/// Where the first `true` stands in `flags`, if there is one.
pub fn first_set(flags: &Vec<bool>) -> (at: Option<usize>)
    ensures
        match at {
            Some(i) => i < flags.len() && flags[i as int] && forall|k: int|
                0 <= k < i ==> !flags[k],
            None => forall|k: int| 0 <= k < flags.len() ==> !flags[k],
        },
{
    let mut i: usize = 0;
    while i < flags.len()
        invariant
            i <= flags.len(),
            forall|k: int| 0 <= k < i ==> !flags[k],
        decreases flags.len() - i,
    {
        if flags[i] {
            return Some(i);
        }
        i += 1;
    }
    None
}

impl WindowInfo {
    /// Whether this window is one to capture for `wanted`.
    pub fn is_target(&self, wanted: &str) -> (wanted_one: bool)
        ensures
            wanted_one == is_wanted(self.app_identifier@, self.title@, wanted@),
    {
        if self.title.as_str().is_empty() {
            return false;
        }
        let identifier = lowered(self.app_identifier.as_str());
        let part = lowered(wanted);
        has_part(identifier.as_str(), part.as_str())
    }
}

/// Chooses the window to capture: the first in the list that has a title and
/// whose application identifier holds `wanted`, letter case aside.
pub fn select_window(windows: &Vec<WindowInfo>, wanted: &str) -> (at: Option<usize>)
    ensures
        match at {
            Some(i) => first_wanted(windows@, wanted@) == Some(i as int),
            None => first_wanted(windows@, wanted@) is None,
        },
        match at {
            Some(i) => {
                &&& i < windows.len()
                &&& is_wanted(windows[i as int].app_identifier@, windows[i as int].title@, wanted@)
                &&& forall|k: int|
                    0 <= k < i ==> !is_wanted(
                        (#[trigger] windows[k]).app_identifier@,
                        windows[k].title@,
                        wanted@,
                    )
            },
            None => forall|k: int|
                0 <= k < windows.len() ==> !is_wanted(
                    (#[trigger] windows[k]).app_identifier@,
                    windows[k].title@,
                    wanted@,
                ),
        },
{
    let mut flags: Vec<bool> = Vec::new();
    let mut i: usize = 0;
    while i < windows.len()
        invariant
            i <= windows.len(),
            flags.len() == i,
            forall|k: int|
                0 <= k < i ==> flags[k] == is_wanted(
                    (#[trigger] windows[k]).app_identifier@,
                    windows[k].title@,
                    wanted@,
                ),
        decreases windows.len() - i,
    {
        flags.push(windows[i].is_target(wanted));
        i += 1;
    }
    let at = first_set(&flags);
    proof {
        lemma_first_wanted(windows@, wanted@);
        match (at, first_wanted(windows@, wanted@)) {
            (Some(i), Some(j)) => {
                assert(flags[i as int]);
                assert(is_wanted(windows[j].app_identifier@, windows[j].title@, wanted@));
                assert(flags[j]);
                if j < i {
                    assert(!flags[j]);
                } else if i < j {
                    let w = windows[i as int];
                    assert(!is_wanted(w.app_identifier@, w.title@, wanted@));
                }
            },
            (Some(i), None) => {
                assert(flags[i as int]);
                let w = windows[i as int];
                assert(!is_wanted(w.app_identifier@, w.title@, wanted@));
            },
            (None, Some(j)) => {
                assert(is_wanted(windows[j].app_identifier@, windows[j].title@, wanted@));
                assert(!flags[j]);
            },
            (None, None) => {},
        }
    }
    at
}

} // verus!
