//! Deciding whether a meeting is in progress from what the system reports:
//! the running applications and the titles of the browsers' front windows.
use vstd::prelude::*;
use vstd::string::StrSliceExecFns;

verus! {

/// `p` occurs in `t` starting at position `i`.
pub open spec fn occurs_at(t: Seq<char>, p: Seq<char>, i: int) -> bool {
    0 <= i && i + p.len() <= t.len() && t.subrange(i, i + p.len()) == p
}

/// `p` occurs somewhere in `t`.
pub open spec fn contains_seq(t: Seq<char>, p: Seq<char>) -> bool {
    exists|i: int| occurs_at(t, p, i)
}

/// Bundle identifiers of the native conferencing applications.
pub open spec fn is_conferencing_bundle(id: Seq<char>) -> bool {
    ||| id == "us.zoom.xos"@
    ||| id == "com.microsoft.teams2"@
    ||| id == "Cisco-Systems.Spark"@
    ||| id == "com.apple.FaceTime"@
    ||| id == "com.hnc.Discord"@
}

/// Window titles that show a call in a browser hold one of these fragments.
pub open spec fn title_shows_call(t: Seq<char>) -> bool {
    ||| contains_seq(t, "Meet \u{2013}"@)
    ||| contains_seq(t, "Meet - "@)
    ||| contains_seq(t, "Zoom Meeting"@)
    ||| contains_seq(t, "Microsoft Teams"@)
    ||| contains_seq(t, "On a call"@)
    ||| contains_seq(t, "Google Meet"@)
}

/// A running application as the system reports it.
#[derive(Clone, Debug)]
pub struct RunningApp {
    pub bundle_id: Option<String>,
    pub is_hidden: bool,
}

/// A visible application with a conferencing bundle identifier.
pub open spec fn is_visible_conferencing_app(app: RunningApp) -> bool {
    &&& app.bundle_id is Some
    &&& is_conferencing_bundle(app.bundle_id->Some_0@)
    &&& !app.is_hidden
}

fn matches_at(t: &str, p: &str, tlen: usize, plen: usize, i: usize) -> (r: bool)
    requires
        tlen == t@.len(),
        plen == p@.len(),
        i + plen <= tlen,
    ensures
        r == (t@.subrange(i as int, i + plen) == p@),
{
    let mut j: usize = 0;
    while j < plen
        invariant
            0 <= j <= plen,
            tlen == t@.len(),
            plen == p@.len(),
            i + plen <= tlen,
            forall|k: int| 0 <= k < j ==> t@[i + k] == p@[k],
        decreases plen - j,
    {
        if t.get_char(i + j) != p.get_char(j) {
            assert(t@.subrange(i as int, i + plen)[j as int] != p@[j as int]);
            return false;
        }
        j = j + 1;
    }
    assert(t@.subrange(i as int, i + plen) =~= p@);
    true
}

/// Whether `p` occurs in `t`.
pub fn contains_text(t: &str, p: &str) -> (r: bool)
    ensures
        r == contains_seq(t@, p@),
{
    let tlen = t.unicode_len();
    let plen = p.unicode_len();
    if plen > tlen {
        assert forall|k: int| !occurs_at(t@, p@, k) by {}
        return false;
    }
    let last = tlen - plen;
    let mut i: usize = 0;
    while i < last
        invariant
            tlen == t@.len(),
            plen == p@.len(),
            last == tlen - plen,
            i <= last,
            forall|k: int| 0 <= k < i ==> !occurs_at(t@, p@, k),
        decreases last - i,
    {
        if matches_at(t, p, tlen, plen, i) {
            assert(occurs_at(t@, p@, i as int));
            return true;
        }
        i = i + 1;
    }
    if matches_at(t, p, tlen, plen, last) {
        assert(occurs_at(t@, p@, last as int));
        return true;
    }
    assert forall|k: int| !occurs_at(t@, p@, k) by {
        if 0 <= k < last {
        }
    }
    false
}

/// Whether `id` is the bundle identifier of a native conferencing application.
pub fn is_conferencing_bundle_id(id: &String) -> (r: bool)
    ensures
        r == is_conferencing_bundle(id@),
{
    *id == String::from_str("us.zoom.xos") || *id == String::from_str("com.microsoft.teams2") || *id
        == String::from_str("Cisco-Systems.Spark") || *id == String::from_str("com.apple.FaceTime")
        || *id == String::from_str("com.hnc.Discord")
}

/// First layer: a known native conferencing application is running and not
/// hidden.
pub fn is_native_conferencing_app_running(apps: &Vec<RunningApp>) -> (r: bool)
    ensures
        r == exists|i: int| 0 <= i < apps@.len() && is_visible_conferencing_app(#[trigger] apps@[i]),
{
    let mut i: usize = 0;
    while i < apps.len()
        invariant
            i <= apps@.len(),
            forall|k: int| 0 <= k < i ==> !is_visible_conferencing_app(#[trigger] apps@[k]),
        decreases apps@.len() - i,
    {
        let app = &apps[i];
        match &app.bundle_id {
            Some(id) => {
                if is_conferencing_bundle_id(id) && !app.is_hidden {
                    assert(is_visible_conferencing_app(apps@[i as int]));
                    return true;
                }
            },
            None => {},
        }
        i = i + 1;
    }
    false
}

/// Second layer: the front window titles of the browsers, as one text, show
/// a call.
pub fn is_browser_call_active(titles: &str) -> (r: bool)
    ensures
        r == title_shows_call(titles@),
{
    contains_text(titles, "Meet \u{2013}") || contains_text(titles, "Meet - ") || contains_text(
        titles,
        "Zoom Meeting",
    ) || contains_text(titles, "Microsoft Teams") || contains_text(titles, "On a call")
        || contains_text(titles, "Google Meet")
}

/// The camera and microphone layer, not implemented: it never reports use.
pub fn is_av_device_in_use() -> (r: bool)
    ensures
        !r,
{
    false
}

/// A meeting is active when any layer reports one.
pub fn is_meeting_active(native_app_running: bool, browser_call_active: bool) -> (r: bool)
    ensures
        r == (native_app_running || browser_call_active),
{
    if native_app_running {
        return true;
    }
    if browser_call_active {
        return true;
    }
    is_av_device_in_use()
}

} // verus!
