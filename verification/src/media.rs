//! Media sessions as the system media controls report them, and the
//! detection of a new track of YouTube Music.
use vstd::prelude::*;

use crate::app_id::{ytm_app_id, ytm_app_id_string};
use vstd::string::StringExecFns;

verus! {

/// What the library reads of a media session.
#[derive(Debug)]
pub struct MediaSessionInfo {
    pub title: String,
    pub artist: String,
    /// The application user model id of the app that owns the session.
    pub source_app_id: String,
}

impl Clone for MediaSessionInfo {
    fn clone(&self) -> (r: Self)
        ensures
            r == *self,
    {
        MediaSessionInfo {
            title: self.title.clone(),
            artist: self.artist.clone(),
            source_app_id: self.source_app_id.clone(),
        }
    }
}

/// The title given to a session whose title cannot be read.
pub const UNKNOWN_TITLE: &'static str = "<Unknown Title>";

/// The artist given to a session whose artist cannot be read.
pub const UNKNOWN_ARTIST: &'static str = "<Unknown Artist>";

/// A text property of a session as read (`value`), or `fallback` when it
/// could not be read.
pub fn text_or(value: Option<String>, fallback: &str) -> (s: String)
    ensures
        s@ == (match value {
            Some(v) => v@,
            None => fallback@,
        }),
{
    match value {
        Some(v) => v,
        None => String::from_str(fallback),
    }
}

/// Whether the session belongs to the YouTube Music app.
pub open spec fn is_ytm_session(s: MediaSessionInfo) -> bool {
    s.source_app_id@ == ytm_app_id()
}

/// The YouTube Music sessions among `s`, in their order.
pub open spec fn ytm_sessions_of(s: Seq<MediaSessionInfo>) -> Seq<MediaSessionInfo> {
    s.filter(|m: MediaSessionInfo| is_ytm_session(m))
}

/// A track as the change detection remembers it: (title, artist).
pub type TrackKey = (Seq<char>, Seq<char>);

/// The remembered track as characters.
pub open spec fn track_key(prev: (String, String)) -> TrackKey {
    (prev.0@, prev.1@)
}

/// The outcome of observing `sessions` when `prev` was the last track seen:
/// whether a new track plays, and the track remembered afterwards.
///
/// Only the first YouTube Music session counts. Without one nothing has
/// changed; otherwise the track has changed exactly when its title or its
/// artist differs from the remembered one, and it is remembered from then on.
pub open spec fn music_change(prev: TrackKey, sessions: Seq<MediaSessionInfo>) -> (bool, TrackKey) {
    let ytm = ytm_sessions_of(sessions);
    if ytm.len() == 0 {
        (false, prev)
    } else {
        let now: TrackKey = (ytm[0].title@, ytm[0].artist@);
        if now == prev {
            (false, prev)
        } else {
            (true, now)
        }
    }
}

/// The sessions of `sessions` that belong to the YouTube Music app, in
/// their order.
pub fn ytm_sessions(sessions: &Vec<MediaSessionInfo>) -> (r: Vec<MediaSessionInfo>)
    ensures
        r@ == ytm_sessions_of(sessions@),
{
    let id: String = ytm_app_id_string();
    let mut out: Vec<MediaSessionInfo> = Vec::new();
    let mut i: usize = 0;
    while i < sessions.len()
        invariant
            i <= sessions.len(),
            id@ == ytm_app_id(),
            out@ == ytm_sessions_of(sessions@.take(i as int)),
        decreases sessions.len() - i,
    {
        proof {
            assert(sessions@.take(i + 1).drop_last() == sessions@.take(i as int));
            reveal(Seq::filter);
        }
        if sessions[i].source_app_id == id {
            out.push(sessions[i].clone());
        }
        i = i + 1;
    }
    assert(sessions@.take(sessions.len() as int) == sessions@);
    out
}

/// The position of the first YouTube Music session among `sessions`, or
/// `None` when there is none.
pub fn first_ytm_session(sessions: &Vec<MediaSessionInfo>) -> (r: Option<usize>)
    ensures
        r matches Some(i) ==> i < sessions@.len() && is_ytm_session(sessions@[i as int])
            && forall|j: int| 0 <= j < i ==> !is_ytm_session(#[trigger] sessions@[j]),
        r is None ==> forall|j: int| 0 <= j < sessions@.len() ==> !is_ytm_session(#[trigger] sessions@[j]),
{
    let id: String = ytm_app_id_string();
    let mut i: usize = 0;
    while i < sessions.len()
        invariant
            i <= sessions.len(),
            id@ == ytm_app_id(),
            forall|j: int| 0 <= j < i ==> !is_ytm_session(#[trigger] sessions@[j]),
        decreases sessions.len() - i,
    {
        if sessions[i].source_app_id == id {
            return Some(i);
        }
        i = i + 1;
    }
    None
}

/// Whether a new YouTube Music track plays, given the current `sessions`
/// and the last track seen in `prev`; a new track is remembered in `prev`.
pub fn is_music_changed(prev: &mut (String, String), sessions: &Vec<MediaSessionInfo>) -> (r: bool)
    ensures
        (r, track_key(*final(prev))) == music_change(track_key(*old(prev)), sessions@),
        !r ==> *final(prev) == *old(prev),
        ytm_sessions_of(sessions@).len() > 0
            && (ytm_sessions_of(sessions@)[0].title@ != old(prev).0@
                || ytm_sessions_of(sessions@)[0].artist@ != old(prev).1@) ==> r
            && final(prev).0@ == ytm_sessions_of(sessions@)[0].title@
            && final(prev).1@ == ytm_sessions_of(sessions@)[0].artist@,
{
    let ytm: Vec<MediaSessionInfo> = ytm_sessions(sessions);
    if ytm.len() == 0 {
        return false;
    }
    if ytm[0].title == prev.0 && ytm[0].artist == prev.1 {
        false
    } else {
        *prev = (ytm[0].title.clone(), ytm[0].artist.clone());
        true
    }
}

/// Observing the same sessions twice in a row reports a new track at most
/// the first time: the second observation reports no change and keeps the
/// remembered track.
pub proof fn lemma_music_change_settles(prev: TrackKey, sessions: Seq<MediaSessionInfo>)
    ensures
        music_change(music_change(prev, sessions).1, sessions) == (false, music_change(prev, sessions).1),
{
}

/// The change detection compares the whole track: when the first YouTube
/// Music session differs from the remembered track in its title, in its
/// artist or in both, the change is reported and that session's track is
/// remembered; when it agrees in both, or there is no YouTube Music session,
/// no change is reported and the remembered track stays.
pub proof fn lemma_music_change_compares_title_and_artist(prev: TrackKey, sessions: Seq<MediaSessionInfo>)
    ensures
        ytm_sessions_of(sessions).len() > 0 && (ytm_sessions_of(sessions)[0].title@ != prev.0
            || ytm_sessions_of(sessions)[0].artist@ != prev.1) ==> music_change(prev, sessions)
            == (true, (ytm_sessions_of(sessions)[0].title@, ytm_sessions_of(sessions)[0].artist@)),
        ytm_sessions_of(sessions).len() > 0 && ytm_sessions_of(sessions)[0].title@ == prev.0
            && ytm_sessions_of(sessions)[0].artist@ == prev.1 ==> music_change(prev, sessions)
            == (false, prev),
        ytm_sessions_of(sessions).len() == 0 ==> music_change(prev, sessions) == (false, prev),
{
}

/// A reported change always remembers a track different from the one
/// remembered before, and it is the first YouTube Music session's track.
pub proof fn lemma_music_change_is_new_track(prev: TrackKey, sessions: Seq<MediaSessionInfo>)
    requires
        music_change(prev, sessions).0,
    ensures
        music_change(prev, sessions).1 != prev,
        ytm_sessions_of(sessions).len() > 0,
        music_change(prev, sessions).1 == (ytm_sessions_of(sessions)[0].title@, ytm_sessions_of(sessions)[0].artist@),
{
}

/// Sessions of other apps never count: adding or removing them does not
/// change what the observation reports.
pub proof fn lemma_music_change_ignores_other_apps(
    prev: TrackKey,
    sessions: Seq<MediaSessionInfo>,
    other: MediaSessionInfo,
)
    requires
        !is_ytm_session(other),
    ensures
        music_change(prev, sessions.push(other)) == music_change(prev, sessions),
{
    reveal(Seq::filter);
    assert(sessions.push(other).drop_last() == sessions);
}

} // verus!
