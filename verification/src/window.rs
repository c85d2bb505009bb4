//! Top-level windows as the window enumeration reports them, the choice of
//! the YouTube Music window among them, and the cached target window.
use vstd::prelude::*;

use crate::app_id::{ytm_app_id, ytm_app_id_string};

verus! {

/// Extended window style bit of tool windows (`WS_EX_TOOLWINDOW`).
pub const WS_EX_TOOLWINDOW: u32 = 0x80;

/// A top-level window found by the window enumeration.
#[derive(Debug)]
pub struct WindowInfo {
    /// The window handle, as the integer value of the `HWND`.
    pub hwnd: isize,
    pub title: String,
    pub process_id: u32,
    /// The application user model id of the window; empty when it has none.
    pub app_user_model_id: String,
}

impl Clone for WindowInfo {
    fn clone(&self) -> (r: Self)
        ensures
            r == *self,
    {
        WindowInfo {
            hwnd: self.hwnd,
            title: self.title.clone(),
            process_id: self.process_id,
            app_user_model_id: self.app_user_model_id.clone(),
        }
    }
}

/// Whether the window belongs to the YouTube Music app.
pub open spec fn is_ytm_window(w: WindowInfo) -> bool {
    w.app_user_model_id@ == ytm_app_id()
}

/// The YouTube Music windows among `s`, in their order.
pub open spec fn ytm_windows(s: Seq<WindowInfo>) -> Seq<WindowInfo> {
    s.filter(|w: WindowInfo| is_ytm_window(w))
}

/// Whether the enumeration lists a window with these properties at all:
/// owned windows and tool windows are passed over.
pub fn is_candidate_window(ex_style: u32, has_owner: bool) -> (r: bool)
    ensures
        r == (!has_owner && ex_style & WS_EX_TOOLWINDOW == 0),
{
    let has_tool_window: bool = (ex_style & WS_EX_TOOLWINDOW) != 0;
    !(has_owner || has_tool_window)
}

/// Length of the buffer that receives a title of `title_len` UTF-16 units
/// (room for the terminating zero included); `None` for windows without a
/// title, which the enumeration passes over.
pub fn title_buffer_len(title_len: i32) -> (r: Option<usize>)
    ensures
        title_len <= 0 ==> r is None,
        title_len > 0 ==> r == Some((title_len + 1) as usize),
{
    if title_len <= 0 {
        return None;
    }
    Some(title_len as usize + 1)
}

/// Whether `u` is the first unit of a surrogate pair.
pub open spec fn is_high_surrogate(u: u16) -> bool {
    0xD800 <= u <= 0xDBFF
}

/// Whether `u` is the second unit of a surrogate pair.
pub open spec fn is_low_surrogate(u: u16) -> bool {
    0xDC00 <= u <= 0xDFFF
}

/// The character that the surrogate pair `hi`, `lo` encodes.
pub open spec fn surrogate_pair_char(hi: u16, lo: u16) -> char {
    (0x10000 + (hi - 0xD800) * 0x400 + (lo - 0xDC00)) as char
}

/// The lossy UTF-16 decoding of `units`, read from the front: a high
/// surrogate followed by a low one gives the character of the pair, any
/// other surrogate gives U+FFFD, and every other unit gives the character of
/// the same value.
pub open spec fn utf16_lossy(units: Seq<u16>) -> Seq<char>
    decreases units.len(),
{
    if units.len() == 0 {
        Seq::empty()
    } else if units.len() >= 2 && is_high_surrogate(units[0]) && is_low_surrogate(units[1]) {
        seq![surrogate_pair_char(units[0], units[1])] + utf16_lossy(units.subrange(2, units.len() as int))
    } else if is_high_surrogate(units[0]) || is_low_surrogate(units[0]) {
        seq!['\u{FFFD}'] + utf16_lossy(units.drop_first())
    } else {
        seq![units[0] as char] + utf16_lossy(units.drop_first())
    }
}

/// Decoding never makes more characters than there are units, and at least
/// one character of at least one unit.
pub proof fn lemma_utf16_lossy_len(units: Seq<u16>)
    ensures
        utf16_lossy(units).len() <= units.len(),
        units.len() > 0 ==> utf16_lossy(units).len() > 0,
    decreases units.len(),
{
    if units.len() >= 2 && is_high_surrogate(units[0]) && is_low_surrogate(units[1]) {
        lemma_utf16_lossy_len(units.subrange(2, units.len() as int));
    } else if units.len() > 0 {
        lemma_utf16_lossy_len(units.drop_first());
    }
}

/// Decodes UTF-16 with `String::from_utf16_lossy`, which decodes the units
/// as UTF-16 and puts U+FFFD in place of each unpaired surrogate, as
/// [`utf16_lossy`] states.
#[verifier::external_body]
fn decode_utf16_lossy(units: &[u16]) -> (s: String)
    ensures
        s@ == utf16_lossy(units@),
{
    String::from_utf16_lossy(units)
}

/// The title of a window whose text was copied into `buffer`, of which the
/// copy reported `copied_len` units; `None` when nothing was copied, in which
/// case the enumeration passes over the window.
pub fn window_title(buffer: &[u16], copied_len: i32) -> (r: Option<String>)
    requires
        copied_len <= buffer@.len(),
    ensures
        copied_len <= 0 ==> r is None,
        copied_len > 0 ==> (r matches Some(t) && t@ == utf16_lossy(buffer@.subrange(0, copied_len as int))
            && t@.len() > 0),
{
    if copied_len <= 0 {
        return None;
    }
    let units: &[u16] = vstd::slice::slice_subrange(buffer, 0, copied_len as usize);
    proof {
        lemma_utf16_lossy_len(units@);
    }
    Some(decode_utf16_lossy(units))
}

/// The windows of `windows` that belong to the YouTube Music app, in the
/// order of the enumeration.
pub fn get_ytm_window_infos(windows: &Vec<WindowInfo>) -> (r: Vec<WindowInfo>)
    ensures
        r@ == ytm_windows(windows@),
{
    let id: String = ytm_app_id_string();
    let mut out: Vec<WindowInfo> = Vec::new();
    let mut i: usize = 0;
    while i < windows.len()
        invariant
            i <= windows.len(),
            id@ == ytm_app_id(),
            out@ == ytm_windows(windows@.take(i as int)),
        decreases windows.len() - i,
    {
        proof {
            assert(windows@.take(i + 1).drop_last() == windows@.take(i as int));
            reveal(Seq::filter);
        }
        if windows[i].app_user_model_id == id {
            out.push(windows[i].clone());
        }
        i = i + 1;
    }
    assert(windows@.take(windows.len() as int) == windows@);
    out
}

/// The window that a search of `windows` picks as the target: the first
/// YouTube Music window, if any.
pub open spec fn searched_target(windows: Seq<WindowInfo>) -> Option<isize> {
    if ytm_windows(windows).len() == 0 {
        None
    } else {
        Some(ytm_windows(windows)[0].hwnd)
    }
}

/// The handle remembered after a search of `windows`: the picked window, or
/// 0 when none was found.
pub open spec fn remembered_after_search(windows: Seq<WindowInfo>) -> isize {
    match searched_target(windows) {
        Some(h) => h,
        None => 0,
    }
}

/// A window found by a search is remembered, so the next request reuses it
/// as long as it stays valid; a search that finds nothing leaves the cache
/// empty (handle 0, which is never a valid window). The picked window is
/// always a YouTube Music window.
pub proof fn lemma_search_result_is_remembered(windows: Seq<WindowInfo>)
    ensures
        searched_target(windows) matches Some(h) ==> remembered_after_search(windows) == h,
        searched_target(windows) is None ==> remembered_after_search(windows) == 0,
        searched_target(windows) is Some ==> is_ytm_window(ytm_windows(windows)[0]),
{
    reveal(Seq::filter);
    if ytm_windows(windows).len() > 0 {
        windows.lemma_filter_pred(|w: WindowInfo| is_ytm_window(w), 0);
    }
}

/// The window that showing and hiding acts on, remembered between requests.
/// A handle of 0 means that no window is remembered.
///
/// The target is found in two halves: [`TargetCache::reuse_cached`] gives
/// the remembered window while the system still reports it as valid, and
/// only otherwise are the windows enumerated and handed to
/// [`TargetCache::search_target_hwnd`].
pub struct TargetCache {
    pub hwnd: isize,
}

impl TargetCache {
    /// A cache that remembers no window.
    pub fn new() -> (c: Self)
        ensures
            c.hwnd == 0,
    {
        TargetCache { hwnd: 0 }
    }

    /// The remembered window, when the system still reports it as a valid
    /// window (`cached_valid`); otherwise `None`, and the windows must be
    /// searched.
    pub fn reuse_cached(&self, cached_valid: bool) -> (r: Option<isize>)
        ensures
            r == (if cached_valid { Some(self.hwnd) } else { None::<isize> }),
    {
        if cached_valid {
            Some(self.hwnd)
        } else {
            None
        }
    }

    /// The search half of finding the target window, for when
    /// [`TargetCache::reuse_cached`] gave `None`: picks the first YouTube
    /// Music window among the enumerated `windows` and remembers it; when
    /// there is none, forgets the remembered window and returns `None`.
    pub fn search_target_hwnd(&mut self, windows: &Vec<WindowInfo>) -> (r: Option<isize>)
        ensures
            r == searched_target(windows@),
            final(self).hwnd == remembered_after_search(windows@),
    {
        let found: Vec<WindowInfo> = get_ytm_window_infos(windows);
        if found.len() == 0 {
            self.hwnd = 0;
            None
        } else {
            let target: isize = found[0].hwnd;
            self.hwnd = target;
            Some(target)
        }
    }
}

} // verus!
