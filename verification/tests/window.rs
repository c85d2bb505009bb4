use minimize_ytm::app_id::YTM_APP_ID;
use minimize_ytm::window::{
    get_ytm_window_infos, is_candidate_window, title_buffer_len, window_title, TargetCache,
    WindowInfo,
};

fn win(hwnd: isize, id: &str) -> WindowInfo {
    WindowInfo {
        hwnd,
        title: format!("window {hwnd}"),
        process_id: 40 + hwnd as u32,
        app_user_model_id: id.to_string(),
    }
}

#[test]
fn candidate_window_excludes_owned_and_tool_windows() {
    assert!(is_candidate_window(0, false));
    assert!(is_candidate_window(0x100, false));
    assert!(!is_candidate_window(0, true));
    assert!(!is_candidate_window(0x80, false));
    assert!(!is_candidate_window(0x80 | 0x8, true));
}

#[test]
fn title_buffer_len_leaves_room_for_terminator() {
    assert_eq!(title_buffer_len(0), None);
    assert_eq!(title_buffer_len(-3), None);
    assert_eq!(title_buffer_len(5), Some(6));
    assert_eq!(title_buffer_len(i32::MAX), Some(i32::MAX as usize + 1));
}

#[test]
fn window_title_decodes_copied_units() {
    let buffer: Vec<u16> = "YouTube Music\0".encode_utf16().collect();
    assert_eq!(window_title(&buffer, 13), Some("YouTube Music".to_string()));
    assert_eq!(window_title(&buffer, 7), Some("YouTube".to_string()));
}

#[test]
fn window_title_replaces_unpaired_surrogates() {
    let buffer: Vec<u16> = vec![0x41, 0xD800, 0x42, 0];
    assert_eq!(window_title(&buffer, 3), Some("A\u{FFFD}B".to_string()));
}

#[test]
fn window_title_decodes_surrogate_pairs() {
    let buffer: Vec<u16> = vec![0xD83D, 0xDE00, 0x21, 0];
    assert_eq!(window_title(&buffer, 3), Some("\u{1F600}!".to_string()));
    let buffer: Vec<u16> = vec![0xDE00, 0xD83D, 0];
    assert_eq!(window_title(&buffer, 2), Some("\u{FFFD}\u{FFFD}".to_string()));
}

#[test]
fn window_title_none_when_nothing_copied() {
    let buffer: Vec<u16> = vec![0x41, 0];
    assert_eq!(window_title(&buffer, 0), None);
    assert_eq!(window_title(&buffer, -1), None);
}

#[test]
fn get_ytm_window_infos_keeps_ytm_windows_in_order() {
    let all = vec![
        win(1, "Microsoft.WindowsTerminal"),
        win(2, YTM_APP_ID),
        win(3, ""),
        win(4, YTM_APP_ID),
    ];
    let ytm = get_ytm_window_infos(&all);
    assert_eq!(ytm.len(), 2);
    assert_eq!(ytm[0].hwnd, 2);
    assert_eq!(ytm[1].hwnd, 4);
    assert_eq!(ytm[0].title, "window 2");
    assert_eq!(ytm[1].process_id, 44);
}

#[test]
fn get_ytm_window_infos_matches_whole_id_only() {
    let prefix = &YTM_APP_ID[..10];
    let longer = format!("{YTM_APP_ID}x");
    let all = vec![win(1, prefix), win(2, &longer)];
    assert!(get_ytm_window_infos(&all).is_empty());
    assert!(get_ytm_window_infos(&vec![]).is_empty());
}

#[test]
fn cache_starts_empty() {
    let cache = TargetCache::new();
    assert_eq!(cache.hwnd, 0);
}

#[test]
fn cache_reused_only_while_valid() {
    let cache = TargetCache { hwnd: 77 };
    assert_eq!(cache.reuse_cached(true), Some(77));
    assert_eq!(cache.reuse_cached(false), None);
}

#[test]
fn resolve_picks_first_ytm_window_and_remembers_it() {
    let mut cache = TargetCache::new();
    let all = vec![win(5, "other"), win(9, YTM_APP_ID), win(11, YTM_APP_ID)];
    assert_eq!(cache.search_target_hwnd(&all), Some(9));
    assert_eq!(cache.hwnd, 9);
    assert_eq!(cache.reuse_cached(true), Some(9));
}

#[test]
fn resolve_without_ytm_window_forgets_cache() {
    let mut cache = TargetCache { hwnd: 123 };
    let all = vec![win(5, "other")];
    assert_eq!(cache.search_target_hwnd(&all), None);
    assert_eq!(cache.hwnd, 0);
}
