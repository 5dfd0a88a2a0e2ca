use recordscreen::windows_capture::{
    collected_window, enumerate_windows, find_window, is_capturable_window, sort_windows_by_keys,
    WindowTarget,
};

fn w(hwnd: usize, title: &str, pid: u32) -> WindowTarget {
    WindowTarget { hwnd, title: title.to_string(), process_id: pid }
}

#[test]
fn find_window_takes_first_match() {
    let ws = vec![w(1, "a", 10), w(2, "b", 11), w(2, "c", 12)];
    assert_eq!(find_window(&ws, 2), Some(w(2, "b", 11)));
    assert_eq!(find_window(&ws, 1), Some(w(1, "a", 10)));
    assert_eq!(find_window(&ws, 3), None);
    assert_eq!(find_window(&[], 1), None);
}

#[test]
fn enumerate_drops_own_process_and_sorts_by_lowercase_title() {
    let raw = vec![
        w(1, "Zeta", 5),
        w(2, "alpha", 5),
        w(3, "Mine", 99),
        w(4, "beta", 6),
    ];
    let listed = enumerate_windows(raw, 99);
    let titles: Vec<&str> = listed.iter().map(|x| x.title.as_str()).collect();
    // "Zeta" would come first if titles were compared without lower-casing
    assert_eq!(titles, vec!["alpha", "beta", "Zeta"]);
}

#[test]
fn enumerate_is_stable_for_equal_keys() {
    let raw = vec![w(1, "Notes", 5), w(2, "b", 5), w(3, "NOTES", 6), w(4, "notes", 7)];
    let listed = enumerate_windows(raw, 0);
    let hwnds: Vec<usize> = listed.iter().map(|x| x.hwnd).collect();
    assert_eq!(hwnds, vec![2, 1, 3, 4]);
}

#[test]
fn enumerate_of_nothing_is_empty() {
    assert!(enumerate_windows(Vec::new(), 1).is_empty());
    assert!(enumerate_windows(vec![w(1, "x", 3)], 3).is_empty());
}

#[test]
fn sort_by_given_keys() {
    let ws = vec![w(1, "one", 1), w(2, "two", 1), w(3, "three", 1), w(4, "four", 1)];
    let keys = vec!["b".to_string(), "a".to_string(), "b".to_string(), "".to_string()];
    let sorted = sort_windows_by_keys(ws, &keys);
    let hwnds: Vec<usize> = sorted.iter().map(|x| x.hwnd).collect();
    assert_eq!(hwnds, vec![4, 2, 1, 3]);
}

#[test]
fn capturable_windows() {
    assert!(is_capturable_window(true, false, 1));
    assert!(is_capturable_window(true, false, 16384));
    assert!(!is_capturable_window(true, false, 16385));
    assert!(!is_capturable_window(true, false, 0));
    assert!(!is_capturable_window(false, false, 10));
    assert!(!is_capturable_window(true, true, 10));
    assert_eq!(collected_window(7, "t".into(), 0, 3), None);
    assert_eq!(collected_window(7, "t".into(), 1, 3), Some(w(7, "t", 3)));
}
