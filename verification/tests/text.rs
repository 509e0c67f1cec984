use acso7::alert::{Alert, AlertLevel};
use acso7::bounded::BoundedQueue;
use acso7::labels::{
    alert_look, alert_text, autosave_due, fuel_label, hotkey_tag, marked, mission_time,
    pad_right, padded_line, sidebar_looks, span_label, Look, Tone,
};
use acso7::layout::{centre_padding, list_window, popup_layout, popup_scroll, ListWindow, PopupLayout};
use acso7::input::Input;
use acso7::log::{EventLog, LOG_CAP};
use acso7::nav::{ScreenId, ShipFocus};
use acso7::theme::Theme;
use acso7::widgets::{Chrome, LogView, SelectList};

#[test]
fn mission_clock() {
    assert_eq!(mission_time(0), "T+ 0000y:00m:00d 00:00:00");
    assert_eq!(mission_time(3661), "T+ 0000y:00m:00d 01:01:01");
    assert_eq!(mission_time(31_536_000 + 2_592_000 * 2 + 86_400 * 3 + 59), "T+ 0001y:02m:08d 00:00:59");
    assert_eq!(mission_time(31_536_000 * 12345), "T+ 12345y:00m:15d 00:00:00");
}

#[test]
fn span_and_fuel_labels() {
    assert_eq!(span_label(0), "0s");
    assert_eq!(span_label(89), "89s");
    assert_eq!(span_label(90), "1m");
    assert_eq!(span_label(7200), "2h");
    assert_eq!(span_label(129_600), "1d");
    assert_eq!(span_label(3_888_000), "1mo");
    assert_eq!(fuel_label(5399), "89m");
    assert_eq!(fuel_label(172_799), "47h");
    assert_eq!(fuel_label(172_800), "2d");
}

#[test]
fn alert_lines() {
    assert_eq!(alert_text(&Alert::critical("REACTOR OFFLINE"), 0), "‼ REACTOR OFFLINE ");
    assert_eq!(alert_text(&Alert::warning("LOW"), 2), "  ⚠ LOW ");
    assert_eq!(alert_look(AlertLevel::Critical), Look { tone: Tone::Error, bold: true, dim: false, reversed: true });
    assert_eq!(alert_look(AlertLevel::Warning).tone, Tone::Danger);
}

#[test]
fn list_entries_and_padding() {
    assert_eq!(marked("NEW GAME", true), "▶ NEW GAME ◀");
    assert_eq!(marked("QUIT", false), "QUIT");
    assert_eq!(padded_line("ab", 7, '='), "==ab===");
    assert_eq!(padded_line("abcdef", 3, '='), "abcdef");
    assert_eq!(pad_right("GRID", 6), "GRID  ");
    assert_eq!(pad_right("TOOLONG", 3), "TOOLONG");
    assert_eq!(centre_padding(10, 3), (3, 4));
    assert_eq!(centre_padding(2, 3), (0, 0));
    assert_eq!(hotkey_tag(ScreenId::Pods), "[P] ");
}

#[test]
fn sidebar_rows() {
    let (m, ml, ll) = sidebar_looks(true, ShipFocus::Systems, None);
    assert_eq!(m, "▶");
    assert_eq!(ml.tone, Tone::Good);
    assert_eq!(ll.tone, Tone::Good);
    let (m, ml, ll) = sidebar_looks(true, ShipFocus::Resources, Some(AlertLevel::Critical));
    assert_eq!(m, "▶");
    assert!(ml.dim);
    assert_eq!(ll, Look { tone: Tone::Error, bold: true, dim: false, reversed: false });
    let (m, _, ll) = sidebar_looks(false, ShipFocus::Systems, None);
    assert_eq!(m, " ");
    assert_eq!(ll.tone, Tone::Normal);
}

#[test]
fn autosave_timing() {
    assert!(autosave_due(60, true, 60));
    assert!(!autosave_due(60, true, 59));
    assert!(!autosave_due(0, true, 1000));
    assert!(!autosave_due(60, false, 1000));
}

#[test]
fn colonist_list_windows() {
    assert_eq!(list_window(5, 10, 3), ListWindow { selected: 3, offset: 0, end: 5 });
    assert_eq!(list_window(100, 10, 50), ListWindow { selected: 50, offset: 45, end: 55 });
    assert_eq!(list_window(100, 10, 2), ListWindow { selected: 2, offset: 0, end: 10 });
    assert_eq!(list_window(100, 10, 500), ListWindow { selected: 99, offset: 90, end: 100 });
}

#[test]
fn popup_geometry() {
    assert_eq!(
        popup_layout(3, 10, 120, 40, 7),
        PopupLayout { width: 44, rows: 3, scrollable: false, offset: 0 }
    );
    assert_eq!(
        popup_layout(100, 90, 120, 40, 500),
        PopupLayout { width: 76, rows: 34, scrollable: true, offset: 66 }
    );
    assert_eq!(
        popup_layout(0, 50, 30, 3, 0),
        PopupLayout { width: 26, rows: 1, scrollable: false, offset: 0 }
    );
    assert_eq!(popup_scroll(3, 10, Input::Char('.')), Some(8));
    assert_eq!(popup_scroll(3, 10, Input::Char(',')), Some(0));
    assert_eq!(popup_scroll(3, 0, Input::End), Some(0));
    assert_eq!(popup_scroll(3, 10, Input::Enter), None);
}

#[test]
fn event_log_keeps_the_newest_hundred() {
    let mut log = EventLog::new();
    assert!(log.recent(5).is_empty());
    for i in 0..150 {
        log.push(format!("m{i}"));
    }
    assert_eq!(log.len(), LOG_CAP);
    assert_eq!(log.recent(2), vec!["m148".to_string(), "m149".to_string()]);
    assert_eq!(log.recent(1000).len(), 100);
    assert_eq!(log.recent(1000)[0], "m50");
    log.push("last".to_string());
    assert_eq!(log.recent(1), vec!["last".to_string()]);
}

#[test]
fn bounded_queue_drops_the_oldest() {
    let mut q: BoundedQueue<u32> = BoundedQueue::new(3);
    assert!(q.back().is_none());
    for i in 0..5 {
        q.push(i);
    }
    assert_eq!(q.len(), 3);
    assert_eq!(*q.get(0), 2);
    assert_eq!(q.back(), Some(&4));
    assert_eq!(q.cap(), 3);
    let mut none: BoundedQueue<u32> = BoundedQueue::new(0);
    none.push(1);
    assert_eq!(none.len(), 0);
}

#[test]
fn widget_builders() {
    let theme = Theme::default();
    let chrome = Chrome::new(&theme, "[ Q ]");
    assert_eq!(chrome.footer, "[ Q ]");
    let log = EventLog::new();
    let view = LogView::new(&log, &theme);
    assert_eq!(view.log.len(), 0);
    let list = SelectList::new(&theme, vec!["a".to_string()], 0).empty("NONE");
    assert_eq!(list.empty, Some("NONE"));
    assert_eq!(list.items, vec!["a".to_string()]);
    assert_eq!(list.selected, 0);
}
