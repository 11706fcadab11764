use cef_plugin::instance::OsrBrowserInstance;
use cef_plugin::registry::BrowserManager;
use cef_plugin::types::{BrowserError, CefBounds, KeyEvent, MouseEvent};

fn bounds(w: i32, h: i32) -> CefBounds {
    CefBounds { x: 5, y: 6, width: w, height: h }
}

fn mouse() -> MouseEvent {
    MouseEvent {
        x: 1,
        y: 2,
        button: 0,
        event_type: "move".to_string(),
        delta_x_bits: 0,
        delta_y_bits: 0,
        modifiers: 0,
    }
}

fn key() -> KeyEvent {
    KeyEvent { key_code: 65, char_code: 97, event_type: "down".to_string(), modifiers: 0 }
}

fn is_not_found(r: &BrowserError, id: &str) -> bool {
    matches!(r, BrowserError::NotFound(s) if s == id)
}

#[test]
fn create_clamps_small_sizes() {
    let mut m = BrowserManager::new();
    m.create_browser("a", "https://example.com", bounds(10, 250)).unwrap();
    let f = m.get_frame("a").unwrap().unwrap();
    assert_eq!((f.width, f.height), (100, 250));
    assert_eq!(f.data.len(), 100 * 250 * 4);
    assert!(f.data.iter().all(|b| *b == 0));
    assert_eq!(f.format, "BGRA8");
    assert_eq!(f.browser_id, "a");
}

#[test]
fn resize_clamps_small_sizes() {
    let mut m = BrowserManager::new();
    m.create_browser("a", "u", bounds(300, 300)).unwrap();
    m.get_frame("a").unwrap();
    m.update_bounds("a", bounds(-4, 120)).unwrap();
    let f = m.get_frame("a").unwrap().unwrap();
    assert_eq!((f.width, f.height), (100, 120));
    assert_eq!(f.data.len(), 100 * 120 * 4);
    let info = m.list_browsers();
    assert_eq!(info[0].bounds, bounds(-4, 120));
}

#[test]
fn frame_delivered_once() {
    let mut m = BrowserManager::new();
    m.create_browser("a", "u", bounds(100, 100)).unwrap();
    assert!(m.get_frame("a").unwrap().is_some());
    assert!(m.get_frame("a").unwrap().is_none());
}

#[test]
fn duplicate_create_is_refused() {
    let mut m = BrowserManager::new();
    m.create_browser("x", "u1", bounds(100, 100)).unwrap();
    let e = m.create_browser("x", "u2", bounds(200, 200)).unwrap_err();
    assert!(matches!(e, BrowserError::AlreadyExists(ref s) if s == "x"));
    let list = m.list_browsers();
    assert_eq!(list.len(), 1);
    assert_eq!(list[0].url, "u1");
}

#[test]
fn closed_id_is_not_found() {
    let mut m = BrowserManager::new();
    m.create_browser("x", "u", bounds(100, 100)).unwrap();
    m.close_browser("x").unwrap();
    assert!(!m.contains("x"));
    assert!(is_not_found(&m.close_browser("x").unwrap_err(), "x"));
    assert!(is_not_found(&m.update_bounds("x", bounds(100, 100)).unwrap_err(), "x"));
    assert!(is_not_found(&m.navigate("x", "v").unwrap_err(), "x"));
    assert!(is_not_found(&m.get_frame("x").unwrap_err(), "x"));
    assert!(is_not_found(&m.send_mouse_event("x", mouse()).unwrap_err(), "x"));
    assert!(is_not_found(&m.send_key_event("x", key()).unwrap_err(), "x"));
    assert!(is_not_found(&m.focus_browser("x").unwrap_err(), "x"));
    assert!(is_not_found(&m.is_focused("x").unwrap_err(), "x"));
    m.create_browser("x", "u", bounds(100, 100)).unwrap();
    assert!(m.contains("x"));
}

#[test]
fn focus_is_exclusive() {
    let mut m = BrowserManager::new();
    for id in ["a", "b", "c"] {
        m.create_browser(id, "u", bounds(100, 100)).unwrap();
    }
    for target in ["b", "a", "c", "c", "b"] {
        m.focus_browser(target).unwrap();
        for id in ["a", "b", "c"] {
            assert_eq!(m.is_focused(id).unwrap(), id == target);
        }
    }
    assert!(m.focus_browser("zz").is_err());
    assert!(m.is_focused("b").unwrap());
    assert!(!m.is_focused("a").unwrap());
}

#[test]
fn all_frames_collects_dirty_ones() {
    let mut m = BrowserManager::new();
    m.create_browser("a", "u", bounds(100, 100)).unwrap();
    m.create_browser("b", "u", bounds(100, 100)).unwrap();
    m.get_frame("a").unwrap();
    let frames = m.get_all_frames();
    assert_eq!(frames.len(), 1);
    assert_eq!(frames[0].browser_id, "b");
    assert!(m.get_all_frames().is_empty());
    m.update_bounds("a", bounds(150, 100)).unwrap();
    m.update_bounds("b", bounds(100, 150)).unwrap();
    let mut ids: Vec<String> = m.get_all_frames().into_iter().map(|f| f.browser_id).collect();
    ids.sort();
    assert_eq!(ids, vec!["a".to_string(), "b".to_string()]);
}

#[test]
fn navigate_and_list() {
    let mut m = BrowserManager::new();
    assert!(m.list_browsers().is_empty());
    m.create_browser("a", "https://one", bounds(100, 100)).unwrap();
    m.navigate("a", "https://two").unwrap();
    m.send_mouse_event("a", mouse()).unwrap();
    m.send_key_event("a", key()).unwrap();
    let list = m.list_browsers();
    assert_eq!(list.len(), 1);
    assert_eq!(list[0].id, "a");
    assert_eq!(list[0].url, "https://two");
    assert!(list[0].is_loading);
}

#[test]
fn shutdown_releases_everything() {
    let mut m = BrowserManager::new();
    m.create_browser("a", "u", bounds(100, 100)).unwrap();
    m.create_browser("b", "u", bounds(100, 100)).unwrap();
    m.shutdown();
    assert!(m.list_browsers().is_empty());
    assert!(!m.contains("a"));
}

#[test]
fn instance_paint_and_pull() {
    let mut b = OsrBrowserInstance::new("p", "u", bounds(100, 100));
    assert!(b.get_frame().is_some());
    b.paint(&vec![7u8; 100 * 100 * 4], 100, 100);
    let f = b.get_frame().unwrap();
    assert!(f.data.iter().all(|x| *x == 7));
    b.paint(&[1, 2, 3], 100, 100);
    assert!(b.get_frame().is_none());
    b.set_focus(true);
    assert!(b.is_focused());
    let info = b.get_info();
    assert_eq!((info.id.as_str(), info.url.as_str()), ("p", "u"));
    b.close();
}

#[test]
fn paint_reaches_the_surface() {
    let mut m = BrowserManager::new();
    m.create_browser("a", "u", bounds(100, 100)).unwrap();
    m.get_frame("a").unwrap();
    m.paint("a", &vec![3u8; 100 * 100 * 4], 100, 100).unwrap();
    let f = m.get_frame("a").unwrap().unwrap();
    assert!(f.data.iter().all(|b| *b == 3));
    m.paint("a", &[1, 2, 3, 4], 100, 100).unwrap();
    assert!(m.get_frame("a").unwrap().is_none());
    m.paint("a", &[1, 2, 3, 4, 5, 6, 7, 8], 1, 2).unwrap();
    let f = m.get_frame("a").unwrap().unwrap();
    assert_eq!((f.width, f.height, f.data), (1, 2, vec![1, 2, 3, 4, 5, 6, 7, 8]));
    assert!(is_not_found(&m.paint("zz", &[], 0, 0).unwrap_err(), "zz"));
}
