use wayvr::gen_vec::GenHandle;
use wayvr::window::{MouseState, Window, WindowManager};

#[test]
fn created_window_is_found_by_toplevel() {
    let mut wm = WindowManager::new();
    let p = GenHandle::new(0, 1);
    let h1 = wm.create_window(100, p, 800, 600);
    let h2 = wm.create_window(200, p, 1024, 768);
    assert_eq!(wm.find_window_handle(200), Some(h2));
    assert_eq!(wm.find_window_handle(100), Some(h1));
    assert_eq!(wm.find_window_handle(300), None);
    let w = wm.windows.get(&h1).unwrap();
    assert_eq!((w.size_x, w.size_y, w.visible, w.toplevel), (800, 600, true, 100));
}

#[test]
fn removed_window_is_not_found() {
    let mut wm = WindowManager::new();
    let h = wm.create_window(7, GenHandle::new(0, 1), 1, 1);
    wm.remove_window(h);
    assert_eq!(wm.find_window_handle(7), None);
    assert!(wm.windows.get(&h).is_none());
    assert!(wm.mouse.is_none());
}

#[test]
fn set_size_changes_only_size() {
    let mut wm = WindowManager::new();
    let h = wm.create_window(7, GenHandle::new(2, 3), 1, 1);
    let mut w: Window = *wm.windows.get(&h).unwrap();
    w.set_size(640, 480);
    assert_eq!((w.size_x, w.size_y, w.toplevel, w.process), (640, 480, 7, GenHandle::new(2, 3)));
    let m = MouseState { hover_window: h, x: 3, y: 4 };
    assert_eq!(m.hover_window, h);
}
