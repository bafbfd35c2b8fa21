use resvg::usvg;
use svgtail::{
    ChangeEvent, ChangeKind, DocSize, DocumentCache, Keys, Notification, Session, Step, ZOOM_ONE,
};

const DOC: &str = "<svg xmlns=\"http://www.w3.org/2000/svg\" width=\"400\" height=\"300\"><rect width=\"10\" height=\"10\"/></svg>";
const WIDE: &str = "<svg xmlns=\"http://www.w3.org/2000/svg\" width=\"800\" height=\"100\"></svg>";

fn target() -> Vec<u8> {
    b"/w/doc.svg".to_vec()
}

fn modified() -> Notification {
    Notification::Events(vec![ChangeEvent { kind: ChangeKind::Modify, paths: vec![target()] }])
}

fn loaded(w: usize, h: usize) -> (Session, usvg::Options<'static>) {
    let opts = usvg::Options::default();
    let mut s = Session::new(DocumentCache::new(), w, h, true);
    assert!(s.reload(Some(DOC.as_bytes().to_vec()), &opts));
    (s, opts)
}

#[test]
fn new_session_is_dirty_and_canonical() {
    let s = Session::new(DocumentCache::new(), 0, 600, false);
    assert!(s.dirty);
    assert_eq!((s.width, s.height), (1, 600));
    assert_eq!(s.viewport.zoom, ZOOM_ONE);
    assert!(s.viewport.auto_fit);
    assert!(s.render_transform().is_none());
}

#[test]
fn document_size_comes_from_the_parser() {
    let (s, _opts) = loaded(800, 600);
    assert_eq!(s.cache.doc_size(), Some(DocSize { width: 400, height: 300 }));
}

#[test]
fn reload_fits_window_800_by_600() {
    let (s, _opts) = loaded(800, 600);
    let v = s.viewport;
    assert_eq!(v.fit_num as u64, 2 * v.fit_den as u64);
    let t = s.render_transform().unwrap();
    assert_eq!(t.scale_num, 2 * t.scale_den);
    assert_eq!((t.offset_x_num, t.offset_y_num), (0, 0));
}

#[test]
fn reload_resets_manual_view() {
    let (mut s, opts) = loaded(800, 600);
    s.frame_presented();
    s.apply_input(Keys { up: true, zoom_in: true, ..Default::default() });
    assert!(!s.viewport.auto_fit);
    s.resize(1000, 100);
    assert!(s.reload(Some(WIDE.as_bytes().to_vec()), &opts));
    assert!(s.viewport.auto_fit);
    assert_eq!((s.viewport.pan_x, s.viewport.pan_y, s.viewport.zoom), (0, 0, ZOOM_ONE));
    // min(1000 / 800, 100 / 100) = 1
    assert_eq!((s.viewport.fit_num, s.viewport.fit_den), (100, 100));
    assert!(s.dirty);
}

#[test]
fn malformed_reload_keeps_last_document() {
    let (mut s, opts) = loaded(800, 600);
    s.frame_presented();
    s.apply_input(Keys { left: true, ..Default::default() });
    s.frame_presented();
    let before = (s.viewport, s.cache.doc_size(), s.dirty);
    assert!(!s.reload(Some(b"<svg not closed".to_vec()), &opts));
    assert!(!s.reload(None, &opts));
    assert_eq!((s.viewport, s.cache.doc_size(), s.dirty), before);
}

#[test]
fn failed_first_load_leaves_no_document() {
    let opts = usvg::Options::default();
    let mut c = DocumentCache::new();
    assert!(!c.reload(Some(b"not svg".to_vec()), &opts));
    assert!(c.doc_size().is_none());
}

#[test]
fn two_modified_events_give_one_reload() {
    let (mut s, _opts) = loaded(800, 600);
    let batch = vec![modified(), modified()];
    assert!(s.take_reload_request(&batch, &target()));
    assert!(!s.take_reload_request(&Vec::new(), &target()));
}

#[test]
fn opened_for_read_gives_no_reload() {
    let (mut s, _opts) = loaded(800, 600);
    let read = Notification::Events(vec![ChangeEvent {
        kind: ChangeKind::OpenedForRead,
        paths: vec![target()],
    }]);
    assert!(!s.take_reload_request(&vec![read], &target()));
    assert!(s.take_reload_request(&vec![modified()], &target()));
}

#[test]
fn idle_change_waits_for_next_pass() {
    let (mut s, _opts) = loaded(800, 600);
    s.frame_presented();
    s.note_idle_notification(&modified(), &target());
    assert!(s.dirty && s.reload_pending);
    assert!(s.take_reload_request(&Vec::new(), &target()));
    assert!(!s.reload_pending);
}

#[test]
fn regained_focus_makes_frame_stale() {
    let mut s = Session::new(DocumentCache::new(), 10, 10, false);
    s.frame_presented();
    s.note_focus(false);
    assert!(!s.dirty);
    s.note_focus(true);
    assert!(s.dirty);
    s.frame_presented();
    s.note_focus(true);
    assert!(!s.dirty);
}

#[test]
fn resize_marks_dirty_only_on_change() {
    let mut s = Session::new(DocumentCache::new(), 10, 10, true);
    s.frame_presented();
    s.resize(10, 10);
    assert!(!s.dirty);
    s.resize(20, 0);
    assert!(s.dirty);
    assert_eq!((s.width, s.height), (20, 1));
}

#[test]
fn keys_apply_in_order() {
    let (mut s, _opts) = loaded(800, 600);
    s.apply_input(Keys { up: true, right: true, ..Default::default() });
    assert_eq!((s.viewport.pan_x, s.viewport.pan_y), (-10, 10));
    s.apply_input(Keys { down: true, left: true, zoom_out: true, reset: true, ..Default::default() });
    assert_eq!((s.viewport.pan_x, s.viewport.pan_y, s.viewport.zoom), (0, 0, ZOOM_ONE));
    assert!(s.viewport.auto_fit);
}

#[test]
fn refresh_fit_follows_resize() {
    let (mut s, _opts) = loaded(800, 600);
    s.frame_presented();
    s.resize(400, 600);
    s.refresh_fit();
    // min(400 / 400, 600 / 300) = 1
    assert_eq!((s.viewport.fit_num, s.viewport.fit_den), (400, 400));
}

#[test]
fn refresh_fit_skipped_in_manual_mode() {
    let (mut s, _opts) = loaded(800, 600);
    s.apply_input(Keys { zoom_in: true, ..Default::default() });
    let before = s.viewport;
    s.resize(100, 100);
    s.refresh_fit();
    assert_eq!(s.viewport, before);
}

#[test]
fn next_step_presents_when_dirty_and_waits_otherwise() {
    let mut s = Session::new(DocumentCache::new(), 10, 10, true);
    assert_eq!(s.next_step(true), Step::Present);
    s.frame_presented();
    assert_eq!(s.next_step(true), Step::Wait { timeout_ms: 16 });
    assert_eq!(s.next_step(false), Step::Wait { timeout_ms: 100 });
}

#[test]
fn install_parsed_caches_that_tree() {
    let opts = usvg::Options::default();
    let tree = usvg::Tree::from_data(WIDE.as_bytes(), &opts).unwrap();
    let mut s = Session::new(DocumentCache::new(), 1000, 100, true);
    s.frame_presented();
    s.apply_input(Keys { zoom_in: true, ..Default::default() });
    assert!(s.install_parsed(Some(tree)));
    assert_eq!(s.cache.doc_size(), Some(DocSize { width: 800, height: 100 }));
    assert!(s.viewport.auto_fit && s.dirty);
    assert_eq!((s.viewport.fit_num, s.viewport.fit_den), (100, 100));
    let before = (s.viewport, s.cache.doc_size());
    assert!(!s.install_parsed(None));
    assert_eq!((s.viewport, s.cache.doc_size()), before);
}

#[test]
fn cache_install_replaces_document() {
    let opts = usvg::Options::default();
    let mut c = DocumentCache::new();
    assert!(c.reload(Some(DOC.as_bytes().to_vec()), &opts));
    let wide = usvg::Tree::from_data(WIDE.as_bytes(), &opts).unwrap();
    assert!(c.install(Some(wide)));
    assert_eq!(c.doc_size(), Some(DocSize { width: 800, height: 100 }));
    assert!(!c.install(None));
    assert_eq!(c.doc_size(), Some(DocSize { width: 800, height: 100 }));
}

#[test]
fn refresh_fit_without_document_keeps_viewport() {
    let mut s = Session::new(DocumentCache::new(), 10, 10, true);
    let before = s.viewport;
    s.resize(300, 200);
    s.refresh_fit();
    assert_eq!(s.viewport, before);
}

#[test]
fn non_utf8_bytes_keep_last_document() {
    let (mut s, opts) = loaded(800, 600);
    s.frame_presented();
    let before = (s.viewport, s.cache.doc_size(), s.dirty);
    assert!(!s.reload(Some(vec![b'<', b's', 0xFF, b'>']), &opts));
    assert_eq!((s.viewport, s.cache.doc_size(), s.dirty), before);
}
