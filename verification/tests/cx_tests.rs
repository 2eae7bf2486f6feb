use render_cx::cx::Cx;
use render_cx::cx::CxFont;
use render_cx::cx::CxView;
use render_cx::cx::PlatformType;
use render_cx::cx::TextureFormat;

#[test]
fn default_context_is_fresh() {
    let cx = Cx::default();
    assert!(cx.running);
    assert_eq!(cx.counter, 0);
    assert!(cx.platform_type.is_desktop());
    assert_eq!(cx.windows.slot_count(), 0);
    assert_eq!(cx.passes.slot_count(), 0);
    assert_eq!(cx.views.slot_count(), 0);
    assert_eq!(cx.fonts.slot_count(), 0);
    assert_eq!(cx.geometries.slot_count(), 0);
    assert_eq!(cx.repaint_id, 1);
    assert_eq!(cx.event_id, 1);
    assert_eq!(cx.timer_id, 1);
    assert_eq!(cx.next_frame_id, 1);
    assert_eq!(cx.signal_id, 1);
}

#[test]
fn default_context_reserves_the_null_texture() {
    let mut cx = Cx::default();
    assert_eq!(cx.textures.slot_count(), 1);
    assert!(cx.textures.live(0));
    let t = cx.textures.get(0);
    assert_eq!(t.desc.format, TextureFormat::ImageBGRA);
    assert_eq!(t.desc.width, Some(4));
    assert_eq!(t.desc.height, Some(4));
    assert_eq!(t.desc.multisample, None);
    assert_eq!(t.image_u32, vec![0u32; 16]);
    assert!(t.update_image);
    // The sentinel can never be released.
    assert!(cx.textures.release(0).is_err());
}

#[test]
fn is_desktop_only_denies_web() {
    assert!(PlatformType::Unknown.is_desktop());
    assert!(PlatformType::Windows.is_desktop());
    assert!(PlatformType::OSX.is_desktop());
    assert!(PlatformType::Linux { custom_window_chrome: true }.is_desktop());
    let web = PlatformType::Web {
        protocol: String::from("https:"),
        hostname: String::from("example.test"),
        port: 443,
        pathname: String::from("/"),
        search: String::new(),
        hash: String::new(),
    };
    assert!(!web.is_desktop());
}

#[test]
fn first_cycle_traverses_every_live_view() {
    let mut cx = Cx::default();
    let v0 = cx.views.allocate(CxView { redraw_id: 0 });
    let v1 = cx.views.allocate(CxView { redraw_id: 0 });
    let v2 = cx.views.allocate(CxView { redraw_id: 0 });
    assert!(cx.views.release(v1).is_ok());
    // A fresh context starts with the redraw-all flag set.
    cx.begin_redraw_cycle();
    assert_eq!(cx.scheduler.current_views().clone(), vec![v0, v2]);
    cx.end_redraw_cycle();
    assert_eq!(cx.repaint_id, 2);
    // The flag cleared itself; with nothing marked, nothing is traversed.
    cx.begin_redraw_cycle();
    assert_eq!(cx.scheduler.current_views().clone(), Vec::<usize>::new());
}

#[test]
fn live_view_indices_skip_freed_slots() {
    let mut cx = Cx::default();
    let v0 = cx.views.allocate(CxView { redraw_id: 0 });
    let v1 = cx.views.allocate(CxView { redraw_id: 0 });
    let v2 = cx.views.allocate(CxView { redraw_id: 0 });
    assert!(cx.views.release(v0).is_ok());
    assert_eq!(cx.live_view_indices(), vec![v1, v2]);
}

#[test]
fn fonts_live_in_their_own_arena() {
    let mut cx = Cx::default();
    let f0 = cx.fonts.allocate(CxFont { loaded: false, atlas_pages: 0 });
    cx.fonts.set(f0, CxFont { loaded: true, atlas_pages: 2 });
    assert!(cx.fonts.get(f0).loaded);
    assert_eq!(cx.fonts.get(f0).atlas_pages, 2);
}

#[test]
fn views_go_stale_when_the_generation_advances() {
    let mut cx = Cx::default();
    let v0 = cx.views.allocate(CxView { redraw_id: 0 });
    cx.begin_redraw_cycle();
    assert!(cx.view_is_stale(v0));
    cx.mark_view_drawn(v0);
    assert!(!cx.view_is_stale(v0));
    cx.end_redraw_cycle();
    cx.begin_redraw_cycle();
    assert!(cx.view_is_stale(v0));
}

#[test]
fn generation_counters_advance_monotonically() {
    let mut cx = Cx::default();
    assert_eq!(cx.next_event_id(), 1);
    assert_eq!(cx.next_event_id(), 2);
    assert_eq!(cx.next_timer_id(), 1);
    assert_eq!(cx.next_frame_id(), 1);
    assert_eq!(cx.new_signal(), 1);
    assert_eq!(cx.new_signal(), 2);
    assert_eq!(cx.event_id, 3);
    assert_eq!(cx.signal_id, 3);
}
