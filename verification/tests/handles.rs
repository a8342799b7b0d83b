use rustwlc::handles::{HandleError, WlcOutput, WlcView};
use rustwlc::types::{
    Geometry, Point, ResizeEdge, Size, ViewState, ViewType, RESIZE_EDGE_TOP, STATE_BIT_ACTIVATED,
    STATE_BIT_MAXIMIZED, VIEW_BIT_MODAL, VIEW_BIT_SPLASH,
};

#[test]
fn view_handle_reads_back() {
    assert_eq!(WlcView::dummy(0).handle, 0);
    assert_eq!(WlcView::dummy(42).handle, 42);
    assert_eq!(WlcView::dummy(u32::MAX).handle, u32::MAX);
}

#[test]
fn output_handle_reads_back() {
    assert_eq!(WlcOutput::dummy(0).handle, 0);
    assert_eq!(WlcOutput::dummy(42).handle, 42);
    assert_eq!(WlcOutput::dummy(u32::MAX).handle, u32::MAX);
}

#[test]
fn root_is_root_and_not_window() {
    let root = WlcView::root();
    assert_eq!(root.handle, 0);
    assert!(root.is_root());
    assert!(!root.is_window());
    assert_eq!(root, WlcView::dummy(0));
}

#[test]
fn nonzero_handle_is_window_not_root() {
    let v = WlcView::dummy(7);
    assert!(!v.is_root());
    assert!(v.is_window());
}

#[test]
fn conversion_preserves_handle_and_drops_the_rest() {
    let mut v = WlcView::dummy(7);
    v.title = String::from("terminal");
    v.set_mask(0b101);
    v.focus();
    let o = v.as_output();
    assert_eq!(o.handle, 7);
    assert_eq!(o.get_name(), String::new());

    let o2 = {
        let mut o2 = WlcOutput::dummy(7);
        o2.set_sleep(true);
        o2.set_mask(0b11);
        o2
    };
    let w = o2.as_view();
    assert_eq!(w.handle, 7);
    assert_eq!(w.mask, 0);
    assert!(!w.focused);
    assert_eq!(w.get_title(), String::new());
}

#[test]
fn round_trip_keeps_handle_only() {
    let mut v = WlcView::dummy(9);
    v.set_mask(0xff);
    let w = v.as_output().as_view();
    assert_eq!(w.handle, 9);
    assert_eq!(w.mask, 0);
}

#[test]
fn entities_order_by_handle() {
    let a = WlcView::dummy(1);
    let b = WlcView::dummy(2);
    assert!(a < b);
    assert!(a != b);
    assert_eq!(WlcView::dummy(3), WlcView::dummy(3));

    let x = WlcOutput::dummy(1);
    let y = WlcOutput::dummy(2);
    assert!(x < y);
    assert!(x != y);
    assert_eq!(WlcOutput::dummy(3), WlcOutput::dummy(3));
}

#[test]
fn set_resolution_sets_virtual_resolution_only() {
    assert_eq!(WlcOutput::dummy(1).get_scale(), 1);
    let mut o = WlcOutput::dummy(1);
    o.set_resolution(Size { w: 800, h: 600 }, 3);
    assert_eq!(o.virtual_resolution, Some(Size { w: 2400, h: 1800 }));
    // The native resolution is untouched: it was never probed, so it stays absent.
    assert_eq!(o.resolution, None);
    assert_eq!(o.scaling, 3);
    assert_eq!(o.get_resolution(), None);
}

#[test]
fn set_views_keeps_order_and_duplicates() {
    let mut o = WlcOutput::dummy(1);
    let views = vec![WlcView::dummy(2), WlcView::dummy(1), WlcView::dummy(1)];
    assert_eq!(o.set_views(views), Ok(()));
    let got = o.get_views();
    let handles: Vec<u32> = got.iter().map(|v| v.handle).collect();
    assert_eq!(handles, vec![2, 1, 1]);
}

#[test]
fn get_mutable_views_matches_get_views() {
    let mut o = WlcOutput::dummy(1);
    o.set_views(vec![WlcView::dummy(4), WlcView::dummy(5)]).unwrap();
    let mut o2 = WlcOutput::dummy(1);
    o2.set_views(vec![WlcView::dummy(4), WlcView::dummy(5)]).unwrap();
    let a: Vec<u32> = o.get_views().iter().map(|v| v.handle).collect();
    let b: Vec<u32> = o2.get_mutable_views().iter().map(|v| v.handle).collect();
    assert_eq!(a, b);
}

#[test]
fn set_type_toggle_false_on_absent_flag_is_noop() {
    let mut v = WlcView::dummy(3);
    let before = v.view_type;
    v.set_type(ViewType::from_bits(VIEW_BIT_MODAL), false);
    assert_eq!(v.view_type, before);
    assert_eq!(v.get_type(), before);
}

#[test]
fn set_state_toggle_false_on_absent_flag_is_noop() {
    let mut v = WlcView::dummy(3);
    v.set_state(ViewState::from_bits(STATE_BIT_MAXIMIZED), true);
    let before = v.view_state;
    v.set_state(ViewState::from_bits(STATE_BIT_ACTIVATED), false);
    assert_eq!(v.view_state, before);
}

#[test]
fn set_type_and_state_toggle_and_are_idempotent() {
    let mut v = WlcView::dummy(3);
    let splash = ViewType::from_bits(VIEW_BIT_SPLASH);
    v.set_type(splash, true);
    v.set_type(splash, true);
    assert_eq!(v.view_type, splash);
    v.set_type(splash, false);
    assert_eq!(v.view_type, ViewType::empty());

    let maxed = ViewState::from_bits(STATE_BIT_MAXIMIZED);
    v.set_state(maxed, true);
    v.set_state(maxed, true);
    assert_eq!(v.get_state(), maxed);
}

#[test]
fn view_defaults_are_empty() {
    let v = WlcView::dummy(11);
    assert!(!v.focused);
    assert_eq!(v.mask, 0);
    assert_eq!(v.geometry, Geometry::zero());
    assert_eq!(v.visible_geometry, Geometry::zero());
    assert_eq!(v.view_type, ViewType::empty());
    assert_eq!(v.view_state, ViewState::empty());
    assert_eq!(v.output.handle, 0);
    assert_eq!(WlcView::dummy(11).get_pid(), 0);
    let v = WlcView::dummy(11);
    assert_eq!(v.get_title(), String::new());
    let v = WlcView::dummy(11);
    assert_eq!(v.get_class(), String::new());
    let v = WlcView::dummy(11);
    assert_eq!(v.get_app_id(), String::new());
}

#[test]
fn output_defaults_are_empty() {
    let o = WlcOutput::dummy(11);
    assert!(!o.sleep);
    assert_eq!(o.scaling, 1);
    assert_eq!(o.mask, 0);
    assert_eq!(o.resolution, None);
    assert_eq!(o.virtual_resolution, None);
    assert!(o.views.is_empty());
    assert_eq!(WlcOutput::dummy(11).get_name(), String::new());
    assert!(!WlcOutput::dummy(11).get_sleep());
}

#[test]
fn set_geometry_changes_actual_geometry_only() {
    let mut v = WlcView::dummy(2);
    let g = Geometry { origin: Point { x: 10, y: -5 }, size: Size { w: 640, h: 480 } };
    v.set_geometry(ResizeEdge::from_bits(RESIZE_EDGE_TOP), g);
    assert_eq!(v.geometry, g);
    assert_eq!(v.visible_geometry, Geometry::zero());
    let got = v.get_geometry();
    assert_eq!(got, Some(g));
}

#[test]
fn get_visible_geometry_reads_rendered_geometry() {
    let v = WlcView::dummy(2);
    assert_eq!(v.get_visible_geometry(), Geometry::zero());
}

#[test]
fn set_output_replaces_assignment() {
    let mut v = WlcView::dummy(2);
    v.set_output(WlcOutput::dummy(6));
    assert_eq!(v.output.handle, 6);
    assert_eq!(v.get_output().handle, 6);
}

#[test]
fn focus_sets_local_flag() {
    let mut v = WlcView::dummy(2);
    assert!(!v.focused);
    v.focus();
    assert!(v.focused);
}

#[test]
fn sleep_and_masks() {
    let mut o = WlcOutput::dummy(2);
    o.set_sleep(true);
    assert!(o.get_sleep());
    let mut o = WlcOutput::dummy(2);
    o.set_mask(0b110);
    assert_eq!(o.get_mask(), 0b110);
    let mut v = WlcView::dummy(2);
    v.set_mask(0b011);
    assert_eq!(v.get_mask(), 0b011);
}

#[test]
fn unsupported_operations_say_so() {
    let v = WlcView::dummy(2);
    assert_eq!(v.get_parent(), Err(HandleError::NotSupported));
    let v = WlcView::dummy(2);
    assert_eq!(v.set_parent(&WlcView::root()), Err(HandleError::NotSupported));
    let v = WlcView::dummy(2);
    assert_eq!(v.set_user_data(&5u32), Err(HandleError::NotSupported));
    assert_eq!(v.get_user_data::<u32>(), None);
    let o = WlcOutput::dummy(2);
    assert_eq!(o.set_user_data(&5u32), Err(HandleError::NotSupported));
    assert_eq!(o.get_user_data::<u32>(), None);
}

#[test]
fn no_runtime_means_no_outputs() {
    assert!(WlcOutput::list().is_empty());
    assert_eq!(WlcOutput::focused(), None);
}

#[test]
fn runtime_signals_are_local_noops() {
    WlcView::dummy(2).close();
    WlcView::dummy(2).send_to_back();
    WlcView::dummy(2).send_below(WlcView::dummy(3));
    WlcView::dummy(2).bring_above(WlcView::dummy(3));
    WlcView::dummy(2).bring_to_front();
    WlcOutput::dummy(2).schedule_render();
    WlcOutput::focus(Some(WlcOutput::dummy(2)));
    WlcOutput::focus(None);
}

#[test]
fn end_to_end_scenario() {
    let mut o = WlcOutput::dummy(1);
    assert_eq!(o.scaling, 1);
    o.set_resolution(Size { w: 1920, h: 1080 }, 2);
    assert_eq!(o.virtual_resolution, Some(Size { w: 3840, h: 2160 }));
    assert_eq!(o.scaling, 2);

    let mut v = WlcView::dummy(2);
    v.set_mask(0b0001);
    o.set_mask(0b0011);
    assert!(v.is_visible_on(&o));
    assert_ne!(v.mask & o.mask, 0);

    let mut hidden = WlcView::dummy(3);
    hidden.set_mask(0b0100);
    assert!(!hidden.is_visible_on(&o));
    assert_eq!(o.get_scale(), 2);
}
