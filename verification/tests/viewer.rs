use pano_viewer::viewer::{
    select_format_index, FormatInfo, HostAction, PanoViewer, Phase, SurfaceError,
};

fn linear() -> FormatInfo {
    FormatInfo { srgb: false }
}

fn srgb() -> FormatInfo {
    FormatInfo { srgb: true }
}

/// A stand-in for the window's surface: it fails exactly as scripted, and
/// always succeeds once it has been reconfigured.
struct MockSurface {
    scripted_errors: Vec<SurfaceError>,
    reconfigured: bool,
}

impl MockSurface {
    fn new(scripted_errors: Vec<SurfaceError>) -> MockSurface {
        MockSurface { scripted_errors, reconfigured: false }
    }

    fn configure(&mut self) {
        self.reconfigured = true;
    }

    fn present_frame(&mut self) -> Result<(), SurfaceError> {
        if self.reconfigured || self.scripted_errors.is_empty() {
            Ok(())
        } else {
            Err(self.scripted_errors.remove(0))
        }
    }
}

#[test]
fn format_selection_prefers_the_first_srgb_entry() {
    let caps = vec![linear(), srgb(), srgb(), linear()];
    assert_eq!(select_format_index(&caps), 1);
}

#[test]
fn format_selection_falls_back_to_the_first_entry() {
    let caps = vec![linear(), linear(), linear()];
    assert_eq!(select_format_index(&caps), 0);
}

#[test]
fn format_selection_takes_a_leading_srgb_entry() {
    let caps = vec![srgb(), linear()];
    assert_eq!(select_format_index(&caps), 0);
}

#[test]
fn cold_start_renders_one_full_screen_triangle() {
    let mut v = PanoViewer::new(1280, 720, srgb());
    assert_eq!(v.phase, Phase::Ready);
    assert_eq!(v.config.width, 1280);
    assert_eq!(v.config.height, 720);
    let plan = v.frame_plan();
    assert_eq!(plan.first_vertex, 0);
    assert_eq!(plan.vertex_count, 3);
    assert_eq!(plan.first_instance, 0);
    assert_eq!(plan.instance_count, 1);
    let action = v.apply_render_outcome(&Ok(()));
    assert_eq!(action, HostAction::Proceed);
    assert_eq!(v.phase, Phase::Ready);
}

#[test]
fn degenerate_resizes_change_nothing() {
    let mut v = PanoViewer::new(800, 600, srgb());
    let before = v;
    assert!(!v.resize(0, 600));
    assert_eq!(v, before);
    assert!(!v.resize(800, 0));
    assert_eq!(v, before);
    assert!(!v.resize(0, 0));
    assert_eq!(v, before);
}

#[test]
fn resize_stores_and_configures_the_new_size() {
    let mut v = PanoViewer::new(800, 600, linear());
    assert!(v.resize(1024, 768));
    assert_eq!(v.size.width, 1024);
    assert_eq!(v.size.height, 768);
    assert_eq!(v.config.width, 1024);
    assert_eq!(v.config.height, 768);
    assert_eq!(v.config.format, linear());
    assert_eq!(v.phase, Phase::Ready);
}

#[test]
fn resizing_twice_to_the_same_size_is_identical() {
    let mut v = PanoViewer::new(800, 600, srgb());
    v.resize(1024, 768);
    let first = v;
    v.resize(1024, 768);
    assert_eq!(v, first);
}

#[test]
fn transient_errors_only_ask_for_a_retry() {
    let mut v = PanoViewer::new(640, 480, srgb());
    assert_eq!(v.apply_render_outcome(&Err(SurfaceError::Outdated)), HostAction::Retry);
    assert_eq!(v.phase, Phase::Ready);
    assert_eq!(v.apply_render_outcome(&Err(SurfaceError::Timeout)), HostAction::Retry);
    assert_eq!(v.phase, Phase::Ready);
}

#[test]
fn out_of_memory_is_fatal() {
    let mut v = PanoViewer::new(640, 480, srgb());
    assert_eq!(v.apply_render_outcome(&Err(SurfaceError::OutOfMemory)), HostAction::Exit);
    assert_eq!(v.phase, Phase::Fatal);
}

#[test]
fn a_lost_surface_recovers_after_one_reconfiguration() {
    let mut surface = MockSurface::new(vec![SurfaceError::Lost]);
    let mut v = PanoViewer::new(1280, 720, srgb());

    let outcome = surface.present_frame();
    assert_eq!(outcome, Err(SurfaceError::Lost));
    let action = v.apply_render_outcome(&outcome);
    assert_eq!(action, HostAction::Reconfigure);
    assert_eq!(v.phase, Phase::Lost);

    // The host reconfigures at the current size, exactly as demanded.
    let (w, h) = (v.size.width, v.size.height);
    assert!(v.resize(w, h));
    surface.configure();
    assert_eq!(v.phase, Phase::Ready);
    assert_eq!(v.size.width, 1280);
    assert_eq!(v.size.height, 720);

    // A stable window does not lose the surface again.
    let outcome = surface.present_frame();
    assert_eq!(outcome, Ok(()));
    assert_eq!(v.apply_render_outcome(&outcome), HostAction::Proceed);
    assert_eq!(v.phase, Phase::Ready);
}

#[test]
fn viewer_consumes_no_input_and_has_no_update_step() {
    let mut v = PanoViewer::new(320, 200, linear());
    let before = v;
    assert!(!v.input(&pano_viewer::camera::InputEvent::Other));
    v.update();
    assert_eq!(v, before);
}
