//! Session-side behaviour: pixel conversion, format negotiation,
//! session creation and surface reconfiguration.

use render_session::error::SessionError;
use render_session::format::AlphaMode;
use render_session::format::Backend;
use render_session::format::PresentMode;
use render_session::format::TextureFormat;
use render_session::format::choose_format;
use render_session::format::choose_view_formats;
use render_session::pixels::LogicalSize;
use render_session::pixels::PhysicalSize;
use render_session::pixels::ScaleFactor;
use render_session::pixels::to_physical;
use render_session::session::AdapterInfo;
use render_session::session::Session;
use render_session::session::SetupOutcome;
use render_session::session::SurfaceAction;
use render_session::session::SurfaceCaps;
use render_session::session::MAX_FRAMES_IN_FLIGHT;

fn ready_setup(srgb_view_formats: bool) -> SetupOutcome {
    SetupOutcome::Ready {
        adapter: AdapterInfo { name: String::from("test adapter"), backend: Backend::Vulkan },
        caps: SurfaceCaps {
            formats: vec![TextureFormat::Bgra8UnormSrgb, TextureFormat::Rgba8Unorm],
            alpha_modes: vec![AlphaMode::Opaque, AlphaMode::Auto],
            srgb_view_formats,
        },
    }
}

fn ready_session(width: u32, height: u32, permille: u32) -> Session {
    Session::create(
        ready_setup(true),
        LogicalSize { width, height },
        ScaleFactor { permille },
    )
    .expect("setup was ready")
}

#[test]
fn conversion_identity_scale_is_exact() {
    let size = to_physical(LogicalSize { width: 800, height: 600 }, ScaleFactor::identity());
    assert_eq!(size, PhysicalSize { width: 800, height: 600 });
}

#[test]
fn conversion_rounds_half_up() {
    // 3 * 1.5 = 4.5 rounds up to 5; 1 * 1.5 = 1.5 rounds up to 2.
    let size = to_physical(LogicalSize { width: 3, height: 1 }, ScaleFactor { permille: 1500 });
    assert_eq!(size, PhysicalSize { width: 5, height: 2 });
    // 1 * 0.1 = 0.1 rounds down to 0.
    let tiny = to_physical(LogicalSize { width: 1, height: 1 }, ScaleFactor { permille: 100 });
    assert_eq!(tiny, PhysicalSize { width: 0, height: 0 });
}

#[test]
fn conversion_is_idempotent_for_one_scale() {
    let logical = LogicalSize { width: 800, height: 800 };
    let scale = ScaleFactor { permille: 1250 };
    let first = to_physical(logical, scale);
    let second = to_physical(logical, scale);
    assert_eq!(first, second);
    assert_eq!(first, PhysicalSize { width: 1000, height: 1000 });
}

#[test]
fn conversion_saturates_at_the_largest_extent() {
    let size = to_physical(
        LogicalSize { width: u32::MAX, height: 2 },
        ScaleFactor { permille: 2000 },
    );
    assert_eq!(size.width, u32::MAX);
    assert_eq!(size.height, 4);
}

#[test]
fn negotiation_keeps_srgb_when_views_are_allowed() {
    let formats = vec![TextureFormat::Bgra8UnormSrgb, TextureFormat::Rgba8Unorm];
    assert_eq!(choose_format(&formats, true), TextureFormat::Bgra8UnormSrgb);
}

#[test]
fn negotiation_demotes_srgb_when_views_are_refused() {
    let formats = vec![TextureFormat::Bgra8UnormSrgb, TextureFormat::Rgba8Unorm];
    assert_eq!(choose_format(&formats, false), TextureFormat::Bgra8Unorm);
}

#[test]
fn view_formats_carry_both_encodings_or_none() {
    let both = choose_view_formats(TextureFormat::Bgra8UnormSrgb, true);
    assert_eq!(both, vec![TextureFormat::Bgra8UnormSrgb, TextureFormat::Bgra8Unorm]);
    let none = choose_view_formats(TextureFormat::Bgra8UnormSrgb, false);
    assert!(none.is_empty());
}

#[test]
fn create_without_adapter_fails() {
    let r = Session::create(
        SetupOutcome::NoAdapter,
        LogicalSize { width: 800, height: 800 },
        ScaleFactor::identity(),
    );
    assert_eq!(r.unwrap_err(), SessionError::NoCompatibleAdapter);
}

#[test]
fn create_with_refused_device_carries_the_diagnostic() {
    let r = Session::create(
        SetupOutcome::DeviceRefused {
            adapter: AdapterInfo { name: String::from("gpu"), backend: Backend::Gl },
            diagnostic: String::from("limits exceeded"),
        },
        LogicalSize { width: 800, height: 800 },
        ScaleFactor::identity(),
    );
    assert_eq!(
        r.unwrap_err(),
        SessionError::DeviceCreationFailed(String::from("limits exceeded"))
    );
}

#[test]
fn create_negotiates_the_initial_configuration() {
    let session = ready_session(800, 800, 1000);
    assert_eq!(session.config.format, TextureFormat::Bgra8UnormSrgb);
    assert_eq!(session.config.width, 800);
    assert_eq!(session.config.height, 800);
    assert_eq!(session.config.present_mode, PresentMode::Fifo);
    assert_eq!(session.config.alpha_mode, AlphaMode::Opaque);
    assert_eq!(session.config.max_frame_latency, MAX_FRAMES_IN_FLIGHT);
    assert_eq!(
        session.config.view_formats,
        vec![TextureFormat::Bgra8UnormSrgb, TextureFormat::Bgra8Unorm]
    );
    assert_eq!(session.adapter_info().name, "test adapter");
    assert_eq!(session.adapter_info().backend, Backend::Vulkan);
}

#[test]
fn create_converts_the_initial_size_once() {
    let session = ready_session(800, 600, 1250);
    assert_eq!(session.config.width, 1000);
    assert_eq!(session.config.height, 750);
}

#[test]
fn reconfigure_with_the_same_size_rebuilds_at_most_once() {
    let mut session = ready_session(800, 800, 1000);
    let first = session.reconfigure(PhysicalSize { width: 400, height: 400 });
    assert_eq!(first, SurfaceAction::Apply);
    let second = session.reconfigure(PhysicalSize { width: 400, height: 400 });
    assert_eq!(second, SurfaceAction::Keep);
    assert_eq!(session.config.width, 400);
    assert_eq!(session.config.height, 400);
}

#[test]
fn reconfigure_with_a_zero_extent_never_touches_the_surface() {
    let mut session = ready_session(800, 800, 1000);
    assert_eq!(session.reconfigure(PhysicalSize { width: 0, height: 700 }), SurfaceAction::Keep);
    assert_eq!(session.reconfigure(PhysicalSize { width: 700, height: 0 }), SurfaceAction::Keep);
    assert_eq!(session.reconfigure(PhysicalSize { width: 0, height: 0 }), SurfaceAction::Keep);
    assert_eq!(session.config.width, 800);
    assert_eq!(session.config.height, 800);
}

#[test]
fn resize_away_and_back_restores_the_configuration() {
    let mut session = ready_session(800, 800, 1250);
    let original_width = session.config.width;
    let original_height = session.config.height;
    assert_eq!(original_width, 1000);

    assert_eq!(
        session.handle_resize(LogicalSize { width: 400, height: 400 }),
        SurfaceAction::Apply
    );
    assert_eq!(session.config.width, 500);
    assert_eq!(
        session.handle_resize(LogicalSize { width: 800, height: 800 }),
        SurfaceAction::Apply
    );

    let expected = Session::create(
        ready_setup(true),
        LogicalSize { width: 800, height: 800 },
        ScaleFactor { permille: 1250 },
    )
    .expect("setup was ready");
    assert_eq!(session.config, expected.config);
    assert_eq!(session.config.width, original_width);
    assert_eq!(session.config.height, original_height);
}

#[test]
fn frame_view_format_is_the_srgb_variant() {
    let session = ready_session(800, 800, 1000);
    assert_eq!(session.frame_view_format(), TextureFormat::Bgra8UnormSrgb);

    let linear = Session::create(
        ready_setup(false),
        LogicalSize { width: 800, height: 800 },
        ScaleFactor::identity(),
    )
    .expect("setup was ready");
    assert_eq!(linear.config.format, TextureFormat::Bgra8Unorm);
    assert_eq!(linear.frame_view_format(), TextureFormat::Bgra8UnormSrgb);
}

#[test]
fn configured_size_reports_physical_pixels() {
    let session = ready_session(640, 480, 2000);
    assert_eq!(session.configured_size(), PhysicalSize { width: 1280, height: 960 });
}
