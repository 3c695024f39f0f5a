use std::sync::mpsc;

use vge::app::{App, Ctx};
use vge::render::{Gfx, SurfaceCaps};
use vge::window::{winit, Window, WindowBackend, WindowEvent};

struct Probe {
    init_calls: u32,
    seen_width: u32,
}

impl App for Probe {
    fn init(&mut self, _ctx: &mut Ctx, gfx: &mut Gfx) {
        self.init_calls += 1;
        self.seen_width = gfx.config.width;
    }

    fn step(&mut self, _ctx: &mut Ctx) {}
}

fn png_bytes() -> Vec<u8> {
    let img = image::RgbaImage::new(1, 1);
    let mut buf = std::io::Cursor::new(Vec::new());
    image::DynamicImage::ImageRgba8(img)
        .write_to(&mut buf, image::ImageFormat::Png)
        .unwrap();
    buf.into_inner()
}

fn caps() -> SurfaceCaps {
    SurfaceCaps { formats_srgb: vec![true], present_mode_count: 1, alpha_mode_count: 1 }
}

fn ctx() -> Ctx {
    let (sender, _receiver) = mpsc::channel();
    Ctx::new(sender)
}

fn fresh() -> vge::window::WinitWindow<Probe> {
    let app = Probe { init_calls: 0, seen_width: 0 };
    match winit((640, 480), app).unwrap() {
        WindowBackend::Winit(w) => w,
    }
}

#[test]
fn winit_starts_unrealized() {
    let w = fresh();
    assert_eq!(w.size, (640, 480));
    assert_eq!(w.size(), (640, 480));
    assert!(w.gfx.is_none());
    assert!(!w.window_created);
    assert!(w.app.is_some());
}

#[test]
fn resumed_builds_and_configures_the_renderer() {
    let mut w = fresh();
    let run = w.resumed(&caps(), &png_bytes(), (800, 600), ctx()).unwrap();

    assert!(w.window_created);
    assert!(w.app.is_none());
    let gfx = w.gfx.as_ref().unwrap();
    assert!(gfx.surface_configured);
    // configured to the window's actual inner size, not the requested one
    assert_eq!(gfx.config.width, 800);
    assert_eq!(gfx.config.height, 600);

    let (app, _ctx) = run.unwrap();
    assert_eq!(app.init_calls, 1);
    assert_eq!(app.seen_width, 800);
}

#[test]
fn resumed_without_an_app_hands_nothing_off() {
    let mut w = fresh();
    w.app = None;
    let run = w.resumed(&caps(), &png_bytes(), (320, 200), ctx()).unwrap();
    assert!(run.is_none());
    assert!(w.gfx.is_some());
}

#[test]
fn resumed_with_a_bad_logo_fails() {
    let mut w = fresh();
    let r = w.resumed(&caps(), &[9, 9, 9], (320, 200), ctx());
    assert!(r.is_err());
    assert!(w.gfx.is_none());
    assert!(w.app.is_some());
}

#[test]
fn close_request_exits() {
    let mut w = fresh();
    let r = w.window_event(&WindowEvent::CloseRequested);
    assert!(r.exit);
    assert!(!r.request_redraw);
    assert!(r.frame.is_none());
}

#[test]
fn redraw_before_resume_only_rerequests() {
    let mut w = fresh();
    w.window_created = true;
    let r = w.window_event(&WindowEvent::RedrawRequested);
    assert!(!r.exit);
    assert!(r.request_redraw);
    assert!(r.frame.is_none());
}

#[test]
fn redraw_after_resume_plans_an_empty_frame() {
    let mut w = fresh();
    w.resumed(&caps(), &png_bytes(), (800, 600), ctx()).unwrap();
    let r = w.window_event(&WindowEvent::RedrawRequested);
    assert!(r.request_redraw);
    let frame = r.frame.unwrap();
    assert_eq!(frame.draws.len(), 0);
}

#[test]
fn resize_updates_the_surface_configuration() {
    let mut w = fresh();
    w.resumed(&caps(), &png_bytes(), (800, 600), ctx()).unwrap();
    let r = w.window_event(&WindowEvent::Resized(1024, 768));
    assert!(!r.exit);
    assert!(!r.request_redraw);
    assert!(r.frame.is_none());
    let gfx = w.gfx.as_ref().unwrap();
    assert_eq!(gfx.config.width, 1024);
    assert_eq!(gfx.config.height, 768);
}

#[test]
fn resize_before_resume_is_ignored() {
    let mut w = fresh();
    let r = w.window_event(&WindowEvent::Resized(10, 10));
    assert!(r.frame.is_none());
    assert!(w.gfx.is_none());
}

#[test]
fn other_events_are_ignored() {
    let mut w = fresh();
    let r = w.window_event(&WindowEvent::Other);
    assert!(!r.exit);
    assert!(!r.request_redraw);
    assert!(r.frame.is_none());
}

#[test]
fn options_default_to_winit_and_wgpu() {
    let o = vge::app::options::Options::default();
    assert!(matches!(o.window, vge::app::options::Window::Winit));
    assert!(matches!(o.renderer, vge::app::options::Renderer::Wgpu));
}

#[test]
fn app_ctx_wraps_a_sender() {
    let c = ctx();
    let _d = c.clone();
}

#[test]
fn loop_events_are_plain_values() {
    let e = vge::app::event::Event::Step;
    assert!(matches!(e, vge::app::event::Event::Step));
    assert_ne!(vge::app::event::Event::Step, vge::app::event::Event::Draw);
}

#[test]
fn default_window_size() {
    assert_eq!(vge::DEFAULT_SIZE, (640, 480));
}
