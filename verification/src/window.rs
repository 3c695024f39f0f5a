//! The windowing core: the lifecycle of a winit-backed window and the
//! reactions to its events.
//!
//! The shell owns the real event loop. On `resumed` it creates the window,
//! the GPU surface, adapter and device, and hands their capabilities in
//! here; on every window event it calls [`WinitWindow::window_event`] and
//! carries out the returned [`EventReaction`] — exiting the loop,
//! requesting a redraw, or submitting the returned frame plan.

use vstd::prelude::*;

use crate::app::{App, Ctx};
use crate::render::mesh::{decodes_to_texture, is_decoded_texture};
use crate::render::{self, is_format_choice, FramePlan, Gfx, RenderError, SurfaceCaps, SurfaceConfig};

verus! {

/// Why the window backend could not run.
#[derive(Clone, Copy, Debug, PartialEq, Eq, Structural)]
pub enum WindowError {
    /// The event loop could not be created or failed while running.
    EventLoop,
}

/// A window with a pixel size.
pub trait Window {
    /// The size this window was asked for.
    spec fn spec_size(&self) -> (u32, u32);

    fn size(&self) -> (s: (u32, u32))
        ensures
            s == self.spec_size(),
    ;
}

/// The window events the engine reacts to, reduced to plain values.
#[derive(Clone, Copy, Debug, PartialEq, Eq, Structural)]
pub enum WindowEvent {
    /// The user asked to close the window.
    CloseRequested,
    /// The window should be redrawn.
    RedrawRequested,
    /// The window was resized to the given width and height.
    Resized(u32, u32),
    /// Any other event; the engine ignores it.
    Other,
}

/// What the shell must do after one window event.
pub struct EventReaction {
    /// Stop the event loop.
    pub exit: bool,
    /// Ask the window for another redraw.
    pub request_redraw: bool,
    /// Submit this frame to the GPU.
    pub frame: Option<FramePlan>,
}

/// Start a winit-backed window running `app`.
pub fn winit<A: App>(size: (u32, u32), app: A) -> (r: Result<WindowBackend<A>, WindowError>)
    ensures
        r matches Ok(WindowBackend::Winit(w)) ==> {
            &&& w.size == size
            &&& w.gfx is None
            &&& !w.window_created
            &&& w.app == Some(app)
        },
        r is Ok,
{
    let w = WinitWindow::new(size, app);
    Ok(WindowBackend::Winit(w))
}

/// The available window backends.
pub enum WindowBackend<A: App> {
    Winit(WinitWindow<A>),
}

/// The state of a winit-backed window: the size it was asked for, the
/// renderer once the window exists, and the application until it is handed
/// off to its own thread.
pub struct WinitWindow<A: App> {
    /// The size the window was requested with.
    pub size: (u32, u32),
    /// The renderer, from `resumed` on.
    pub gfx: Option<Gfx>,
    /// Whether the shell has created the real window.
    pub window_created: bool,
    /// The application, until `resumed` hands it off.
    pub app: Option<A>,
}

impl<A: App> Window for WinitWindow<A> {
    open spec fn spec_size(&self) -> (u32, u32) {
        self.size
    }

    fn size(&self) -> (s: (u32, u32)) {
        self.size
    }
}

impl<A: App> WinitWindow<A> {
    /// A window that exists only as a request: nothing is created until the
    /// event loop delivers `resumed`.
    fn new(size: (u32, u32), app: A) -> (w: WinitWindow<A>)
        ensures
            w.size == size,
            w.gfx is None,
            !w.window_created,
            w.app == Some(app),
    {
        WinitWindow { size, gfx: None, window_created: false, app: Some(app) }
    }

    /// React to the event loop resuming: build the renderer from the
    /// capabilities of the surface the shell created, configure it to the
    /// window's actual inner size, and initialize the application.
    ///
    /// Returns the application and its context for the shell to run `step`
    /// on a separate thread, if an application was still waiting. The one
    /// failure is the renderer's: its error is handed back unchanged.
    pub fn resumed(
        &mut self,
        caps: &SurfaceCaps,
        logo_bytes: &[u8],
        inner_size: (u32, u32),
        ctx: Ctx,
    ) -> (r: Result<Option<(A, Ctx)>, RenderError>)
        requires
            caps.well_formed(),
        ensures
            r is Ok <==> decodes_to_texture(logo_bytes@),
            r is Ok ==> {
                &&& final(self).window_created
                &&& final(self).app is None
                &&& final(self).size == old(self).size
            },
            r is Ok ==> (final(self).gfx matches Some(g) && g.surface_configured),
            r matches Ok(run) ==> (run is Some <==> old(self).app is Some),
            r is Ok && old(self).app is None ==> (final(self).gfx matches Some(g) && {
                &&& g.config.width == inner_size.0
                &&& g.config.height == inner_size.1
                &&& is_format_choice(g.config.format_index as int, caps.formats_srgb@)
                &&& g.config.present_mode_index == 0
                &&& g.config.alpha_mode_index == 0
                &&& g.config.desired_maximum_frame_latency == 2
                &&& is_decoded_texture(logo_bytes@, g.logo)
            }),
            r matches Err(e) ==> {
                &&& e == RenderError::Image
                &&& final(self).window_created
                &&& final(self).gfx == old(self).gfx
                &&& final(self).app == old(self).app
                &&& final(self).size == old(self).size
            },
    {
        self.window_created = true;

        let mut gfx = match render::wgpu(caps, self.size, logo_bytes) {
            Ok(gfx) => gfx,
            Err(e) => {
                return Err(e);
            },
        };
        gfx.set_surface_size(inner_size.0, inner_size.1);

        let run = match self.app.take() {
            Some(mut app) => {
                let mut ctx = ctx;
                app.init(&mut ctx, &mut gfx);
                Some((app, ctx))
            },
            None => None,
        };

        self.gfx = Some(gfx);
        Ok(run)
    }

    /// React to one window event.
    ///
    /// A close request asks the shell to exit. A redraw request asks for
    /// the next redraw and, once a renderer exists, plans a frame without
    /// sprites. A resize reconfigures the renderer's surface. Everything
    /// else is ignored.
    pub fn window_event(&mut self, event: &WindowEvent) -> (r: EventReaction)
        requires
            *event is RedrawRequested ==> old(self).window_created,
        ensures
            *event is CloseRequested ==> r.exit && !r.request_redraw && r.frame is None
                && *final(self) == *old(self),
            *event is RedrawRequested ==> {
                &&& !r.exit
                &&& r.request_redraw
                &&& *final(self) == *old(self)
                &&& old(self).gfx matches Some(g) ==> {
                    &&& (r.frame is Some <==> g.surface_configured)
                    &&& r.frame matches Some(p) ==> p.draws@.len() == 0
                }
                &&& old(self).gfx is None ==> r.frame is None
            },
            *event matches WindowEvent::Resized(w, h) ==> {
                    &&& !r.exit
                    &&& !r.request_redraw
                    &&& r.frame is None
                    &&& final(self).size == old(self).size
                    &&& final(self).window_created == old(self).window_created
                    &&& final(self).app == old(self).app
                    &&& old(self).gfx matches Some(g) ==> final(self).gfx == Some(
                        Gfx {
                            config: SurfaceConfig { width: w, height: h, ..g.config },
                            surface_configured: true,
                            ..g
                        },
                    )
                    &&& old(self).gfx is None ==> final(self).gfx is None
                },
            *event is Other ==> !r.exit && !r.request_redraw && r.frame is None
                && *final(self) == *old(self),
    {
        match event {
            WindowEvent::CloseRequested => EventReaction {
                exit: true,
                request_redraw: false,
                frame: None,
            },
            WindowEvent::RedrawRequested => {
                let frame = match &self.gfx {
                    Some(gfx) => gfx.render(&Vec::new()),
                    None => None,
                };
                EventReaction { exit: false, request_redraw: true, frame }
            },
            WindowEvent::Resized(w, h) => {
                match &mut self.gfx {
                    Some(gfx) => {
                        gfx.set_surface_size(*w, *h);
                    },
                    None => {},
                }
                EventReaction { exit: false, request_redraw: false, frame: None }
            },
            WindowEvent::Other => EventReaction {
                exit: false,
                request_redraw: false,
                frame: None,
            },
        }
    }
}

} // verus!
