//! The capability interface between a user bar, a window-manager adapter and
//! the per-screen dock bar, and the driver loop's dispatch decision. A
//! backend owning the transport implements the adapter traits; the user
//! implements `Bar`; the driver loop wires them together and lives with the
//! transport, outside this library.

use vstd::prelude::*;
use crate::config::{BarBuilder, DockDirection};
use crate::dock::DockWindow;
use crate::event::{ClickEvent, Event, EventTypes};
use crate::visual::Screen;

verus! {

/// A rendering surface handle. This layer plans and publishes windows but
/// draws nothing; the surface stands in for backends that blit.
#[derive(Debug, Clone, Copy)]
pub struct Surface;

/// One screen as a backend reports it.
pub trait WmScreen {
    /// Pixel dimensions, width before height.
    fn dimensions(&self) -> (u32, u32);

    /// Physical dimensions in millimeters, when the server reports them.
    fn physical_dimensions(&self) -> Option<(u32, u32)>;
}

impl WmScreen for Screen {
    fn dimensions(&self) -> (u32, u32) {
        (self.width_in_pixels as u32, self.height_in_pixels as u32)
    }

    fn physical_dimensions(&self) -> Option<(u32, u32)> {
        Some((self.width_in_millimeters as u32, self.height_in_millimeters as u32))
    }
}

/// A window-manager adapter: owns the transport connection exclusively,
/// enumerates screens, and retrieves translated events, blocking or not.
pub trait WmAdapter<B: Bar>: Sized {
    type Error;

    type Surface;

    type Screen: WmScreen;

    /// Establishes the connection and populates the atom table.
    fn new(cfg: &BarBuilder) -> Result<Self, Self::Error>;

    /// How many screens the server offers.
    fn get_screen_count(&self) -> usize;

    /// A bounds-checked view of one screen.
    fn get_screen(&self, n: usize) -> Option<&Self::Screen>;

    /// Blocks until a native event translates to an abstract one; events
    /// that translate to nothing are skipped silently.
    fn await_event(&self) -> Result<Event, Self::Error>;

    /// Non-blocking retrieval: nothing pending translates to `None`.
    fn poll_event(&self) -> Result<Option<Event>, Self::Error>;
}

/// One bar docked to one screen of an adapter.
pub trait WmAdapterBar<B: Bar, Wm: WmAdapter<B>>: Sized {
    /// Creates the dock window on a screen, publishes its hints and maps
    /// it; any failure aborts the construction.
    fn new(bar: &B, wm: &Wm, cfg: &BarBuilder, screen: &Wm::Screen) -> Result<Self, Wm::Error>;

    /// Recomputes and republishes the strut for a new direction.
    fn set_docking(&mut self, wm: &Wm, dir: DockDirection) -> Result<(), Wm::Error>;

    /// Changes the margins. A backend that declares but does not implement
    /// this reports it rather than ignoring the call.
    fn set_margin(&mut self, wm: &Wm, left: i32, right: i32) -> Result<(), Wm::Error>;

    /// Draws a surface into the bar window at a position. A backend that
    /// declares but does not implement this reports it.
    fn blit(&mut self, wm: &Wm, surface: &Wm::Surface, x: i32, y: i32) -> Result<(), Wm::Error>;

    /// This bar's dock window state, handed to the user bar's callbacks.
    fn dock_window(&mut self) -> &mut DockWindow;
}

/// Names the per-screen bar type of an adapter.
pub trait WmAdapterGetBar<B: Bar>: WmAdapter<B> {
    type AdapterBar: WmAdapterBar<B, Self>;
}

/// A complete adapter: connection handling and a per-screen bar type.
pub trait WmAdapterExt<B: Bar>: WmAdapter<B> + WmAdapterGetBar<B> {
}

/// The user-supplied bar: provides its configuration and declared event
/// interest, and receives callbacks from the driver loop.
pub trait Bar: Sized {
    /// Creates the bar's own state.
    fn new() -> Self;

    /// Which screens the bar wants a dock window on; every screen by
    /// default.
    fn select_screens<S: WmScreen>(&self, screens: &[S]) -> (r: Vec<usize>) {
        let mut r: Vec<usize> = Vec::new();
        let mut i: usize = 0;
        let n: usize = screens.len();
        while i < n
            decreases n - i,
        {
            r.push(i);
            i += 1;
        }
        r
    }

    /// The bar's configuration; the defaults unless overridden.
    fn get_bar_builder(&self) -> BarBuilder {
        BarBuilder::default()
    }

    /// The event classes the bar wants forwarded; none by default.
    fn get_event_types(&self) -> EventTypes {
        0
    }

    /// Called once a screen's bar is constructed, with that screen's dock
    /// window state.
    fn on_bar_start(&mut self, bar: &mut DockWindow) {
    }

    /// Called for every mouse press or release the bar asked for, with that
    /// screen's dock window state.
    fn on_click(&mut self, bar: &mut DockWindow, event: ClickEvent) {
    }

    /// Called when the bar should quit.
    fn on_quit(&mut self) {
    }
}

/// The driver loop's dispatch decision: a mouse press or release reaches the
/// bar's click callback with that screen's dock window state; no other
/// abstract event exists to dispatch.
pub fn dispatch_event<B: Bar>(bar: &mut B, win: &mut DockWindow, ev: &Event) {
    match *ev {
        Event::MouseDown(c) => bar.on_click(win, c),
        Event::MouseUp(c) => bar.on_click(win, c),
    }
}

} // verus!
