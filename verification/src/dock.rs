//! The dock window manager's decision layer. Constructing a dock window is a
//! fixed protocol — query the root geometry, negotiate the visual, create
//! the window, map and configure it, publish the EWMH hints, verify and
//! flush. Everything the protocol decides is computed here, as one plan of
//! plain values; the backend owning the transport performs the plan's
//! requests in order and aborts on the first verification failure.

use vstd::prelude::*;
use crate::atoms::AtomTable;
use crate::config::{BarBuilder, DockDirection};
use crate::error::{ConfigFault, Error};
use crate::event::{event_interest_mask, interest_mask_spec};
use crate::geometry::{
    rect_fault_value, rect_fits, strut_legacy, strut_partial, strut_partial_i32, window_rect,
    window_rect_spec, Gravity, RootGeometry,
};
use crate::visual::{negotiate_visual, negotiate_visual_spec, Screen};
use crate::wire::{
    i32s_le_bytes, property_spec, serialize_i32, serialize_u32, u32s_le_bytes, PropertyRequest,
    ATOM_ATOM, ATOM_CARDINAL,
};

verus! {

/// The desktop sentinel that pins the bar to all desktops.
pub const ALL_DESKTOPS: u32 = 0xFFFF_FFFF;

/// Everything window creation needs, decided ahead of any request: the
/// negotiated depth, visual and colormap demand, the pixels, the rectangle,
/// the gravity and the event-interest mask.
#[derive(Debug, Clone, Copy, PartialEq, Eq, Structural)]
pub struct WindowSpec {
    pub depth: u8,
    pub visual: u32,
    pub colormap_needed: bool,
    pub border_pixel: Option<u32>,
    pub background_pixel: u32,
    pub x: i16,
    pub y: i16,
    pub width: u16,
    pub height: u16,
    pub border_width: u16,
    pub gravity: Gravity,
    pub event_mask: u32,
}

/// The per-screen dock window state: its identifier, the resolved margins,
/// the root origin and screen dimensions snapshot, its own rectangle and the
/// bar thickness.
#[derive(Debug, Clone, Copy)]
pub struct DockWindow {
    pub win: u32,
    pub left: i16,
    pub right: i16,
    pub pos: (i16, i16),
    pub screen_size: (u16, u16),
    pub size: (u16, u16),
    pub width: u16,
}

/// The strut a dock window publishes for a direction, as wire values.
pub open spec fn dock_strut_i32(dock: DockWindow, dir: DockDirection) -> Seq<i32> {
    strut_partial_i32(
        dir,
        dock.width,
        dock.pos.0,
        dock.pos.1,
        dock.screen_size.0,
        dock.screen_size.1,
        dock.left,
        dock.right,
    )
}

/// The partial strut's payload bytes.
pub open spec fn dock_strut_bytes(dock: DockWindow, dir: DockDirection) -> Seq<u8> {
    i32s_le_bytes(dock_strut_i32(dock, dir))
}

/// The legacy strut's payload bytes: the first four fields.
pub open spec fn dock_strut_legacy_bytes(dock: DockWindow, dir: DockDirection) -> Seq<u8> {
    i32s_le_bytes(dock_strut_i32(dock, dir).subrange(0, 4))
}

impl DockWindow {
    /// Builds a change-property request of unsigned 32-bit elements, typed
    /// CARDINAL.
    pub fn change_property_u32(&self, key: u32, values: &Vec<u32>) -> (r: PropertyRequest)
        requires
            values@.len() <= 0xFFFF_FFFF,
        ensures
            property_spec(
                self.win,
                key,
                ATOM_CARDINAL,
                values@.len() as int,
                u32s_le_bytes(values@),
                r,
            ),
    {
        let data = serialize_u32(values);
        PropertyRequest {
            window: self.win,
            key,
            type_atom: ATOM_CARDINAL,
            format: 32,
            value_count: values.len() as u32,
            data,
        }
    }

    /// Builds a change-property request of signed 32-bit elements, typed
    /// CARDINAL, in two's complement on the wire.
    pub fn change_property_i32(&self, key: u32, values: &Vec<i32>) -> (r: PropertyRequest)
        requires
            values@.len() <= 0xFFFF_FFFF,
        ensures
            property_spec(
                self.win,
                key,
                ATOM_CARDINAL,
                values@.len() as int,
                i32s_le_bytes(values@),
                r,
            ),
    {
        let data = serialize_i32(values);
        PropertyRequest {
            window: self.win,
            key,
            type_atom: ATOM_CARDINAL,
            format: 32,
            value_count: values.len() as u32,
            data,
        }
    }

    /// Builds a change-property request whose elements are atoms, typed
    /// ATOM.
    pub fn change_property_atoms(&self, key: u32, values: &Vec<u32>) -> (r: PropertyRequest)
        requires
            values@.len() <= 0xFFFF_FFFF,
        ensures
            property_spec(self.win, key, ATOM_ATOM, values@.len() as int, u32s_le_bytes(values@), r),
    {
        let data = serialize_u32(values);
        PropertyRequest {
            window: self.win,
            key,
            type_atom: ATOM_ATOM,
            format: 32,
            value_count: values.len() as u32,
            data,
        }
    }

    /// The two strut requests that dock (or re-dock) this window: the legacy
    /// 4-field strut, then the 12-field partial strut.
    pub fn set_docking_requests(&self, atoms: &AtomTable, dir: DockDirection) -> (r: Vec<
        PropertyRequest,
    >)
        ensures
            r@.len() == 2,
            property_spec(
                self.win,
                atoms.strut,
                ATOM_CARDINAL,
                4,
                dock_strut_legacy_bytes(*self, dir),
                r@[0],
            ),
            property_spec(
                self.win,
                atoms.strut_partial,
                ATOM_CARDINAL,
                12,
                dock_strut_bytes(*self, dir),
                r@[1],
            ),
    {
        let strut = strut_partial(
            dir,
            self.width,
            self.pos.0,
            self.pos.1,
            self.screen_size.0,
            self.screen_size.1,
            self.left,
            self.right,
        );
        let legacy = strut_legacy(&strut);
        let first = self.change_property_i32(atoms.strut, &legacy);
        let second = self.change_property_i32(atoms.strut_partial, &strut);
        let mut r: Vec<PropertyRequest> = Vec::new();
        r.push(first);
        r.push(second);
        r
    }

    /// The four EWMH hint requests that mark this window as a dock: window
    /// type dock; state sticky, skip-taskbar and below; pinned to all
    /// desktops; no allowed actions.
    pub fn hint_requests(&self, atoms: &AtomTable) -> (r: Vec<PropertyRequest>)
        ensures
            r@.len() == 4,
            property_spec(
                self.win,
                atoms.window_type,
                ATOM_ATOM,
                1,
                u32s_le_bytes(seq![atoms.window_type_dock]),
                r@[0],
            ),
            property_spec(
                self.win,
                atoms.state,
                ATOM_ATOM,
                3,
                u32s_le_bytes(
                    seq![atoms.state_sticky, atoms.state_skip_taskbar, atoms.state_below],
                ),
                r@[1],
            ),
            property_spec(
                self.win,
                atoms.desktop,
                ATOM_CARDINAL,
                1,
                u32s_le_bytes(seq![ALL_DESKTOPS]),
                r@[2],
            ),
            property_spec(self.win, atoms.allowed_actions, ATOM_ATOM, 0, Seq::<u8>::empty(), r@[3]),
    {
        let window_type: Vec<u32> = vec![atoms.window_type_dock];
        let state: Vec<u32> = vec![atoms.state_sticky, atoms.state_skip_taskbar, atoms.state_below];
        let desktop: Vec<u32> = vec![ALL_DESKTOPS];
        let allowed: Vec<u32> = Vec::new();
        proof {
            assert(window_type@ =~= seq![atoms.window_type_dock]);
            assert(state@ =~= seq![atoms.state_sticky, atoms.state_skip_taskbar, atoms.state_below]);
            assert(desktop@ =~= seq![ALL_DESKTOPS]);
            assert(u32s_le_bytes(allowed@) =~= Seq::<u8>::empty());
        }
        let r0 = self.change_property_atoms(atoms.window_type, &window_type);
        let r1 = self.change_property_atoms(atoms.state, &state);
        let r2 = self.change_property_u32(atoms.desktop, &desktop);
        let r3 = self.change_property_atoms(atoms.allowed_actions, &allowed);
        let mut r: Vec<PropertyRequest> = Vec::new();
        r.push(r0);
        r.push(r1);
        r.push(r2);
        r.push(r3);
        r
    }
}

/// The full construction plan for one screen's dock window: the window to
/// create, the dock state to keep, and the six hint requests to publish
/// after mapping, in order.
#[derive(Debug, Clone)]
pub struct DockPlan {
    pub window: WindowSpec,
    pub dock: DockWindow,
    pub properties: Vec<PropertyRequest>,
}

/// When planning succeeds: the thickness fits the 16-bit window extent, the
/// margins fit 16-bit coordinates, and the window's computed origin fits the
/// wire.
pub open spec fn plan_ok(cfg: BarBuilder, geom: RootGeometry) -> bool {
    &&& cfg.width <= u16::MAX
    &&& i16::MIN <= cfg.margin_left <= i16::MAX
    &&& i16::MIN <= cfg.margin_right <= i16::MAX
    &&& rect_fits(cfg.docking, geom, cfg.width as u16)
}

/// The dock state a successful plan keeps.
pub open spec fn dock_state_spec(cfg: BarBuilder, win: u32, geom: RootGeometry) -> DockWindow {
    let (x, y, w, h, g) = window_rect_spec(cfg.docking, geom, cfg.width as u16);
    DockWindow {
        win,
        left: cfg.margin_left as i16,
        right: cfg.margin_right as i16,
        pos: (geom.x, geom.y),
        screen_size: (geom.width, geom.height),
        size: (w as u16, h as u16),
        width: cfg.width as u16,
    }
}

/// The window a successful plan creates.
pub open spec fn window_spec_of(
    cfg: BarBuilder,
    event_types: u32,
    screen: Screen,
    geom: RootGeometry,
) -> WindowSpec {
    let sel = negotiate_visual_spec(screen, cfg.transparency);
    let (x, y, w, h, g) = window_rect_spec(cfg.docking, geom, cfg.width as u16);
    WindowSpec {
        depth: sel.depth,
        visual: sel.visual,
        colormap_needed: sel.colormap_needed,
        border_pixel: sel.border_pixel,
        background_pixel: screen.black_pixel,
        x: x as i16,
        y: y as i16,
        width: w as u16,
        height: h as u16,
        border_width: 0,
        gravity: g,
        event_mask: interest_mask_spec(event_types),
    }
}

/// Plans one screen's dock window from the configuration, the bar's declared
/// event types, a fresh window identifier, the screen, the root geometry and
/// the resolved atoms. Succeeds exactly when every configured value fits the
/// wire format; each rejected value is reported.
pub fn plan_dock_window(
    cfg: &BarBuilder,
    event_types: u32,
    win: u32,
    screen: &Screen,
    geom: &RootGeometry,
    atoms: &AtomTable,
) -> (r: Result<DockPlan, Error>)
    ensures
        r is Ok <==> plan_ok(*cfg, *geom),
        r matches Ok(p) ==> {
            &&& p.window == window_spec_of(*cfg, event_types, *screen, *geom)
            &&& p.dock == dock_state_spec(*cfg, win, *geom)
            &&& p.properties@.len() == 6
            &&& property_spec(
                win,
                atoms.strut,
                ATOM_CARDINAL,
                4,
                dock_strut_legacy_bytes(p.dock, cfg.docking),
                p.properties@[0],
            )
            &&& property_spec(
                win,
                atoms.strut_partial,
                ATOM_CARDINAL,
                12,
                dock_strut_bytes(p.dock, cfg.docking),
                p.properties@[1],
            )
            &&& property_spec(
                win,
                atoms.window_type,
                ATOM_ATOM,
                1,
                u32s_le_bytes(seq![atoms.window_type_dock]),
                p.properties@[2],
            )
            &&& property_spec(
                win,
                atoms.state,
                ATOM_ATOM,
                3,
                u32s_le_bytes(
                    seq![atoms.state_sticky, atoms.state_skip_taskbar, atoms.state_below],
                ),
                p.properties@[3],
            )
            &&& property_spec(
                win,
                atoms.desktop,
                ATOM_CARDINAL,
                1,
                u32s_le_bytes(seq![ALL_DESKTOPS]),
                p.properties@[4],
            )
            &&& property_spec(
                win,
                atoms.allowed_actions,
                ATOM_ATOM,
                0,
                Seq::<u8>::empty(),
                p.properties@[5],
            )
        },
        cfg.width > u16::MAX as u32 ==> r == Err::<DockPlan, Error>(
            Error::Config(ConfigFault::WidthOutOfRange(cfg.width)),
        ),
        cfg.width <= u16::MAX as u32 && !(i16::MIN <= cfg.margin_left <= i16::MAX) ==> r
            == Err::<DockPlan, Error>(Error::Config(ConfigFault::MarginOutOfRange(cfg.margin_left))),
        cfg.width <= u16::MAX as u32 && i16::MIN <= cfg.margin_left <= i16::MAX && !(i16::MIN
            <= cfg.margin_right <= i16::MAX) ==> r == Err::<DockPlan, Error>(
            Error::Config(ConfigFault::MarginOutOfRange(cfg.margin_right)),
        ),
        cfg.width <= u16::MAX as u32 && i16::MIN <= cfg.margin_left <= i16::MAX && i16::MIN
            <= cfg.margin_right <= i16::MAX && !rect_fits(cfg.docking, *geom, cfg.width as u16)
            ==> r == Err::<DockPlan, Error>(
            Error::Config(
                ConfigFault::PositionOutOfRange(
                    rect_fault_value(cfg.docking, *geom, cfg.width as u16) as i32,
                ),
            ),
        ),
{
    if cfg.width > 0xFFFF {
        return Err(Error::Config(ConfigFault::WidthOutOfRange(cfg.width)));
    }
    let thickness: u16 = cfg.width as u16;
    if cfg.margin_left < -0x8000 || cfg.margin_left > 0x7FFF {
        return Err(Error::Config(ConfigFault::MarginOutOfRange(cfg.margin_left)));
    }
    if cfg.margin_right < -0x8000 || cfg.margin_right > 0x7FFF {
        return Err(Error::Config(ConfigFault::MarginOutOfRange(cfg.margin_right)));
    }
    let left: i16 = cfg.margin_left as i16;
    let right: i16 = cfg.margin_right as i16;
    let sel = negotiate_visual(screen, cfg.transparency);
    let (x, y, w, h, gravity) = match window_rect(cfg.docking, geom, thickness) {
        Ok(rect) => rect,
        Err(e) => {
            return Err(e);
        },
    };
    let event_mask = event_interest_mask(event_types);
    let dock = DockWindow {
        win,
        left,
        right,
        pos: (geom.x, geom.y),
        screen_size: (geom.width, geom.height),
        size: (w, h),
        width: thickness,
    };
    let window = WindowSpec {
        depth: sel.depth,
        visual: sel.visual,
        colormap_needed: sel.colormap_needed,
        border_pixel: sel.border_pixel,
        background_pixel: screen.black_pixel,
        x,
        y,
        width: w,
        height: h,
        border_width: 0,
        gravity,
        event_mask,
    };
    let mut properties = dock.set_docking_requests(atoms, cfg.docking);
    let mut hints = dock.hint_requests(atoms);
    properties.append(&mut hints);
    Ok(DockPlan { window, dock, properties })
}

} // verus!
