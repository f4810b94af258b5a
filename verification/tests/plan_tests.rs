use dockbar::atoms::AtomTable;
use dockbar::config::{BarBuilder, DockDirection, ZIndex};
use dockbar::dock::{plan_dock_window, DockWindow, ALL_DESKTOPS};
use dockbar::error::{ConfigFault, Error};
use dockbar::event::CLICK;
use dockbar::geometry::{Gravity, RootGeometry};
use dockbar::visual::{Depth, Screen, VisualType, COPY_DEPTH_FROM_PARENT, VISUAL_CLASS_TRUE_COLOR};
use dockbar::wire::{ATOM_ATOM, ATOM_CARDINAL};

fn test_atoms() -> AtomTable {
    AtomTable::from_replies(&vec![101, 102, 103, 104, 105, 106, 107, 108, 109, 110]).unwrap()
}

fn argb_screen() -> Screen {
    Screen {
        root: 99,
        root_visual: 7,
        black_pixel: 0,
        width_in_pixels: 1920,
        height_in_pixels: 1080,
        width_in_millimeters: 510,
        height_in_millimeters: 287,
        allowed_depths: vec![
            Depth {
                depth: 24,
                visuals: vec![VisualType {
                    visual_id: 7,
                    class: VISUAL_CLASS_TRUE_COLOR,
                    bits_per_rgb_value: 8,
                }],
            },
            Depth {
                depth: 32,
                visuals: vec![VisualType {
                    visual_id: 10,
                    class: VISUAL_CLASS_TRUE_COLOR,
                    bits_per_rgb_value: 32,
                }],
            },
        ],
    }
}

fn plain_screen() -> Screen {
    Screen {
        root: 99,
        root_visual: 7,
        black_pixel: 0,
        width_in_pixels: 1920,
        height_in_pixels: 1080,
        width_in_millimeters: 510,
        height_in_millimeters: 287,
        allowed_depths: vec![Depth {
            depth: 24,
            visuals: vec![VisualType {
                visual_id: 7,
                class: VISUAL_CLASS_TRUE_COLOR,
                bits_per_rgb_value: 8,
            }],
        }],
    }
}

fn test_config() -> BarBuilder {
    BarBuilder::default()
        .title("test")
        .docking(DockDirection::Bottom)
        .margin(0, 0)
        .z_index(ZIndex::AboveEverything)
        .transparency(true)
        .width(35)
}

fn root_geom() -> RootGeometry {
    RootGeometry { x: 0, y: 0, width: 1920, height: 1080 }
}

fn le_bytes_i32(values: &[i32]) -> Vec<u8> {
    values.iter().flat_map(|v| v.to_le_bytes()).collect()
}

fn le_bytes_u32(values: &[u32]) -> Vec<u8> {
    values.iter().flat_map(|v| v.to_le_bytes()).collect()
}

#[test]
fn transparent_bottom_bar_plan() {
    // A 35-pixel bottom bar on a 1920x1080 screen with a usable ARGB visual:
    // full-width window at the bottom edge, depth 32, one colormap, and the
    // expected partial strut.
    let cfg = test_config();
    let atoms = test_atoms();
    let plan = plan_dock_window(&cfg, CLICK, 777, &argb_screen(), &root_geom(), &atoms).unwrap();

    assert_eq!(plan.window.width, 1920);
    assert_eq!(plan.window.height, 35);
    assert_eq!(plan.window.x, 0);
    assert_eq!(plan.window.y, 1080 - 35);
    assert_eq!(plan.window.depth, 32);
    assert_eq!(plan.window.visual, 10);
    assert!(plan.window.colormap_needed);
    assert_eq!(plan.window.border_pixel, Some(0));
    assert_eq!(plan.window.gravity, Gravity::South);

    assert_eq!(plan.dock.win, 777);
    assert_eq!(plan.dock.size, (1920, 35));
    assert_eq!(plan.dock.screen_size, (1920, 1080));

    assert_eq!(plan.properties.len(), 6);
    let strut_partial = &plan.properties[1];
    assert_eq!(strut_partial.key, atoms.strut_partial);
    assert_eq!(strut_partial.type_atom, ATOM_CARDINAL);
    assert_eq!(strut_partial.format, 32);
    assert_eq!(strut_partial.value_count, 12);
    assert_eq!(
        strut_partial.data,
        le_bytes_i32(&[0, 0, 0, 35, 0, 0, 0, 0, 0, 0, 0, 1920])
    );
    let strut = &plan.properties[0];
    assert_eq!(strut.key, atoms.strut);
    assert_eq!(strut.value_count, 4);
    assert_eq!(strut.data, le_bytes_i32(&[0, 0, 0, 35]));
}

#[test]
fn plan_without_argb_still_succeeds() {
    // The same bar on a screen lacking an ARGB visual: construction succeeds
    // with the default visual and depth and no colormap.
    let cfg = test_config();
    let atoms = test_atoms();
    let plan = plan_dock_window(&cfg, CLICK, 777, &plain_screen(), &root_geom(), &atoms).unwrap();
    assert!(!plan.window.colormap_needed);
    assert_eq!(plan.window.visual, 7);
    assert_eq!(plan.window.depth, COPY_DEPTH_FROM_PARENT);
    assert_eq!(plan.window.border_pixel, None);
    assert_eq!(plan.window.width, 1920);
    assert_eq!(plan.window.height, 35);
}

#[test]
fn plan_publishes_all_hints() {
    let cfg = test_config();
    let atoms = test_atoms();
    let plan = plan_dock_window(&cfg, CLICK, 777, &argb_screen(), &root_geom(), &atoms).unwrap();
    let window_type = &plan.properties[2];
    assert_eq!(window_type.key, atoms.window_type);
    assert_eq!(window_type.type_atom, ATOM_ATOM);
    assert_eq!(window_type.data, le_bytes_u32(&[atoms.window_type_dock]));
    let state = &plan.properties[3];
    assert_eq!(state.key, atoms.state);
    assert_eq!(
        state.data,
        le_bytes_u32(&[atoms.state_sticky, atoms.state_skip_taskbar, atoms.state_below])
    );
    let desktop = &plan.properties[4];
    assert_eq!(desktop.key, atoms.desktop);
    assert_eq!(desktop.type_atom, ATOM_CARDINAL);
    assert_eq!(desktop.data, le_bytes_u32(&[ALL_DESKTOPS]));
    let allowed = &plan.properties[5];
    assert_eq!(allowed.key, atoms.allowed_actions);
    assert_eq!(allowed.value_count, 0);
    assert!(allowed.data.is_empty());
}

#[test]
fn plan_event_mask_follows_declared_interest() {
    let cfg = test_config();
    let atoms = test_atoms();
    let with_click =
        plan_dock_window(&cfg, CLICK, 1, &plain_screen(), &root_geom(), &atoms).unwrap();
    assert_eq!(with_click.window.event_mask, 32768 | 4 | 8);
    let without =
        plan_dock_window(&cfg, 0, 1, &plain_screen(), &root_geom(), &atoms).unwrap();
    assert_eq!(without.window.event_mask, 32768);
}

#[test]
fn zero_width_bar_plans_a_degenerate_strut() {
    let cfg = test_config().width(0);
    let atoms = test_atoms();
    let plan = plan_dock_window(&cfg, 0, 1, &plain_screen(), &root_geom(), &atoms).unwrap();
    assert_eq!(plan.window.height, 0);
    assert_eq!(
        plan.properties[1].data,
        le_bytes_i32(&[0, 0, 0, 0, 0, 0, 0, 0, 0, 0, 0, 1920])
    );
}

#[test]
fn oversized_width_is_rejected_with_the_value() {
    let cfg = test_config().width(70000);
    let atoms = test_atoms();
    let r = plan_dock_window(&cfg, 0, 1, &plain_screen(), &root_geom(), &atoms);
    assert!(matches!(
        r,
        Err(Error::Config(ConfigFault::WidthOutOfRange(70000)))
    ));
}

#[test]
fn oversized_margins_are_rejected_with_the_value() {
    let atoms = test_atoms();
    let cfg = test_config().margin(40000, 0);
    let r = plan_dock_window(&cfg, 0, 1, &plain_screen(), &root_geom(), &atoms);
    assert!(matches!(
        r,
        Err(Error::Config(ConfigFault::MarginOutOfRange(40000)))
    ));
    let cfg = test_config().margin(0, -40000);
    let r = plan_dock_window(&cfg, 0, 1, &plain_screen(), &root_geom(), &atoms);
    assert!(matches!(
        r,
        Err(Error::Config(ConfigFault::MarginOutOfRange(-40000)))
    ));
}

#[test]
fn negative_margins_are_tolerated() {
    // Margins may be negative; this layer does not validate what the window
    // manager will make of them.
    let cfg = test_config().margin(-10, -20);
    let atoms = test_atoms();
    let plan = plan_dock_window(&cfg, 0, 1, &plain_screen(), &root_geom(), &atoms).unwrap();
    assert_eq!(
        plan.properties[1].data,
        le_bytes_i32(&[0, 0, 0, 35, 0, 0, 0, 0, 0, 0, -10, 1940])
    );
}

#[test]
fn redocking_recomputes_the_strut() {
    let dock = DockWindow {
        win: 5,
        left: 0,
        right: 0,
        pos: (0, 0),
        screen_size: (1920, 1080),
        size: (1920, 35),
        width: 35,
    };
    let atoms = test_atoms();
    let reqs = dock.set_docking_requests(&atoms, DockDirection::Top);
    assert_eq!(reqs.len(), 2);
    assert_eq!(reqs[0].key, atoms.strut);
    assert_eq!(reqs[0].data, le_bytes_i32(&[0, 0, 35, 0]));
    assert_eq!(reqs[1].key, atoms.strut_partial);
    assert_eq!(
        reqs[1].data,
        le_bytes_i32(&[0, 0, 35, 0, 0, 0, 0, 0, 0, 1920, 0, 0])
    );
}
