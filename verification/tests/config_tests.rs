use dockbar::config::{BarBuilder, DockDirection, ZIndex};
use dockbar::wire::{serialize_i32, serialize_u32};

#[test]
fn default_configuration() {
    let b = BarBuilder::default();
    assert_eq!(b.title, "dockbar");
    assert_eq!(*b.get_docking(), DockDirection::Bottom);
    assert_eq!(*b.get_margin_left(), 0);
    assert_eq!(*b.get_margin_right(), 0);
    assert_eq!(*b.get_z_index(), ZIndex::BelowEverything);
    assert!(!*b.get_transparency());
    assert_eq!(*b.get_width(), 20);
}

#[test]
fn builder_setters() {
    let b = BarBuilder::default()
        .title("test")
        .docking(DockDirection::Top)
        .margin(-3, 7)
        .z_index(ZIndex::AboveEverything)
        .transparency(true)
        .width(35);
    assert_eq!(b.title, "test");
    assert_eq!(*b.get_docking(), DockDirection::Top);
    assert_eq!(*b.get_margin_left(), -3);
    assert_eq!(*b.get_margin_right(), 7);
    assert_eq!(*b.get_z_index(), ZIndex::AboveEverything);
    assert!(*b.get_transparency());
    assert_eq!(*b.get_width(), 35);
}

#[test]
fn owned_title() {
    let b = BarBuilder::default().title_owned(String::from("mybar"));
    assert_eq!(b.title, "mybar");
    // The other fields are untouched.
    assert_eq!(*b.get_width(), 20);
    assert_eq!(*b.get_docking(), DockDirection::Bottom);
}

#[test]
fn unsigned_values_serialize_little_endian() {
    let bytes = serialize_u32(&vec![1, 0x0102_0304]);
    assert_eq!(bytes, vec![1, 0, 0, 0, 4, 3, 2, 1]);
    assert_eq!(serialize_u32(&Vec::new()), Vec::<u8>::new());
}

#[test]
fn signed_values_serialize_twos_complement() {
    let bytes = serialize_i32(&vec![-1, 35, -2]);
    assert_eq!(
        bytes,
        vec![255, 255, 255, 255, 35, 0, 0, 0, 254, 255, 255, 255]
    );
}
