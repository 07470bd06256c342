use viewport_axis::fixed::Fixed;
use viewport_axis::geom::{Pos, Size};
use viewport_axis::viewport::{
    Icon, ViewportBuilder, ViewportCommand, ViewportId, ViewportIdPair,
};

#[test]
fn ids_and_pairs() {
    assert_eq!(ViewportId::main_id(), ViewportId(0));
    let pair = ViewportIdPair::new(ViewportId(7), ViewportId(0));
    assert_eq!(pair.this, ViewportId(7));
    assert_eq!(pair.parent, ViewportId(0));
    assert_eq!(ViewportIdPair::main_pair(), ViewportIdPair::new(ViewportId(0), ViewportId(0)));
    assert_eq!(ViewportId(907).text(), "907");
}

#[test]
fn new_builder_defaults() {
    let b = ViewportBuilder::new(3);
    assert_eq!(b.id, 3);
    assert_eq!(b.title, "Dummy egui viewport");
    assert_eq!(
        b.inner_size,
        Some(Some(Size::new(Fixed::from_int(300), Fixed::from_int(200))))
    );
    assert_eq!(b.resizable, Some(true));
    assert_eq!(b.transparent, Some(true));
    assert_eq!(b.decorations, Some(true));
    assert_eq!(b.active, Some(true));
    assert_eq!(b.visible, Some(true));
    assert_eq!(b.drag_and_drop, Some(true));
    assert_eq!(b.close_button, Some(true));
    assert_eq!(b.minimize_button, Some(true));
    assert_eq!(b.maximize_button, Some(true));
    assert_eq!(b.hittest, Some(true));
    assert_eq!(b.position, None);
    assert_eq!(b.fullscreen, None);
    assert_eq!(b.name, None);
}

#[test]
fn empty_builder_sets_nothing() {
    let b = ViewportBuilder::empty(3);
    assert_eq!(b.id, 3);
    assert_eq!(b.inner_size, None);
    assert_eq!(b.resizable, None);
    assert_eq!(b.visible, None);
    assert_eq!(b.hittest, None);
}

#[test]
fn empty_is_the_identity_of_merge() {
    let b = ViewportBuilder::new(3)
        .with_title("hello".to_string())
        .with_fullscreen(true)
        .with_position(Some(Pos::new(Fixed::from_int(5), Fixed::from_int(6))))
        .with_name("app".to_string(), "instance".to_string());
    let merged = b.clone().merge(ViewportBuilder::empty(9));
    assert_eq!(merged, b);
}

#[test]
fn merge_applies_set_fields() {
    let base = ViewportBuilder::new(3);
    let delta = ViewportBuilder::empty(3).with_visible(false).with_maximized(true);
    let merged = base.merge(delta);
    assert_eq!(merged.visible, Some(false));
    assert_eq!(merged.maximized, Some(true));
    assert_eq!(merged.resizable, Some(true));
}

#[test]
fn setters_set_exactly_one_field() {
    let b = ViewportBuilder::empty(1).with_decorations(false);
    assert_eq!(b.decorations, Some(false));
    assert_eq!(b.fullscreen, None);
    let b = b.with_window_icon(Some(Icon { width: 1, height: 1, rgba: vec![0, 0, 0, 255] }));
    assert!(b.icon.is_some());
    let b = b
        .with_maximized(true)
        .with_resizable(false)
        .with_transparent(true)
        .with_active(false)
        .with_visible(true)
        .with_title_hidden(true)
        .with_titlebar_transparent(false)
        .with_fullsize_content_view(true)
        .with_inner_size(None)
        .with_min_inner_size(None)
        .with_max_inner_size(None)
        .with_close_button(false)
        .with_minimize_button(false)
        .with_maximize_button(false)
        .with_drag_and_drop(false)
        .with_hittest(false);
    assert_eq!(b.maximized, Some(true));
    assert_eq!(b.resizable, Some(false));
    assert_eq!(b.inner_size, Some(None));
    assert_eq!(b.hittest, Some(false));
}

#[test]
fn commands_carry_their_payload() {
    let c = ViewportCommand::Title("t".to_string());
    assert_eq!(c, ViewportCommand::Title("t".to_string()));
    assert_ne!(c, ViewportCommand::Drag);
    let pos = ViewportCommand::OuterPosition(Pos::new(Fixed::from_int(1), Fixed::from_int(2)));
    match pos {
        ViewportCommand::OuterPosition(p) => {
            assert_eq!(p.x.micros(), 1_000_000);
            assert_eq!(p.y.micros(), 2_000_000);
        },
        _ => unreachable!(),
    }
    let buttons = ViewportCommand::EnableButtons { close: true, minimized: false, maximize: true };
    assert_eq!(
        buttons,
        ViewportCommand::EnableButtons { close: true, minimized: false, maximize: true }
    );
}
