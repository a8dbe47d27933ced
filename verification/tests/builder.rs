use wyndow::window_info::{WindowInfo, WindowInfoBuilder, DEFAULT_POS_X, DEFAULT_POS_Y};

#[test]
fn build_without_pos_resolves_to_documented_default() {
    let info = WindowInfoBuilder::new("Demo", 800, 600).build();
    assert_eq!(info.title, "Demo");
    assert_eq!(info.width, 800);
    assert_eq!(info.height, 600);
    assert_eq!((info.x, info.y), (100, 100));
}

#[test]
fn default_position_constants_are_one_hundred() {
    assert_eq!(DEFAULT_POS_X, 100);
    assert_eq!(DEFAULT_POS_Y, 100);
}

#[test]
fn build_with_pos_keeps_the_set_position() {
    let info = WindowInfoBuilder::new("Demo", 320, 200).pos(-5, 42).build();
    assert_eq!((info.x, info.y), (-5, 42));
    assert_eq!(info.width, 320);
    assert_eq!(info.height, 200);
}

#[test]
fn builder_entry_point_on_window_info() {
    let info = WindowInfo::builder("Title", 1, 2).build();
    assert_eq!(info.title, "Title");
    assert_eq!((info.width, info.height), (1, 2));
    assert_eq!((info.x, info.y), (100, 100));
}

#[test]
fn builder_never_fails_on_edge_extents() {
    let info = WindowInfoBuilder::new("", 0, 0).build();
    assert_eq!(info.title, "");
    assert_eq!((info.width, info.height), (0, 0));
    let info = WindowInfoBuilder::new("big", u32::MAX, u32::MAX).build();
    assert_eq!((info.width, info.height), (u32::MAX, u32::MAX));
}
