use emucore::gd_emu::common::sys_display::DisplayWindow;

#[test]
fn display_modes() {
    let mut w = DisplayWindow::new();
    assert_eq!((w.visible_x, w.visible_y, w.visible_width, w.visible_height), (0, 0, 256, 240));
    w.set_mode_cropped_ntsc();
    assert_eq!((w.visible_x, w.visible_y, w.visible_width, w.visible_height), (8, 8, 240, 224));
    assert_eq!((w.buffer_width, w.buffer_height), (256, 240));
    w.set_mode_overscan();
    assert!(w == DisplayWindow::new());
}
