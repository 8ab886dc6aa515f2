use solar_simulation::framebuffer::DEPTH_FAR;
use solar_simulation::framebuffer::Framebuffer;

#[test]
fn new_framebuffer_is_cleared() {
    let fb = Framebuffer::new(4, 3);
    assert_eq!(fb.width, 4);
    assert_eq!(fb.height, 3);
    assert_eq!(fb.buffer.len(), 12);
    assert_eq!(fb.zbuffer.len(), 12);
    assert_eq!(fb.emissive_buffer.len(), 12);
    assert!(fb.buffer.iter().all(|&c| c == 0));
    assert!(fb.zbuffer.iter().all(|&d| d == DEPTH_FAR));
    assert!(fb.emissive_buffer.iter().all(|&e| e == 0));
}

#[test]
fn clear_paints_the_background_everywhere() {
    let mut fb = Framebuffer::new(3, 3);
    fb.set_background_color(0x060611);
    fb.set_current_color(0xFFFFFF);
    fb.point(1, 1, 5);
    fb.clear();
    assert!(fb.buffer.iter().all(|&c| c == 0x060611));
    assert!(fb.zbuffer.iter().all(|&d| d == DEPTH_FAR));
    assert!(fb.emissive_buffer.iter().all(|&e| e == 0));
}

#[test]
fn depth_test_keeps_the_smaller_depth_either_order() {
    // nearer write second
    let mut fb = Framebuffer::new(4, 4);
    fb.set_current_color(0x111111);
    fb.point(2, 1, 10);
    fb.set_current_color(0x222222);
    fb.point(2, 1, 5);
    assert_eq!(fb.buffer[1 * 4 + 2], 0x222222);
    assert_eq!(fb.zbuffer[1 * 4 + 2], 5);

    // nearer write first: the farther one must lose
    let mut fb2 = Framebuffer::new(4, 4);
    fb2.set_current_color(0x222222);
    fb2.point(2, 1, 5);
    fb2.set_current_color(0x111111);
    fb2.point(2, 1, 10);
    assert_eq!(fb2.buffer[1 * 4 + 2], 0x222222);
    assert_eq!(fb2.zbuffer[1 * 4 + 2], 5);
}

#[test]
fn equal_depth_does_not_overwrite() {
    let mut fb = Framebuffer::new(2, 2);
    fb.set_current_color(0xAAAAAA);
    fb.point(0, 0, 7);
    fb.set_current_color(0xBBBBBB);
    fb.point(0, 0, 7);
    assert_eq!(fb.buffer[0], 0xAAAAAA);
}

#[test]
fn out_of_bounds_writes_are_dropped() {
    let mut fb = Framebuffer::new(2, 2);
    fb.set_current_color(0xABCDEF);
    fb.point(2, 0, 1);
    fb.point(0, 2, 1);
    fb.point(99, 99, 1);
    fb.emissive_point(5, 5, 0xFF, 1);
    assert!(fb.buffer.iter().all(|&c| c == 0));
    assert!(fb.emissive_buffer.iter().all(|&e| e == 0));
}

#[test]
fn emissive_write_is_depth_gated_and_leaves_color_alone() {
    let mut fb = Framebuffer::new(2, 2);
    fb.emissive_point(1, 0, 0x0A141E, 3);
    assert_eq!(fb.emissive_buffer[1], 0x0A141E);
    assert_eq!(fb.buffer[1], 0);
    assert_eq!(fb.zbuffer[1], DEPTH_FAR);

    // an occluding color write at depth 2 blocks a later emissive at 6
    fb.set_current_color(0x123456);
    fb.point(1, 0, 2);
    fb.emissive_point(1, 0, 0xFFFFFF, 6);
    assert_eq!(fb.emissive_buffer[1], 0x0A141E);
}

#[test]
fn draw_line_horizontal_and_diagonal() {
    let mut fb = Framebuffer::new(5, 5);
    fb.draw_line(0, 2, 4, 2, 0x353535);
    for x in 0..5 {
        assert_eq!(fb.buffer[2 * 5 + x], 0x353535, "x={}", x);
    }
    let mut fb2 = Framebuffer::new(5, 5);
    fb2.draw_line(0, 0, 4, 4, 0x777777);
    for i in 0..5 {
        assert_eq!(fb2.buffer[i * 5 + i], 0x777777, "i={}", i);
    }
}

#[test]
fn draw_line_clips_outside_pixels() {
    let mut fb = Framebuffer::new(3, 3);
    // runs off the right edge: only the in-bounds pixels are painted
    fb.draw_line(1, 1, 6, 1, 0x999999);
    assert_eq!(fb.buffer[1 * 3 + 1], 0x999999);
    assert_eq!(fb.buffer[1 * 3 + 2], 0x999999);
    assert_eq!(fb.buffer[1 * 3 + 0], 0);
}

#[test]
fn draw_line_works_right_to_left() {
    let mut fb = Framebuffer::new(5, 5);
    fb.draw_line(4, 1, 0, 1, 0x424242);
    for x in 0..5 {
        assert_eq!(fb.buffer[1 * 5 + x], 0x424242, "x={}", x);
    }
}
