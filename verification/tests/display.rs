use rvkernel::hub75::{
    FrameBuffer, Hub75, BLACK, BLUE, FB_HEIGHT, FB_PIXELS, FB_WIDTH, GREEN, RED, WHITE,
};

fn fresh_panel() -> Hub75 {
    Hub75::new(0, 1, 2, 3, 4, 5, 6, 7, 8, 9, 10, 11)
}

fn bit(reg: u32, pin: u32) -> bool {
    reg & (1u32 << pin) != 0
}

#[test]
fn new_framebuffer_is_black() {
    let fb = FrameBuffer::new();
    assert_eq!(fb.width(), FB_WIDTH);
    assert_eq!(fb.height(), FB_HEIGHT);
    for y in 0..FB_HEIGHT {
        for x in 0..FB_WIDTH {
            assert_eq!(fb.pixel(x, y), BLACK);
        }
    }
}

#[test]
fn set_pixel_and_clear() {
    let mut fb = FrameBuffer::new();
    fb.set_pixel(3, 5, RED);
    assert_eq!(fb.pixel(3, 5), RED);
    assert_eq!(fb.pixel(5, 3), BLACK);
    // Off-panel writes are ignored.
    fb.set_pixel(FB_WIDTH, 0, GREEN);
    fb.set_pixel(0, FB_HEIGHT, GREEN);
    for y in 0..FB_HEIGHT {
        for x in 0..FB_WIDTH {
            let expected = if (x, y) == (3, 5) { RED } else { BLACK };
            assert_eq!(fb.pixel(x, y), expected);
        }
    }
    fb.clear();
    assert_eq!(fb.pixel(3, 5), BLACK);
}

#[test]
fn fill_rect_paints_exactly_the_rectangle() {
    let mut fb = FrameBuffer::new();
    fb.fill_rect(1, 2, 3, 4, WHITE);
    for y in 0..FB_HEIGHT as i32 {
        for x in 0..FB_WIDTH as i32 {
            let inside = 1 <= x && x < 4 && 2 <= y && y < 6;
            let expected = if inside { WHITE } else { BLACK };
            assert_eq!(fb.pixel(x as usize, y as usize), expected);
        }
    }
}

#[test]
fn fill_rect_clips_to_panel() {
    let mut fb = FrameBuffer::new();
    fb.fill_rect(-2, -2, 5, 5, BLUE);
    for y in 0..FB_HEIGHT as i32 {
        for x in 0..FB_WIDTH as i32 {
            let inside = x < 3 && y < 3;
            let expected = if inside { BLUE } else { BLACK };
            assert_eq!(fb.pixel(x as usize, y as usize), expected);
        }
    }
}

#[test]
fn draw_line_horizontal() {
    let mut fb = FrameBuffer::new();
    fb.draw_line(0, 0, 5, 0, BLUE);
    for x in 0..=5 {
        assert_eq!(fb.pixel(x, 0), BLUE);
    }
    assert_eq!(fb.pixel(6, 0), BLACK);
    assert_eq!(fb.pixel(0, 1), BLACK);
}

#[test]
fn draw_line_diagonal() {
    let mut fb = FrameBuffer::new();
    fb.draw_line(0, 0, 3, 3, GREEN);
    for i in 0..=3 {
        assert_eq!(fb.pixel(i, i), GREEN);
    }
    assert_eq!(fb.pixel(0, 1), BLACK);
}

#[test]
fn draw_line_clips_off_panel() {
    let mut fb = FrameBuffer::new();
    fb.draw_line(-5, 2, 2, 2, RED);
    for x in 0..=2 {
        assert_eq!(fb.pixel(x, 2), RED);
    }
    assert_eq!(fb.pixel(3, 2), BLACK);
}

#[test]
fn draw_rect_outline() {
    let mut fb = FrameBuffer::new();
    fb.draw_rect(1, 1, 4, 3, WHITE);
    // Corners and edges.
    for x in 1..5 {
        assert_eq!(fb.pixel(x, 1), WHITE);
        assert_eq!(fb.pixel(x, 3), WHITE);
    }
    for y in 1..4 {
        assert_eq!(fb.pixel(1, y), WHITE);
        assert_eq!(fb.pixel(4, y), WHITE);
    }
    // Interior untouched.
    assert_eq!(fb.pixel(2, 2), BLACK);
    assert_eq!(fb.pixel(3, 2), BLACK);
}

#[test]
fn draw_circle_cardinal_points() {
    let mut fb = FrameBuffer::new();
    fb.draw_circle(16, 16, 3, RED);
    assert_eq!(fb.pixel(19, 16), RED);
    assert_eq!(fb.pixel(13, 16), RED);
    assert_eq!(fb.pixel(16, 19), RED);
    assert_eq!(fb.pixel(16, 13), RED);
    // The outline does not fill the center.
    assert_eq!(fb.pixel(16, 16), BLACK);
}

#[test]
fn draw_circle_negative_radius_is_noop() {
    let mut fb = FrameBuffer::new();
    fb.draw_circle(16, 16, -4, RED);
    for y in 0..FB_HEIGHT {
        for x in 0..FB_WIDTH {
            assert_eq!(fb.pixel(x, y), BLACK);
        }
    }
}

#[test]
fn row_pixels_copies_one_row() {
    let mut fb = FrameBuffer::new();
    fb.set_pixel(0, 2, RED);
    fb.set_pixel(31, 2, GREEN);
    let row = fb.row_pixels(2);
    assert_eq!(row.len(), FB_WIDTH);
    assert_eq!(row[0], RED);
    assert_eq!(row[31], GREEN);
    assert_eq!(row[15], BLACK);
}

#[test]
fn init_drives_all_pins_as_outputs() {
    let mut h = fresh_panel();
    assert_eq!(h.gpio_dir, 0);
    h.init();
    assert_eq!(h.gpio_dir, 0xFFF);
}

#[test]
fn set_row_drives_address_lines() {
    let mut h = fresh_panel();
    // Row 5 belongs to row pair 2: address lines read binary 010.
    h.set_row(5);
    assert!(!bit(h.gpio_out, 6));
    assert!(bit(h.gpio_out, 7));
    assert!(!bit(h.gpio_out, 8));
    // Row 15 belongs to row pair 7: address lines read binary 111.
    h.set_row(15);
    assert!(bit(h.gpio_out, 6));
    assert!(bit(h.gpio_out, 7));
    assert!(bit(h.gpio_out, 8));
}

#[test]
fn display_row_selects_row_and_enables_output() {
    let mut h = fresh_panel();
    let data = vec![RED; FB_WIDTH];
    h.display_row(6, &data);
    // Row pair 3: binary 011 on the address lines.
    assert!(bit(h.gpio_out, 6));
    assert!(bit(h.gpio_out, 7));
    assert!(!bit(h.gpio_out, 8));
    // Output enabled (active-low line driven low), latch and clock idle.
    assert!(!bit(h.gpio_out, 10));
    assert!(!bit(h.gpio_out, 9));
    assert!(!bit(h.gpio_out, 11));
}

#[test]
fn write_pixels_leaves_latch_low() {
    let mut h = fresh_panel();
    let data = vec![0x00FF_00FF, 0x12345678];
    h.write_pixels(&data);
    assert!(!bit(h.gpio_out, 9));
    assert!(!bit(h.gpio_out, 11));
}

#[test]
fn swap_buffers_flips_draw_target() {
    let mut h = fresh_panel();
    assert!(!h.active_buffer);
    h.get_draw_buffer().set_pixel(2, 3, RED);
    // Front is displayed, so drawing went to the back buffer.
    assert_eq!(h.back_buffer.pixel(2, 3), RED);
    assert_eq!(h.front_buffer.pixel(2, 3), BLACK);
    h.swap_buffers();
    assert!(h.active_buffer);
    h.get_draw_buffer().set_pixel(4, 4, GREEN);
    assert_eq!(h.front_buffer.pixel(4, 4), GREEN);
    assert_eq!(h.back_buffer.pixel(4, 4), BLACK);
}

#[test]
fn display_frame_and_current_buffer_run() {
    let mut h = fresh_panel();
    let frame = vec![RED; FB_PIXELS];
    h.display_frame(&frame, FB_HEIGHT as u8);
    h.display_current_buffer();
    // Output ends enabled with the latch released.
    assert!(!bit(h.gpio_out, 10));
    assert!(!bit(h.gpio_out, 9));
}

#[test]
fn display_row_pwm_runs_each_step() {
    let mut h = fresh_panel();
    let data = vec![0x0080FF40; FB_WIDTH];
    for step in 0..8 {
        h.display_row_pwm(3, &data, step);
        assert!(!bit(h.gpio_out, 10));
    }
}
