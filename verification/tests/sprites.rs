use frug::{Rect, Sprite, Spritesheet, Vec2d};

#[test]
fn sprite_new_shows_the_first_frame() {
    let s = Sprite::new("hero", 2, vec![3, 2], 16, 24);
    assert_eq!(s.texture, "hero");
    assert_eq!(s.rows, 2);
    assert_eq!(s.frames_in_rows, vec![3, 2]);
    assert_eq!(s.drawing_rect, Rect::new(0, 0, 16, 24));
    assert_eq!(s.current_frame(), 0);
    assert_eq!(s.current_row(), 0);
}

#[test]
fn sprite_new_never_has_an_empty_frame() {
    let s = Sprite::new((), 1, vec![1], 0, 0);
    assert_eq!(s.drawing_rect.width(), 1);
    assert_eq!(s.drawing_rect.height(), 1);
}

#[test]
fn sprite_update_walks_the_row_and_wraps() {
    let mut s = Sprite::new((), 2, vec![3, 2], 16, 24);
    s.update();
    assert_eq!(s.current_frame(), 1);
    assert_eq!(s.drawing_rect, Rect::new(16, 0, 16, 24));
    s.update();
    assert_eq!(s.current_frame(), 2);
    assert_eq!(s.drawing_rect, Rect::new(32, 0, 16, 24));
    s.update();
    assert_eq!(s.current_frame(), 0);
    assert_eq!(s.drawing_rect, Rect::new(0, 0, 16, 24));
    assert_eq!(s.current_row(), 0);
}

#[test]
fn sprite_update_stays_on_the_only_frame() {
    let mut s = Sprite::new((), 1, vec![1], 8, 8);
    s.update();
    assert_eq!(s.current_frame(), 0);
    assert_eq!(s.drawing_rect.x(), 0);
    let mut s = Sprite::new((), 1, vec![0], 8, 8);
    s.update();
    assert_eq!(s.current_frame(), 0);
    assert_eq!(s.drawing_rect.x(), 0);
}

#[test]
fn sprite_start_animation_moves_to_the_row() {
    let mut s = Sprite::new((), 2, vec![3, 2], 16, 24);
    s.update();
    s.start_animation(1);
    assert_eq!(s.current_row(), 1);
    assert_eq!(s.current_frame(), 0);
    assert_eq!(s.drawing_rect.y(), 24);
    assert_eq!(s.drawing_rect.x(), 16);
    assert_eq!(s.drawing_rect.width(), 16);
    assert_eq!(s.drawing_rect.height(), 24);
    s.update();
    assert_eq!(s.current_frame(), 1);
    assert_eq!(s.drawing_rect, Rect::new(16, 24, 16, 24));
    s.update();
    assert_eq!(s.current_frame(), 0);
    assert_eq!(s.drawing_rect, Rect::new(0, 24, 16, 24));
}

#[test]
fn sprite_start_animation_clamps_a_far_row() {
    let mut s = Sprite::new((), 1, vec![1], 1, 1073741823);
    s.start_animation(2);
    assert_eq!(s.current_row(), 2);
    assert_eq!(s.drawing_rect.y(), 1073741823);
}

#[test]
fn sprite_start_animation_takes_the_row_as_i32() {
    let mut s = Sprite::new((), 1, vec![1], 4, 4);
    s.start_animation(u32::MAX);
    assert_eq!(s.current_row(), u32::MAX);
    assert_eq!(s.drawing_rect.y(), -4);
}

#[test]
fn sprite_update_clamps_a_far_frame() {
    let mut s = Sprite::new((), 1, vec![5], 1073741823, 1);
    s.update();
    assert_eq!(s.drawing_rect.x(), 1073741823);
    s.update();
    assert_eq!(s.current_frame(), 2);
    assert_eq!(s.drawing_rect.x(), 1073741823);
}

#[test]
fn sprite_placement_scales_the_frame() {
    let mut s = Sprite::new((), 2, vec![3, 2], 16, 24);
    s.start_animation(1);
    s.update();
    let p = s.placement(&Vec2d { x: 100, y: -50 }, &Vec2d { x: 2, y: 3 });
    assert_eq!(p.src, Rect::new(16, 24, 16, 24));
    assert_eq!(p.src, s.drawing_rect);
    assert_eq!(p.dest, Rect::new(100, -50, 32, 72));
}

#[test]
fn sprite_placement_with_no_scale_is_one_pixel() {
    let s = Sprite::new((), 1, vec![1], 16, 24);
    let p = s.placement(&Vec2d { x: 0, y: 0 }, &Vec2d { x: 0, y: 0 });
    assert_eq!(p.dest.width(), 1);
    assert_eq!(p.dest.height(), 1);
}

#[test]
fn spritesheet_cells_divide_the_texture() {
    let sheet = Spritesheet::new(2, 4, 64, 48);
    assert_eq!(sheet.cell(0), Rect::new(0, 0, 16, 24));
    assert_eq!(sheet.cell(1), Rect::new(16, 0, 16, 24));
    assert_eq!(sheet.cell(3), Rect::new(48, 0, 16, 24));
    assert_eq!(sheet.cell(4), Rect::new(0, 24, 16, 24));
    assert_eq!(sheet.cell(6), Rect::new(32, 24, 16, 24));
}

#[test]
fn spritesheet_cell_size_rounds_down() {
    let sheet = Spritesheet::new(3, 3, 10, 11);
    assert_eq!(sheet.cell(4), Rect::new(3, 3, 3, 3));
    let sheet = Spritesheet::new(4, 4, 3, 3);
    assert_eq!(sheet.cell(5), Rect::new(0, 0, 1, 1));
}

#[test]
fn spritesheet_draw_sprite_copies_the_cell() {
    let sheet = Spritesheet::new(2, 2, 4, 4);
    let pixels: Vec<u8> = (0..64).collect();
    let mut buffer = vec![0u8; 64];
    sheet.draw_sprite(&pixels, 16, &mut buffer, 3, 0, 0, 2, 2);
    let mut expected = vec![0u8; 64];
    for k in 0..8 {
        expected[k] = 40 + k as u8;
        expected[16 + k] = 56 + k as u8;
    }
    assert_eq!(buffer, expected);
}

#[test]
fn spritesheet_draw_sprite_places_the_cell() {
    let sheet = Spritesheet::new(2, 2, 4, 4);
    let pixels: Vec<u8> = (100..164).collect();
    let mut buffer = vec![7u8; 64];
    sheet.draw_sprite(&pixels, 16, &mut buffer, 1, 2, 1, 2, 1);
    let mut expected = vec![7u8; 64];
    for k in 0..8 {
        expected[24 + k] = 100 + 8 + k as u8;
    }
    assert_eq!(buffer, expected);
}

#[test]
fn spritesheet_draw_sprite_with_no_extent_changes_nothing() {
    let sheet = Spritesheet::new(1, 1, 4, 4);
    let pixels: Vec<u8> = Vec::new();
    let mut buffer = vec![9u8; 8];
    sheet.draw_sprite(&pixels, 16, &mut buffer, 0, -5, -5, 0, 3);
    assert_eq!(buffer, vec![9u8; 8]);
    sheet.draw_sprite(&pixels, 16, &mut buffer, 0, 1000, 1000, 3, 0);
    assert_eq!(buffer, vec![9u8; 8]);
}

#[test]
fn spritesheet_draw_sprite_lets_later_pixels_win() {
    let sheet = Spritesheet::new(1, 1, 2, 2);
    let pixels: Vec<u8> = (1..=16).collect();
    let mut buffer = vec![0u8; 8];
    sheet.draw_sprite(&pixels, 0, &mut buffer, 0, 0, 0, 2, 2);
    assert_eq!(buffer, vec![1, 2, 3, 4, 5, 6, 7, 8]);
    let mut buffer = vec![0u8; 10];
    sheet.draw_sprite(&pixels, 2, &mut buffer, 0, 0, 0, 2, 1);
    assert_eq!(buffer, vec![1, 2, 3, 4, 5, 6, 7, 8, 0, 0]);
    let mut buffer = vec![0u8; 10];
    sheet.draw_sprite(&pixels, 2, &mut buffer, 0, 0, 0, 1, 2);
    assert_eq!(buffer, vec![1, 2, 3, 4, 5, 6, 0, 0, 0, 0]);
}

#[test]
fn sprite_can_update_needs_a_row_of_frames() {
    let s = Sprite::new((), 0, Vec::new(), 8, 8);
    assert!(!s.can_update());
    let mut s = Sprite::new((), 1, vec![2], 8, 8);
    assert!(s.can_update());
    s.start_animation(1);
    assert!(!s.can_update());
    s.start_animation(0);
    assert!(s.can_update());
}

#[test]
fn sprite_can_update_stops_where_the_position_overflows() {
    let mut s = Sprite::new((), 1, vec![5], 1073741823, 1);
    assert!(s.can_update());
    s.update();
    assert!(s.can_update());
    s.update();
    assert_eq!(s.current_frame(), 2);
    assert!(!s.can_update());
}

#[test]
fn sprite_can_start_animation_stops_where_the_position_overflows() {
    let s = Sprite::new((), 1, vec![1], 1, 1073741823);
    assert!(s.can_start_animation(0));
    assert!(s.can_start_animation(2));
    assert!(!s.can_start_animation(3));
    assert!(s.can_start_animation(u32::MAX));
    assert!(!s.can_start_animation(u32::MAX - 2));
}

#[test]
fn sprite_can_place_stops_where_the_size_overflows() {
    let s = Sprite::new((), 1, vec![1], 16, 24);
    assert!(s.can_place(&Vec2d { x: 268435455, y: 1 }));
    assert!(!s.can_place(&Vec2d { x: 268435456, y: 1 }));
    assert!(s.can_place(&Vec2d { x: 1, y: 178956970 }));
    assert!(!s.can_place(&Vec2d { x: 1, y: 178956971 }));
    let p = s.placement(&Vec2d { x: 0, y: 0 }, &Vec2d { x: 268435455, y: 1 });
    assert_eq!(p.dest.width(), 1073741823);
    assert_eq!(p.dest.height(), 24);
}

#[test]
fn spritesheet_has_cell_stops_where_the_position_overflows() {
    let sheet = Spritesheet::new(1, 65536, u32::MAX, 1);
    assert!(sheet.has_cell(0));
    assert!(sheet.has_cell(32768));
    assert!(!sheet.has_cell(32769));
    assert!(!sheet.has_cell(65535));
    assert_eq!(sheet.cell(32768), Rect::new(1073741823, 0, 65535, 1));
    assert_eq!(sheet.cell(2), Rect::new(131070, 0, 65535, 1));
}

#[test]
fn spritesheet_can_draw_goes_by_the_last_pixel() {
    let sheet = Spritesheet::new(2, 2, 4, 4);
    let pixels = vec![0u8; 64];
    assert!(sheet.can_draw(&pixels, 16, &vec![0u8; 64], 3, 2, 2, 2, 2));
    assert!(!sheet.can_draw(&pixels, 16, &vec![0u8; 63], 3, 2, 2, 2, 2));
    assert!(!sheet.can_draw(&pixels, 16, &vec![0u8; 64], 3, 3, 2, 2, 2));
    assert!(!sheet.can_draw(&pixels, 16, &vec![0u8; 64], 3, 2, 3, 2, 2));
    assert!(!sheet.can_draw(&pixels[..63], 16, &vec![0u8; 64], 3, 0, 0, 2, 2));
    assert!(sheet.can_draw(&pixels[..63], 16, &vec![0u8; 64], 3, 0, 0, 1, 2));
    assert!(!sheet.can_draw(&pixels, 16, &vec![0u8; 64], 0, -1, 0, 1, 1));
    assert!(!sheet.can_draw(&pixels, 16, &vec![0u8; 64], 0, 0, -1, 1, 1));
}

#[test]
fn spritesheet_can_draw_nothing_anywhere() {
    let sheet = Spritesheet::new(2, 2, 4, 4);
    let empty: Vec<u8> = Vec::new();
    assert!(sheet.can_draw(&empty, 16, &empty, 3, -7, 900, 0, 5));
    assert!(sheet.can_draw(&empty, 16, &empty, 3, 7, -900, 5, 0));
    assert!(!sheet.can_draw(&empty, 16, &empty, 3, 0, 0, 1, 1));
}

#[test]
fn spritesheet_draw_sprite_copies_each_pixel_of_a_wide_enough_line() {
    let sheet = Spritesheet::new(2, 2, 4, 4);
    let pixels: Vec<u8> = (0..64).map(|b| b + 64).collect();
    let mut buffer = vec![0u8; 64];
    assert!(sheet.can_draw(&pixels, 16, &buffer, 2, 1, 1, 2, 2));
    sheet.draw_sprite(&pixels, 16, &mut buffer, 2, 1, 1, 2, 2);
    for row in 0..2 {
        for col in 0..2 {
            for k in 0..4 {
                let from = (2 + row) * 16 + col * 4 + k;
                let to = (1 + row) * 16 + (1 + col) * 4 + k;
                assert_eq!(buffer[to], pixels[from]);
            }
        }
    }
    assert_eq!(buffer.iter().filter(|b| **b != 0).count(), 16);
}
