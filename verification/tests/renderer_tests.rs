use sare_terminal::terminal::protocol::{Color, ColorType};
use sare_terminal::terminal::renderer::{RendererConfig, TerminalRenderer};

fn small(cols: u16, rows: u16) -> TerminalRenderer {
    let mut config = RendererConfig::default();
    config.size = (cols, rows);
    TerminalRenderer::new(config)
}

fn row_text(r: &TerminalRenderer, row: usize) -> String {
    r.screen_content()[row].iter().map(|c| c.char).collect()
}

#[test]
fn printing_fills_cells_and_advances() {
    let mut r = small(10, 3);
    r.process_input(b"Hi");
    assert_eq!(row_text(&r, 0), "Hi        ");
    assert_eq!(r.state().cursor_pos, (2, 0));
    assert!(r.screen_content()[0][0].dirty);
}

#[test]
fn printing_at_the_last_column_wraps() {
    let mut r = small(3, 2);
    r.process_input(b"abcd");
    assert_eq!(row_text(&r, 0), "abc");
    assert_eq!(row_text(&r, 1), "d  ");
    assert_eq!(r.state().cursor_pos, (1, 1));
}

#[test]
fn printing_past_the_last_row_scrolls() {
    let mut r = small(2, 2);
    r.process_input(b"abcdef");
    assert_eq!(row_text(&r, 0), "ef");
    assert_eq!(row_text(&r, 1), "  ");
    assert_eq!(r.state().cursor_pos, (0, 1));
    assert_eq!(r.scrollback_content().len(), 2);
    assert_eq!(r.scrollback_content()[0][0].char, 'a');
    assert_eq!(r.scrollback_content()[1][1].char, 'd');
}

#[test]
fn cursor_moves_stay_on_screen() {
    let mut r = small(10, 5);
    r.process_input(b"\x1b[3;4H");
    assert_eq!(r.state().cursor_pos, (3, 2));
    r.process_input(b"\x1b[99A");
    assert_eq!(r.state().cursor_pos, (3, 0));
    r.process_input(b"\x1b[99B\x1b[99C");
    assert_eq!(r.state().cursor_pos, (9, 4));
    r.process_input(b"\x1b[2D");
    assert_eq!(r.state().cursor_pos, (7, 4));
    r.process_input(b"\x1b[1G");
    assert_eq!(r.state().cursor_pos, (0, 4));
}

#[test]
fn save_and_restore_cursor() {
    let mut r = small(10, 5);
    r.process_input(b"\x1b[2;3H\x1b[s\x1b[5;9H");
    assert_eq!(r.state().cursor_pos, (8, 4));
    r.process_input(b"\x1b[u");
    assert_eq!(r.state().cursor_pos, (2, 1));
}

#[test]
fn erase_line_to_end() {
    let mut r = small(5, 2);
    r.process_input(b"abcde\x1b[1;3H\x1b[K");
    assert_eq!(row_text(&r, 0), "ab   ");
    let erased = &r.screen_content()[0][4];
    assert_eq!(erased.bg_color, Color { r: 0, g: 0, b: 0, color_type: ColorType::Default });
}

#[test]
fn erase_whole_display() {
    let mut r = small(3, 2);
    r.process_input(b"abcdef\x1b[2J");
    assert_eq!(row_text(&r, 0), "   ");
    assert_eq!(row_text(&r, 1), "   ");
}

#[test]
fn graphics_mode_colours_the_next_characters() {
    let mut r = small(5, 1);
    r.process_input(b"\x1b[1;31mX");
    let cell = &r.screen_content()[0][0];
    assert_eq!(cell.char, 'X');
    assert!(cell.attributes.bold);
    assert_eq!(cell.fg_color.color_type, ColorType::Named(1));
    assert!(r.state().attributes.bold);
    r.process_input(b"\x1b[0m");
    assert!(!r.state().attributes.bold);
}

#[test]
fn resize_keeps_what_fits() {
    let mut r = small(4, 2);
    r.process_input(b"abcdefg");
    r.resize(2, 3);
    assert_eq!(r.screen_content().len(), 3);
    assert_eq!(row_text(&r, 0), "ab");
    assert_eq!(row_text(&r, 1), "ef");
    assert_eq!(row_text(&r, 2), "  ");
}

#[test]
fn dirty_regions_clear() {
    let mut r = small(4, 2);
    r.process_input(b"a");
    assert!(!r.dirty_regions().is_empty());
    r.clear_dirty_regions();
    assert!(r.dirty_regions().is_empty());
}

#[test]
fn feeding_in_pieces_matches_feeding_at_once() {
    let input: &[u8] = b"ab\x1b[2;2Hc\x1b[31md";
    let mut whole = small(4, 3);
    whole.process_input(input);
    let mut pieces = small(4, 3);
    for b in input {
        pieces.process_input(&[*b]);
    }
    for row in 0..3 {
        assert_eq!(row_text(&whole, row), row_text(&pieces, row));
    }
    assert_eq!(whole.state().cursor_pos, pieces.state().cursor_pos);
}

#[test]
fn large_move_counts_stop_at_the_screen_edge() {
    let mut r = small(80, 24);
    r.process_input(b"\x1b[2;6H");
    assert_eq!(r.state().cursor_pos, (5, 1));
    r.process_input(b"\x1b[65536C");
    assert_eq!(r.state().cursor_pos, (79, 1));
    r.process_input(b"\x1b[65535B");
    assert_eq!(r.state().cursor_pos, (79, 23));
    r.process_input(b"\x1b[65536D");
    assert_eq!(r.state().cursor_pos, (0, 23));
    r.process_input(b"\x1b[65536A");
    assert_eq!(r.state().cursor_pos, (0, 0));
    r.process_input(b"\x1b[65537;65537H");
    assert_eq!(r.state().cursor_pos, (79, 23));
    r.process_input(b"\x1b[65537G");
    assert_eq!(r.state().cursor_pos, (79, 23));
}
