use sare_terminal::terminal::protocol::{
    AnsiCommand, AnsiParser, Cell, Color, ColorType, MouseReportingMode, ScreenBuffer,
};

#[test]
fn plain_text_prints_each_byte() {
    let mut p = AnsiParser::new();
    let cmds = p.process_input(b"Hi!");
    assert_eq!(cmds.len(), 3);
    assert!(matches!(cmds[0], AnsiCommand::Print('H')));
    assert!(matches!(cmds[1], AnsiCommand::Print('i')));
    assert!(matches!(cmds[2], AnsiCommand::Print('!')));
}

#[test]
fn cursor_position_reads_row_and_column() {
    let mut p = AnsiParser::new();
    let cmds = p.process_input(b"\x1b[12;40H");
    assert_eq!(cmds.len(), 1);
    assert!(matches!(cmds[0], AnsiCommand::CursorPosition(12, 40)));
}

#[test]
fn missing_parameters_take_their_defaults() {
    let mut p = AnsiParser::new();
    let cmds = p.process_input(b"\x1b[A\x1b[H\x1b[J\x1b[r");
    assert_eq!(cmds.len(), 4);
    assert!(matches!(cmds[0], AnsiCommand::CursorUp(1)));
    assert!(matches!(cmds[1], AnsiCommand::CursorPosition(1, 1)));
    assert!(matches!(cmds[2], AnsiCommand::EraseInDisplay(0)));
    assert!(matches!(cmds[3], AnsiCommand::SetScrollRegion(1, 24)));
}

#[test]
fn graphics_mode_expands_each_parameter() {
    let mut p = AnsiParser::new();
    let cmds = p.process_input(b"\x1b[1;31;44;92;38m");
    assert_eq!(cmds.len(), 5);
    assert!(matches!(cmds[0], AnsiCommand::SetBold));
    assert!(matches!(cmds[1], AnsiCommand::SetForegroundColor(ColorType::Named(1))));
    assert!(matches!(cmds[2], AnsiCommand::SetBackgroundColor(ColorType::Named(4))));
    assert!(matches!(cmds[3], AnsiCommand::SetForegroundColor(ColorType::Named(10))));
    assert!(matches!(cmds[4], AnsiCommand::SetForegroundColor(ColorType::Default)));
}

#[test]
fn empty_graphics_mode_resets() {
    let mut p = AnsiParser::new();
    let cmds = p.process_input(b"\x1b[m");
    assert_eq!(cmds.len(), 1);
    assert!(matches!(cmds[0], AnsiCommand::ResetAttributes));
}

#[test]
fn private_modes_set_and_reset() {
    let mut p = AnsiParser::new();
    let cmds = p.process_input(b"\x1b[?25l\x1b[?1000h\x1b[?1002l\x1b[?2004h");
    assert_eq!(cmds.len(), 4);
    assert!(matches!(cmds[0], AnsiCommand::HideCursor));
    assert!(matches!(cmds[1], AnsiCommand::SetMouseTracking(MouseReportingMode::X10)));
    assert!(matches!(cmds[2], AnsiCommand::SetMouseTracking(MouseReportingMode::Off)));
    assert!(matches!(cmds[3], AnsiCommand::SetBracketedPaste(true)));
}

#[test]
fn too_large_parameter_reads_as_zero() {
    let mut p = AnsiParser::new();
    let cmds = p.process_input(b"\x1b[99999999999B");
    assert_eq!(cmds.len(), 1);
    assert!(matches!(cmds[0], AnsiCommand::CursorDown(0)));
}

#[test]
fn mouse_report_prefix_turns_tracking_on() {
    let mut p = AnsiParser::new();
    let cmds = p.process_input(b"\x1b[<x");
    assert_eq!(cmds.len(), 2);
    assert!(matches!(cmds[0], AnsiCommand::MouseTracking(true)));
    assert!(matches!(cmds[1], AnsiCommand::Print('x')));
}

#[test]
fn operating_system_command_is_skipped_until_bell() {
    let mut p = AnsiParser::new();
    let cmds = p.process_input(b"\x1b]0;title\x07ok");
    assert_eq!(cmds.len(), 2);
    assert!(matches!(cmds[0], AnsiCommand::Print('o')));
    assert!(matches!(cmds[1], AnsiCommand::Print('k')));
}

#[test]
fn unknown_final_byte_gives_nothing() {
    let mut p = AnsiParser::new();
    let cmds = p.process_input(b"\x1b[5zA");
    assert_eq!(cmds.len(), 1);
    assert!(matches!(cmds[0], AnsiCommand::Print('A')));
}

#[test]
fn input_split_anywhere_gives_the_same_commands() {
    let whole: &[u8] = b"a\x1b[3;7Hb\x1b[1;4mc";
    let mut p1 = AnsiParser::new();
    let all = p1.process_input(whole);
    for cut in 0..whole.len() {
        let mut p2 = AnsiParser::new();
        let mut parts = p2.process_input(&whole[..cut]);
        parts.extend(p2.process_input(&whole[cut..]));
        assert_eq!(format!("{:?}", parts), format!("{:?}", all));
    }
}

#[test]
fn palette_holds_the_sixteen_named_colours() {
    let p = AnsiParser::new();
    let red = p.palette_lookup(1).unwrap();
    assert_eq!((red.r, red.g, red.b), (205, 0, 0));
    assert_eq!(red.color_type, ColorType::Named(1));
    let blue = p.palette_lookup(12).unwrap();
    assert_eq!((blue.r, blue.g, blue.b), (92, 92, 255));
    assert!(p.palette_lookup(16).is_none());
}

#[test]
fn screen_buffer_starts_blank_and_resizes() {
    let mut b = ScreenBuffer::new(4, 2);
    assert_eq!(b.content.len(), 2);
    assert_eq!(b.content[0].len(), 4);
    assert_eq!(b.content[1][3], Cell::default());
    b.content[0][0].char = 'x';
    b.resize(2, 3);
    assert_eq!(b.content.len(), 3);
    assert_eq!(b.content[0].len(), 2);
    assert_eq!(b.content[0][0].char, 'x');
    assert_eq!(b.content[2][1], Cell::default());
}

#[test]
fn default_colour_is_white() {
    let c = Color::default();
    assert_eq!((c.r, c.g, c.b), (255, 255, 255));
    assert_eq!(c.color_type, ColorType::Default);
}
