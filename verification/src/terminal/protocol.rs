//! ANSI escape sequence parser and the screen data it describes.
//!
//! The parser is a byte-driven state machine.  Its whole behaviour is given
//! by `step`, one byte at a time, and `run`, the left fold of `step` over an
//! input; `AnsiParser::process_input` is proved to compute `run`.
use std::collections::HashMap;
use vstd::prelude::*;

verus! {

broadcast use vstd::std_specs::hash::group_hash_axioms;

/// States of the escape-sequence state machine.
#[derive(Debug, Clone, Copy, PartialEq, Eq, Structural)]
pub enum ParserState {
    /// Normal text mode
    Normal,
    /// Escape sequence started
    Escape,
    /// Control sequence started
    ControlSequence,
    /// Parameter collection
    Parameter,
    /// Intermediate character collection
    Intermediate,
    /// Final character collection
    Final,
    /// String terminator
    StringTerminator,
    /// Operating system command
    OperatingSystem,
    /// Device control string
    DeviceControl,
}

/// Cursor shapes.
#[derive(Debug, Clone, Copy, PartialEq, Eq, Structural)]
pub enum CursorShape {
    /// Block cursor
    Block,
    /// Underline cursor
    Underline,
    /// Vertical bar cursor
    Bar,
}

/// How a color was chosen.
#[derive(Debug, Clone, Copy, PartialEq, Eq, Structural)]
pub enum ColorType {
    /// Named color (0-15)
    Named(u8),
    /// 256-color index (16-255)
    Index(u8),
    /// True color (24-bit)
    TrueColor,
    /// Default color
    Default,
}

/// A color with its components.
#[derive(Debug, Clone, Copy, PartialEq, Eq, Structural)]
pub struct Color {
    /// Red component
    pub r: u8,
    /// Green component
    pub g: u8,
    /// Blue component
    pub b: u8,
    /// How the color was chosen
    pub color_type: ColorType,
}

/// Text attributes.
#[derive(Debug, Clone, Copy, PartialEq, Eq, Structural)]
pub struct TextAttributes {
    /// Bold text
    pub bold: bool,
    /// Dim/faint text
    pub dim: bool,
    /// Italic text
    pub italic: bool,
    /// Underlined text
    pub underline: bool,
    /// Blinking text
    pub blink: bool,
    /// Reverse video
    pub reverse: bool,
    /// Hidden text
    pub hidden: bool,
    /// Strikethrough text
    pub strikethrough: bool,
}

/// Terminal state for ANSI emulation.
#[derive(Debug, Clone, Copy)]
pub struct TerminalState {
    /// Cursor position (column, row)
    pub cursor_pos: (u16, u16),
    /// Cursor visibility
    pub cursor_visible: bool,
    /// Cursor shape
    pub cursor_shape: CursorShape,
    /// Terminal size (columns, rows)
    pub size: (u16, u16),
    /// Scroll region (top, bottom)
    pub scroll_region: Option<(u16, u16)>,
    /// Current foreground color
    pub fg_color: Color,
    /// Current background color
    pub bg_color: Color,
    /// Text attributes
    pub attributes: TextAttributes,
    /// Insert/replace mode
    pub insert_mode: bool,
    /// Application cursor keys mode
    pub app_cursor_keys: bool,
    /// Application keypad mode
    pub app_keypad: bool,
    /// Auto-wrap mode
    pub auto_wrap: bool,
    /// Origin mode (relative/absolute positioning)
    pub origin_mode: bool,
    /// Show cursor mode
    pub show_cursor: bool,
}

/// One character cell of a screen buffer.
#[derive(Debug, Clone, Copy, PartialEq, Eq, Structural)]
pub struct Cell {
    /// Character content
    pub char: char,
    /// Foreground color
    pub fg_color: Color,
    /// Background color
    pub bg_color: Color,
    /// Text attributes
    pub attributes: TextAttributes,
    /// Whether the cell needs redraw
    pub dirty: bool,
}

/// A screen of cells, with its cursor and scrollback.
#[derive(Debug)]
pub struct ScreenBuffer {
    /// Screen content, row by row
    pub content: Vec<Vec<Cell>>,
    /// Cursor position in this buffer (column, row)
    pub cursor_pos: (u16, u16),
    /// Scrollback buffer
    pub scrollback: Vec<Vec<Cell>>,
    /// Maximum scrollback lines
    pub max_scrollback: usize,
}

/// Which of the two screen buffers is shown.
#[derive(Debug, Clone, Copy, PartialEq, Eq, Structural)]
pub enum ActiveBuffer {
    /// Primary screen buffer
    Primary,
    /// Alternate screen buffer
    Alternate,
}

/// The primary and alternate screen buffers.
#[derive(Debug, Clone)]
pub struct ScreenBuffers {
    /// Primary screen buffer
    pub primary: ScreenBuffer,
    /// Alternate screen buffer
    pub alternate: ScreenBuffer,
    /// Currently active buffer
    pub active: ActiveBuffer,
}

/// Mouse reporting modes.
#[derive(Debug, Clone, Copy, PartialEq, Eq, Structural)]
pub enum MouseReportingMode {
    /// No mouse reporting
    Off,
    /// X10 mouse reporting
    X10,
    /// VT200 mouse reporting
    VT200,
    /// VT200 highlight mouse reporting
    VT200Highlight,
    /// Button event mouse reporting
    ButtonEvent,
    /// Any event mouse reporting
    AnyEvent,
}

/// Mouse tracking state.
#[derive(Debug, Clone, Copy)]
pub struct MouseState {
    /// Mouse tracking enabled
    pub tracking_enabled: bool,
    /// Mouse reporting mode
    pub reporting_mode: MouseReportingMode,
    /// Last mouse position
    pub last_pos: Option<(u16, u16)>,
    /// Mouse button state
    pub button_state: u8,
}

/// The default color: white, of the default kind.
pub open spec fn default_color() -> Color {
    Color { r: 255, g: 255, b: 255, color_type: ColorType::Default }
}

/// No attribute set.
pub open spec fn plain_attributes() -> TextAttributes {
    TextAttributes {
        bold: false,
        dim: false,
        italic: false,
        underline: false,
        blink: false,
        reverse: false,
        hidden: false,
        strikethrough: false,
    }
}

/// A blank cell: a space in the default colors, not dirty.
pub open spec fn blank_cell() -> Cell {
    Cell {
        char: ' ',
        fg_color: default_color(),
        bg_color: default_color(),
        attributes: plain_attributes(),
        dirty: false,
    }
}

/// The state of a fresh 80x24 terminal.
pub open spec fn initial_terminal_state() -> TerminalState {
    TerminalState {
        cursor_pos: (0, 0),
        cursor_visible: true,
        cursor_shape: CursorShape::Block,
        size: (80, 24),
        scroll_region: None,
        fg_color: default_color(),
        bg_color: default_color(),
        attributes: plain_attributes(),
        insert_mode: false,
        app_cursor_keys: false,
        app_keypad: false,
        auto_wrap: true,
        origin_mode: false,
        show_cursor: true,
    }
}

/// Mouse tracking off, nothing recorded.
pub open spec fn initial_mouse_state() -> MouseState {
    MouseState {
        tracking_enabled: false,
        reporting_mode: MouseReportingMode::Off,
        last_pos: None,
        button_state: 0,
    }
}

impl Default for Color {
    fn default() -> (r: Self)
        ensures
            r == default_color(),
    {
        Color { r: 255, g: 255, b: 255, color_type: ColorType::Default }
    }
}

impl Default for TextAttributes {
    fn default() -> (r: Self)
        ensures
            r == plain_attributes(),
    {
        TextAttributes {
            bold: false,
            dim: false,
            italic: false,
            underline: false,
            blink: false,
            reverse: false,
            hidden: false,
            strikethrough: false,
        }
    }
}

impl Default for Cell {
    fn default() -> (r: Self)
        ensures
            r == blank_cell(),
    {
        Cell {
            char: ' ',
            fg_color: Color::default(),
            bg_color: Color::default(),
            attributes: TextAttributes::default(),
            dirty: false,
        }
    }
}

impl Default for TerminalState {
    fn default() -> (r: Self)
        ensures
            r == initial_terminal_state(),
    {
        TerminalState {
            cursor_pos: (0, 0),
            cursor_visible: true,
            cursor_shape: CursorShape::Block,
            size: (80, 24),
            scroll_region: None,
            fg_color: Color::default(),
            bg_color: Color::default(),
            attributes: TextAttributes::default(),
            insert_mode: false,
            app_cursor_keys: false,
            app_keypad: false,
            auto_wrap: true,
            origin_mode: false,
            show_cursor: true,
        }
    }
}

impl Default for MouseState {
    fn default() -> (r: Self)
        ensures
            r == initial_mouse_state(),
    {
        MouseState {
            tracking_enabled: false,
            reporting_mode: MouseReportingMode::Off,
            last_pos: None,
            button_state: 0,
        }
    }
}

/// The rows of a grid of cells, each row by its view.
pub open spec fn grid(v: Seq<Vec<Cell>>) -> Seq<Seq<Cell>> {
    v.map_values(|row: Vec<Cell>| row@)
}

/// Viewing a grid commutes with appending a row.
pub proof fn lemma_grid_push(v: Seq<Vec<Cell>>, row: Vec<Cell>)
    ensures
        grid(v.push(row)) == grid(v).push(row@),
{
    assert(grid(v.push(row)) =~= grid(v).push(row@));
}

/// A grid of `rows` rows of `cols` blank cells.
pub open spec fn blank_grid(cols: nat, rows: nat) -> Seq<Seq<Cell>> {
    Seq::new(rows, |r: int| Seq::new(cols, |c: int| blank_cell()))
}

/// The grid `g` cut or padded with blank cells to `cols` columns and `rows`
/// rows, keeping each cell that falls inside both; a row or column counts as
/// present when it is below the length read as a `u16`.
pub open spec fn resized_grid(g: Seq<Seq<Cell>>, cols: nat, rows: nat) -> Seq<Seq<Cell>> {
    Seq::new(
        rows,
        |r: int|
            Seq::new(
                cols,
                |c: int|
                    if r < (g.len() as u16) && c < (g[r].len() as u16) {
                        g[r][c]
                    } else {
                        blank_cell()
                    },
            ),
    )
}

/// A row of `cols` blank cells.
fn blank_row(cols: u16) -> (row: Vec<Cell>)
    ensures
        row@ == Seq::new(cols as nat, |c: int| blank_cell()),
{
    let mut row: Vec<Cell> = Vec::new();
    let mut c: u16 = 0;
    while c < cols
        invariant
            c <= cols,
            row@ == Seq::new(c as nat, |k: int| blank_cell()),
        decreases cols - c,
    {
        row.push(Cell::default());
        c = c + 1;
        assert(row@ =~= Seq::new(c as nat, |k: int| blank_cell()));
    }
    row
}

impl Clone for ScreenBuffer {
    fn clone(&self) -> (r: Self)
        ensures
            r.cursor_pos == self.cursor_pos,
            r.max_scrollback == self.max_scrollback,
    {
        ScreenBuffer {
            content: self.content.clone(),
            cursor_pos: self.cursor_pos,
            scrollback: self.scrollback.clone(),
            max_scrollback: self.max_scrollback,
        }
    }
}

impl ScreenBuffer {
    /// Creates a screen buffer of `rows` rows of `cols` blank cells, with the
    /// cursor at the origin, no scrollback and a scrollback limit of 1000.
    pub fn new(cols: u16, rows: u16) -> (b: Self)
        ensures
            grid(b.content@) == blank_grid(cols as nat, rows as nat),
            b.cursor_pos == (0u16, 0u16),
            b.scrollback@.len() == 0,
            b.max_scrollback == 1000,
    {
        let mut content: Vec<Vec<Cell>> = Vec::new();
        let mut r: u16 = 0;
        while r < rows
            invariant
                r <= rows,
                grid(content@) == blank_grid(cols as nat, r as nat),
            decreases rows - r,
        {
            let row = blank_row(cols);
            proof {
                lemma_grid_push(content@, row);
            }
            content.push(row);
            r = r + 1;
            assert(grid(content@) =~= blank_grid(cols as nat, r as nat));
        }
        ScreenBuffer { content, cursor_pos: (0, 0), scrollback: Vec::new(), max_scrollback: 1000 }
    }

    /// Resizes the screen to `cols` columns and `rows` rows, keeping the
    /// cells that fit, and pulls the cursor inside the new screen.
    pub fn resize(&mut self, cols: u16, rows: u16)
        requires
            cols > 0,
            rows > 0,
        ensures
            grid(final(self).content@) == resized_grid(grid(old(self).content@), cols as nat, rows as nat),
            final(self).cursor_pos.0 == (if old(self).cursor_pos.0 >= cols {
                (cols - 1) as u16
            } else {
                old(self).cursor_pos.0
            }),
            final(self).cursor_pos.1 == (if old(self).cursor_pos.1 >= rows {
                (rows - 1) as u16
            } else {
                old(self).cursor_pos.1
            }),
            final(self).scrollback == old(self).scrollback,
            final(self).max_scrollback == old(self).max_scrollback,
    {
        let ghost g = grid(self.content@);
        let mut new_content: Vec<Vec<Cell>> = Vec::new();
        let mut row: u16 = 0;
        while row < rows
            invariant
                row <= rows,
                g == grid(self.content@),
                grid(new_content@) == resized_grid(g, cols as nat, rows as nat).subrange(0, row as int),
            decreases rows - row,
        {
            let mut new_row: Vec<Cell> = Vec::new();
            let mut col: u16 = 0;
            while col < cols
                invariant
                    col <= cols,
                    row < rows,
                    g == grid(self.content@),
                    new_row@ == resized_grid(g, cols as nat, rows as nat)[row as int].subrange(0, col as int),
                decreases cols - col,
            {
                let len: usize = self.content.len();
                if row < (len as u16) && col < (self.content[row as usize].len() as u16) {
                    new_row.push(self.content[row as usize][col as usize]);
                } else {
                    new_row.push(Cell::default());
                }
                col = col + 1;
                assert(new_row@ =~= resized_grid(g, cols as nat, rows as nat)[row as int].subrange(0, col as int));
            }
            assert(new_row@ =~= resized_grid(g, cols as nat, rows as nat)[row as int]);
 proof {
                lemma_grid_push(new_content@, new_row);
            }
            new_content.push(new_row);
            row = row + 1;
            assert(grid(new_content@) =~= resized_grid(g, cols as nat, rows as nat).subrange(0, row as int));
        }
        assert(grid(new_content@) =~~= resized_grid(g, cols as nat, rows as nat));
        self.content = new_content;
        if self.cursor_pos.0 >= cols {
            self.cursor_pos.0 = cols - 1;
        }
        if self.cursor_pos.1 >= rows {
            self.cursor_pos.1 = rows - 1;
        }
    }
}

impl Default for ScreenBuffers {
    fn default() -> (r: Self)
        ensures
            grid(r.primary.content@) == blank_grid(80, 24),
            grid(r.alternate.content@) == blank_grid(80, 24),
            r.primary.cursor_pos == (0u16, 0u16),
            r.alternate.cursor_pos == (0u16, 0u16),
            r.primary.scrollback@.len() == 0,
            r.alternate.scrollback@.len() == 0,
            r.primary.max_scrollback == 1000,
            r.alternate.max_scrollback == 1000,
            r.active == ActiveBuffer::Primary,
    {
        ScreenBuffers {
            primary: ScreenBuffer::new(80, 24),
            alternate: ScreenBuffer::new(80, 24),
            active: ActiveBuffer::Primary,
        }
    }
}

/// Commands produced by the escape-sequence parser.
#[derive(Debug, Clone)]
pub enum AnsiCommand {
    /// Print a character
    Print(char),
    /// Move cursor up
    CursorUp(u32),
    /// Move cursor down
    CursorDown(u32),
    /// Move cursor forward
    CursorForward(u32),
    /// Move cursor backward
    CursorBackward(u32),
    /// Move cursor to next line
    CursorNextLine(u32),
    /// Move cursor to previous line
    CursorPreviousLine(u32),
    /// Move cursor to absolute column
    CursorHorizontalAbsolute(u32),
    /// Move cursor to absolute position (row, column)
    CursorPosition(u32, u32),
    /// Save cursor position
    SaveCursor,
    /// Restore cursor position
    RestoreCursor,
    /// Erase in display
    EraseInDisplay(u32),
    /// Erase in line
    EraseInLine(u32),
    /// Set graphics mode
    SetGraphicsMode(Vec<u32>),
    /// Reset all attributes
    ResetAttributes,
    /// Set bold
    SetBold,
    /// Set dim
    SetDim,
    /// Set italic
    SetItalic,
    /// Set underline
    SetUnderline,
    /// Set blink
    SetBlink,
    /// Set reverse video
    SetReverse,
    /// Set hidden
    SetHidden,
    /// Set strikethrough
    SetStrikethrough,
    /// Set foreground color
    SetForegroundColor(ColorType),
    /// Set background color
    SetBackgroundColor(ColorType),
    /// Reset foreground color
    ResetForegroundColor,
    /// Reset background color
    ResetBackgroundColor,
    /// Set application cursor keys
    SetApplicationCursorKeys,
    /// Reset application cursor keys
    ResetApplicationCursorKeys,
    /// Set insert mode
    SetInsertMode,
    /// Reset insert mode
    ResetInsertMode,
    /// Set reverse video
    SetReverseVideo,
    /// Reset reverse video
    ResetReverseVideo,
    /// Set origin mode
    SetOriginMode,
    /// Reset origin mode
    ResetOriginMode,
    /// Set auto wrap
    SetAutoWrap,
    /// Reset auto wrap
    ResetAutoWrap,
    /// Set blinking cursor
    SetBlinkingCursor,
    /// Reset blinking cursor
    ResetBlinkingCursor,
    /// Show cursor
    ShowCursor,
    /// Hide cursor
    HideCursor,
    /// Set mouse tracking
    SetMouseTracking(MouseReportingMode),
    /// Set bracketed paste mode
    SetBracketedPaste(bool),
    /// Device attributes
    DeviceAttributes,
    /// Device status report
    DeviceStatusReport(u32),
    /// Set scroll region (top, bottom)
    SetScrollRegion(u32, u32),
    /// Mouse tracking
    MouseTracking(bool),
}

/// What the parser remembers between bytes.
pub struct ParserModel {
    /// State of the state machine
    pub state: ParserState,
    /// Parameters completed in the current sequence
    pub params: Seq<u32>,
    /// Digits of the parameter being read
    pub current: Seq<u8>,
    /// Rows of the parser's own terminal state (the default bottom margin)
    pub rows: u16,
}

/// An ASCII decimal digit.
pub open spec fn is_digit_byte(b: u8) -> bool {
    48 <= b <= 57
}

/// The number written by the decimal digits `d`.
pub open spec fn digits_value(d: Seq<u8>) -> nat
    decreases d.len(),
{
    if d.len() == 0 {
        0
    } else {
        digits_value(d.drop_last()) * 10 + (d.last() - 48) as nat
    }
}

/// A parameter as `str::parse::<u32>` reads it, 0 when that fails (no
/// digit, or a number above `u32::MAX`).
pub open spec fn param_value(d: Seq<u8>) -> u32 {
    if d.len() == 0 || digits_value(d) > u32::MAX {
        0
    } else {
        digits_value(d) as u32
    }
}

/// Parameter `i`, or `default` when there are not that many.
pub open spec fn param_or(params: Seq<u32>, i: int, default: u32) -> u32 {
    if 0 <= i < params.len() {
        params[i]
    } else {
        default
    }
}

/// The commands of one select-graphic-rendition parameter.
pub open spec fn sgr_one(p: u32) -> Seq<AnsiCommand> {
    if p == 0 {
        seq![AnsiCommand::ResetAttributes]
    } else if p == 1 {
        seq![AnsiCommand::SetBold]
    } else if p == 2 {
        seq![AnsiCommand::SetDim]
    } else if p == 3 {
        seq![AnsiCommand::SetItalic]
    } else if p == 4 {
        seq![AnsiCommand::SetUnderline]
    } else if p == 5 {
        seq![AnsiCommand::SetBlink]
    } else if p == 7 {
        seq![AnsiCommand::SetReverse]
    } else if p == 8 {
        seq![AnsiCommand::SetHidden]
    } else if p == 9 {
        seq![AnsiCommand::SetStrikethrough]
    } else if 30 <= p <= 37 {
        seq![AnsiCommand::SetForegroundColor(ColorType::Named((p - 30) as u8))]
    } else if p == 38 {
        seq![AnsiCommand::SetForegroundColor(ColorType::Default)]
    } else if p == 39 {
        seq![AnsiCommand::ResetForegroundColor]
    } else if 40 <= p <= 47 {
        seq![AnsiCommand::SetBackgroundColor(ColorType::Named((p - 40) as u8))]
    } else if p == 48 {
        seq![AnsiCommand::SetBackgroundColor(ColorType::Default)]
    } else if p == 49 {
        seq![AnsiCommand::ResetBackgroundColor]
    } else if 90 <= p <= 97 {
        seq![AnsiCommand::SetForegroundColor(ColorType::Named((p - 90 + 8) as u8))]
    } else if 100 <= p <= 107 {
        seq![AnsiCommand::SetBackgroundColor(ColorType::Named((p - 100 + 8) as u8))]
    } else {
        seq![]
    }
}

/// The commands of the parameters `ps`, one after the other.
pub open spec fn sgr_list(ps: Seq<u32>) -> Seq<AnsiCommand>
    decreases ps.len(),
{
    if ps.len() == 0 {
        seq![]
    } else {
        sgr_list(ps.drop_last()) + sgr_one(ps.last())
    }
}

/// The commands of a select-graphic-rendition sequence (`m`).
pub open spec fn sgr_commands(ps: Seq<u32>) -> Seq<AnsiCommand> {
    if ps.len() == 0 {
        seq![AnsiCommand::ResetAttributes]
    } else {
        sgr_list(ps)
    }
}

/// The commands of one parameter of a set-mode (`h`) or reset-mode (`l`)
/// sequence.
pub open spec fn mode_one(p: u32, set: bool) -> Seq<AnsiCommand> {
    if p == 1 {
        seq![if set { AnsiCommand::SetApplicationCursorKeys } else { AnsiCommand::ResetApplicationCursorKeys }]
    } else if p == 4 {
        seq![if set { AnsiCommand::SetInsertMode } else { AnsiCommand::ResetInsertMode }]
    } else if p == 5 {
        seq![if set { AnsiCommand::SetReverseVideo } else { AnsiCommand::ResetReverseVideo }]
    } else if p == 6 {
        seq![if set { AnsiCommand::SetOriginMode } else { AnsiCommand::ResetOriginMode }]
    } else if p == 7 {
        seq![if set { AnsiCommand::SetAutoWrap } else { AnsiCommand::ResetAutoWrap }]
    } else if p == 12 {
        seq![if set { AnsiCommand::SetBlinkingCursor } else { AnsiCommand::ResetBlinkingCursor }]
    } else if p == 25 {
        seq![if set { AnsiCommand::ShowCursor } else { AnsiCommand::HideCursor }]
    } else if 1000 <= p <= 1003 {
        seq![AnsiCommand::SetMouseTracking(
            if !set {
                MouseReportingMode::Off
            } else if p == 1000 {
                MouseReportingMode::X10
            } else if p == 1001 {
                MouseReportingMode::VT200Highlight
            } else if p == 1002 {
                MouseReportingMode::VT200
            } else {
                MouseReportingMode::AnyEvent
            },
        )]
    } else if p == 2004 {
        seq![AnsiCommand::SetBracketedPaste(set)]
    } else {
        seq![]
    }
}

/// The commands of the parameters of a set-mode or reset-mode sequence.
pub open spec fn mode_list(ps: Seq<u32>, set: bool) -> Seq<AnsiCommand>
    decreases ps.len(),
{
    if ps.len() == 0 {
        seq![]
    } else {
        mode_list(ps.drop_last(), set) + mode_one(ps.last(), set)
    }
}

/// The commands of a control sequence with parameters `ps` and final byte
/// `f`; `rows` is the default bottom margin.
pub open spec fn csi_commands(ps: Seq<u32>, f: u8, rows: u16) -> Seq<AnsiCommand> {
    if f == 65 {
        seq![AnsiCommand::CursorUp(param_or(ps, 0, 1))]
    } else if f == 66 {
        seq![AnsiCommand::CursorDown(param_or(ps, 0, 1))]
    } else if f == 67 {
        seq![AnsiCommand::CursorForward(param_or(ps, 0, 1))]
    } else if f == 68 {
        seq![AnsiCommand::CursorBackward(param_or(ps, 0, 1))]
    } else if f == 69 {
        seq![AnsiCommand::CursorNextLine(param_or(ps, 0, 1))]
    } else if f == 70 {
        seq![AnsiCommand::CursorPreviousLine(param_or(ps, 0, 1))]
    } else if f == 71 {
        seq![AnsiCommand::CursorHorizontalAbsolute(param_or(ps, 0, 1))]
    } else if f == 72 {
        seq![AnsiCommand::CursorPosition(param_or(ps, 0, 1), param_or(ps, 1, 1))]
    } else if f == 74 {
        seq![AnsiCommand::EraseInDisplay(param_or(ps, 0, 0))]
    } else if f == 75 {
        seq![AnsiCommand::EraseInLine(param_or(ps, 0, 0))]
    } else if f == 109 {
        sgr_commands(ps)
    } else if f == 115 {
        seq![AnsiCommand::SaveCursor]
    } else if f == 117 {
        seq![AnsiCommand::RestoreCursor]
    } else if f == 104 {
        mode_list(ps, true)
    } else if f == 108 {
        mode_list(ps, false)
    } else if f == 99 {
        seq![AnsiCommand::DeviceAttributes]
    } else if f == 110 {
        seq![AnsiCommand::DeviceStatusReport(param_or(ps, 0, 0))]
    } else if f == 114 {
        seq![AnsiCommand::SetScrollRegion(param_or(ps, 0, 1), param_or(ps, 1, rows as u32))]
    } else {
        seq![]
    }
}

/// The model after the final byte `f` of a control sequence, and the
/// commands it yields: a pending parameter is completed first.
pub open spec fn finish_sequence(m: ParserModel, f: u8) -> (ParserModel, Seq<AnsiCommand>) {
    let ps = if m.current.len() > 0 {
        m.params.push(param_value(m.current))
    } else {
        m.params
    };
    (ParserModel { state: ParserState::Normal, params: ps, ..m }, csi_commands(ps, f, m.rows))
}

/// One byte of input: the next model and the commands the byte yields.
pub open spec fn step(m: ParserModel, b: u8) -> (ParserModel, Seq<AnsiCommand>) {
    match m.state {
        ParserState::Normal => {
            if b == 0x1b {
                (ParserModel { state: ParserState::Escape, ..m }, seq![])
            } else {
                (m, seq![AnsiCommand::Print(b as char)])
            }
        },
        ParserState::Escape => {
            if b == 91 {
                (
                    ParserModel {
                        state: ParserState::ControlSequence,
                        params: seq![],
                        current: seq![],
                        ..m
                    },
                    seq![],
                )
            } else if b == 80 {
                (ParserModel { state: ParserState::DeviceControl, ..m }, seq![])
            } else if b == 93 {
                (ParserModel { state: ParserState::OperatingSystem, ..m }, seq![])
            } else {
                (ParserModel { state: ParserState::Normal, ..m }, seq![])
            }
        },
        ParserState::ControlSequence => {
            if is_digit_byte(b) {
                (
                    ParserModel {
                        state: ParserState::Parameter,
                        current: m.current.push(b),
                        ..m
                    },
                    seq![],
                )
            } else if b == 59 {
                (
                    ParserModel {
                        params: m.params.push(param_value(m.current)),
                        current: seq![],
                        ..m
                    },
                    seq![],
                )
            } else if b == 63 {
                (m, seq![])
            } else if b == 60 {
                (
                    ParserModel { state: ParserState::Normal, ..m },
                    seq![AnsiCommand::MouseTracking(true)],
                )
            } else {
                finish_sequence(m, b)
            }
        },
        ParserState::Parameter => {
            if is_digit_byte(b) {
                (ParserModel { current: m.current.push(b), ..m }, seq![])
            } else if b == 59 {
                (
                    ParserModel {
                        params: m.params.push(param_value(m.current)),
                        current: seq![],
                        ..m
                    },
                    seq![],
                )
            } else {
                finish_sequence(m, b)
            }
        },
        ParserState::OperatingSystem | ParserState::DeviceControl => {
            if b == 0x07 {
                (ParserModel { state: ParserState::Normal, ..m }, seq![])
            } else {
                (m, seq![])
            }
        },
        _ => (ParserModel { state: ParserState::Normal, ..m }, seq![]),
    }
}

/// The model after `input` and the commands it yields, in order: `step`
/// applied byte after byte.
pub open spec fn run(m: ParserModel, input: Seq<u8>) -> (ParserModel, Seq<AnsiCommand>)
    decreases input.len(),
{
    if input.len() == 0 {
        (m, seq![])
    } else {
        let (m1, c1) = run(m, input.drop_last());
        let (m2, c2) = step(m1, input.last());
        (m2, c1 + c2)
    }
}

/// Escape-sequence parser.
#[derive(Debug)]
pub struct AnsiParser {
    /// Current parsing state
    state: ParserState,
    /// Accumulated parameters for the current sequence
    params: Vec<u32>,
    /// Digits of the parameter being built
    current_param: Vec<u8>,
    /// Terminal state
    pub(crate) terminal_state: TerminalState,
    /// Color palette
    pub(crate) color_palette: HashMap<u8, Color>,
    /// Screen buffers (primary and alternate)
    pub(crate) screen_buffers: ScreenBuffers,
    /// Mouse tracking state
    pub(crate) mouse_state: MouseState,
    /// Bracketed paste mode state
    pub(crate) bracketed_paste: bool,
}

/// The color of palette entry `i < 16`.
pub open spec fn palette_color(i: u8) -> Color {
    let (r, g, b): (u8, u8, u8) = if i == 0 {
        (0, 0, 0)
    } else if i == 1 {
        (205, 0, 0)
    } else if i == 2 {
        (0, 205, 0)
    } else if i == 3 {
        (205, 205, 0)
    } else if i == 4 {
        (0, 0, 238)
    } else if i == 5 {
        (205, 0, 205)
    } else if i == 6 {
        (0, 205, 205)
    } else if i == 7 {
        (229, 229, 229)
    } else if i == 8 {
        (127, 127, 127)
    } else if i == 9 {
        (255, 0, 0)
    } else if i == 10 {
        (0, 255, 0)
    } else if i == 11 {
        (255, 255, 0)
    } else if i == 12 {
        (92, 92, 255)
    } else if i == 13 {
        (255, 0, 255)
    } else if i == 14 {
        (0, 255, 255)
    } else {
        (255, 255, 255)
    };
    Color { r, g, b, color_type: ColorType::Named(i) }
}

/// The sixteen standard and bright colors, by index.
pub open spec fn default_palette() -> Map<u8, Color> {
    Map::new(|i: u8| i < 16, |i: u8| palette_color(i))
}

impl Clone for AnsiParser {
    fn clone(&self) -> (r: Self)
        ensures
            r.model() == self.model(),
            r.wf() == self.wf(),
            r.palette() == self.palette(),
            r.mouse() == self.mouse(),
            r.paste_bracketing() == self.paste_bracketing(),
    {
        let mut current_param: Vec<u8> = Vec::new();
        let mut i: usize = 0;
        while i < self.current_param.len()
            invariant
                i <= self.current_param@.len(),
                current_param@ == self.current_param@.subrange(0, i as int),
            decreases self.current_param@.len() - i,
        {
            current_param.push(self.current_param[i]);
            i = i + 1;
            assert(current_param@ =~= self.current_param@.subrange(0, i as int));
        }
        assert(current_param@ =~= self.current_param@);
        let mut params: Vec<u32> = Vec::new();
        let mut j: usize = 0;
        while j < self.params.len()
            invariant
                j <= self.params@.len(),
                params@ == self.params@.subrange(0, j as int),
            decreases self.params@.len() - j,
        {
            params.push(self.params[j]);
            j = j + 1;
            assert(params@ =~= self.params@.subrange(0, j as int));
        }
        assert(params@ =~= self.params@);
        AnsiParser {
            state: self.state,
            params,
            current_param,
            terminal_state: self.terminal_state,
            color_palette: self.color_palette.clone(),
            screen_buffers: self.screen_buffers.clone(),
            mouse_state: self.mouse_state,
            bracketed_paste: self.bracketed_paste,
        }
    }
}

impl AnsiParser {
    /// The pending parameter holds decimal digits only.
    pub closed spec fn wf(&self) -> bool {
        forall|i: int| 0 <= i < self.current_param@.len() ==> is_digit_byte(#[trigger] self.current_param@[i])
    }

    /// What the parser remembers between bytes.
    pub closed spec fn model(&self) -> ParserModel {
        ParserModel {
            state: self.state,
            params: self.params@,
            current: self.current_param@,
            rows: self.terminal_state.size.1,
        }
    }

    /// The parser's color palette.
    pub closed spec fn palette(&self) -> Map<u8, Color> {
        self.color_palette@
    }

    /// The parser's mouse tracking state.
    pub closed spec fn mouse(&self) -> MouseState {
        self.mouse_state
    }

    /// Whether the parser has bracketed paste mode on.
    pub closed spec fn paste_bracketing(&self) -> bool {
        self.bracketed_paste
    }

    /// The sixteen-color palette the parser starts with.
    fn default_color_palette() -> (p: HashMap<u8, Color>)
        ensures
            p@ == default_palette(),
    {
        let mut palette: HashMap<u8, Color> = HashMap::new();
        palette.insert(0, Color { r: 0, g: 0, b: 0, color_type: ColorType::Named(0) });
        palette.insert(1, Color { r: 205, g: 0, b: 0, color_type: ColorType::Named(1) });
        palette.insert(2, Color { r: 0, g: 205, b: 0, color_type: ColorType::Named(2) });
        palette.insert(3, Color { r: 205, g: 205, b: 0, color_type: ColorType::Named(3) });
        palette.insert(4, Color { r: 0, g: 0, b: 238, color_type: ColorType::Named(4) });
        palette.insert(5, Color { r: 205, g: 0, b: 205, color_type: ColorType::Named(5) });
        palette.insert(6, Color { r: 0, g: 205, b: 205, color_type: ColorType::Named(6) });
        palette.insert(7, Color { r: 229, g: 229, b: 229, color_type: ColorType::Named(7) });
        palette.insert(8, Color { r: 127, g: 127, b: 127, color_type: ColorType::Named(8) });
        palette.insert(9, Color { r: 255, g: 0, b: 0, color_type: ColorType::Named(9) });
        palette.insert(10, Color { r: 0, g: 255, b: 0, color_type: ColorType::Named(10) });
        palette.insert(11, Color { r: 255, g: 255, b: 0, color_type: ColorType::Named(11) });
        palette.insert(12, Color { r: 92, g: 92, b: 255, color_type: ColorType::Named(12) });
        palette.insert(13, Color { r: 255, g: 0, b: 255, color_type: ColorType::Named(13) });
        palette.insert(14, Color { r: 0, g: 255, b: 255, color_type: ColorType::Named(14) });
        palette.insert(15, Color { r: 255, g: 255, b: 255, color_type: ColorType::Named(15) });
        assert(palette@ =~= default_palette());
        palette
    }

    /// Creates a parser in the normal state, with no pending parameter, the
    /// 80x24 default terminal state, the sixteen-color palette, blank
    /// screen buffers, mouse tracking off and bracketed paste off.
    pub fn new() -> (p: Self)
        ensures
            p.wf(),
            p.model() == (ParserModel { state: ParserState::Normal, params: seq![], current: seq![], rows: 24 }),
            p.palette() == default_palette(),
            p.mouse() == initial_mouse_state(),
            !p.paste_bracketing(),
    {
        let current_param: Vec<u8> = Vec::new();
        assert(current_param@.len() == 0);
        AnsiParser {
            state: ParserState::Normal,
            params: Vec::new(),
            current_param,
            terminal_state: TerminalState::default(),
            color_palette: Self::default_color_palette(),
            screen_buffers: ScreenBuffers::default(),
            mouse_state: MouseState::default(),
            bracketed_paste: false,
        }
    }
}

/// A number above `u32::MAX` stays above it when a digit is appended.
proof fn lemma_digits_grow(d: Seq<u8>, b: u8)
    requires
        is_digit_byte(b),
    ensures
        digits_value(d.push(b)) == digits_value(d) * 10 + (b - 48) as nat,
        digits_value(d.push(b)) >= digits_value(d),
{
    assert(d.push(b).drop_last() =~= d);
}

/// The parameter that the digits `d` write (see `param_value`).
fn parse_param(d: &Vec<u8>) -> (v: u32)
    requires
        forall|i: int| 0 <= i < d@.len() ==> is_digit_byte(#[trigger] d@[i]),
    ensures
        v == param_value(d@),
{
    let mut acc: u64 = 0;
    let mut over = false;
    let mut i: usize = 0;
    while i < d.len()
        invariant
            i <= d@.len(),
            forall|k: int| 0 <= k < d@.len() ==> is_digit_byte(#[trigger] d@[k]),
            over ==> digits_value(d@.subrange(0, i as int)) > u32::MAX,
            !over ==> acc == digits_value(d@.subrange(0, i as int)) && acc <= u32::MAX,
        decreases d@.len() - i,
    {
        let b = d[i];
        proof {
            lemma_digits_grow(d@.subrange(0, i as int), b);
            assert(d@.subrange(0, i as int).push(b) =~= d@.subrange(0, i + 1));
        }
        if !over {
            acc = acc * 10 + ((b - 48) as u64);
            if acc > 0xffff_ffff {
                over = true;
            }
        }
        i = i + 1;
    }
    assert(d@.subrange(0, d@.len() as int) =~= d@);
    if d.len() == 0 || over {
        0
    } else {
        acc as u32
    }
}

/// Parameter `i` of `params`, or `default`.
fn get_param(params: &Vec<u32>, i: usize, default: u32) -> (v: u32)
    ensures
        v == param_or(params@, i as int, default),
{
    if i < params.len() {
        params[i]
    } else {
        default
    }
}

/// Exec form of `sgr_one`.
fn sgr_one_exec(p: u32) -> (c: Vec<AnsiCommand>)
    ensures
        c@ == sgr_one(p),
{
    let mut c: Vec<AnsiCommand> = Vec::new();
    if p == 0 {
        c.push(AnsiCommand::ResetAttributes);
    } else if p == 1 {
        c.push(AnsiCommand::SetBold);
    } else if p == 2 {
        c.push(AnsiCommand::SetDim);
    } else if p == 3 {
        c.push(AnsiCommand::SetItalic);
    } else if p == 4 {
        c.push(AnsiCommand::SetUnderline);
    } else if p == 5 {
        c.push(AnsiCommand::SetBlink);
    } else if p == 7 {
        c.push(AnsiCommand::SetReverse);
    } else if p == 8 {
        c.push(AnsiCommand::SetHidden);
    } else if p == 9 {
        c.push(AnsiCommand::SetStrikethrough);
    } else if 30 <= p && p <= 37 {
        c.push(AnsiCommand::SetForegroundColor(ColorType::Named((p - 30) as u8)));
    } else if p == 38 {
        let mut e = AnsiParser::handle_extended_color(true);
        c.append(&mut e);
    } else if p == 39 {
        c.push(AnsiCommand::ResetForegroundColor);
    } else if 40 <= p && p <= 47 {
        c.push(AnsiCommand::SetBackgroundColor(ColorType::Named((p - 40) as u8)));
    } else if p == 48 {
        let mut e = AnsiParser::handle_extended_color(false);
        c.append(&mut e);
    } else if p == 49 {
        c.push(AnsiCommand::ResetBackgroundColor);
    } else if 90 <= p && p <= 97 {
        c.push(AnsiCommand::SetForegroundColor(ColorType::Named((p - 90 + 8) as u8)));
    } else if 100 <= p && p <= 107 {
        c.push(AnsiCommand::SetBackgroundColor(ColorType::Named((p - 100 + 8) as u8)));
    }
    assert(c@ =~= sgr_one(p));
    c
}

/// Exec form of `mode_one`.
fn mode_one_exec(p: u32, set: bool) -> (c: Vec<AnsiCommand>)
    ensures
        c@ == mode_one(p, set),
{
    let mut c: Vec<AnsiCommand> = Vec::new();
    if p == 1 {
        c.push(if set { AnsiCommand::SetApplicationCursorKeys } else { AnsiCommand::ResetApplicationCursorKeys });
    } else if p == 4 {
        c.push(if set { AnsiCommand::SetInsertMode } else { AnsiCommand::ResetInsertMode });
    } else if p == 5 {
        c.push(if set { AnsiCommand::SetReverseVideo } else { AnsiCommand::ResetReverseVideo });
    } else if p == 6 {
        c.push(if set { AnsiCommand::SetOriginMode } else { AnsiCommand::ResetOriginMode });
    } else if p == 7 {
        c.push(if set { AnsiCommand::SetAutoWrap } else { AnsiCommand::ResetAutoWrap });
    } else if p == 12 {
        c.push(if set { AnsiCommand::SetBlinkingCursor } else { AnsiCommand::ResetBlinkingCursor });
    } else if p == 25 {
        c.push(if set { AnsiCommand::ShowCursor } else { AnsiCommand::HideCursor });
    } else if 1000 <= p && p <= 1003 {
        let mode = if !set {
            MouseReportingMode::Off
        } else if p == 1000 {
            MouseReportingMode::X10
        } else if p == 1001 {
            MouseReportingMode::VT200Highlight
        } else if p == 1002 {
            MouseReportingMode::VT200
        } else {
            MouseReportingMode::AnyEvent
        };
        c.push(AnsiCommand::SetMouseTracking(mode));
    } else if p == 2004 {
        c.push(AnsiCommand::SetBracketedPaste(set));
    }
    assert(c@ =~= mode_one(p, set));
    c
}

/// The commands of each parameter of `params`, one after the other, as
/// `one` gives them (`sgr_one` when `sgr`, else `mode_one` with `set`).
fn list_commands(params: &Vec<u32>, sgr: bool, set: bool) -> (c: Vec<AnsiCommand>)
    ensures
        c@ == (if sgr { sgr_list(params@) } else { mode_list(params@, set) }),
{
    let mut c: Vec<AnsiCommand> = Vec::new();
    let mut i: usize = 0;
    while i < params.len()
        invariant
            i <= params@.len(),
            c@ == (if sgr { sgr_list(params@.subrange(0, i as int)) } else { mode_list(params@.subrange(0, i as int), set) }),
        decreases params@.len() - i,
    {
        let p = params[i];
        let mut one = if sgr { sgr_one_exec(p) } else { mode_one_exec(p, set) };
        let ghost before = c@;
        c.append(&mut one);
        i = i + 1;
        proof {
            let pre = params@.subrange(0, i as int);
            assert(pre.drop_last() =~= params@.subrange(0, i - 1));
            assert(pre.last() == p);
        }
    }
    assert(params@.subrange(0, params@.len() as int) =~= params@);
    c
}

impl AnsiParser {
    /// The commands of a finished control sequence with final byte
    /// `final_char`, from the parameters collected so far.
    fn handle_control_sequence(&self, final_char: u8) -> (c: Vec<AnsiCommand>)
        ensures
            c@ == csi_commands(self.params@, final_char, self.terminal_state.size.1),
    {
        let mut commands: Vec<AnsiCommand> = Vec::new();
        if final_char == 65u8 {
            commands.push(AnsiCommand::CursorUp(get_param(&self.params, 0, 1)));
        } else if final_char == 66u8 {
            commands.push(AnsiCommand::CursorDown(get_param(&self.params, 0, 1)));
        } else if final_char == 67u8 {
            commands.push(AnsiCommand::CursorForward(get_param(&self.params, 0, 1)));
        } else if final_char == 68u8 {
            commands.push(AnsiCommand::CursorBackward(get_param(&self.params, 0, 1)));
        } else if final_char == 69u8 {
            commands.push(AnsiCommand::CursorNextLine(get_param(&self.params, 0, 1)));
        } else if final_char == 70u8 {
            commands.push(AnsiCommand::CursorPreviousLine(get_param(&self.params, 0, 1)));
        } else if final_char == 71u8 {
            commands.push(AnsiCommand::CursorHorizontalAbsolute(get_param(&self.params, 0, 1)));
        } else if final_char == 72u8 {
            let row = get_param(&self.params, 0, 1);
            let col = get_param(&self.params, 1, 1);
            commands.push(AnsiCommand::CursorPosition(row, col));
        } else if final_char == 74u8 {
            commands.push(AnsiCommand::EraseInDisplay(get_param(&self.params, 0, 0)));
        } else if final_char == 75u8 {
            commands.push(AnsiCommand::EraseInLine(get_param(&self.params, 0, 0)));
        } else if final_char == 109u8 {
            let mut g = self.handle_graphics_mode();
            commands.append(&mut g);
        } else if final_char == 115u8 {
            commands.push(AnsiCommand::SaveCursor);
        } else if final_char == 117u8 {
            commands.push(AnsiCommand::RestoreCursor);
        } else if final_char == 104u8 {
            let mut g = self.handle_set_mode();
            commands.append(&mut g);
        } else if final_char == 108u8 {
            let mut g = self.handle_reset_mode();
            commands.append(&mut g);
        } else if final_char == 99u8 {
            commands.push(AnsiCommand::DeviceAttributes);
        } else if final_char == 110u8 {
            commands.push(AnsiCommand::DeviceStatusReport(get_param(&self.params, 0, 0)));
        } else if final_char == 114u8 {
            let top = get_param(&self.params, 0, 1);
            let bottom = get_param(&self.params, 1, self.terminal_state.size.1 as u32);
            commands.push(AnsiCommand::SetScrollRegion(top, bottom));
        }
        assert(commands@ =~= csi_commands(self.params@, final_char, self.terminal_state.size.1));
        commands
    }

    /// The commands of a select-graphic-rendition sequence.
    fn handle_graphics_mode(&self) -> (c: Vec<AnsiCommand>)
        ensures
            c@ == sgr_commands(self.params@),
    {
        if self.params.len() == 0 {
            let mut commands: Vec<AnsiCommand> = Vec::new();
            commands.push(AnsiCommand::ResetAttributes);
            assert(commands@ =~= sgr_commands(self.params@));
            return commands;
        }
        list_commands(&self.params, true, true)
    }

    /// The command of an extended-color parameter (38 or 48): the default
    /// color for the foreground or the background.
    fn handle_extended_color(is_foreground: bool) -> (c: Vec<AnsiCommand>)
        ensures
            c@ == (if is_foreground {
                seq![AnsiCommand::SetForegroundColor(ColorType::Default)]
            } else {
                seq![AnsiCommand::SetBackgroundColor(ColorType::Default)]
            }),
    {
        let mut commands: Vec<AnsiCommand> = Vec::new();
        if is_foreground {
            commands.push(AnsiCommand::SetForegroundColor(ColorType::Default));
        } else {
            commands.push(AnsiCommand::SetBackgroundColor(ColorType::Default));
        }
        assert(commands@ =~= seq![AnsiCommand::SetForegroundColor(ColorType::Default)] || commands@ =~= seq![AnsiCommand::SetBackgroundColor(ColorType::Default)]);
        commands
    }

    /// The commands of a set-mode sequence.
    fn handle_set_mode(&self) -> (c: Vec<AnsiCommand>)
        ensures
            c@ == mode_list(self.params@, true),
    {
        list_commands(&self.params, false, true)
    }

    /// The commands of a reset-mode sequence.
    fn handle_reset_mode(&self) -> (c: Vec<AnsiCommand>)
        ensures
            c@ == mode_list(self.params@, false),
    {
        list_commands(&self.params, false, false)
    }

    /// Completes a pending parameter and yields the commands of the control
    /// sequence ended by `byte`.
    fn finish(&mut self, byte: u8) -> (c: Vec<AnsiCommand>)
        requires
            old(self).wf(),
        ensures
            final(self).wf(),
            (final(self).model(), c@) == finish_sequence(old(self).model(), byte),
            final(self).palette() == old(self).palette(),
            final(self).mouse() == old(self).mouse(),
            final(self).paste_bracketing() == old(self).paste_bracketing(),
    {
        if self.current_param.len() > 0 {
            let v = parse_param(&self.current_param);
            self.params.push(v);
        }
        let c = self.handle_control_sequence(byte);
        self.state = ParserState::Normal;
        c
    }

    /// Feeds one byte to the state machine.
    fn feed(&mut self, byte: u8) -> (c: Vec<AnsiCommand>)
        requires
            old(self).wf(),
        ensures
            final(self).wf(),
            (final(self).model(), c@) == step(old(self).model(), byte),
            final(self).palette() == old(self).palette(),
            final(self).mouse() == old(self).mouse(),
            final(self).paste_bracketing() == old(self).paste_bracketing(),
    {
        let mut commands: Vec<AnsiCommand> = Vec::new();
        match self.state {
            ParserState::Normal => {
                if byte == 0x1b {
                    self.state = ParserState::Escape;
                } else {
                    commands.push(AnsiCommand::Print(byte as char));
                }
            },
            ParserState::Escape => {
                if byte == 91u8 {
                    self.state = ParserState::ControlSequence;
                    self.params.clear();
                    self.current_param.clear();
                } else if byte == 80u8 {
                    self.state = ParserState::DeviceControl;
                } else if byte == 93u8 {
                    self.state = ParserState::OperatingSystem;
                } else {
                    self.state = ParserState::Normal;
                }
            },
            ParserState::ControlSequence => {
                if 48u8 <= byte && byte <= 57u8 {
                    self.current_param.push(byte);
                    self.state = ParserState::Parameter;
                } else if byte == 59u8 {
                    let v = parse_param(&self.current_param);
                    self.params.push(v);
                    self.current_param.clear();
                } else if byte == 63u8 {
                } else if byte == 60u8 {
                    self.state = ParserState::Normal;
                    commands.push(AnsiCommand::MouseTracking(true));
                } else {
                    commands = self.finish(byte);
                }
            },
            ParserState::Parameter => {
                if 48u8 <= byte && byte <= 57u8 {
                    self.current_param.push(byte);
                } else if byte == 59u8 {
                    let v = parse_param(&self.current_param);
                    self.params.push(v);
                    self.current_param.clear();
                } else {
                    commands = self.finish(byte);
                }
            },
            ParserState::OperatingSystem | ParserState::DeviceControl => {
                if byte == 0x07 {
                    self.state = ParserState::Normal;
                }
            },
            _ => {
                self.state = ParserState::Normal;
            },
        }
        assert(self.current_param@ =~= self.model().current);
        assert(commands@ =~= step(old(self).model(), byte).1);
        commands
    }

    /// Processes input bytes and returns the commands they complete, in
    /// order; the parser keeps its state between calls, so a sequence may
    /// be split across inputs.
    pub fn process_input(&mut self, input: &[u8]) -> (c: Vec<AnsiCommand>)
        requires
            old(self).wf(),
        ensures
            final(self).wf(),
            (final(self).model(), c@) == run(old(self).model(), input@),
            final(self).palette() == old(self).palette(),
            final(self).mouse() == old(self).mouse(),
            final(self).paste_bracketing() == old(self).paste_bracketing(),
    {
        let mut commands: Vec<AnsiCommand> = Vec::new();
        let mut i: usize = 0;
        let ghost m0 = self.model();
        assert(input@.subrange(0, 0) =~= Seq::<u8>::empty());
        while i < input.len()
            invariant
                i <= input@.len(),
                self.wf(),
                (self.model(), commands@) == run(m0, input@.subrange(0, i as int)),
                self.palette() == old(self).palette(),
                self.mouse() == old(self).mouse(),
                self.paste_bracketing() == old(self).paste_bracketing(),
            decreases input@.len() - i,
        {
            let byte = input[i];
            let mut c = self.feed(byte);
            commands.append(&mut c);
            i = i + 1;
            proof {
                let pre = input@.subrange(0, i as int);
                assert(pre.drop_last() =~= input@.subrange(0, i - 1));
                assert(pre.last() == byte);
            }
        }
        assert(input@.subrange(0, input@.len() as int) =~= input@);
        commands
    }
}

/// Input may be split anywhere: parsing `a` and then `b` leaves the same
/// state, and yields the same commands, as parsing `a + b` at once.
pub proof fn lemma_run_split(m: ParserModel, a: Seq<u8>, b: Seq<u8>)
    ensures
        run(m, a + b) == ({
            let (m1, c1) = run(m, a);
            let (m2, c2) = run(m1, b);
            (m2, c1 + c2)
        }),
    decreases b.len(),
{
    if b.len() == 0 {
        assert(a + b =~= a);
        let (m1, c1) = run(m, a);
        assert(c1 + Seq::<AnsiCommand>::empty() =~= c1);
    } else {
        assert((a + b).drop_last() =~= a + b.drop_last());
        assert((a + b).last() == b.last());
        lemma_run_split(m, a, b.drop_last());
        let (m1, c1) = run(m, a);
        let (mb, cb) = run(m1, b.drop_last());
        let (m2, c2) = step(mb, b.last());
        assert(c1 + cb + c2 =~= c1 + (cb + c2));
    }
}

/// Plain text, free of the escape byte, read in the normal state, comes out
/// as one `Print` per byte, and leaves the state as it was.
pub proof fn lemma_plain_text(m: ParserModel, input: Seq<u8>)
    requires
        m.state == ParserState::Normal,
        forall|i: int| 0 <= i < input.len() ==> #[trigger] input[i] != 0x1b,
    ensures
        run(m, input) == (m, input.map_values(|b: u8| AnsiCommand::Print(b as char))),
    decreases input.len(),
{
    if input.len() > 0 {
        let pre = input.drop_last();
        assert forall|i: int| 0 <= i < pre.len() implies #[trigger] pre[i] != 0x1b by {
            assert(pre[i] == input[i]);
        }
        lemma_plain_text(m, pre);
        assert(input[input.len() - 1] != 0x1b);
        assert(pre.map_values(|b: u8| AnsiCommand::Print(b as char)).push(AnsiCommand::Print(input.last() as char))
            =~= input.map_values(|b: u8| AnsiCommand::Print(b as char)));
    }
}

impl AnsiParser {
    /// The palette color at `index`, if the palette has one.
    pub fn palette_lookup(&self, index: u8) -> (c: Option<Color>)
        ensures
            c == (if self.palette().contains_key(index) {
                Some(self.palette()[index])
            } else {
                None::<Color>
            }),
    {
        match self.color_palette.get(&index) {
            Some(c) => Some(*c),
            None => None,
        }
    }

    /// Sets the mouse reporting mode; tracking is on unless the mode is
    /// `Off`.
    pub fn set_mouse_mode(&mut self, mode: MouseReportingMode)
        ensures
            final(self).mouse() == (MouseState {
                reporting_mode: mode,
                tracking_enabled: mode != MouseReportingMode::Off,
                ..old(self).mouse()
            }),
            final(self).model() == old(self).model(),
            final(self).wf() == old(self).wf(),
            final(self).palette() == old(self).palette(),
            final(self).paste_bracketing() == old(self).paste_bracketing(),
    {
        self.mouse_state.reporting_mode = mode;
        self.mouse_state.tracking_enabled = mode != MouseReportingMode::Off;
    }

    /// Turns mouse tracking on or off, keeping the reporting mode.
    pub fn set_mouse_tracking_enabled(&mut self, enabled: bool)
        ensures
            final(self).mouse() == (MouseState { tracking_enabled: enabled, ..old(self).mouse() }),
            final(self).model() == old(self).model(),
            final(self).wf() == old(self).wf(),
            final(self).palette() == old(self).palette(),
            final(self).paste_bracketing() == old(self).paste_bracketing(),
    {
        self.mouse_state.tracking_enabled = enabled;
    }

    /// Turns bracketed paste mode on or off.
    pub fn set_paste_bracketing(&mut self, enabled: bool)
        ensures
            final(self).paste_bracketing() == enabled,
            final(self).model() == old(self).model(),
            final(self).wf() == old(self).wf(),
            final(self).palette() == old(self).palette(),
            final(self).mouse() == old(self).mouse(),
    {
        self.bracketed_paste = enabled;
    }
}

/// A control sequence with one single-digit parameter `d` and final byte
/// `f`, read in the normal state, yields the commands of that sequence with
/// the digit's value as its one parameter.
proof fn lemma_run_csi_digit(m: ParserModel, d: u8, f: u8)
    requires
        m.state == ParserState::Normal,
        is_digit_byte(d),
        !is_digit_byte(f),
        f != 59 && f != 63 && f != 60,
    ensures
        run(m, seq![27u8, 91u8, d, f]).1 == csi_commands(seq![(d - 48) as u32], f, m.rows),
{
    let s0 = Seq::<u8>::empty();
    let s1 = s0.push(27u8);
    let s2 = s1.push(91u8);
    let s3 = s2.push(d);
    let s4 = s3.push(f);
    assert(s4 =~= seq![27u8, 91u8, d, f]);
    assert(s1.drop_last() =~= s0);
    assert(s2.drop_last() =~= s1);
    assert(s3.drop_last() =~= s2);
    assert(s4.drop_last() =~= s3);
    assert(s1.last() == 27u8 && s2.last() == 91u8 && s3.last() == d && s4.last() == f);
    assert(run(m, s0) == (m, Seq::<AnsiCommand>::empty()));
    let r1 = run(m, s1);
    let r2 = run(m, s2);
    let r3 = run(m, s3);
    assert(r1.0.state == ParserState::Escape && r1.1 =~= Seq::<AnsiCommand>::empty() && r1.0.rows == m.rows);
    assert(r2.0.state == ParserState::ControlSequence && r2.0.params == Seq::<u32>::empty()
        && r2.0.current == Seq::<u8>::empty() && r2.1 =~= Seq::<AnsiCommand>::empty() && r2.0.rows == m.rows);
    assert(r3.0.state == ParserState::Parameter && r3.0.current =~= seq![d] && r3.0.params == Seq::<u32>::empty()
        && r3.1 =~= Seq::<AnsiCommand>::empty() && r3.0.rows == m.rows);
    assert(seq![d].drop_last() =~= Seq::<u8>::empty());
    assert(seq![d].last() == d);
    assert(digits_value(Seq::<u8>::empty()) == 0);
    assert(digits_value(seq![d]) == (d - 48) as nat);
    assert(param_value(seq![d]) == (d - 48) as u32);
    assert(Seq::<u32>::empty().push(param_value(seq![d])) =~= seq![(d - 48) as u32]);
}

/// A private-mode control sequence (`ESC [ ?`) with one single-digit
/// parameter `d` and final byte `f`, read in the normal state, yields the
/// commands of that sequence with the digit's value as its one parameter.
proof fn lemma_run_private_digit(m: ParserModel, d: u8, f: u8)
    requires
        m.state == ParserState::Normal,
        is_digit_byte(d),
        !is_digit_byte(f),
        f != 59 && f != 63 && f != 60,
    ensures
        run(m, seq![27u8, 91u8, 63u8, d, f]).1 == csi_commands(seq![(d - 48) as u32], f, m.rows),
{
    let s0 = Seq::<u8>::empty();
    let s1 = s0.push(27u8);
    let s2 = s1.push(91u8);
    let s3 = s2.push(63u8);
    let s4 = s3.push(d);
    let s5 = s4.push(f);
    assert(s5 =~= seq![27u8, 91u8, 63u8, d, f]);
    assert(s1.drop_last() =~= s0);
    assert(s2.drop_last() =~= s1);
    assert(s3.drop_last() =~= s2);
    assert(s4.drop_last() =~= s3);
    assert(s5.drop_last() =~= s4);
    assert(s1.last() == 27u8 && s2.last() == 91u8 && s3.last() == 63u8 && s4.last() == d && s5.last() == f);
    assert(run(m, s0) == (m, Seq::<AnsiCommand>::empty()));
    let r1 = run(m, s1);
    let r2 = run(m, s2);
    let r3 = run(m, s3);
    let r4 = run(m, s4);
    assert(r1.0.state == ParserState::Escape && r1.1 =~= Seq::<AnsiCommand>::empty() && r1.0.rows == m.rows);
    assert(r2.0.state == ParserState::ControlSequence && r2.0.params == Seq::<u32>::empty()
        && r2.0.current == Seq::<u8>::empty() && r2.1 =~= Seq::<AnsiCommand>::empty() && r2.0.rows == m.rows);
    assert(r3.0 == r2.0 && r3.1 =~= Seq::<AnsiCommand>::empty());
    assert(r4.0.state == ParserState::Parameter && r4.0.current =~= seq![d] && r4.0.params == Seq::<u32>::empty()
        && r4.1 =~= Seq::<AnsiCommand>::empty() && r4.0.rows == m.rows);
    assert(seq![d].drop_last() =~= Seq::<u8>::empty());
    assert(seq![d].last() == d);
    assert(digits_value(Seq::<u8>::empty()) == 0);
    assert(digits_value(seq![d]) == (d - 48) as nat);
    assert(param_value(seq![d]) == (d - 48) as u32);
    assert(Seq::<u32>::empty().push(param_value(seq![d])) =~= seq![(d - 48) as u32]);
}

/// Select graphic rendition with one digit (`ESC [ d m`), read in the
/// normal state, sets the attribute that digit names, by the standard
/// table: 0 resets, 1 bold, 2 dim, 3 italic, 4 underline, 5 blink,
/// 7 reverse, 8 hidden, 9 strikethrough; 6 does nothing. Each yields one
/// command at most, and only 4 underlines, only 3 sets italics.
pub proof fn lemma_sgr_digit_table(m: ParserModel, d: u8)
    requires
        m.state == ParserState::Normal,
        is_digit_byte(d),
    ensures
        run(m, seq![27u8, 91u8, d, 109u8]).1 == (if d == 48 {
            seq![AnsiCommand::ResetAttributes]
        } else if d == 49 {
            seq![AnsiCommand::SetBold]
        } else if d == 50 {
            seq![AnsiCommand::SetDim]
        } else if d == 51 {
            seq![AnsiCommand::SetItalic]
        } else if d == 52 {
            seq![AnsiCommand::SetUnderline]
        } else if d == 53 {
            seq![AnsiCommand::SetBlink]
        } else if d == 55 {
            seq![AnsiCommand::SetReverse]
        } else if d == 56 {
            seq![AnsiCommand::SetHidden]
        } else if d == 57 {
            seq![AnsiCommand::SetStrikethrough]
        } else {
            Seq::<AnsiCommand>::empty()
        }),
        run(m, seq![27u8, 91u8, d, 109u8]).1.len() <= 1,
        run(m, seq![27u8, 91u8, d, 109u8]).1.contains(AnsiCommand::SetUnderline) <==> d == 52,
        run(m, seq![27u8, 91u8, d, 109u8]).1.contains(AnsiCommand::SetItalic) <==> d == 51,
{
    lemma_run_csi_digit(m, d, 109u8);
    let p = (d - 48) as u32;
    assert(seq![p].drop_last() =~= Seq::<u32>::empty());
    assert(seq![p].last() == p);
    assert(sgr_list(Seq::<u32>::empty()) =~= Seq::<AnsiCommand>::empty());
    assert(sgr_list(seq![p]) =~= sgr_one(p));
    let c = run(m, seq![27u8, 91u8, d, 109u8]).1;
    if c.contains(AnsiCommand::SetUnderline) {
        let i = choose|i: int| 0 <= i < c.len() && c[i] == AnsiCommand::SetUnderline;
    }
    if c.contains(AnsiCommand::SetItalic) {
        let i = choose|i: int| 0 <= i < c.len() && c[i] == AnsiCommand::SetItalic;
    }
    if d == 52 {
        assert(c[0] == AnsiCommand::SetUnderline);
    }
    if d == 51 {
        assert(c[0] == AnsiCommand::SetItalic);
    }
}

/// Of all select-graphic-rendition parameters, each yields one command at
/// most, and each attribute, reset and colour has its own parameters by the
/// standard table: 0 resets all, 1 bold, 2 dim, 3 italic, 4 underline,
/// 5 blink, 7 reverse, 8 hidden, 9 strikethrough, 39 and 49 reset the
/// foreground and background, 30-37 and 90-97 pick the named foreground
/// colours 0-7 and 8-15, 40-47 and 100-107 the named background colours.
pub proof fn lemma_sgr_attribute_owners(p: u32)
    ensures
        sgr_one(p).len() <= 1,
        sgr_one(p).contains(AnsiCommand::ResetAttributes) <==> p == 0,
        sgr_one(p).contains(AnsiCommand::SetBold) <==> p == 1,
        sgr_one(p).contains(AnsiCommand::SetDim) <==> p == 2,
        sgr_one(p).contains(AnsiCommand::SetItalic) <==> p == 3,
        sgr_one(p).contains(AnsiCommand::SetUnderline) <==> p == 4,
        sgr_one(p).contains(AnsiCommand::SetBlink) <==> p == 5,
        sgr_one(p).contains(AnsiCommand::SetReverse) <==> p == 7,
        sgr_one(p).contains(AnsiCommand::SetHidden) <==> p == 8,
        sgr_one(p).contains(AnsiCommand::SetStrikethrough) <==> p == 9,
        sgr_one(p).contains(AnsiCommand::ResetForegroundColor) <==> p == 39,
        sgr_one(p).contains(AnsiCommand::ResetBackgroundColor) <==> p == 49,
        30 <= p <= 37 ==> sgr_one(p) == seq![AnsiCommand::SetForegroundColor(ColorType::Named((p - 30) as u8))],
        90 <= p <= 97 ==> sgr_one(p) == seq![AnsiCommand::SetForegroundColor(ColorType::Named((p - 82) as u8))],
        40 <= p <= 47 ==> sgr_one(p) == seq![AnsiCommand::SetBackgroundColor(ColorType::Named((p - 40) as u8))],
        100 <= p <= 107 ==> sgr_one(p) == seq![AnsiCommand::SetBackgroundColor(ColorType::Named((p - 92) as u8))],
{
    let c = sgr_one(p);
    if c.len() > 0 {
        assert(c.contains(c[0]));
    }
}

/// Private modes with one digit (`ESC [ ? d h` sets, `ESC [ ? d l` resets),
/// read in the normal state: 1 application cursor keys, 4 insert mode,
/// 5 reverse video, 6 origin mode, 7 auto-wrap; other digits do nothing.
pub proof fn lemma_private_mode_digit_table(m: ParserModel, d: u8, set: bool)
    requires
        m.state == ParserState::Normal,
        is_digit_byte(d),
    ensures
        run(m, seq![27u8, 91u8, 63u8, d, if set { 104u8 } else { 108u8 }]).1 == (if d == 49 {
            seq![if set { AnsiCommand::SetApplicationCursorKeys } else { AnsiCommand::ResetApplicationCursorKeys }]
        } else if d == 52 {
            seq![if set { AnsiCommand::SetInsertMode } else { AnsiCommand::ResetInsertMode }]
        } else if d == 53 {
            seq![if set { AnsiCommand::SetReverseVideo } else { AnsiCommand::ResetReverseVideo }]
        } else if d == 54 {
            seq![if set { AnsiCommand::SetOriginMode } else { AnsiCommand::ResetOriginMode }]
        } else if d == 55 {
            seq![if set { AnsiCommand::SetAutoWrap } else { AnsiCommand::ResetAutoWrap }]
        } else {
            Seq::<AnsiCommand>::empty()
        }),
{
    let f: u8 = if set { 104u8 } else { 108u8 };
    lemma_run_private_digit(m, d, f);
    let p = (d - 48) as u32;
    assert(seq![p].drop_last() =~= Seq::<u32>::empty());
    assert(seq![p].last() == p);
    assert(mode_list(Seq::<u32>::empty(), set) =~= Seq::<AnsiCommand>::empty());
    assert(mode_list(seq![p], set) =~= mode_one(p, set));
}

/// Of all mode parameters, each yields one command at most, and each mode
/// has its own parameter: 1 application cursor keys, 4 insert mode,
/// 5 reverse video, 6 origin mode, 7 auto-wrap, 12 a blinking cursor,
/// 25 the cursor's visibility, 2004 bracketed paste; setting turns the mode
/// on and resetting off.
pub proof fn lemma_mode_owners(p: u32, set: bool)
    ensures
        mode_one(p, set).len() <= 1,
        (mode_one(p, set).contains(AnsiCommand::SetApplicationCursorKeys) || mode_one(p, set).contains(AnsiCommand::ResetApplicationCursorKeys)) <==> p == 1,
        (mode_one(p, set).contains(AnsiCommand::SetInsertMode) || mode_one(p, set).contains(AnsiCommand::ResetInsertMode)) <==> p == 4,
        (mode_one(p, set).contains(AnsiCommand::SetReverseVideo) || mode_one(p, set).contains(AnsiCommand::ResetReverseVideo)) <==> p == 5,
        (mode_one(p, set).contains(AnsiCommand::SetOriginMode) || mode_one(p, set).contains(AnsiCommand::ResetOriginMode)) <==> p == 6,
        (mode_one(p, set).contains(AnsiCommand::SetAutoWrap) || mode_one(p, set).contains(AnsiCommand::ResetAutoWrap)) <==> p == 7,
        (mode_one(p, set).contains(AnsiCommand::SetBlinkingCursor) || mode_one(p, set).contains(AnsiCommand::ResetBlinkingCursor)) <==> p == 12,
        (mode_one(p, set).contains(AnsiCommand::ShowCursor) || mode_one(p, set).contains(AnsiCommand::HideCursor)) <==> p == 25,
        (mode_one(p, set).contains(AnsiCommand::SetBracketedPaste(true)) || mode_one(p, set).contains(AnsiCommand::SetBracketedPaste(false))) <==> p == 2004,
        mode_one(1, set) == seq![if set { AnsiCommand::SetApplicationCursorKeys } else { AnsiCommand::ResetApplicationCursorKeys }],
        mode_one(4, set) == seq![if set { AnsiCommand::SetInsertMode } else { AnsiCommand::ResetInsertMode }],
        mode_one(5, set) == seq![if set { AnsiCommand::SetReverseVideo } else { AnsiCommand::ResetReverseVideo }],
        mode_one(6, set) == seq![if set { AnsiCommand::SetOriginMode } else { AnsiCommand::ResetOriginMode }],
        mode_one(7, set) == seq![if set { AnsiCommand::SetAutoWrap } else { AnsiCommand::ResetAutoWrap }],
        mode_one(12, set) == seq![if set { AnsiCommand::SetBlinkingCursor } else { AnsiCommand::ResetBlinkingCursor }],
        mode_one(25, set) == seq![if set { AnsiCommand::ShowCursor } else { AnsiCommand::HideCursor }],
        mode_one(2004, set) == seq![AnsiCommand::SetBracketedPaste(set)],
{
    let c = mode_one(p, set);
    if c.len() > 0 {
        assert(c.contains(c[0]));
    }
}

/// Control sequences with one digit `d` (`ESC [ d X`), read in the normal
/// state, by their final byte: `A` up, `B` down, `C` forward, `D` back,
/// `E` next line, `F` previous line, each by `d` lines or columns; `G` to
/// column `d`; `H` to row `d`, column 1; `J` and `K` erase in display and
/// in line in mode `d`; `s` saves and `u` restores the cursor.
pub proof fn lemma_csi_final_table(m: ParserModel, d: u8)
    requires
        m.state == ParserState::Normal,
        is_digit_byte(d),
    ensures
        ({
            let n = (d - 48) as u32;
            &&& run(m, seq![27u8, 91u8, d, 65u8]).1 == seq![AnsiCommand::CursorUp(n)]
            &&& run(m, seq![27u8, 91u8, d, 66u8]).1 == seq![AnsiCommand::CursorDown(n)]
            &&& run(m, seq![27u8, 91u8, d, 67u8]).1 == seq![AnsiCommand::CursorForward(n)]
            &&& run(m, seq![27u8, 91u8, d, 68u8]).1 == seq![AnsiCommand::CursorBackward(n)]
            &&& run(m, seq![27u8, 91u8, d, 69u8]).1 == seq![AnsiCommand::CursorNextLine(n)]
            &&& run(m, seq![27u8, 91u8, d, 70u8]).1 == seq![AnsiCommand::CursorPreviousLine(n)]
            &&& run(m, seq![27u8, 91u8, d, 71u8]).1 == seq![AnsiCommand::CursorHorizontalAbsolute(n)]
            &&& run(m, seq![27u8, 91u8, d, 72u8]).1 == seq![AnsiCommand::CursorPosition(n, 1)]
            &&& run(m, seq![27u8, 91u8, d, 74u8]).1 == seq![AnsiCommand::EraseInDisplay(n)]
            &&& run(m, seq![27u8, 91u8, d, 75u8]).1 == seq![AnsiCommand::EraseInLine(n)]
            &&& run(m, seq![27u8, 91u8, d, 115u8]).1 == seq![AnsiCommand::SaveCursor]
            &&& run(m, seq![27u8, 91u8, d, 117u8]).1 == seq![AnsiCommand::RestoreCursor]
        }),
{
    lemma_run_csi_digit(m, d, 65u8);
    lemma_run_csi_digit(m, d, 66u8);
    lemma_run_csi_digit(m, d, 67u8);
    lemma_run_csi_digit(m, d, 68u8);
    lemma_run_csi_digit(m, d, 69u8);
    lemma_run_csi_digit(m, d, 70u8);
    lemma_run_csi_digit(m, d, 71u8);
    lemma_run_csi_digit(m, d, 72u8);
    lemma_run_csi_digit(m, d, 74u8);
    lemma_run_csi_digit(m, d, 75u8);
    lemma_run_csi_digit(m, d, 115u8);
    lemma_run_csi_digit(m, d, 117u8);
}

} // verus!
