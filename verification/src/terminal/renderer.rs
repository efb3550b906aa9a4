//! Terminal renderer: applies parsed commands to the screen state.
//!
//! The renderer is described by `RendererModel`.  Every command has a spec
//! function that says what it does to the model (`apply_command`), and
//! `TerminalRenderer::process_input` is proved to parse its input and apply
//! the resulting commands in order.
use crate::terminal::protocol::{
    ActiveBuffer, AnsiCommand, AnsiParser, Cell as ScreenCell, Color, ColorType, MouseReportingMode,
    MouseState, ParserModel, ScreenBuffer, ScreenBuffers, TerminalState, TextAttributes, blank_grid,
    default_color, grid, initial_terminal_state, lemma_grid_push, plain_attributes, resized_grid,
    run,
};
use vstd::prelude::*;

verus! {

/// A cell as the renderer writes it.
#[derive(Debug, Clone, Copy)]
pub struct Cell {
    /// Character content
    pub char: char,
    /// Foreground color
    pub fg_color: Color,
    /// Background color
    pub bg_color: Color,
    /// Text attributes
    pub attributes: TextAttributes,
    /// Whether the cell needs redraw
    pub dirty: bool,
}

/// Renderer configuration.
#[derive(Debug, Clone, Copy)]
pub struct RendererConfig {
    /// Terminal size (columns, rows)
    pub size: (u16, u16),
    /// Maximum scrollback lines
    pub max_scrollback: usize,
    /// Enable color support
    pub color_support: bool,
    /// Enable mouse support
    pub mouse_support: bool,
    /// Default foreground color
    pub default_fg_color: Color,
    /// Default background color
    pub default_bg_color: Color,
}

/// Black, of the default kind: the renderer's default background.
pub open spec fn black() -> Color {
    Color { r: 0, g: 0, b: 0, color_type: ColorType::Default }
}

impl Default for RendererConfig {
    fn default() -> (c: Self)
        ensures
            c.size == (80u16, 24u16),
            c.max_scrollback == 1000,
            c.color_support,
            c.mouse_support,
            c.default_fg_color == default_color(),
            c.default_bg_color == black(),
    {
        RendererConfig {
            size: (80, 24),
            max_scrollback: 1000,
            color_support: true,
            mouse_support: true,
            default_fg_color: Color::default(),
            default_bg_color: Color { r: 0, g: 0, b: 0, color_type: ColorType::Default },
        }
    }
}

impl Default for Cell {
    fn default() -> (c: Self)
        ensures
            c.char == ' ',
            c.fg_color == default_color(),
            c.bg_color == black(),
            c.attributes == plain_attributes(),
            !c.dirty,
    {
        Cell {
            char: ' ',
            fg_color: Color::default(),
            bg_color: Color { r: 0, g: 0, b: 0, color_type: ColorType::Default },
            attributes: TextAttributes::default(),
            dirty: false,
        }
    }
}

/// A cell after erasing: a space in white on black, marked dirty.
pub open spec fn erased_cell() -> ScreenCell {
    ScreenCell {
        char: ' ',
        fg_color: default_color(),
        bg_color: black(),
        attributes: plain_attributes(),
        dirty: true,
    }
}

/// One screen buffer, by value.
pub struct BufferModel {
    /// Cells, row by row
    pub content: Seq<Seq<ScreenCell>>,
    /// The buffer's own cursor
    pub cursor_pos: (u16, u16),
    /// The buffer's own scrollback
    pub scrollback: Seq<Seq<ScreenCell>>,
    /// The buffer's scrollback limit
    pub max_scrollback: usize,
}

/// The renderer, by value.
pub struct RendererModel {
    /// The parser's palette
    pub palette: Map<u8, Color>,
    /// The parser's mouse state
    pub mouse: MouseState,
    /// The parser's bracketed paste flag
    pub bracketed_paste: bool,
    /// Current terminal state
    pub state: TerminalState,
    /// Primary screen buffer
    pub primary: BufferModel,
    /// Alternate screen buffer
    pub alternate: BufferModel,
    /// Which buffer is shown
    pub active: ActiveBuffer,
    /// Saved cursor position
    pub saved_cursor: Option<(u16, u16)>,
    /// Terminal size (columns, rows)
    pub size: (u16, u16),
    /// Lines scrolled off the top
    pub scrollback: Seq<Seq<ScreenCell>>,
    /// Maximum scrollback lines
    pub max_scrollback: usize,
    /// Scroll position
    pub scroll_pos: usize,
    /// Regions to redraw (x1, y1, x2, y2)
    pub dirty: Seq<(u16, u16, u16, u16)>,
}

/// The model of a screen buffer.
pub open spec fn buffer_model(b: ScreenBuffer) -> BufferModel {
    BufferModel {
        content: grid(b.content@),
        cursor_pos: b.cursor_pos,
        scrollback: grid(b.scrollback@),
        max_scrollback: b.max_scrollback,
    }
}

/// The grid that is shown.
pub open spec fn active_grid(m: RendererModel) -> Seq<Seq<ScreenCell>> {
    match m.active {
        ActiveBuffer::Primary => m.primary.content,
        ActiveBuffer::Alternate => m.alternate.content,
    }
}

/// `m` with the shown grid replaced by `g`.
pub open spec fn with_active_grid(m: RendererModel, g: Seq<Seq<ScreenCell>>) -> RendererModel {
    match m.active {
        ActiveBuffer::Primary => RendererModel { primary: BufferModel { content: g, ..m.primary }, ..m },
        ActiveBuffer::Alternate => RendererModel {
            alternate: BufferModel { content: g, ..m.alternate },
            ..m
        },
    }
}

/// `g` has `rows` rows of `cols` cells.
pub open spec fn grid_has_size(g: Seq<Seq<ScreenCell>>, cols: u16, rows: u16) -> bool {
    g.len() == rows && forall|r: int| 0 <= r < g.len() ==> #[trigger] g[r].len() == cols
}

/// The smaller of two integers.
pub open spec fn min_int(a: int, b: int) -> int {
    if a < b {
        a
    } else {
        b
    }
}

/// The cursor with its column set to `col`.
pub open spec fn with_col(m: RendererModel, col: u16) -> RendererModel {
    RendererModel { state: TerminalState { cursor_pos: (col, m.state.cursor_pos.1), ..m.state }, ..m }
}

/// The cursor with its row set to `row`.
pub open spec fn with_row(m: RendererModel, row: u16) -> RendererModel {
    RendererModel { state: TerminalState { cursor_pos: (m.state.cursor_pos.0, row), ..m.state }, ..m }
}

/// The state with a new value.
pub open spec fn with_state(m: RendererModel, st: TerminalState) -> RendererModel {
    RendererModel { state: st, ..m }
}

/// The 0-based position of the 1-based position `x`, 0 standing for 1.
pub open spec fn zero_based(x: u32) -> int {
    if x > 0 {
        x - 1
    } else {
        0
    }
}

/// Moves the cursor `count` rows up, stopping at the top.
pub open spec fn cursor_up(m: RendererModel, count: u32) -> RendererModel {
    let row = m.state.cursor_pos.1;
    with_row(m, if row >= count { (row - count) as u16 } else { 0 })
}

/// Moves the cursor `count` rows down, stopping at the last row.
pub open spec fn cursor_down(m: RendererModel, count: u32) -> RendererModel {
    with_row(m, min_int(m.state.cursor_pos.1 + count, m.size.1 - 1) as u16)
}

/// Moves the cursor `count` columns right, stopping at the last column.
pub open spec fn cursor_forward(m: RendererModel, count: u32) -> RendererModel {
    with_col(m, min_int(m.state.cursor_pos.0 + count, m.size.0 - 1) as u16)
}

/// Moves the cursor `count` columns left, stopping at the first column.
pub open spec fn cursor_backward(m: RendererModel, count: u32) -> RendererModel {
    let col = m.state.cursor_pos.0;
    with_col(m, if col >= count { (col - count) as u16 } else { 0 })
}

/// Moves the cursor to the 1-based column `col`, stopping at the last
/// column.
pub open spec fn cursor_column(m: RendererModel, col: u32) -> RendererModel {
    with_col(m, min_int(zero_based(col), m.size.0 - 1) as u16)
}

/// Moves the cursor to the 1-based `row` and `col`; in origin mode with a
/// scroll region the row counts from the region's top and stops at its
/// bottom.
pub open spec fn cursor_position(m: RendererModel, row: u32, col: u32) -> RendererModel {
    let r = zero_based(row);
    let c = zero_based(col);
    let new_row = if m.state.origin_mode && m.state.scroll_region is Some {
        let (top, bottom) = m.state.scroll_region->0;
        min_int(top + r, bottom as int) as u16
    } else {
        min_int(r, m.size.1 - 1) as u16
    };
    with_state(
        m,
        TerminalState { cursor_pos: (min_int(c, m.size.0 - 1) as u16, new_row), ..m.state },
    )
}

/// Whether erasing in display mode `mode`, with the cursor at (`col`,
/// `row`), clears cell (`c`, `r`).
pub open spec fn display_erases(mode: u32, col: u16, row: u16, c: int, r: int) -> bool {
    if mode == 0 {
        r > row || (r == row && c >= col)
    } else if mode == 1 {
        r < row || (r == row && c <= col)
    } else {
        mode == 2
    }
}

/// Whether erasing in line mode `mode`, with the cursor at column `col`,
/// clears column `c` of the cursor's row.
pub open spec fn line_erases(mode: u32, col: u16, c: int) -> bool {
    if mode == 0 {
        c >= col
    } else if mode == 1 {
        c <= col
    } else {
        mode == 2
    }
}

/// `g` with the cells that `erases(r, c)` selects erased.
pub open spec fn erase_grid(g: Seq<Seq<ScreenCell>>, erases: spec_fn(int, int) -> bool) -> Seq<
    Seq<ScreenCell>,
> {
    Seq::new(
        g.len(),
        |r: int| Seq::new(g[r].len(), |c: int| if erases(r, c) { erased_cell() } else { g[r][c] }),
    )
}

/// Erase in display.
pub open spec fn erase_display(m: RendererModel, mode: u32) -> RendererModel {
    let (col, row) = m.state.cursor_pos;
    let g = erase_grid(active_grid(m), |r: int, c: int| display_erases(mode, col, row, c, r));
    let m1 = with_active_grid(m, g);
    RendererModel { dirty: m.dirty.push((0u16, 0u16, m.size.0, m.size.1)), ..m1 }
}

/// Erase in line; nothing happens when the cursor is below the screen.
pub open spec fn erase_line(m: RendererModel, mode: u32) -> RendererModel {
    let (col, row) = m.state.cursor_pos;
    if row < m.size.1 {
        let g = erase_grid(active_grid(m), |r: int, c: int| r == row && line_erases(mode, col, c));
        let m1 = with_active_grid(m, g);
        RendererModel { dirty: m.dirty.push((0u16, row, m.size.0, (row + 1) as u16)), ..m1 }
    } else {
        m
    }
}

/// Scrolls the shown grid up one line: its top line goes to the scrollback
/// (dropping the oldest line past the limit) and a blank dirty line enters
/// at the bottom.
pub open spec fn scroll_up(m: RendererModel) -> RendererModel {
    let g = active_grid(m);
    let sb = m.scrollback.push(g[0]);
    let sb2 = if sb.len() > m.max_scrollback {
        sb.drop_first()
    } else {
        sb
    };
    let g2 = g.subrange(1, g.len() as int).push(Seq::new(g[g.len() - 1].len(), |c: int| erased_cell()));
    RendererModel { scrollback: sb2, ..with_active_grid(m, g2) }
}

/// The cell that printing `ch` writes.
pub open spec fn printed_cell(m: RendererModel, ch: char) -> ScreenCell {
    ScreenCell {
        char: ch,
        fg_color: m.state.fg_color,
        bg_color: m.state.bg_color,
        attributes: m.state.attributes,
        dirty: true,
    }
}

/// Prints `ch` at the cursor and advances it, wrapping (and scrolling at
/// the bottom) in auto-wrap mode; nothing happens when the cursor is off
/// the screen.
pub open spec fn print_char(m: RendererModel, ch: char) -> RendererModel {
    let (col, row) = m.state.cursor_pos;
    if row < m.size.1 && col < m.size.0 {
        let g = active_grid(m);
        let g2 = g.update(row as int, g[row as int].update(col as int, printed_cell(m, ch)));
        let m1 = RendererModel {
            dirty: m.dirty.push((col, row, (col + 1) as u16, (row + 1) as u16)),
            ..with_active_grid(m, g2)
        };
        if m.state.auto_wrap && col + 1 >= m.size.0 {
            if row + 1 < m.size.1 {
                with_state(m1, TerminalState { cursor_pos: (0, (row + 1) as u16), ..m1.state })
            } else {
                let m2 = scroll_up(m1);
                with_state(m2, TerminalState { cursor_pos: (0, (m.size.1 - 1) as u16), ..m2.state })
            }
        } else {
            with_col(m1, (col + 1) as u16)
        }
    } else {
        m
    }
}

/// The color a color type selects for the foreground (`fg`) or the
/// background: the palette entry for named and indexed colors that the
/// palette has, white (foreground) or black (background) for the default;
/// `None` leaves the color as it is.
pub open spec fn chosen_color(palette: Map<u8, Color>, ct: ColorType, fg: bool) -> Option<Color> {
    match ct {
        ColorType::Named(i) | ColorType::Index(i) => if palette.contains_key(i) {
            Some(palette[i])
        } else {
            None
        },
        ColorType::TrueColor => None,
        ColorType::Default => Some(if fg { default_color() } else { black() }),
    }
}

/// What a command that only touches the terminal state does to it; other
/// commands leave it as it is.
pub open spec fn state_effect(st: TerminalState, palette: Map<u8, Color>, cmd: AnsiCommand) -> TerminalState {
    let a = st.attributes;
    match cmd {
        AnsiCommand::ResetAttributes => TerminalState {
            attributes: plain_attributes(),
            fg_color: default_color(),
            bg_color: black(),
            ..st
        },
        AnsiCommand::SetBold => TerminalState { attributes: TextAttributes { bold: true, ..a }, ..st },
        AnsiCommand::SetDim => TerminalState { attributes: TextAttributes { dim: true, ..a }, ..st },
        AnsiCommand::SetItalic => TerminalState { attributes: TextAttributes { italic: true, ..a }, ..st },
        AnsiCommand::SetUnderline => TerminalState { attributes: TextAttributes { underline: true, ..a }, ..st },
        AnsiCommand::SetBlink => TerminalState { attributes: TextAttributes { blink: true, ..a }, ..st },
        AnsiCommand::SetReverse => TerminalState { attributes: TextAttributes { reverse: true, ..a }, ..st },
        AnsiCommand::SetHidden => TerminalState { attributes: TextAttributes { hidden: true, ..a }, ..st },
        AnsiCommand::SetStrikethrough => TerminalState {
            attributes: TextAttributes { strikethrough: true, ..a },
            ..st
        },
        AnsiCommand::SetForegroundColor(ct) => match chosen_color(palette, ct, true) {
            Some(c) => TerminalState { fg_color: c, ..st },
            None => st,
        },
        AnsiCommand::SetBackgroundColor(ct) => match chosen_color(palette, ct, false) {
            Some(c) => TerminalState { bg_color: c, ..st },
            None => st,
        },
        AnsiCommand::ResetForegroundColor => TerminalState { fg_color: default_color(), ..st },
        AnsiCommand::ResetBackgroundColor => TerminalState { bg_color: black(), ..st },
        AnsiCommand::SetApplicationCursorKeys => TerminalState { app_cursor_keys: true, ..st },
        AnsiCommand::ResetApplicationCursorKeys => TerminalState { app_cursor_keys: false, ..st },
        AnsiCommand::SetInsertMode => TerminalState { insert_mode: true, ..st },
        AnsiCommand::ResetInsertMode => TerminalState { insert_mode: false, ..st },
        AnsiCommand::SetReverseVideo => TerminalState { attributes: TextAttributes { reverse: true, ..a }, ..st },
        AnsiCommand::ResetReverseVideo => TerminalState {
            attributes: TextAttributes { reverse: false, ..a },
            ..st
        },
        AnsiCommand::SetOriginMode => TerminalState { origin_mode: true, ..st },
        AnsiCommand::ResetOriginMode => TerminalState { origin_mode: false, ..st },
        AnsiCommand::SetAutoWrap => TerminalState { auto_wrap: true, ..st },
        AnsiCommand::ResetAutoWrap => TerminalState { auto_wrap: false, ..st },
        AnsiCommand::ShowCursor => TerminalState { cursor_visible: true, ..st },
        AnsiCommand::HideCursor => TerminalState { cursor_visible: false, ..st },
        _ => st,
    }
}

/// Sets the scroll region from 1-based margins, when top is above bottom
/// and bottom is on the screen.
pub open spec fn scroll_region(m: RendererModel, top: u32, bottom: u32) -> RendererModel {
    let t = zero_based(top);
    let b = zero_based(bottom);
    if t < b && b < m.size.1 {
        with_state(m, TerminalState { scroll_region: Some((t as u16, b as u16)), ..m.state })
    } else {
        m
    }
}

/// What one command does to the renderer.
pub open spec fn apply_command(m: RendererModel, cmd: AnsiCommand) -> RendererModel {
    match cmd {
        AnsiCommand::Print(ch) => print_char(m, ch),
        AnsiCommand::CursorUp(n) => cursor_up(m, n),
        AnsiCommand::CursorDown(n) => cursor_down(m, n),
        AnsiCommand::CursorForward(n) => cursor_forward(m, n),
        AnsiCommand::CursorBackward(n) => cursor_backward(m, n),
        AnsiCommand::CursorNextLine(n) => with_col(cursor_down(m, n), 0),
        AnsiCommand::CursorPreviousLine(n) => with_col(cursor_up(m, n), 0),
        AnsiCommand::CursorHorizontalAbsolute(c) => cursor_column(m, c),
        AnsiCommand::CursorPosition(r, c) => cursor_position(m, r, c),
        AnsiCommand::SaveCursor => RendererModel { saved_cursor: Some(m.state.cursor_pos), ..m },
        AnsiCommand::RestoreCursor => match m.saved_cursor {
            Some(p) => with_state(m, TerminalState { cursor_pos: p, ..m.state }),
            None => m,
        },
        AnsiCommand::EraseInDisplay(mode) => erase_display(m, mode),
        AnsiCommand::EraseInLine(mode) => erase_line(m, mode),
        AnsiCommand::SetScrollRegion(t, b) => scroll_region(m, t, b),
        AnsiCommand::SetMouseTracking(mode) => RendererModel {
            mouse: MouseState {
                reporting_mode: mode,
                tracking_enabled: mode != MouseReportingMode::Off,
                ..m.mouse
            },
            ..m
        },
        AnsiCommand::SetBracketedPaste(on) => RendererModel { bracketed_paste: on, ..m },
        AnsiCommand::MouseTracking(on) => RendererModel {
            mouse: MouseState { tracking_enabled: on, ..m.mouse },
            ..m
        },
        _ => with_state(m, state_effect(m.state, m.palette, cmd)),
    }
}

/// The commands applied in order.
pub open spec fn apply_commands(m: RendererModel, cmds: Seq<AnsiCommand>) -> RendererModel
    decreases cmds.len(),
{
    if cmds.len() == 0 {
        m
    } else {
        apply_command(apply_commands(m, cmds.drop_last()), cmds.last())
    }
}

/// What reading `input` does: the parser, in state `pm`, runs over it and
/// its commands are applied in order; the result is the parser's new state
/// and the renderer's.
pub open spec fn process(pm: ParserModel, m: RendererModel, input: Seq<u8>) -> (ParserModel, RendererModel) {
    let (pm2, cmds) = run(pm, input);
    (pm2, apply_commands(m, cmds))
}

/// Writes `cell` at row `r`, column `c`.
fn set_cell(content: &mut Vec<Vec<ScreenCell>>, r: usize, c: usize, cell: ScreenCell)
    requires
        r < old(content)@.len(),
        c < old(content)@[r as int]@.len(),
    ensures
        final(content)@.len() == old(content)@.len(),
        grid(final(content)@) == grid(old(content)@).update(
            r as int,
            grid(old(content)@)[r as int].update(c as int, cell),
        ),
{
    let ghost g0 = grid(content@);
    content[r][c] = cell;
    assert(grid(content@) =~~= g0.update(r as int, g0[r as int].update(c as int, cell)));
}

/// The cells that an erase selects: in display mode when `whole`, else in
/// line mode on the cursor's row.
pub open spec fn erase_selects(whole: bool, mode: u32, col: u16, row: u16, r: int, c: int) -> bool {
    if whole {
        display_erases(mode, col, row, c, r)
    } else {
        r == row && line_erases(mode, col, c)
    }
}

/// Exec form of `erase_selects`.
fn erase_selects_exec(whole: bool, mode: u32, col: u16, row: u16, r: usize, c: usize) -> (b: bool)
    ensures
        b == erase_selects(whole, mode, col, row, r as int, c as int),
{
    let r_is_row = r == row as usize;
    if whole {
        if mode == 0 {
            r > row as usize || (r_is_row && c >= col as usize)
        } else if mode == 1 {
            r < row as usize || (r_is_row && c <= col as usize)
        } else {
            mode == 2
        }
    } else {
        r_is_row && (if mode == 0 {
            c >= col as usize
        } else if mode == 1 {
            c <= col as usize
        } else {
            mode == 2
        })
    }
}

/// `g` with the selected cells before row `r`, and before column `c` of
/// row `r`, erased.
pub open spec fn erased_up_to(
    g: Seq<Seq<ScreenCell>>,
    whole: bool,
    mode: u32,
    col: u16,
    row: u16,
    r: int,
    c: int,
) -> Seq<Seq<ScreenCell>> {
    Seq::new(
        g.len(),
        |rr: int|
            Seq::new(
                g[rr].len(),
                |cc: int|
                    if (rr < r || (rr == r && cc < c)) && erase_selects(whole, mode, col, row, rr, cc) {
                        erased_cell()
                    } else {
                        g[rr][cc]
                    },
            ),
    )
}

/// Erases the cells that `erase_selects` picks.
fn erase_cells(content: &mut Vec<Vec<ScreenCell>>, whole: bool, mode: u32, col: u16, row: u16)
    ensures
        grid(final(content)@) == erase_grid(
            grid(old(content)@),
            |r: int, c: int| erase_selects(whole, mode, col, row, r, c),
        ),
{
    let ghost g0 = grid(content@);
    let mut r: usize = 0;
    assert(grid(content@) =~~= erased_up_to(g0, whole, mode, col, row, 0, 0));
    while r < content.len()
        invariant
            r <= content@.len(),
            content@.len() == g0.len(),
            grid(content@) == erased_up_to(g0, whole, mode, col, row, r as int, 0),
        decreases content@.len() - r,
    {
        let mut c: usize = 0;
        let n = content[r].len();
        assert(grid(content@)[r as int].len() == n);
        while c < n
            invariant
                r < content@.len(),
                content@.len() == g0.len(),
                n == g0[r as int].len(),
                c <= n,
                grid(content@) == erased_up_to(g0, whole, mode, col, row, r as int, c as int),
            decreases n - c,
        {
            if erase_selects_exec(whole, mode, col, row, r, c) {
                let ghost before = grid(content@);
                assert(before[r as int].len() == n);
                set_cell(content, r, c, erased_cell_exec());
            }
            c = c + 1;
            assert(grid(content@) =~~= erased_up_to(g0, whole, mode, col, row, r as int, c as int));
        }
        r = r + 1;
        assert(grid(content@) =~~= erased_up_to(g0, whole, mode, col, row, r as int, 0));
    }
    assert(grid(content@) =~~= erase_grid(g0, |rr: int, cc: int| erase_selects(whole, mode, col, row, rr, cc)));
}

/// The erased cell.
fn erased_cell_exec() -> (c: ScreenCell)
    ensures
        c == erased_cell(),
{
    ScreenCell {
        char: ' ',
        fg_color: Color::default(),
        bg_color: Color { r: 0, g: 0, b: 0, color_type: ColorType::Default },
        attributes: TextAttributes::default(),
        dirty: true,
    }
}

/// Scrolls a grid up one line, returning its old top line; the new bottom
/// line is erased cells as wide as the old bottom line.
fn scroll_grid(content: &mut Vec<Vec<ScreenCell>>) -> (top: Vec<ScreenCell>)
    requires
        old(content)@.len() > 0,
    ensures
        top@ == grid(old(content)@)[0],
        grid(final(content)@) == ({
            let g = grid(old(content)@);
            g.subrange(1, g.len() as int).push(Seq::new(g[g.len() - 1].len(), |c: int| erased_cell()))
        }),
{
    let ghost g = grid(content@);
    let n = content.len();
    let top = copy_row(&content[0]);
    let mut i: usize = 0;
    while i < n - 1
        invariant
            n == content@.len(),
            n == g.len(),
            i <= n - 1,
            forall|k: int| 0 <= k < i ==> #[trigger] grid(content@)[k] == g[k + 1],
            forall|k: int| i <= k < n ==> #[trigger] grid(content@)[k] == g[k],
        decreases n - 1 - i,
    {
        let row = copy_row(&content[i + 1]);
        let ghost before = grid(content@);
        assert(before[i + 1] == g[i + 1]);
        assert(row@ == before[i + 1]);
        content.set(i, row);
        assert(grid(content@) =~= before.update(i as int, row@));
        i = i + 1;
    }
    let last = n - 1;
    assert(grid(content@)[last as int] == g[last as int]);
    let width = content[last].len();
    assert(g[last as int].subrange(0, width as int) =~= g[last as int]);
    assert(Seq::new(0, |k: int| erased_cell()) + g[last as int].subrange(0, width as int) =~= g[last as int]);
    let mut c: usize = 0;
    while c < width
        invariant
            n == content@.len(),
            n == g.len(),
            last == n - 1,
            width == g[last as int].len(),
            c <= width,
            forall|k: int| 0 <= k < last ==> #[trigger] grid(content@)[k] == g[k + 1],
            grid(content@)[last as int] == Seq::new(c as nat, |k: int| erased_cell()) + g[last as int].subrange(c as int, width as int),
        decreases width - c,
    {
        let ghost before = grid(content@);
        assert(before[last as int].len() == width);
        set_cell(content, last, c, erased_cell_exec());
        c = c + 1;
        assert(grid(content@)[last as int] =~= Seq::new(c as nat, |k: int| erased_cell()) + g[last as int].subrange(c as int, width as int));
    }
    assert(grid(content@) =~~= g.subrange(1, g.len() as int).push(Seq::new(g[g.len() - 1].len(), |k: int| erased_cell())));
    top
}

/// A copy of a row of cells.
fn copy_row(row: &Vec<ScreenCell>) -> (r: Vec<ScreenCell>)
    ensures
        r@ == row@,
{
    let mut r: Vec<ScreenCell> = Vec::new();
    let mut i: usize = 0;
    while i < row.len()
        invariant
            i <= row@.len(),
            r@ == row@.subrange(0, i as int),
        decreases row@.len() - i,
    {
        r.push(row[i]);
        i = i + 1;
        assert(r@ =~= row@.subrange(0, i as int));
    }
    assert(r@ =~= row@);
    r
}

/// The renderer's shape invariant: a non-empty size, and both screen
/// buffers exactly that size.
pub open spec fn model_wf(m: RendererModel) -> bool {
    &&& m.size.0 >= 1
    &&& m.size.1 >= 1
    &&& grid_has_size(m.primary.content, m.size.0, m.size.1)
    &&& grid_has_size(m.alternate.content, m.size.0, m.size.1)
}

/// A buffer resized to `cols` by `rows`, its cursor pulled inside.
pub open spec fn resize_buffer(b: BufferModel, cols: u16, rows: u16) -> BufferModel {
    BufferModel {
        content: resized_grid(b.content, cols as nat, rows as nat),
        cursor_pos: (
            if b.cursor_pos.0 >= cols { (cols - 1) as u16 } else { b.cursor_pos.0 },
            if b.cursor_pos.1 >= rows { (rows - 1) as u16 } else { b.cursor_pos.1 },
        ),
        ..b
    }
}

/// The renderer resized to `cols` by `rows`: both buffers are resized, the
/// cursor is pulled inside and the whole screen is marked dirty.
pub open spec fn resized(m: RendererModel, cols: u16, rows: u16) -> RendererModel {
    let (c, r) = m.state.cursor_pos;
    RendererModel {
        size: (cols, rows),
        state: TerminalState {
            size: (cols, rows),
            cursor_pos: (
                if c >= cols { (cols - 1) as u16 } else { c },
                if r >= rows { (rows - 1) as u16 } else { r },
            ),
            ..m.state
        },
        primary: resize_buffer(m.primary, cols, rows),
        alternate: resize_buffer(m.alternate, cols, rows),
        dirty: m.dirty.push((0u16, 0u16, cols, rows)),
        ..m
    }
}

/// A fresh renderer for `config`.
pub open spec fn initial_model(config: RendererConfig) -> RendererModel {
    let (cols, rows) = config.size;
    let buffer = BufferModel {
        content: blank_grid(cols as nat, rows as nat),
        cursor_pos: (0u16, 0u16),
        scrollback: seq![],
        max_scrollback: 1000,
    };
    RendererModel {
        palette: crate::terminal::protocol::default_palette(),
        mouse: crate::terminal::protocol::initial_mouse_state(),
        bracketed_paste: false,
        state: TerminalState {
            fg_color: config.default_fg_color,
            bg_color: config.default_bg_color,
            ..initial_terminal_state()
        },
        primary: buffer,
        alternate: buffer,
        active: ActiveBuffer::Primary,
        saved_cursor: None,
        size: config.size,
        scrollback: seq![],
        max_scrollback: config.max_scrollback,
        scroll_pos: 0,
        dirty: seq![],
    }
}

/// The parser state of a fresh renderer.
pub open spec fn initial_parser_model() -> ParserModel {
    ParserModel { state: crate::terminal::protocol::ParserState::Normal, params: seq![], current: seq![], rows: 24 }
}

/// Terminal renderer: parses input and keeps the screen it describes.
#[derive(Debug)]
pub struct TerminalRenderer {
    /// Escape-sequence parser
    parser: AnsiParser,
    /// Current terminal state
    state: TerminalState,
    /// Screen buffers (primary and alternate)
    screen_buffers: ScreenBuffers,
    /// Saved cursor position
    saved_cursor: Option<(u16, u16)>,
    /// Terminal size (columns, rows)
    size: (u16, u16),
    /// Scrollback buffer
    scrollback: Vec<Vec<ScreenCell>>,
    /// Maximum scrollback lines
    max_scrollback: usize,
    /// Current scroll position
    scroll_pos: usize,
    /// Dirty regions for redraw
    dirty_regions: Vec<(u16, u16, u16, u16)>,
}

/// A resized grid has the new size.
proof fn lemma_resized_size(g: Seq<Seq<ScreenCell>>, cols: u16, rows: u16)
    ensures
        grid_has_size(resized_grid(g, cols as nat, rows as nat), cols, rows),
{
    let h = resized_grid(g, cols as nat, rows as nat);
    assert forall|r: int| 0 <= r < h.len() implies #[trigger] h[r].len() == cols by {}
}

impl TerminalRenderer {
    /// The renderer, by value.
    pub closed spec fn model(&self) -> RendererModel {
        RendererModel {
            palette: self.parser.palette(),
            mouse: self.parser.mouse(),
            bracketed_paste: self.parser.paste_bracketing(),
            state: self.state,
            primary: buffer_model(self.screen_buffers.primary),
            alternate: buffer_model(self.screen_buffers.alternate),
            active: self.screen_buffers.active,
            saved_cursor: self.saved_cursor,
            size: self.size,
            scrollback: grid(self.scrollback@),
            max_scrollback: self.max_scrollback,
            scroll_pos: self.scroll_pos,
            dirty: self.dirty_regions@,
        }
    }

    /// The state of the renderer's parser.
    pub closed spec fn parser_model(&self) -> ParserModel {
        self.parser.model()
    }

    /// The renderer's invariant.
    pub closed spec fn wf(&self) -> bool {
        self.parser.wf() && model_wf(self.model())
    }

    /// Creates a renderer of `config.size` with blank screens, the default
    /// terminal state in `config`'s colors, and the parser fresh.
    pub fn new(config: RendererConfig) -> (r: Self)
        requires
            config.size.0 > 0,
            config.size.1 > 0,
        ensures
            r.wf(),
            r.model() == initial_model(config),
            r.parser_model() == initial_parser_model(),
            model_wf(r.model()),
            cursor_on_screen(r.model()),
    {
        proof {
            lemma_cursor_stays_on_screen(config, seq![]);
        }
        let mut renderer = TerminalRenderer {
            parser: AnsiParser::new(),
            state: TerminalState::default(),
            screen_buffers: ScreenBuffers::default(),
            saved_cursor: None,
            size: config.size,
            scrollback: Vec::new(),
            max_scrollback: config.max_scrollback,
            scroll_pos: 0,
            dirty_regions: Vec::new(),
        };
        renderer.screen_buffers.primary.resize(config.size.0, config.size.1);
        renderer.screen_buffers.alternate.resize(config.size.0, config.size.1);
        renderer.state.fg_color = config.default_fg_color;
        renderer.state.bg_color = config.default_bg_color;
        proof {
            let (cols, rows) = config.size;
            assert(resized_grid(blank_grid(80, 24), cols as nat, rows as nat) =~~= blank_grid(cols as nat, rows as nat));
            assert(grid(renderer.scrollback@) =~= Seq::<Seq<ScreenCell>>::empty());
            assert(grid(renderer.screen_buffers.primary.scrollback@) =~= Seq::<Seq<ScreenCell>>::empty());
            assert(grid(renderer.screen_buffers.alternate.scrollback@) =~= Seq::<Seq<ScreenCell>>::empty());
            assert(grid(renderer.screen_buffers.primary.content@) == blank_grid(cols as nat, rows as nat));
            assert(renderer.model().primary == initial_model(config).primary);
            assert(renderer.model().alternate == initial_model(config).alternate);
            assert(renderer.model() =~= initial_model(config));
        }
        renderer
    }
}

/// Erasing keeps the shape of a grid.
proof fn lemma_erase_keeps_size(g: Seq<Seq<ScreenCell>>, f: spec_fn(int, int) -> bool, cols: u16, rows: u16)
    requires
        grid_has_size(g, cols, rows),
    ensures
        grid_has_size(erase_grid(g, f), cols, rows),
{
    assert forall|r: int| 0 <= r < erase_grid(g, f).len() implies #[trigger] erase_grid(g, f)[r].len() == cols by {
        assert(g[r].len() == cols);
    }
}

impl TerminalRenderer {
    /// Adds a region to redraw.
    fn mark_dirty_region(&mut self, x1: u16, y1: u16, x2: u16, y2: u16)
        requires
            old(self).wf(),
        ensures
            final(self).wf(),
            final(self).parser_model() == old(self).parser_model(),
            final(self).model() == (RendererModel { dirty: old(self).model().dirty.push((x1, y1, x2, y2)), ..old(self).model() }),
    {
        self.dirty_regions.push((x1, y1, x2, y2));
    }

    /// The buffer that is shown.
    fn get_active_buffer(&self) -> (b: &ScreenBuffer)
        ensures
            grid(b.content@) == active_grid(self.model()),
    {
        match self.screen_buffers.active {
            ActiveBuffer::Primary => &self.screen_buffers.primary,
            ActiveBuffer::Alternate => &self.screen_buffers.alternate,
        }
    }

    /// Scrolls the shown screen up one line.
    fn scroll_up(&mut self)
        requires
            old(self).wf(),
        ensures
            final(self).wf(),
            final(self).parser_model() == old(self).parser_model(),
            final(self).model() == scroll_up(old(self).model()),
    {
        let ghost m = self.model();
        let top = match self.screen_buffers.active {
            ActiveBuffer::Primary => scroll_grid(&mut self.screen_buffers.primary.content),
            ActiveBuffer::Alternate => scroll_grid(&mut self.screen_buffers.alternate.content),
        };
        let ghost sb0 = self.scrollback@;
        proof {
            lemma_grid_push(self.scrollback@, top);
        }
        self.scrollback.push(top);
        if self.scrollback.len() > self.max_scrollback {
            let ghost sb1 = self.scrollback@;
            self.scrollback.remove(0);
            assert(grid(self.scrollback@) =~= grid(sb1).drop_first());
        }
        proof {
            let g = active_grid(m);
            let g2 = g.subrange(1, g.len() as int).push(Seq::new(g[g.len() - 1].len(), |c: int| erased_cell()));
            assert(active_grid(self.model()) == g2);
            assert forall|r: int| 0 <= r < g2.len() implies #[trigger] g2[r].len() == m.size.0 by {
                if r < g2.len() - 1 {
                    assert(g2[r] == g[r + 1]);
                }
            }
            assert(self.model() =~= scroll_up(m));
        }
    }

    /// Prints a character at the cursor and moves the cursor on.
    #[verifier::rlimit(60)]
    fn print_character(&mut self, ch: char)
        requires
            old(self).wf(),
        ensures
            final(self).wf(),
            final(self).parser_model() == old(self).parser_model(),
            final(self).model() == print_char(old(self).model(), ch),
    {
        let ghost m = self.model();
        let (col, row) = self.state.cursor_pos;
        let rows_here = self.get_active_buffer().content.len();
        if row < (rows_here as u16) && col < (self.get_active_buffer().content[row as usize].len() as u16) {
            let cell = ScreenCell {
                char: ch,
                fg_color: self.state.fg_color,
                bg_color: self.state.bg_color,
                attributes: self.state.attributes,
                dirty: true,
            };
            match self.screen_buffers.active {
                ActiveBuffer::Primary => set_cell(&mut self.screen_buffers.primary.content, row as usize, col as usize, cell),
                ActiveBuffer::Alternate => set_cell(&mut self.screen_buffers.alternate.content, row as usize, col as usize, cell),
            }
            proof {
                let g = active_grid(m);
                let g2 = g.update(row as int, g[row as int].update(col as int, printed_cell(m, ch)));
                assert forall|r: int| 0 <= r < g2.len() implies #[trigger] g2[r].len() == m.size.0 by {
                    assert(g[r].len() == m.size.0);
                }
            }
            self.mark_dirty_region(col, row, col + 1, row + 1);
            if self.state.auto_wrap && col as u32 + 1 >= self.size.0 as u32 {
                if (row as u32) + 1 < self.size.1 as u32 {
                    self.state.cursor_pos = (0, row + 1);
                } else {
                    self.scroll_up();
                    self.state.cursor_pos = (0, self.size.1 - 1);
                }
            } else {
                self.state.cursor_pos.0 = col + 1;
            }
            assert(self.model() =~= print_char(m, ch));
        }
    }

    /// Moves the cursor up.
    fn move_cursor_up(&mut self, count: u32)
        requires
            old(self).wf(),
        ensures
            final(self).wf(),
            final(self).parser_model() == old(self).parser_model(),
            final(self).model() == cursor_up(old(self).model(), count),
    {
        if self.state.cursor_pos.1 as u32 >= count {
            self.state.cursor_pos.1 = (self.state.cursor_pos.1 as u32 - count) as u16;
        } else {
            self.state.cursor_pos.1 = 0;
        }
    }

    /// Moves the cursor down.
    fn move_cursor_down(&mut self, count: u32)
        requires
            old(self).wf(),
        ensures
            final(self).wf(),
            final(self).parser_model() == old(self).parser_model(),
            final(self).model() == cursor_down(old(self).model(), count),
    {
        let target: u64 = self.state.cursor_pos.1 as u64 + count as u64;
        let limit: u64 = (self.size.1 - 1) as u64;
        self.state.cursor_pos.1 = if target < limit { target as u16 } else { limit as u16 };
    }

    /// Moves the cursor forward.
    fn move_cursor_forward(&mut self, count: u32)
        requires
            old(self).wf(),
        ensures
            final(self).wf(),
            final(self).parser_model() == old(self).parser_model(),
            final(self).model() == cursor_forward(old(self).model(), count),
    {
        let target: u64 = self.state.cursor_pos.0 as u64 + count as u64;
        let limit: u64 = (self.size.0 - 1) as u64;
        self.state.cursor_pos.0 = if target < limit { target as u16 } else { limit as u16 };
    }

    /// Moves the cursor backward.
    fn move_cursor_backward(&mut self, count: u32)
        requires
            old(self).wf(),
        ensures
            final(self).wf(),
            final(self).parser_model() == old(self).parser_model(),
            final(self).model() == cursor_backward(old(self).model(), count),
    {
        if self.state.cursor_pos.0 as u32 >= count {
            self.state.cursor_pos.0 = (self.state.cursor_pos.0 as u32 - count) as u16;
        } else {
            self.state.cursor_pos.0 = 0;
        }
    }

    /// Moves the cursor down and to the first column.
    fn move_cursor_next_line(&mut self, count: u32)
        requires
            old(self).wf(),
        ensures
            final(self).wf(),
            final(self).parser_model() == old(self).parser_model(),
            final(self).model() == with_col(cursor_down(old(self).model(), count), 0),
    {
        self.move_cursor_down(count);
        self.state.cursor_pos.0 = 0;
    }

    /// Moves the cursor up and to the first column.
    fn move_cursor_previous_line(&mut self, count: u32)
        requires
            old(self).wf(),
        ensures
            final(self).wf(),
            final(self).parser_model() == old(self).parser_model(),
            final(self).model() == with_col(cursor_up(old(self).model(), count), 0),
    {
        self.move_cursor_up(count);
        self.state.cursor_pos.0 = 0;
    }

    /// Moves the cursor to a 1-based column.
    fn move_cursor_horizontal_absolute(&mut self, col: u32)
        requires
            old(self).wf(),
        ensures
            final(self).wf(),
            final(self).parser_model() == old(self).parser_model(),
            final(self).model() == cursor_column(old(self).model(), col),
    {
        let c: u32 = if col > 0 { col - 1 } else { 0 };
        let limit: u32 = (self.size.0 - 1) as u32;
        self.state.cursor_pos.0 = if c < limit { c as u16 } else { limit as u16 };
    }

    /// Moves the cursor to a 1-based position.
    fn move_cursor_position(&mut self, row: u32, col: u32)
        requires
            old(self).wf(),
        ensures
            final(self).wf(),
            final(self).parser_model() == old(self).parser_model(),
            final(self).model() == cursor_position(old(self).model(), row, col),
    {
        let ghost m = self.model();
        let r: u32 = if row > 0 { row - 1 } else { 0 };
        let c: u32 = if col > 0 { col - 1 } else { 0 };
        let row_limit: u32 = (self.size.1 - 1) as u32;
        let new_row: u16 = if self.state.origin_mode {
            match self.state.scroll_region {
                Some((top, bottom)) => {
                    let target: u64 = top as u64 + r as u64;
                    if target < bottom as u64 { target as u16 } else { bottom }
                },
                None => if r < row_limit { r as u16 } else { row_limit as u16 },
            }
        } else {
            if r < row_limit { r as u16 } else { row_limit as u16 }
        };
        let col_limit: u32 = (self.size.0 - 1) as u32;
        let new_col: u16 = if c < col_limit { c as u16 } else { col_limit as u16 };
        assert(new_row == cursor_position(m, row, col).state.cursor_pos.1);
        assert(new_col == cursor_position(m, row, col).state.cursor_pos.0);
        self.state.cursor_pos = (new_col, new_row);
    }

    /// Saves the cursor position.
    fn save_cursor(&mut self)
        requires
            old(self).wf(),
        ensures
            final(self).wf(),
            final(self).parser_model() == old(self).parser_model(),
            final(self).model() == (RendererModel { saved_cursor: Some(old(self).model().state.cursor_pos), ..old(self).model() }),
    {
        self.saved_cursor = Some(self.state.cursor_pos);
    }

    /// Restores the saved cursor position, if any.
    fn restore_cursor(&mut self)
        requires
            old(self).wf(),
        ensures
            final(self).wf(),
            final(self).parser_model() == old(self).parser_model(),
            final(self).model() == apply_command(old(self).model(), AnsiCommand::RestoreCursor),
    {
        if let Some(pos) = self.saved_cursor {
            self.state.cursor_pos = pos;
        }
    }

    /// Erases part of the display.
    fn erase_in_display(&mut self, mode: u32)
        requires
            old(self).wf(),
        ensures
            final(self).wf(),
            final(self).parser_model() == old(self).parser_model(),
            final(self).model() == erase_display(old(self).model(), mode),
    {
        let ghost m = self.model();
        let (col, row) = self.state.cursor_pos;
        match self.screen_buffers.active {
            ActiveBuffer::Primary => erase_cells(&mut self.screen_buffers.primary.content, true, mode, col, row),
            ActiveBuffer::Alternate => erase_cells(&mut self.screen_buffers.alternate.content, true, mode, col, row),
        }
        proof {
            lemma_erase_keeps_size(active_grid(m), |r: int, c: int| erase_selects(true, mode, col, row, r, c), m.size.0, m.size.1);
            assert(erase_grid(active_grid(m), |r: int, c: int| erase_selects(true, mode, col, row, r, c))
                =~~= erase_grid(active_grid(m), |r: int, c: int| display_erases(mode, col, row, c, r)));
        }
        self.mark_dirty_region(0, 0, self.size.0, self.size.1);
        assert(self.model() =~= erase_display(m, mode));
    }

    /// Erases part of the cursor's line.
    fn erase_in_line(&mut self, mode: u32)
        requires
            old(self).wf(),
        ensures
            final(self).wf(),
            final(self).parser_model() == old(self).parser_model(),
            final(self).model() == erase_line(old(self).model(), mode),
    {
        let ghost m = self.model();
        let (col, row) = self.state.cursor_pos;
        let rows_here = self.get_active_buffer().content.len();
        if row < (rows_here as u16) {
            match self.screen_buffers.active {
                ActiveBuffer::Primary => erase_cells(&mut self.screen_buffers.primary.content, false, mode, col, row),
                ActiveBuffer::Alternate => erase_cells(&mut self.screen_buffers.alternate.content, false, mode, col, row),
            }
            proof {
                lemma_erase_keeps_size(active_grid(m), |r: int, c: int| erase_selects(false, mode, col, row, r, c), m.size.0, m.size.1);
                assert(erase_grid(active_grid(m), |r: int, c: int| erase_selects(false, mode, col, row, r, c))
                    =~~= erase_grid(active_grid(m), |r: int, c: int| r == row && line_erases(mode, col, c)));
            }
            self.mark_dirty_region(0, row, self.size.0, row + 1);
            assert(self.model() =~= erase_line(m, mode));
        }
    }
}

impl TerminalRenderer {
    /// Resets attributes and colors.
    fn reset_attributes(&mut self)
        requires
            old(self).wf(),
        ensures
            final(self).wf(),
            final(self).parser_model() == old(self).parser_model(),
            final(self).model() == with_state(old(self).model(), state_effect(old(self).model().state, old(self).model().palette, AnsiCommand::ResetAttributes)),
    {
        self.state.attributes = TextAttributes::default();
        self.state.fg_color = Color::default();
        self.state.bg_color = Color { r: 0, g: 0, b: 0, color_type: ColorType::Default };
    }

    /// Sets bold.
    fn set_bold(&mut self)
        requires
            old(self).wf(),
        ensures
            final(self).wf(),
            final(self).parser_model() == old(self).parser_model(),
            final(self).model() == with_state(old(self).model(), state_effect(old(self).model().state, old(self).model().palette, AnsiCommand::SetBold)),
    {
        self.state.attributes = TextAttributes { bold: true, ..self.state.attributes };
    }

    /// Sets dim.
    fn set_dim(&mut self)
        requires
            old(self).wf(),
        ensures
            final(self).wf(),
            final(self).parser_model() == old(self).parser_model(),
            final(self).model() == with_state(old(self).model(), state_effect(old(self).model().state, old(self).model().palette, AnsiCommand::SetDim)),
    {
        self.state.attributes = TextAttributes { dim: true, ..self.state.attributes };
    }

    /// Sets italic.
    fn set_italic(&mut self)
        requires
            old(self).wf(),
        ensures
            final(self).wf(),
            final(self).parser_model() == old(self).parser_model(),
            final(self).model() == with_state(old(self).model(), state_effect(old(self).model().state, old(self).model().palette, AnsiCommand::SetItalic)),
    {
        self.state.attributes = TextAttributes { italic: true, ..self.state.attributes };
    }

    /// Sets underline.
    fn set_underline(&mut self)
        requires
            old(self).wf(),
        ensures
            final(self).wf(),
            final(self).parser_model() == old(self).parser_model(),
            final(self).model() == with_state(old(self).model(), state_effect(old(self).model().state, old(self).model().palette, AnsiCommand::SetUnderline)),
    {
        self.state.attributes = TextAttributes { underline: true, ..self.state.attributes };
    }

    /// Sets blink.
    fn set_blink(&mut self)
        requires
            old(self).wf(),
        ensures
            final(self).wf(),
            final(self).parser_model() == old(self).parser_model(),
            final(self).model() == with_state(old(self).model(), state_effect(old(self).model().state, old(self).model().palette, AnsiCommand::SetBlink)),
    {
        self.state.attributes = TextAttributes { blink: true, ..self.state.attributes };
    }

    /// Sets reverse video.
    fn set_reverse(&mut self)
        requires
            old(self).wf(),
        ensures
            final(self).wf(),
            final(self).parser_model() == old(self).parser_model(),
            final(self).model() == with_state(old(self).model(), state_effect(old(self).model().state, old(self).model().palette, AnsiCommand::SetReverse)),
    {
        self.state.attributes = TextAttributes { reverse: true, ..self.state.attributes };
    }

    /// Sets hidden.
    fn set_hidden(&mut self)
        requires
            old(self).wf(),
        ensures
            final(self).wf(),
            final(self).parser_model() == old(self).parser_model(),
            final(self).model() == with_state(old(self).model(), state_effect(old(self).model().state, old(self).model().palette, AnsiCommand::SetHidden)),
    {
        self.state.attributes = TextAttributes { hidden: true, ..self.state.attributes };
    }

    /// Sets strikethrough.
    fn set_strikethrough(&mut self)
        requires
            old(self).wf(),
        ensures
            final(self).wf(),
            final(self).parser_model() == old(self).parser_model(),
            final(self).model() == with_state(old(self).model(), state_effect(old(self).model().state, old(self).model().palette, AnsiCommand::SetStrikethrough)),
    {
        self.state.attributes = TextAttributes { strikethrough: true, ..self.state.attributes };
    }

    /// Resets the foreground to white.
    fn reset_foreground_color(&mut self)
        requires
            old(self).wf(),
        ensures
            final(self).wf(),
            final(self).parser_model() == old(self).parser_model(),
            final(self).model() == with_state(old(self).model(), state_effect(old(self).model().state, old(self).model().palette, AnsiCommand::ResetForegroundColor)),
    {
        self.state.fg_color = Color::default();
    }

    /// Resets the background to black.
    fn reset_background_color(&mut self)
        requires
            old(self).wf(),
        ensures
            final(self).wf(),
            final(self).parser_model() == old(self).parser_model(),
            final(self).model() == with_state(old(self).model(), state_effect(old(self).model().state, old(self).model().palette, AnsiCommand::ResetBackgroundColor)),
    {
        self.state.bg_color = Color { r: 0, g: 0, b: 0, color_type: ColorType::Default };
    }

    /// Turns application cursor keys on.
    fn set_application_cursor_keys(&mut self)
        requires
            old(self).wf(),
        ensures
            final(self).wf(),
            final(self).parser_model() == old(self).parser_model(),
            final(self).model() == with_state(old(self).model(), state_effect(old(self).model().state, old(self).model().palette, AnsiCommand::SetApplicationCursorKeys)),
    {
        self.state.app_cursor_keys = true;
    }

    /// Turns application cursor keys off.
    fn reset_application_cursor_keys(&mut self)
        requires
            old(self).wf(),
        ensures
            final(self).wf(),
            final(self).parser_model() == old(self).parser_model(),
            final(self).model() == with_state(old(self).model(), state_effect(old(self).model().state, old(self).model().palette, AnsiCommand::ResetApplicationCursorKeys)),
    {
        self.state.app_cursor_keys = false;
    }

    /// Turns insert mode on.
    fn set_insert_mode(&mut self)
        requires
            old(self).wf(),
        ensures
            final(self).wf(),
            final(self).parser_model() == old(self).parser_model(),
            final(self).model() == with_state(old(self).model(), state_effect(old(self).model().state, old(self).model().palette, AnsiCommand::SetInsertMode)),
    {
        self.state.insert_mode = true;
    }

    /// Turns insert mode off.
    fn reset_insert_mode(&mut self)
        requires
            old(self).wf(),
        ensures
            final(self).wf(),
            final(self).parser_model() == old(self).parser_model(),
            final(self).model() == with_state(old(self).model(), state_effect(old(self).model().state, old(self).model().palette, AnsiCommand::ResetInsertMode)),
    {
        self.state.insert_mode = false;
    }

    /// Turns reverse video on.
    fn set_reverse_video(&mut self)
        requires
            old(self).wf(),
        ensures
            final(self).wf(),
            final(self).parser_model() == old(self).parser_model(),
            final(self).model() == with_state(old(self).model(), state_effect(old(self).model().state, old(self).model().palette, AnsiCommand::SetReverseVideo)),
    {
        self.state.attributes = TextAttributes { reverse: true, ..self.state.attributes };
    }

    /// Turns reverse video off.
    fn reset_reverse_video(&mut self)
        requires
            old(self).wf(),
        ensures
            final(self).wf(),
            final(self).parser_model() == old(self).parser_model(),
            final(self).model() == with_state(old(self).model(), state_effect(old(self).model().state, old(self).model().palette, AnsiCommand::ResetReverseVideo)),
    {
        self.state.attributes = TextAttributes { reverse: false, ..self.state.attributes };
    }

    /// Turns origin mode on.
    fn set_origin_mode(&mut self)
        requires
            old(self).wf(),
        ensures
            final(self).wf(),
            final(self).parser_model() == old(self).parser_model(),
            final(self).model() == with_state(old(self).model(), state_effect(old(self).model().state, old(self).model().palette, AnsiCommand::SetOriginMode)),
    {
        self.state.origin_mode = true;
    }

    /// Turns origin mode off.
    fn reset_origin_mode(&mut self)
        requires
            old(self).wf(),
        ensures
            final(self).wf(),
            final(self).parser_model() == old(self).parser_model(),
            final(self).model() == with_state(old(self).model(), state_effect(old(self).model().state, old(self).model().palette, AnsiCommand::ResetOriginMode)),
    {
        self.state.origin_mode = false;
    }

    /// Turns auto-wrap on.
    fn set_auto_wrap(&mut self)
        requires
            old(self).wf(),
        ensures
            final(self).wf(),
            final(self).parser_model() == old(self).parser_model(),
            final(self).model() == with_state(old(self).model(), state_effect(old(self).model().state, old(self).model().palette, AnsiCommand::SetAutoWrap)),
    {
        self.state.auto_wrap = true;
    }

    /// Turns auto-wrap off.
    fn reset_auto_wrap(&mut self)
        requires
            old(self).wf(),
        ensures
            final(self).wf(),
            final(self).parser_model() == old(self).parser_model(),
            final(self).model() == with_state(old(self).model(), state_effect(old(self).model().state, old(self).model().palette, AnsiCommand::ResetAutoWrap)),
    {
        self.state.auto_wrap = false;
    }

    /// Blinking cursor: the renderer keeps no such state.
    fn set_blinking_cursor(&mut self)
        requires
            old(self).wf(),
        ensures
            final(self).wf(),
            final(self).parser_model() == old(self).parser_model(),
            final(self).model() == with_state(old(self).model(), state_effect(old(self).model().state, old(self).model().palette, AnsiCommand::SetBlinkingCursor)),
    {

    }

    /// Steady cursor: the renderer keeps no such state.
    fn reset_blinking_cursor(&mut self)
        requires
            old(self).wf(),
        ensures
            final(self).wf(),
            final(self).parser_model() == old(self).parser_model(),
            final(self).model() == with_state(old(self).model(), state_effect(old(self).model().state, old(self).model().palette, AnsiCommand::ResetBlinkingCursor)),
    {

    }

    /// Shows the cursor.
    fn show_cursor(&mut self)
        requires
            old(self).wf(),
        ensures
            final(self).wf(),
            final(self).parser_model() == old(self).parser_model(),
            final(self).model() == with_state(old(self).model(), state_effect(old(self).model().state, old(self).model().palette, AnsiCommand::ShowCursor)),
    {
        self.state.cursor_visible = true;
    }

    /// Hides the cursor.
    fn hide_cursor(&mut self)
        requires
            old(self).wf(),
        ensures
            final(self).wf(),
            final(self).parser_model() == old(self).parser_model(),
            final(self).model() == with_state(old(self).model(), state_effect(old(self).model().state, old(self).model().palette, AnsiCommand::HideCursor)),
    {
        self.state.cursor_visible = false;
    }

    /// Device attributes request: nothing is answered.
    fn device_attributes(&mut self)
        requires
            old(self).wf(),
        ensures
            final(self).wf(),
            final(self).parser_model() == old(self).parser_model(),
            final(self).model() == with_state(old(self).model(), state_effect(old(self).model().state, old(self).model().palette, AnsiCommand::DeviceAttributes)),
    {

    }

    /// Device status report request: nothing is answered.
    fn device_status_report(&mut self, mode: u32)
        requires
            old(self).wf(),
        ensures
            final(self).wf(),
            final(self).parser_model() == old(self).parser_model(),
            final(self).model() == with_state(old(self).model(), state_effect(old(self).model().state, old(self).model().palette, AnsiCommand::DeviceStatusReport(mode))),
    {
    }

    /// Sets the foreground color.
    fn set_foreground_color(&mut self, color_type: ColorType)
        requires
            old(self).wf(),
        ensures
            final(self).wf(),
            final(self).parser_model() == old(self).parser_model(),
            final(self).model() == with_state(old(self).model(), state_effect(old(self).model().state, old(self).model().palette, AnsiCommand::SetForegroundColor(color_type))),
    {
        match color_type {
            ColorType::Named(index) | ColorType::Index(index) => {
                if let Some(color) = self.parser.palette_lookup(index) {
                    self.state.fg_color = color;
                }
            },
            ColorType::TrueColor => {},
            ColorType::Default => {
                self.state.fg_color = Color::default();
            },
        }
    }

    /// Sets the background color.
    fn set_background_color(&mut self, color_type: ColorType)
        requires
            old(self).wf(),
        ensures
            final(self).wf(),
            final(self).parser_model() == old(self).parser_model(),
            final(self).model() == with_state(old(self).model(), state_effect(old(self).model().state, old(self).model().palette, AnsiCommand::SetBackgroundColor(color_type))),
    {
        match color_type {
            ColorType::Named(index) | ColorType::Index(index) => {
                if let Some(color) = self.parser.palette_lookup(index) {
                    self.state.bg_color = color;
                }
            },
            ColorType::TrueColor => {},
            ColorType::Default => {
                self.state.bg_color = Color { r: 0, g: 0, b: 0, color_type: ColorType::Default };
            },
        }
    }

    /// Sets the mouse reporting mode.
    fn set_mouse_tracking(&mut self, mode: MouseReportingMode)
        requires
            old(self).wf(),
        ensures
            final(self).wf(),
            final(self).parser_model() == old(self).parser_model(),
            final(self).model() == apply_command(old(self).model(), AnsiCommand::SetMouseTracking(mode)),
    {
        self.parser.set_mouse_mode(mode);
    }

    /// Turns bracketed paste on or off.
    fn set_bracketed_paste(&mut self, enabled: bool)
        requires
            old(self).wf(),
        ensures
            final(self).wf(),
            final(self).parser_model() == old(self).parser_model(),
            final(self).model() == apply_command(old(self).model(), AnsiCommand::SetBracketedPaste(enabled)),
    {
        self.parser.set_paste_bracketing(enabled);
    }

    /// Turns mouse tracking on or off.
    fn mouse_tracking(&mut self, enabled: bool)
        requires
            old(self).wf(),
        ensures
            final(self).wf(),
            final(self).parser_model() == old(self).parser_model(),
            final(self).model() == apply_command(old(self).model(), AnsiCommand::MouseTracking(enabled)),
    {
        self.parser.set_mouse_tracking_enabled(enabled);
    }

    /// Sets the scroll region from 1-based margins.
    fn set_scroll_region(&mut self, top: u32, bottom: u32)
        requires
            old(self).wf(),
        ensures
            final(self).wf(),
            final(self).parser_model() == old(self).parser_model(),
            final(self).model() == scroll_region(old(self).model(), top, bottom),
    {
        let t: u32 = if top > 0 { top - 1 } else { 0 };
        let b: u32 = if bottom > 0 { bottom - 1 } else { 0 };
        if t < b && b < self.size.1 as u32 {
            self.state.scroll_region = Some((t as u16, b as u16));
        }
    }
}

/// The commands that `handle_motion` applies.
pub open spec fn is_motion_command(cmd: AnsiCommand) -> bool {
    cmd is Print || cmd is CursorUp || cmd is CursorDown || cmd is CursorForward || cmd is CursorBackward || cmd is CursorNextLine || cmd is CursorPreviousLine || cmd is CursorHorizontalAbsolute || cmd is CursorPosition || cmd is SaveCursor || cmd is RestoreCursor || cmd is EraseInDisplay || cmd is EraseInLine || cmd is SetScrollRegion
}

/// The commands that `handle_style` applies.
pub open spec fn is_style_command(cmd: AnsiCommand) -> bool {
    cmd is ResetAttributes || cmd is SetBold || cmd is SetDim || cmd is SetItalic || cmd is SetUnderline || cmd is SetBlink || cmd is SetReverse || cmd is SetHidden || cmd is SetStrikethrough || cmd is SetForegroundColor || cmd is SetBackgroundColor || cmd is ResetForegroundColor || cmd is ResetBackgroundColor
}

/// The commands that `handle_mode` applies.
pub open spec fn is_mode_command(cmd: AnsiCommand) -> bool {
    cmd is SetApplicationCursorKeys || cmd is ResetApplicationCursorKeys || cmd is SetInsertMode || cmd is ResetInsertMode || cmd is SetReverseVideo || cmd is ResetReverseVideo || cmd is SetOriginMode || cmd is ResetOriginMode || cmd is SetAutoWrap || cmd is ResetAutoWrap || cmd is SetBlinkingCursor || cmd is ResetBlinkingCursor || cmd is ShowCursor || cmd is HideCursor || cmd is SetMouseTracking || cmd is SetBracketedPaste || cmd is DeviceAttributes || cmd is DeviceStatusReport || cmd is MouseTracking || cmd is SetGraphicsMode
}

impl TerminalRenderer {
    /// Applies a command that prints, moves the cursor, erases or sets the scroll region.
    #[verifier::rlimit(100)]
    fn handle_motion(&mut self, command: &AnsiCommand)
        requires
            old(self).wf(),
            is_motion_command(*command),
        ensures
            final(self).wf(),
            final(self).parser_model() == old(self).parser_model(),
            final(self).model() == apply_command(old(self).model(), *command),
    {
        match command {
                AnsiCommand::Print(ch) => self.print_character(*ch),
                AnsiCommand::CursorUp(count) => self.move_cursor_up(*count),
                AnsiCommand::CursorDown(count) => self.move_cursor_down(*count),
                AnsiCommand::CursorForward(count) => self.move_cursor_forward(*count),
                AnsiCommand::CursorBackward(count) => self.move_cursor_backward(*count),
                AnsiCommand::CursorNextLine(count) => self.move_cursor_next_line(*count),
                AnsiCommand::CursorPreviousLine(count) => self.move_cursor_previous_line(*count),
                AnsiCommand::CursorHorizontalAbsolute(col) => self.move_cursor_horizontal_absolute(*col),
                AnsiCommand::CursorPosition(row, col) => self.move_cursor_position(*row, *col),
                AnsiCommand::SaveCursor => self.save_cursor(),
                AnsiCommand::RestoreCursor => self.restore_cursor(),
                AnsiCommand::EraseInDisplay(mode) => self.erase_in_display(*mode),
                AnsiCommand::EraseInLine(mode) => self.erase_in_line(*mode),
                AnsiCommand::SetScrollRegion(top, bottom) => self.set_scroll_region(*top, *bottom),
            _ => {},
        }
    }

    /// Applies a command that changes attributes or colors.
    #[verifier::rlimit(100)]
    fn handle_style(&mut self, command: &AnsiCommand)
        requires
            old(self).wf(),
            is_style_command(*command),
        ensures
            final(self).wf(),
            final(self).parser_model() == old(self).parser_model(),
            final(self).model() == apply_command(old(self).model(), *command),
    {
        match command {
                AnsiCommand::ResetAttributes => self.reset_attributes(),
                AnsiCommand::SetBold => self.set_bold(),
                AnsiCommand::SetDim => self.set_dim(),
                AnsiCommand::SetItalic => self.set_italic(),
                AnsiCommand::SetUnderline => self.set_underline(),
                AnsiCommand::SetBlink => self.set_blink(),
                AnsiCommand::SetReverse => self.set_reverse(),
                AnsiCommand::SetHidden => self.set_hidden(),
                AnsiCommand::SetStrikethrough => self.set_strikethrough(),
                AnsiCommand::SetForegroundColor(ct) => self.set_foreground_color(*ct),
                AnsiCommand::SetBackgroundColor(ct) => self.set_background_color(*ct),
                AnsiCommand::ResetForegroundColor => self.reset_foreground_color(),
                AnsiCommand::ResetBackgroundColor => self.reset_background_color(),
            _ => {},
        }
    }

    /// Applies a command that changes a mode.
    #[verifier::rlimit(100)]
    fn handle_mode(&mut self, command: &AnsiCommand)
        requires
            old(self).wf(),
            is_mode_command(*command),
        ensures
            final(self).wf(),
            final(self).parser_model() == old(self).parser_model(),
            final(self).model() == apply_command(old(self).model(), *command),
    {
        match command {
                AnsiCommand::SetApplicationCursorKeys => self.set_application_cursor_keys(),
                AnsiCommand::ResetApplicationCursorKeys => self.reset_application_cursor_keys(),
                AnsiCommand::SetInsertMode => self.set_insert_mode(),
                AnsiCommand::ResetInsertMode => self.reset_insert_mode(),
                AnsiCommand::SetReverseVideo => self.set_reverse_video(),
                AnsiCommand::ResetReverseVideo => self.reset_reverse_video(),
                AnsiCommand::SetOriginMode => self.set_origin_mode(),
                AnsiCommand::ResetOriginMode => self.reset_origin_mode(),
                AnsiCommand::SetAutoWrap => self.set_auto_wrap(),
                AnsiCommand::ResetAutoWrap => self.reset_auto_wrap(),
                AnsiCommand::SetBlinkingCursor => self.set_blinking_cursor(),
                AnsiCommand::ResetBlinkingCursor => self.reset_blinking_cursor(),
                AnsiCommand::ShowCursor => self.show_cursor(),
                AnsiCommand::HideCursor => self.hide_cursor(),
                AnsiCommand::SetMouseTracking(mode) => self.set_mouse_tracking(*mode),
                AnsiCommand::SetBracketedPaste(enabled) => self.set_bracketed_paste(*enabled),
                AnsiCommand::DeviceAttributes => self.device_attributes(),
                AnsiCommand::DeviceStatusReport(mode) => self.device_status_report(*mode),
                AnsiCommand::MouseTracking(enabled) => self.mouse_tracking(*enabled),
                AnsiCommand::SetGraphicsMode(_) => {},
            _ => {},
        }
    }

}

impl TerminalRenderer {
    /// Applies one command.
    fn handle_command(&mut self, command: &AnsiCommand)
        requires
            old(self).wf(),
        ensures
            final(self).wf(),
            final(self).parser_model() == old(self).parser_model(),
            final(self).model() == apply_command(old(self).model(), *command),
    {
        match command {
            AnsiCommand::Print(..) | AnsiCommand::CursorUp(..) | AnsiCommand::CursorDown(..) | AnsiCommand::CursorForward(..) | AnsiCommand::CursorBackward(..) | AnsiCommand::CursorNextLine(..) | AnsiCommand::CursorPreviousLine(..) | AnsiCommand::CursorHorizontalAbsolute(..) | AnsiCommand::CursorPosition(..) | AnsiCommand::SaveCursor | AnsiCommand::RestoreCursor | AnsiCommand::EraseInDisplay(..) | AnsiCommand::EraseInLine(..) | AnsiCommand::SetScrollRegion(..) => self.handle_motion(command),
            AnsiCommand::ResetAttributes | AnsiCommand::SetBold | AnsiCommand::SetDim | AnsiCommand::SetItalic | AnsiCommand::SetUnderline | AnsiCommand::SetBlink | AnsiCommand::SetReverse | AnsiCommand::SetHidden | AnsiCommand::SetStrikethrough | AnsiCommand::SetForegroundColor(..) | AnsiCommand::SetBackgroundColor(..) | AnsiCommand::ResetForegroundColor | AnsiCommand::ResetBackgroundColor => self.handle_style(command),
            AnsiCommand::SetApplicationCursorKeys | AnsiCommand::ResetApplicationCursorKeys | AnsiCommand::SetInsertMode | AnsiCommand::ResetInsertMode | AnsiCommand::SetReverseVideo | AnsiCommand::ResetReverseVideo | AnsiCommand::SetOriginMode | AnsiCommand::ResetOriginMode | AnsiCommand::SetAutoWrap | AnsiCommand::ResetAutoWrap | AnsiCommand::SetBlinkingCursor | AnsiCommand::ResetBlinkingCursor | AnsiCommand::ShowCursor | AnsiCommand::HideCursor | AnsiCommand::SetMouseTracking(..) | AnsiCommand::SetBracketedPaste(..) | AnsiCommand::DeviceAttributes | AnsiCommand::DeviceStatusReport(..) | AnsiCommand::MouseTracking(..) | AnsiCommand::SetGraphicsMode(..) => self.handle_mode(command),
        }
    }

    /// Parses `input` and applies the commands it completes, in order.
    pub fn process_input(&mut self, input: &[u8])
        requires
            old(self).wf(),
        ensures
            final(self).wf(),
            (final(self).parser_model(), final(self).model()) == process(old(self).parser_model(), old(self).model(), input@),
            model_wf(final(self).model()),
            cursor_on_screen(old(self).model()) ==> cursor_on_screen(final(self).model()) && final(self).model().size == old(self).model().size,
    {
        let ghost m0 = self.model();
        let ghost p0 = self.parser_model();
        let commands = self.parser.process_input(input);
        let ghost m1 = self.model();
        assert(m1 == m0);
        let mut i: usize = 0;
        assert(commands@.subrange(0, 0) =~= Seq::<AnsiCommand>::empty());
        while i < commands.len()
            invariant
                i <= commands@.len(),
                self.wf(),
                commands@ == run(p0, input@).1,
                self.parser_model() == run(p0, input@).0,
                self.model() == apply_commands(m1, commands@.subrange(0, i as int)),
            decreases commands@.len() - i,
        {
            self.handle_command(&commands[i]);
            i = i + 1;
            proof {
                let pre = commands@.subrange(0, i as int);
                assert(pre.drop_last() =~= commands@.subrange(0, i - 1));
            }
        }
        assert(commands@.subrange(0, commands@.len() as int) =~= commands@);
        proof {
            if cursor_on_screen(m0) {
                lemma_commands_keep_cursor_on_screen(m0, commands@);
            }
        }
    }

    /// A renderer that keeps its invariant has the shape it promises: a
    /// non-empty size, and both screens exactly that many rows of that many
    /// cells.
    pub proof fn lemma_renderer_shape(&self)
        requires
            self.wf(),
        ensures
            model_wf(self.model()),
            self.model().size.0 >= 1,
            self.model().size.1 >= 1,
            grid_has_size(self.model().primary.content, self.model().size.0, self.model().size.1),
            grid_has_size(self.model().alternate.content, self.model().size.0, self.model().size.1),
    {
    }

    /// The current terminal state.
    pub fn state(&self) -> (s: &TerminalState)
        ensures
            *s == self.model().state,
    {
        &self.state
    }

    /// The cells of the screen that is shown.
    pub fn screen_content(&self) -> (c: &Vec<Vec<ScreenCell>>)
        ensures
            grid(c@) == active_grid(self.model()),
    {
        &self.get_active_buffer().content
    }

    /// The lines scrolled off the top.
    pub fn scrollback_content(&self) -> (c: &Vec<Vec<ScreenCell>>)
        ensures
            grid(c@) == self.model().scrollback,
    {
        &self.scrollback
    }

    /// The regions to redraw.
    pub fn dirty_regions(&self) -> (d: &Vec<(u16, u16, u16, u16)>)
        ensures
            d@ == self.model().dirty,
    {
        &self.dirty_regions
    }

    /// Forgets the regions to redraw.
    pub fn clear_dirty_regions(&mut self)
        requires
            old(self).wf(),
        ensures
            final(self).wf(),
            final(self).parser_model() == old(self).parser_model(),
            final(self).model() == (RendererModel { dirty: seq![], ..old(self).model() }),
    {
        self.dirty_regions.clear();
    }

    /// Resizes the terminal to `cols` by `rows`.
    pub fn resize(&mut self, cols: u16, rows: u16)
        requires
            old(self).wf(),
            cols > 0,
            rows > 0,
        ensures
            final(self).wf(),
            final(self).parser_model() == old(self).parser_model(),
            final(self).model() == resized(old(self).model(), cols, rows),
    {
        let ghost m = self.model();
        proof {
            lemma_resized_size(m.primary.content, cols, rows);
            lemma_resized_size(m.alternate.content, cols, rows);
        }
        self.size = (cols, rows);
        self.screen_buffers.primary.resize(cols, rows);
        self.screen_buffers.alternate.resize(cols, rows);
        let (c, r) = self.state.cursor_pos;
        let c2 = if c >= cols { cols - 1 } else { c };
        let r2 = if r >= rows { rows - 1 } else { r };
        self.state = TerminalState { size: (cols, rows), cursor_pos: (c2, r2), ..self.state };
        assert(self.model().primary == resize_buffer(m.primary, cols, rows));
        assert(self.model().alternate == resize_buffer(m.alternate, cols, rows));
        self.dirty_regions.push((0, 0, cols, rows));
        assert(self.model() =~= resized(m, cols, rows));
    }
}

} // verus!

verus! {

/// Applying `a` then `b` is applying `a + b`.
proof fn lemma_apply_commands_concat(m: RendererModel, a: Seq<AnsiCommand>, b: Seq<AnsiCommand>)
    ensures
        apply_commands(m, a + b) == apply_commands(apply_commands(m, a), b),
    decreases b.len(),
{
    if b.len() == 0 {
        assert(a + b =~= a);
    } else {
        assert((a + b).drop_last() =~= a + b.drop_last());
        lemma_apply_commands_concat(m, a, b.drop_last());
    }
}

/// Output may reach the renderer in pieces split anywhere: reading `a` and
/// then `b` gives the same parser and renderer as reading `a + b` at once.
pub proof fn lemma_process_split(pm: ParserModel, m: RendererModel, a: Seq<u8>, b: Seq<u8>)
    ensures
        process(pm, m, a + b) == ({
            let (pm1, m1) = process(pm, m, a);
            process(pm1, m1, b)
        }),
{
    crate::terminal::protocol::lemma_run_split(pm, a, b);
    let (pa, ca) = run(pm, a);
    let (pb, cb) = run(pa, b);
    lemma_apply_commands_concat(m, ca, cb);
}

/// Erasing the entire display (mode 2) leaves every cell of the shown
/// screen erased.
pub proof fn lemma_erase_all(m: RendererModel)
    ensures
        forall|r: int, c: int|
            0 <= r < active_grid(erase_display(m, 2)).len() && 0 <= c < active_grid(
                erase_display(m, 2),
            )[r].len() ==> #[trigger] active_grid(erase_display(m, 2))[r][c] == erased_cell(),
{
}

/// Only `SaveCursor` changes the saved cursor position.
pub proof fn lemma_saved_cursor_kept(m: RendererModel, cmd: AnsiCommand)
    requires
        !(cmd is SaveCursor),
    ensures
        apply_command(m, cmd).saved_cursor == m.saved_cursor,
{
    match cmd {
        AnsiCommand::Print(ch) => {
            let (col, row) = m.state.cursor_pos;
            if row < m.size.1 && col < m.size.0 {
                let g = active_grid(m);
                let g2 = g.update(row as int, g[row as int].update(col as int, printed_cell(m, ch)));
                let m1 = RendererModel {
                    dirty: m.dirty.push((col, row, (col + 1) as u16, (row + 1) as u16)),
                    ..with_active_grid(m, g2)
                };
                assert(scroll_up(m1).saved_cursor == m.saved_cursor);
            }
        },
        _ => {},
    }
}

/// Commands without `SaveCursor` keep the saved cursor position.
pub proof fn lemma_saved_cursor_kept_all(m: RendererModel, cmds: Seq<AnsiCommand>)
    requires
        forall|i: int| 0 <= i < cmds.len() ==> !(#[trigger] cmds[i] is SaveCursor),
    ensures
        apply_commands(m, cmds).saved_cursor == m.saved_cursor,
    decreases cmds.len(),
{
    if cmds.len() > 0 {
        let pre = cmds.drop_last();
        assert forall|i: int| 0 <= i < pre.len() implies !(#[trigger] pre[i] is SaveCursor) by {
            assert(pre[i] == cmds[i]);
        }
        lemma_saved_cursor_kept_all(m, pre);
        assert(!(cmds[cmds.len() - 1] is SaveCursor));
        lemma_saved_cursor_kept(apply_commands(m, pre), cmds.last());
    }
}

/// Saving the cursor, then any commands that do not save it again, then
/// restoring it, brings the cursor back to where it was saved.
pub proof fn lemma_save_restore(m: RendererModel, cmds: Seq<AnsiCommand>)
    requires
        forall|i: int| 0 <= i < cmds.len() ==> !(#[trigger] cmds[i] is SaveCursor),
    ensures
        apply_commands(
            m,
            seq![AnsiCommand::SaveCursor] + cmds + seq![AnsiCommand::RestoreCursor],
        ).state.cursor_pos == m.state.cursor_pos,
{
    let all = seq![AnsiCommand::SaveCursor] + cmds + seq![AnsiCommand::RestoreCursor];
    let m1 = apply_command(m, AnsiCommand::SaveCursor);
    assert(apply_commands(m, seq![AnsiCommand::SaveCursor]) == m1) by {
        assert(seq![AnsiCommand::SaveCursor].drop_last() =~= Seq::<AnsiCommand>::empty());
        assert(apply_commands(m, Seq::<AnsiCommand>::empty()) == m);
    }
    lemma_apply_commands_concat(m, seq![AnsiCommand::SaveCursor], cmds);
    lemma_saved_cursor_kept_all(m1, cmds);
    assert(all.drop_last() =~= seq![AnsiCommand::SaveCursor] + cmds);
}

/// The cursor stands on the screen (its column may be one past the last,
/// where printing without auto-wrap leaves it), as does a saved cursor, and
/// a scroll region ends on the screen.
pub open spec fn cursor_on_screen(m: RendererModel) -> bool {
    &&& m.state.cursor_pos.0 <= m.size.0
    &&& m.state.cursor_pos.1 < m.size.1
    &&& m.saved_cursor matches Some(p) ==> p.0 <= m.size.0 && p.1 < m.size.1
    &&& m.state.scroll_region matches Some(r) ==> r.1 < m.size.1
}

/// Printing keeps the size as it is and the cursor on the screen.
proof fn lemma_print_keeps_cursor_on_screen(m: RendererModel, ch: char)
    requires
        m.size.0 >= 1,
        m.size.1 >= 1,
        cursor_on_screen(m),
    ensures
        print_char(m, ch).size == m.size,
        cursor_on_screen(print_char(m, ch)),
{
}

/// Erasing keeps the size, the cursor, the saved cursor and the scroll
/// region as they are.
proof fn lemma_erase_keeps_cursor(m: RendererModel, mode: u32)
    ensures
        erase_display(m, mode).size == m.size,
        erase_display(m, mode).state == m.state,
        erase_display(m, mode).saved_cursor == m.saved_cursor,
        erase_line(m, mode).size == m.size,
        erase_line(m, mode).state == m.state,
        erase_line(m, mode).saved_cursor == m.saved_cursor,
{
}


/// A cursor move keeps the size as it is and the cursor on the screen.
proof fn lemma_moves_keep_cursor_on_screen(m: RendererModel, cmd: AnsiCommand)
    requires
        m.size.0 >= 1,
        m.size.1 >= 1,
        cursor_on_screen(m),
        cmd is CursorUp || cmd is CursorDown || cmd is CursorForward || cmd is CursorBackward || cmd is CursorNextLine || cmd is CursorPreviousLine || cmd is CursorHorizontalAbsolute || cmd is CursorPosition,
    ensures
        apply_command(m, cmd).size == m.size,
        cursor_on_screen(apply_command(m, cmd)),
{
    match cmd {
        AnsiCommand::CursorUp(_) => {},
        AnsiCommand::CursorDown(_) => {},
        AnsiCommand::CursorForward(_) => {},
        AnsiCommand::CursorBackward(_) => {},
        AnsiCommand::CursorNextLine(_) => {},
        AnsiCommand::CursorPreviousLine(_) => {},
        AnsiCommand::CursorHorizontalAbsolute(_) => {},
        AnsiCommand::CursorPosition(_, _) => {},
        _ => {},
    }
}

/// Printing, saving or restoring the cursor, erasing or setting the scroll region keeps the size as it is and the cursor on the screen.
proof fn lemma_saves_keep_cursor_on_screen(m: RendererModel, cmd: AnsiCommand)
    requires
        m.size.0 >= 1,
        m.size.1 >= 1,
        cursor_on_screen(m),
        cmd is SaveCursor || cmd is RestoreCursor || cmd is SetScrollRegion || cmd is EraseInDisplay || cmd is EraseInLine || cmd is Print,
    ensures
        apply_command(m, cmd).size == m.size,
        cursor_on_screen(apply_command(m, cmd)),
{
    match cmd {
        AnsiCommand::SaveCursor => {},
        AnsiCommand::RestoreCursor => {},
        AnsiCommand::SetScrollRegion(_, _) => {},
        AnsiCommand::EraseInDisplay(mode) => lemma_erase_keeps_cursor(m, mode),
        AnsiCommand::EraseInLine(mode) => lemma_erase_keeps_cursor(m, mode),
        AnsiCommand::Print(ch) => lemma_print_keeps_cursor_on_screen(m, ch),
        _ => {},
    }
}

/// A command the parser keeps or answers keeps the size as it is and the cursor on the screen.
proof fn lemma_parser_flags_keep_cursor_on_screen(m: RendererModel, cmd: AnsiCommand)
    requires
        m.size.0 >= 1,
        m.size.1 >= 1,
        cursor_on_screen(m),
        cmd is SetMouseTracking || cmd is SetBracketedPaste || cmd is MouseTracking || cmd is DeviceAttributes || cmd is DeviceStatusReport || cmd is SetGraphicsMode,
    ensures
        apply_command(m, cmd).size == m.size,
        cursor_on_screen(apply_command(m, cmd)),
{
    match cmd {
        AnsiCommand::SetMouseTracking(_) => {},
        AnsiCommand::SetBracketedPaste(_) => {},
        AnsiCommand::MouseTracking(_) => {},
        AnsiCommand::DeviceAttributes => {},
        AnsiCommand::DeviceStatusReport(_) => {},
        AnsiCommand::SetGraphicsMode(_) => {},
        _ => {},
    }
}

/// An attribute or color command keeps the size as it is and the cursor on the screen.
proof fn lemma_attributes_keep_cursor_on_screen(m: RendererModel, cmd: AnsiCommand)
    requires
        m.size.0 >= 1,
        m.size.1 >= 1,
        cursor_on_screen(m),
        cmd is ResetAttributes || cmd is SetBold || cmd is SetDim || cmd is SetItalic || cmd is SetUnderline || cmd is SetBlink || cmd is SetReverse || cmd is SetHidden || cmd is SetStrikethrough || cmd is SetForegroundColor || cmd is SetBackgroundColor || cmd is ResetForegroundColor || cmd is ResetBackgroundColor,
    ensures
        apply_command(m, cmd).size == m.size,
        cursor_on_screen(apply_command(m, cmd)),
{
    match cmd {
        AnsiCommand::ResetAttributes => {},
        AnsiCommand::SetBold => {},
        AnsiCommand::SetDim => {},
        AnsiCommand::SetItalic => {},
        AnsiCommand::SetUnderline => {},
        AnsiCommand::SetBlink => {},
        AnsiCommand::SetReverse => {},
        AnsiCommand::SetHidden => {},
        AnsiCommand::SetStrikethrough => {},
        AnsiCommand::SetForegroundColor(_) => {},
        AnsiCommand::SetBackgroundColor(_) => {},
        AnsiCommand::ResetForegroundColor => {},
        AnsiCommand::ResetBackgroundColor => {},
        _ => {},
    }
}

/// A mode command keeps the size as it is and the cursor on the screen.
proof fn lemma_modes_keep_cursor_on_screen(m: RendererModel, cmd: AnsiCommand)
    requires
        m.size.0 >= 1,
        m.size.1 >= 1,
        cursor_on_screen(m),
        cmd is SetApplicationCursorKeys || cmd is ResetApplicationCursorKeys || cmd is SetInsertMode || cmd is ResetInsertMode || cmd is SetReverseVideo || cmd is ResetReverseVideo || cmd is SetOriginMode || cmd is ResetOriginMode || cmd is SetAutoWrap || cmd is ResetAutoWrap || cmd is SetBlinkingCursor || cmd is ResetBlinkingCursor || cmd is ShowCursor || cmd is HideCursor,
    ensures
        apply_command(m, cmd).size == m.size,
        cursor_on_screen(apply_command(m, cmd)),
{
    match cmd {
        AnsiCommand::SetApplicationCursorKeys => {},
        AnsiCommand::ResetApplicationCursorKeys => {},
        AnsiCommand::SetInsertMode => {},
        AnsiCommand::ResetInsertMode => {},
        AnsiCommand::SetReverseVideo => {},
        AnsiCommand::ResetReverseVideo => {},
        AnsiCommand::SetOriginMode => {},
        AnsiCommand::ResetOriginMode => {},
        AnsiCommand::SetAutoWrap => {},
        AnsiCommand::ResetAutoWrap => {},
        AnsiCommand::SetBlinkingCursor => {},
        AnsiCommand::ResetBlinkingCursor => {},
        AnsiCommand::ShowCursor => {},
        AnsiCommand::HideCursor => {},
        _ => {},
    }
}

/// One command keeps the size as it is and the cursor on the screen.
pub proof fn lemma_command_keeps_cursor_on_screen(m: RendererModel, cmd: AnsiCommand)
    requires
        m.size.0 >= 1,
        m.size.1 >= 1,
        cursor_on_screen(m),
    ensures
        apply_command(m, cmd).size == m.size,
        cursor_on_screen(apply_command(m, cmd)),
{
    if cmd is CursorUp || cmd is CursorDown || cmd is CursorForward || cmd is CursorBackward || cmd is CursorNextLine || cmd is CursorPreviousLine || cmd is CursorHorizontalAbsolute || cmd is CursorPosition {
        lemma_moves_keep_cursor_on_screen(m, cmd);
    }
    if cmd is SaveCursor || cmd is RestoreCursor || cmd is SetScrollRegion || cmd is EraseInDisplay || cmd is EraseInLine || cmd is Print {
        lemma_saves_keep_cursor_on_screen(m, cmd);
    }
    if cmd is SetMouseTracking || cmd is SetBracketedPaste || cmd is MouseTracking || cmd is DeviceAttributes || cmd is DeviceStatusReport || cmd is SetGraphicsMode {
        lemma_parser_flags_keep_cursor_on_screen(m, cmd);
    }
    if cmd is ResetAttributes || cmd is SetBold || cmd is SetDim || cmd is SetItalic || cmd is SetUnderline || cmd is SetBlink || cmd is SetReverse || cmd is SetHidden || cmd is SetStrikethrough || cmd is SetForegroundColor || cmd is SetBackgroundColor || cmd is ResetForegroundColor || cmd is ResetBackgroundColor {
        lemma_attributes_keep_cursor_on_screen(m, cmd);
    }
    if cmd is SetApplicationCursorKeys || cmd is ResetApplicationCursorKeys || cmd is SetInsertMode || cmd is ResetInsertMode || cmd is SetReverseVideo || cmd is ResetReverseVideo || cmd is SetOriginMode || cmd is ResetOriginMode || cmd is SetAutoWrap || cmd is ResetAutoWrap || cmd is SetBlinkingCursor || cmd is ResetBlinkingCursor || cmd is ShowCursor || cmd is HideCursor {
        lemma_modes_keep_cursor_on_screen(m, cmd);
    }
}

/// Commands applied in order keep the size as it is and the cursor on the
/// screen.
pub proof fn lemma_commands_keep_cursor_on_screen(m: RendererModel, cmds: Seq<AnsiCommand>)
    requires
        m.size.0 >= 1,
        m.size.1 >= 1,
        cursor_on_screen(m),
    ensures
        apply_commands(m, cmds).size == m.size,
        cursor_on_screen(apply_commands(m, cmds)),
    decreases cmds.len(),
{
    if cmds.len() > 0 {
        lemma_commands_keep_cursor_on_screen(m, cmds.drop_last());
        lemma_command_keeps_cursor_on_screen(apply_commands(m, cmds.drop_last()), cmds.last());
    }
}

/// A fresh renderer has its cursor on the screen, and whatever input it
/// reads from then on leaves the cursor on the screen: below the last row
/// never, past the last column at most by one.
pub proof fn lemma_cursor_stays_on_screen(config: RendererConfig, inputs: Seq<Seq<u8>>)
    requires
        config.size.0 > 0,
        config.size.1 > 0,
    ensures
        cursor_on_screen(initial_model(config)),
        cursor_on_screen(process_all(initial_parser_model(), initial_model(config), inputs).1),
        process_all(initial_parser_model(), initial_model(config), inputs).1.size == config.size,
{
    lemma_inputs_keep_cursor_on_screen(initial_parser_model(), initial_model(config), inputs);
}

/// Reading the inputs of `inputs` one after the other.
pub open spec fn process_all(pm: ParserModel, m: RendererModel, inputs: Seq<Seq<u8>>) -> (ParserModel, RendererModel)
    decreases inputs.len(),
{
    if inputs.len() == 0 {
        (pm, m)
    } else {
        let (pm1, m1) = process_all(pm, m, inputs.drop_last());
        process(pm1, m1, inputs.last())
    }
}

/// Any inputs read one after the other keep the size as it is and the
/// cursor on the screen.
pub proof fn lemma_inputs_keep_cursor_on_screen(pm: ParserModel, m: RendererModel, inputs: Seq<Seq<u8>>)
    requires
        m.size.0 >= 1,
        m.size.1 >= 1,
        cursor_on_screen(m),
    ensures
        process_all(pm, m, inputs).1.size == m.size,
        cursor_on_screen(process_all(pm, m, inputs).1),
    decreases inputs.len(),
{
    if inputs.len() > 0 {
        lemma_inputs_keep_cursor_on_screen(pm, m, inputs.drop_last());
        let (pm1, m1) = process_all(pm, m, inputs.drop_last());
        lemma_commands_keep_cursor_on_screen(m1, run(pm1, inputs.last()).1);
    }
}


/// The vertical and horizontal cursor moves keep the cursor on the screen
/// when they start there.
pub proof fn lemma_moves_stay_on_screen(m: RendererModel, n: u32)
    requires
        model_wf(m),
        m.state.cursor_pos.0 < m.size.0,
        m.state.cursor_pos.1 < m.size.1,
    ensures
        cursor_up(m, n).state.cursor_pos.1 < m.size.1,
        cursor_down(m, n).state.cursor_pos.1 < m.size.1,
        cursor_forward(m, n).state.cursor_pos.0 < m.size.0,
        cursor_backward(m, n).state.cursor_pos.0 < m.size.0,
        cursor_column(m, n).state.cursor_pos.0 < m.size.0,
        cursor_position(m, n, n).state.cursor_pos.0 < m.size.0,
{
}

/// An erased cell is a blank: a space, default foreground on a black
/// background, no attributes, marked for redraw.
pub proof fn lemma_erased_cell_is_blank()
    ensures
        erased_cell().char == ' ',
        erased_cell().bg_color == (Color { r: 0, g: 0, b: 0, color_type: ColorType::Default }),
        erased_cell().fg_color == default_color(),
        erased_cell().attributes == plain_attributes(),
        erased_cell().dirty,
{
}

/// Erasing from the cursor to the end of the display (`ESC [ J`, mode 0)
/// with the cursor at column `col` of row `row`: every cell of every row
/// below the cursor and every cell of the cursor's row at or right of the
/// cursor becomes blank; every other cell stays as it was, and the screen
/// keeps its shape.
pub proof fn lemma_erase_to_end_of_display(m: RendererModel)
    ensures
        ({
            let g = active_grid(m);
            let g2 = active_grid(apply_command(m, AnsiCommand::EraseInDisplay(0)));
            let (col, row) = m.state.cursor_pos;
            &&& g2.len() == g.len()
            &&& forall|r: int| 0 <= r < g.len() ==> (#[trigger] g2[r]).len() == g[r].len()
            &&& forall|r: int, c: int| 0 <= r < g.len() && 0 <= c < g[r].len() && (r > row || (r == row && c >= col))
                ==> #[trigger] g2[r][c] == erased_cell()
            &&& forall|r: int, c: int| 0 <= r < g.len() && 0 <= c < g[r].len() && !(r > row || (r == row && c >= col))
                ==> #[trigger] g2[r][c] == g[r][c]
        }),
{
}

/// Erasing from the start of the display to the cursor (`ESC [ 1 J`):
/// every cell of every row above the cursor and every cell of the cursor's
/// row at or left of the cursor becomes blank; every other cell stays.
pub proof fn lemma_erase_to_start_of_display(m: RendererModel)
    ensures
        ({
            let g = active_grid(m);
            let g2 = active_grid(apply_command(m, AnsiCommand::EraseInDisplay(1)));
            let (col, row) = m.state.cursor_pos;
            &&& g2.len() == g.len()
            &&& forall|r: int| 0 <= r < g.len() ==> (#[trigger] g2[r]).len() == g[r].len()
            &&& forall|r: int, c: int| 0 <= r < g.len() && 0 <= c < g[r].len() && (r < row || (r == row && c <= col))
                ==> #[trigger] g2[r][c] == erased_cell()
            &&& forall|r: int, c: int| 0 <= r < g.len() && 0 <= c < g[r].len() && !(r < row || (r == row && c <= col))
                ==> #[trigger] g2[r][c] == g[r][c]
        }),
{
}

/// Resetting the background (`ESC [ 49 m`) makes it black of the default
/// kind, the same background that resetting all attributes gives, and
/// changes nothing else of the terminal state.
pub proof fn lemma_reset_background(m: RendererModel)
    ensures
        apply_command(m, AnsiCommand::ResetBackgroundColor).state
            == (TerminalState { bg_color: Color { r: 0, g: 0, b: 0, color_type: ColorType::Default }, ..m.state }),
        apply_command(m, AnsiCommand::ResetBackgroundColor).state.bg_color
            == apply_command(m, AnsiCommand::ResetAttributes).state.bg_color,
{
}

/// A fresh renderer with the default configuration has the same, black,
/// background that resetting the background gives.
pub proof fn lemma_default_background_is_reset_background(config: RendererConfig, m: RendererModel)
    requires
        config.default_bg_color == black(),
    ensures
        initial_model(config).state.bg_color == apply_command(m, AnsiCommand::ResetBackgroundColor).state.bg_color,
        initial_model(config).state.bg_color == (Color { r: 0, g: 0, b: 0, color_type: ColorType::Default }),
{
}

/// A command that only touches the terminal state changes the renderer's
/// state as `state_effect` says.
pub proof fn lemma_state_only(m: RendererModel, cmd: AnsiCommand)
    requires
        cmd is ResetAttributes || cmd is SetBold || cmd is SetDim || cmd is SetItalic || cmd is SetUnderline
            || cmd is SetBlink || cmd is SetReverse || cmd is SetHidden || cmd is SetStrikethrough
            || cmd is ResetForegroundColor || cmd is ResetBackgroundColor || cmd is SetAutoWrap || cmd is ResetAutoWrap
            || cmd is SetOriginMode || cmd is ResetOriginMode || cmd is SetInsertMode || cmd is ResetInsertMode
            || cmd is SetApplicationCursorKeys || cmd is ResetApplicationCursorKeys || cmd is ShowCursor || cmd is HideCursor,
    ensures
        apply_command(m, cmd).state == state_effect(m.state, m.palette, cmd),
{
}

/// (With `lemma_state_only`, these are what the commands do to a renderer.)
/// Each attribute command turns on its own attribute and only that one,
/// leaving the rest of the terminal state as it was; resetting all
/// attributes clears every one and restores the default white foreground
/// and black background; resetting the foreground gives white.
pub proof fn lemma_attribute_commands(st: TerminalState, palette: Map<u8, Color>)
    ensures
        ({
            let a = st.attributes;
            &&& state_effect(st, palette, AnsiCommand::SetBold) == (TerminalState { attributes: TextAttributes { bold: true, ..a }, ..st })
            &&& state_effect(st, palette, AnsiCommand::SetDim) == (TerminalState { attributes: TextAttributes { dim: true, ..a }, ..st })
            &&& state_effect(st, palette, AnsiCommand::SetItalic) == (TerminalState { attributes: TextAttributes { italic: true, ..a }, ..st })
            &&& state_effect(st, palette, AnsiCommand::SetUnderline) == (TerminalState { attributes: TextAttributes { underline: true, ..a }, ..st })
            &&& state_effect(st, palette, AnsiCommand::SetBlink) == (TerminalState { attributes: TextAttributes { blink: true, ..a }, ..st })
            &&& state_effect(st, palette, AnsiCommand::SetReverse) == (TerminalState { attributes: TextAttributes { reverse: true, ..a }, ..st })
            &&& state_effect(st, palette, AnsiCommand::SetHidden) == (TerminalState { attributes: TextAttributes { hidden: true, ..a }, ..st })
            &&& state_effect(st, palette, AnsiCommand::SetStrikethrough) == (TerminalState { attributes: TextAttributes { strikethrough: true, ..a }, ..st })
            &&& state_effect(st, palette, AnsiCommand::ResetAttributes) == (TerminalState {
                attributes: TextAttributes {
                    bold: false,
                    dim: false,
                    italic: false,
                    underline: false,
                    blink: false,
                    reverse: false,
                    hidden: false,
                    strikethrough: false,
                },
                fg_color: Color { r: 255, g: 255, b: 255, color_type: ColorType::Default },
                bg_color: Color { r: 0, g: 0, b: 0, color_type: ColorType::Default },
                ..st
            })
            &&& state_effect(st, palette, AnsiCommand::ResetForegroundColor)
                == (TerminalState { fg_color: Color { r: 255, g: 255, b: 255, color_type: ColorType::Default }, ..st })
        }),
{
}

/// Each mode command sets its own mode and only that one.
pub proof fn lemma_mode_commands(st: TerminalState, palette: Map<u8, Color>)
    ensures
        ({
            &&& state_effect(st, palette, AnsiCommand::SetAutoWrap) == (TerminalState { auto_wrap: true, ..st })
            &&& state_effect(st, palette, AnsiCommand::ResetAutoWrap) == (TerminalState { auto_wrap: false, ..st })
            &&& state_effect(st, palette, AnsiCommand::SetOriginMode) == (TerminalState { origin_mode: true, ..st })
            &&& state_effect(st, palette, AnsiCommand::ResetOriginMode) == (TerminalState { origin_mode: false, ..st })
            &&& state_effect(st, palette, AnsiCommand::SetInsertMode) == (TerminalState { insert_mode: true, ..st })
            &&& state_effect(st, palette, AnsiCommand::ResetInsertMode) == (TerminalState { insert_mode: false, ..st })
            &&& state_effect(st, palette, AnsiCommand::SetApplicationCursorKeys) == (TerminalState { app_cursor_keys: true, ..st })
            &&& state_effect(st, palette, AnsiCommand::ResetApplicationCursorKeys) == (TerminalState { app_cursor_keys: false, ..st })
            &&& state_effect(st, palette, AnsiCommand::ShowCursor) == (TerminalState { cursor_visible: true, ..st })
            &&& state_effect(st, palette, AnsiCommand::HideCursor) == (TerminalState { cursor_visible: false, ..st })
        }),
{
}

/// Erasing in the cursor's line (`ESC [ K`, `ESC [ 1 K`, `ESC [ 2 K`) with
/// the cursor on the screen at column `col` of row `row` blanks, on that row
/// only, the cells at or right of the cursor, at or left of it, or all of
/// them; every other cell stays as it was.
pub proof fn lemma_erase_in_line(m: RendererModel, mode: u32)
    requires
        m.state.cursor_pos.1 < m.size.1,
    ensures
        ({
            let g = active_grid(m);
            let g2 = active_grid(apply_command(m, AnsiCommand::EraseInLine(mode)));
            let (col, row) = m.state.cursor_pos;
            let erased = |r: int, c: int| r == row && (if mode == 0 { c >= col } else if mode == 1 { c <= col } else { mode == 2 });
            &&& g2.len() == g.len()
            &&& forall|r: int| 0 <= r < g.len() ==> (#[trigger] g2[r]).len() == g[r].len()
            &&& forall|r: int, c: int| 0 <= r < g.len() && 0 <= c < g[r].len() ==>
                #[trigger] g2[r][c] == (if erased(r, c) { erased_cell() } else { g[r][c] })
        }),
{
}

} // verus!
