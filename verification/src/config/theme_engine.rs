//! Themes: the colour schemes of the built-in themes.
use vstd::prelude::*;

verus! {

/// A colour scheme; every colour is 0xAARRGGBB.
#[derive(Debug, Clone, Copy)]
pub struct ColorScheme {
    /// Background
    pub background: u32,
    /// Foreground
    pub foreground: u32,
    /// Cursor
    pub cursor: u32,
    /// Selection background
    pub selection_background: u32,
    /// Selection foreground
    pub selection_foreground: u32,
    /// The 16 ANSI colours
    pub palette: [u32; 16],
    /// The 8 bright ANSI colours
    pub bright_palette: [u32; 8],
    /// The 8 dim ANSI colours
    pub dim_palette: [u32; 8],
}

impl Default for ColorScheme {
    /// The default dark scheme.
    fn default() -> (c: Self)
        ensures
            c.background == 0xFF1E1E1E,
            c.foreground == 0xFFD4D4D4,
            c.cursor == 0xFFFFFFFF,
            c.selection_background == 0xFF264F78,
            c.selection_foreground == 0xFFFFFFFF,
            c.palette@ == seq![0xFF000000u32, 0xFFCD3131u32, 0xFF0DBC79u32, 0xFFE5E510u32, 0xFF2472C8u32, 0xFFBC3FBCu32, 0xFF11A8CDu32, 0xFFE5E5E5u32, 0xFF666666u32, 0xFFF14C4Cu32, 0xFF23D18Bu32, 0xFFF5F543u32, 0xFF3B8EEAu32, 0xFFD670D6u32, 0xFF29B8DBu32, 0xFFFFFFFFu32],
            c.bright_palette@ == seq![0xFF666666u32, 0xFFF14C4Cu32, 0xFF23D18Bu32, 0xFFF5F543u32, 0xFF3B8EEAu32, 0xFFD670D6u32, 0xFF29B8DBu32, 0xFFFFFFFFu32],
            c.dim_palette@ == seq![0xFF000000u32, 0xFF8B0000u32, 0xFF006400u32, 0xFF8B8B00u32, 0xFF00008Bu32, 0xFF8B008Bu32, 0xFF008B8Bu32, 0xFF8B8B8Bu32],
    {
        let c = ColorScheme {
            background: 0xFF1E1E1E,
            foreground: 0xFFD4D4D4,
            cursor: 0xFFFFFFFF,
            selection_background: 0xFF264F78,
            selection_foreground: 0xFFFFFFFF,
            palette: [0xFF000000, 0xFFCD3131, 0xFF0DBC79, 0xFFE5E510, 0xFF2472C8, 0xFFBC3FBC, 0xFF11A8CD, 0xFFE5E5E5, 0xFF666666, 0xFFF14C4C, 0xFF23D18B, 0xFFF5F543, 0xFF3B8EEA, 0xFFD670D6, 0xFF29B8DB, 0xFFFFFFFF],
            bright_palette: [0xFF666666, 0xFFF14C4C, 0xFF23D18B, 0xFFF5F543, 0xFF3B8EEA, 0xFFD670D6, 0xFF29B8DB, 0xFFFFFFFF],
            dim_palette: [0xFF000000, 0xFF8B0000, 0xFF006400, 0xFF8B8B00, 0xFF00008B, 0xFF8B008B, 0xFF008B8B, 0xFF8B8B8B],
        };
        assert(c.palette@ =~= seq![0xFF000000u32, 0xFFCD3131u32, 0xFF0DBC79u32, 0xFFE5E510u32, 0xFF2472C8u32, 0xFFBC3FBCu32, 0xFF11A8CDu32, 0xFFE5E5E5u32, 0xFF666666u32, 0xFFF14C4Cu32, 0xFF23D18Bu32, 0xFFF5F543u32, 0xFF3B8EEAu32, 0xFFD670D6u32, 0xFF29B8DBu32, 0xFFFFFFFFu32]);
        assert(c.bright_palette@ =~= seq![0xFF666666u32, 0xFFF14C4Cu32, 0xFF23D18Bu32, 0xFFF5F543u32, 0xFF3B8EEAu32, 0xFFD670D6u32, 0xFF29B8DBu32, 0xFFFFFFFFu32]);
        assert(c.dim_palette@ =~= seq![0xFF000000u32, 0xFF8B0000u32, 0xFF006400u32, 0xFF8B8B00u32, 0xFF00008Bu32, 0xFF8B008Bu32, 0xFF008B8Bu32, 0xFF8B8B8Bu32]);
        c
    }
}

/// A scheme's colours in order: background, foreground, cursor, selection
/// background and foreground, then the palette, the bright palette and the
/// dim palette.
pub open spec fn scheme_values(c: ColorScheme) -> Seq<u32> {
    seq![c.background, c.foreground, c.cursor, c.selection_background, c.selection_foreground]
        + c.palette@ + c.bright_palette@ + c.dim_palette@
}

impl ColorScheme {
    /// The colours of the Default Light theme.
    pub fn default_light() -> (c: Self)
        ensures
            scheme_values(c) == seq![0xFFFFFFFFu32, 0xFF000000u32, 0xFF000000u32, 0xFFB3D4FCu32, 0xFF000000u32, 0xFF000000u32, 0xFFCD3131u32, 0xFF00BC00u32, 0xFF949800u32, 0xFF0451A5u32, 0xFFBC05BCu32, 0xFF0598BCu32, 0xFF555555u32, 0xFF666666u32, 0xFFCD3131u32, 0xFF14CE14u32, 0xFFB5BA00u32, 0xFF0451A5u32, 0xFFBC05BCu32, 0xFF0598BCu32, 0xFFA5A5A5u32, 0xFF666666u32, 0xFFCD3131u32, 0xFF14CE14u32, 0xFFB5BA00u32, 0xFF0451A5u32, 0xFFBC05BCu32, 0xFF0598BCu32, 0xFFA5A5A5u32, 0xFF000000u32, 0xFF8B0000u32, 0xFF006400u32, 0xFF8B8B00u32, 0xFF00008Bu32, 0xFF8B008Bu32, 0xFF008B8Bu32, 0xFF8B8B8Bu32],
    {
        let c = ColorScheme {
            background: 0xFFFFFFFF,
            foreground: 0xFF000000,
            cursor: 0xFF000000,
            selection_background: 0xFFB3D4FC,
            selection_foreground: 0xFF000000,
            palette: [0xFF000000, 0xFFCD3131, 0xFF00BC00, 0xFF949800, 0xFF0451A5, 0xFFBC05BC, 0xFF0598BC, 0xFF555555, 0xFF666666, 0xFFCD3131, 0xFF14CE14, 0xFFB5BA00, 0xFF0451A5, 0xFFBC05BC, 0xFF0598BC, 0xFFA5A5A5],
            bright_palette: [0xFF666666, 0xFFCD3131, 0xFF14CE14, 0xFFB5BA00, 0xFF0451A5, 0xFFBC05BC, 0xFF0598BC, 0xFFA5A5A5],
            dim_palette: [0xFF000000, 0xFF8B0000, 0xFF006400, 0xFF8B8B00, 0xFF00008B, 0xFF8B008B, 0xFF008B8B, 0xFF8B8B8B],
        };
        assert(scheme_values(c) =~= seq![0xFFFFFFFFu32, 0xFF000000u32, 0xFF000000u32, 0xFFB3D4FCu32, 0xFF000000u32, 0xFF000000u32, 0xFFCD3131u32, 0xFF00BC00u32, 0xFF949800u32, 0xFF0451A5u32, 0xFFBC05BCu32, 0xFF0598BCu32, 0xFF555555u32, 0xFF666666u32, 0xFFCD3131u32, 0xFF14CE14u32, 0xFFB5BA00u32, 0xFF0451A5u32, 0xFFBC05BCu32, 0xFF0598BCu32, 0xFFA5A5A5u32, 0xFF666666u32, 0xFFCD3131u32, 0xFF14CE14u32, 0xFFB5BA00u32, 0xFF0451A5u32, 0xFFBC05BCu32, 0xFF0598BCu32, 0xFFA5A5A5u32, 0xFF000000u32, 0xFF8B0000u32, 0xFF006400u32, 0xFF8B8B00u32, 0xFF00008Bu32, 0xFF8B008Bu32, 0xFF008B8Bu32, 0xFF8B8B8Bu32]);
        c
    }

    /// The colours of the Dracula theme.
    pub fn dracula() -> (c: Self)
        ensures
            scheme_values(c) == seq![0xFF282A36u32, 0xFFF8F8F2u32, 0xFFF8F8F2u32, 0xFF44475Au32, 0xFFF8F8F2u32, 0xFF000000u32, 0xFFFF5555u32, 0xFF50FA7Bu32, 0xFFFFB86Cu32, 0xFFBD93F9u32, 0xFFFF79C6u32, 0xFF8BE9FDu32, 0xFFBFBFBFu32, 0xFF4D4D4Du32, 0xFFFF6E6Eu32, 0xFF69FF94u32, 0xFFFFCB8Bu32, 0xFFD6ACFFu32, 0xFFFF92DFu32, 0xFFA4FFFFu32, 0xFFFFFFFFu32, 0xFF4D4D4Du32, 0xFFFF6E6Eu32, 0xFF69FF94u32, 0xFFFFCB8Bu32, 0xFFD6ACFFu32, 0xFFFF92DFu32, 0xFFA4FFFFu32, 0xFFFFFFFFu32, 0xFF000000u32, 0xFF8B0000u32, 0xFF006400u32, 0xFF8B8B00u32, 0xFF00008Bu32, 0xFF8B008Bu32, 0xFF008B8Bu32, 0xFF8B8B8Bu32],
    {
        let c = ColorScheme {
            background: 0xFF282A36,
            foreground: 0xFFF8F8F2,
            cursor: 0xFFF8F8F2,
            selection_background: 0xFF44475A,
            selection_foreground: 0xFFF8F8F2,
            palette: [0xFF000000, 0xFFFF5555, 0xFF50FA7B, 0xFFFFB86C, 0xFFBD93F9, 0xFFFF79C6, 0xFF8BE9FD, 0xFFBFBFBF, 0xFF4D4D4D, 0xFFFF6E6E, 0xFF69FF94, 0xFFFFCB8B, 0xFFD6ACFF, 0xFFFF92DF, 0xFFA4FFFF, 0xFFFFFFFF],
            bright_palette: [0xFF4D4D4D, 0xFFFF6E6E, 0xFF69FF94, 0xFFFFCB8B, 0xFFD6ACFF, 0xFFFF92DF, 0xFFA4FFFF, 0xFFFFFFFF],
            dim_palette: [0xFF000000, 0xFF8B0000, 0xFF006400, 0xFF8B8B00, 0xFF00008B, 0xFF8B008B, 0xFF008B8B, 0xFF8B8B8B],
        };
        assert(scheme_values(c) =~= seq![0xFF282A36u32, 0xFFF8F8F2u32, 0xFFF8F8F2u32, 0xFF44475Au32, 0xFFF8F8F2u32, 0xFF000000u32, 0xFFFF5555u32, 0xFF50FA7Bu32, 0xFFFFB86Cu32, 0xFFBD93F9u32, 0xFFFF79C6u32, 0xFF8BE9FDu32, 0xFFBFBFBFu32, 0xFF4D4D4Du32, 0xFFFF6E6Eu32, 0xFF69FF94u32, 0xFFFFCB8Bu32, 0xFFD6ACFFu32, 0xFFFF92DFu32, 0xFFA4FFFFu32, 0xFFFFFFFFu32, 0xFF4D4D4Du32, 0xFFFF6E6Eu32, 0xFF69FF94u32, 0xFFFFCB8Bu32, 0xFFD6ACFFu32, 0xFFFF92DFu32, 0xFFA4FFFFu32, 0xFFFFFFFFu32, 0xFF000000u32, 0xFF8B0000u32, 0xFF006400u32, 0xFF8B8B00u32, 0xFF00008Bu32, 0xFF8B008Bu32, 0xFF008B8Bu32, 0xFF8B8B8Bu32]);
        c
    }

    /// The colours of the Solarized Dark theme.
    pub fn solarized_dark() -> (c: Self)
        ensures
            scheme_values(c) == seq![0xFF002B36u32, 0xFF839496u32, 0xFF93A1A1u32, 0xFF073642u32, 0xFF93A1A1u32, 0xFF073642u32, 0xFFDC322Fu32, 0xFF859900u32, 0xFFB58900u32, 0xFF268BD2u32, 0xFFD33682u32, 0xFF2AA198u32, 0xFFEEE8D5u32, 0xFF002B36u32, 0xFFCB4B16u32, 0xFF586E75u32, 0xFF657B83u32, 0xFF839496u32, 0xFF6C71C4u32, 0xFF93A1A1u32, 0xFFFDF6E3u32, 0xFF002B36u32, 0xFFCB4B16u32, 0xFF586E75u32, 0xFF657B83u32, 0xFF839496u32, 0xFF6C71C4u32, 0xFF93A1A1u32, 0xFFFDF6E3u32, 0xFF073642u32, 0xFF8B0000u32, 0xFF006400u32, 0xFF8B8B00u32, 0xFF00008Bu32, 0xFF8B008Bu32, 0xFF008B8Bu32, 0xFF8B8B8Bu32],
    {
        let c = ColorScheme {
            background: 0xFF002B36,
            foreground: 0xFF839496,
            cursor: 0xFF93A1A1,
            selection_background: 0xFF073642,
            selection_foreground: 0xFF93A1A1,
            palette: [0xFF073642, 0xFFDC322F, 0xFF859900, 0xFFB58900, 0xFF268BD2, 0xFFD33682, 0xFF2AA198, 0xFFEEE8D5, 0xFF002B36, 0xFFCB4B16, 0xFF586E75, 0xFF657B83, 0xFF839496, 0xFF6C71C4, 0xFF93A1A1, 0xFFFDF6E3],
            bright_palette: [0xFF002B36, 0xFFCB4B16, 0xFF586E75, 0xFF657B83, 0xFF839496, 0xFF6C71C4, 0xFF93A1A1, 0xFFFDF6E3],
            dim_palette: [0xFF073642, 0xFF8B0000, 0xFF006400, 0xFF8B8B00, 0xFF00008B, 0xFF8B008B, 0xFF008B8B, 0xFF8B8B8B],
        };
        assert(scheme_values(c) =~= seq![0xFF002B36u32, 0xFF839496u32, 0xFF93A1A1u32, 0xFF073642u32, 0xFF93A1A1u32, 0xFF073642u32, 0xFFDC322Fu32, 0xFF859900u32, 0xFFB58900u32, 0xFF268BD2u32, 0xFFD33682u32, 0xFF2AA198u32, 0xFFEEE8D5u32, 0xFF002B36u32, 0xFFCB4B16u32, 0xFF586E75u32, 0xFF657B83u32, 0xFF839496u32, 0xFF6C71C4u32, 0xFF93A1A1u32, 0xFFFDF6E3u32, 0xFF002B36u32, 0xFFCB4B16u32, 0xFF586E75u32, 0xFF657B83u32, 0xFF839496u32, 0xFF6C71C4u32, 0xFF93A1A1u32, 0xFFFDF6E3u32, 0xFF073642u32, 0xFF8B0000u32, 0xFF006400u32, 0xFF8B8B00u32, 0xFF00008Bu32, 0xFF8B008Bu32, 0xFF008B8Bu32, 0xFF8B8B8Bu32]);
        c
    }

    /// The colours of the Solarized Light theme.
    pub fn solarized_light() -> (c: Self)
        ensures
            scheme_values(c) == seq![0xFFFDF6E3u32, 0xFF657B83u32, 0xFF586E75u32, 0xFFEEE8D5u32, 0xFF586E75u32, 0xFFEEE8D5u32, 0xFFDC322Fu32, 0xFF859900u32, 0xFFB58900u32, 0xFF268BD2u32, 0xFFD33682u32, 0xFF2AA198u32, 0xFF073642u32, 0xFFFDF6E3u32, 0xFFCB4B16u32, 0xFF93A1A1u32, 0xFF839496u32, 0xFF657B83u32, 0xFF6C71C4u32, 0xFF586E75u32, 0xFF002B36u32, 0xFFFDF6E3u32, 0xFFCB4B16u32, 0xFF93A1A1u32, 0xFF839496u32, 0xFF657B83u32, 0xFF6C71C4u32, 0xFF586E75u32, 0xFF002B36u32, 0xFFEEE8D5u32, 0xFF8B0000u32, 0xFF006400u32, 0xFF8B8B00u32, 0xFF00008Bu32, 0xFF8B008Bu32, 0xFF008B8Bu32, 0xFF8B8B8Bu32],
    {
        let c = ColorScheme {
            background: 0xFFFDF6E3,
            foreground: 0xFF657B83,
            cursor: 0xFF586E75,
            selection_background: 0xFFEEE8D5,
            selection_foreground: 0xFF586E75,
            palette: [0xFFEEE8D5, 0xFFDC322F, 0xFF859900, 0xFFB58900, 0xFF268BD2, 0xFFD33682, 0xFF2AA198, 0xFF073642, 0xFFFDF6E3, 0xFFCB4B16, 0xFF93A1A1, 0xFF839496, 0xFF657B83, 0xFF6C71C4, 0xFF586E75, 0xFF002B36],
            bright_palette: [0xFFFDF6E3, 0xFFCB4B16, 0xFF93A1A1, 0xFF839496, 0xFF657B83, 0xFF6C71C4, 0xFF586E75, 0xFF002B36],
            dim_palette: [0xFFEEE8D5, 0xFF8B0000, 0xFF006400, 0xFF8B8B00, 0xFF00008B, 0xFF8B008B, 0xFF008B8B, 0xFF8B8B8B],
        };
        assert(scheme_values(c) =~= seq![0xFFFDF6E3u32, 0xFF657B83u32, 0xFF586E75u32, 0xFFEEE8D5u32, 0xFF586E75u32, 0xFFEEE8D5u32, 0xFFDC322Fu32, 0xFF859900u32, 0xFFB58900u32, 0xFF268BD2u32, 0xFFD33682u32, 0xFF2AA198u32, 0xFF073642u32, 0xFFFDF6E3u32, 0xFFCB4B16u32, 0xFF93A1A1u32, 0xFF839496u32, 0xFF657B83u32, 0xFF6C71C4u32, 0xFF586E75u32, 0xFF002B36u32, 0xFFFDF6E3u32, 0xFFCB4B16u32, 0xFF93A1A1u32, 0xFF839496u32, 0xFF657B83u32, 0xFF6C71C4u32, 0xFF586E75u32, 0xFF002B36u32, 0xFFEEE8D5u32, 0xFF8B0000u32, 0xFF006400u32, 0xFF8B8B00u32, 0xFF00008Bu32, 0xFF8B008Bu32, 0xFF008B8Bu32, 0xFF8B8B8Bu32]);
        c
    }

    /// The colours of the Gruvbox Dark theme.
    pub fn gruvbox_dark() -> (c: Self)
        ensures
            scheme_values(c) == seq![0xFF282828u32, 0xFFEBDBB2u32, 0xFFEBDBB2u32, 0xFF3C3836u32, 0xFFEBDBB2u32, 0xFF282828u32, 0xFFCC241Du32, 0xFF98971Au32, 0xFFD79921u32, 0xFF458588u32, 0xFFB16286u32, 0xFF689D6Au32, 0xFFA89984u32, 0xFF928374u32, 0xFFFB4934u32, 0xFFB8BB26u32, 0xFFFABD2Fu32, 0xFF83A598u32, 0xFFD3869Bu32, 0xFF8EC07Cu32, 0xFFEBDBB2u32, 0xFF928374u32, 0xFFFB4934u32, 0xFFB8BB26u32, 0xFFFABD2Fu32, 0xFF83A598u32, 0xFFD3869Bu32, 0xFF8EC07Cu32, 0xFFEBDBB2u32, 0xFF282828u32, 0xFF8B0000u32, 0xFF006400u32, 0xFF8B8B00u32, 0xFF00008Bu32, 0xFF8B008Bu32, 0xFF008B8Bu32, 0xFF8B8B8Bu32],
    {
        let c = ColorScheme {
            background: 0xFF282828,
            foreground: 0xFFEBDBB2,
            cursor: 0xFFEBDBB2,
            selection_background: 0xFF3C3836,
            selection_foreground: 0xFFEBDBB2,
            palette: [0xFF282828, 0xFFCC241D, 0xFF98971A, 0xFFD79921, 0xFF458588, 0xFFB16286, 0xFF689D6A, 0xFFA89984, 0xFF928374, 0xFFFB4934, 0xFFB8BB26, 0xFFFABD2F, 0xFF83A598, 0xFFD3869B, 0xFF8EC07C, 0xFFEBDBB2],
            bright_palette: [0xFF928374, 0xFFFB4934, 0xFFB8BB26, 0xFFFABD2F, 0xFF83A598, 0xFFD3869B, 0xFF8EC07C, 0xFFEBDBB2],
            dim_palette: [0xFF282828, 0xFF8B0000, 0xFF006400, 0xFF8B8B00, 0xFF00008B, 0xFF8B008B, 0xFF008B8B, 0xFF8B8B8B],
        };
        assert(scheme_values(c) =~= seq![0xFF282828u32, 0xFFEBDBB2u32, 0xFFEBDBB2u32, 0xFF3C3836u32, 0xFFEBDBB2u32, 0xFF282828u32, 0xFFCC241Du32, 0xFF98971Au32, 0xFFD79921u32, 0xFF458588u32, 0xFFB16286u32, 0xFF689D6Au32, 0xFFA89984u32, 0xFF928374u32, 0xFFFB4934u32, 0xFFB8BB26u32, 0xFFFABD2Fu32, 0xFF83A598u32, 0xFFD3869Bu32, 0xFF8EC07Cu32, 0xFFEBDBB2u32, 0xFF928374u32, 0xFFFB4934u32, 0xFFB8BB26u32, 0xFFFABD2Fu32, 0xFF83A598u32, 0xFFD3869Bu32, 0xFF8EC07Cu32, 0xFFEBDBB2u32, 0xFF282828u32, 0xFF8B0000u32, 0xFF006400u32, 0xFF8B8B00u32, 0xFF00008Bu32, 0xFF8B008Bu32, 0xFF008B8Bu32, 0xFF8B8B8Bu32]);
        c
    }

    /// The colours of the Nord theme.
    pub fn nord() -> (c: Self)
        ensures
            scheme_values(c) == seq![0xFF2E3440u32, 0xFFECEFF4u32, 0xFFECEFF4u32, 0xFF3B4252u32, 0xFFECEFF4u32, 0xFF2E3440u32, 0xFFBF616Au32, 0xFFA3BE8Cu32, 0xFFEBCB8Bu32, 0xFF81A1C1u32, 0xFFB48EADu32, 0xFF88C0D0u32, 0xFFECEFF4u32, 0xFF4C566Au32, 0xFFBF616Au32, 0xFFA3BE8Cu32, 0xFFEBCB8Bu32, 0xFF81A1C1u32, 0xFFB48EADu32, 0xFF88C0D0u32, 0xFFECEFF4u32, 0xFF4C566Au32, 0xFFBF616Au32, 0xFFA3BE8Cu32, 0xFFEBCB8Bu32, 0xFF81A1C1u32, 0xFFB48EADu32, 0xFF88C0D0u32, 0xFFECEFF4u32, 0xFF2E3440u32, 0xFF8B0000u32, 0xFF006400u32, 0xFF8B8B00u32, 0xFF00008Bu32, 0xFF8B008Bu32, 0xFF008B8Bu32, 0xFF8B8B8Bu32],
    {
        let c = ColorScheme {
            background: 0xFF2E3440,
            foreground: 0xFFECEFF4,
            cursor: 0xFFECEFF4,
            selection_background: 0xFF3B4252,
            selection_foreground: 0xFFECEFF4,
            palette: [0xFF2E3440, 0xFFBF616A, 0xFFA3BE8C, 0xFFEBCB8B, 0xFF81A1C1, 0xFFB48EAD, 0xFF88C0D0, 0xFFECEFF4, 0xFF4C566A, 0xFFBF616A, 0xFFA3BE8C, 0xFFEBCB8B, 0xFF81A1C1, 0xFFB48EAD, 0xFF88C0D0, 0xFFECEFF4],
            bright_palette: [0xFF4C566A, 0xFFBF616A, 0xFFA3BE8C, 0xFFEBCB8B, 0xFF81A1C1, 0xFFB48EAD, 0xFF88C0D0, 0xFFECEFF4],
            dim_palette: [0xFF2E3440, 0xFF8B0000, 0xFF006400, 0xFF8B8B00, 0xFF00008B, 0xFF8B008B, 0xFF008B8B, 0xFF8B8B8B],
        };
        assert(scheme_values(c) =~= seq![0xFF2E3440u32, 0xFFECEFF4u32, 0xFFECEFF4u32, 0xFF3B4252u32, 0xFFECEFF4u32, 0xFF2E3440u32, 0xFFBF616Au32, 0xFFA3BE8Cu32, 0xFFEBCB8Bu32, 0xFF81A1C1u32, 0xFFB48EADu32, 0xFF88C0D0u32, 0xFFECEFF4u32, 0xFF4C566Au32, 0xFFBF616Au32, 0xFFA3BE8Cu32, 0xFFEBCB8Bu32, 0xFF81A1C1u32, 0xFFB48EADu32, 0xFF88C0D0u32, 0xFFECEFF4u32, 0xFF4C566Au32, 0xFFBF616Au32, 0xFFA3BE8Cu32, 0xFFEBCB8Bu32, 0xFF81A1C1u32, 0xFFB48EADu32, 0xFF88C0D0u32, 0xFFECEFF4u32, 0xFF2E3440u32, 0xFF8B0000u32, 0xFF006400u32, 0xFF8B8B00u32, 0xFF00008Bu32, 0xFF8B008Bu32, 0xFF008B8Bu32, 0xFF8B8B8Bu32]);
        c
    }
}

} // verus!
