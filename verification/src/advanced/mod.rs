//! Kinds shared by the advanced terminal features: image formats, link
//! kinds, highlighting kinds, search and selection modes, paste protection
//! levels and input methods.
use vstd::prelude::*;

pub mod input_method;

verus! {

/// Image formats.
#[derive(Debug, Clone, Copy, PartialEq, Eq, Structural)]
pub enum ImageFormat {
    /// Sixel
    Sixel,
    /// Kitty graphics protocol
    Kitty,
    /// iTerm2 inline images
    ITerm2,
    /// PNG
    PNG,
    /// JPEG
    JPEG,
    /// GIF
    GIF,
}

/// Hyperlink types.
#[derive(Debug, Clone, Copy, PartialEq, Eq, Structural)]
pub enum HyperlinkType {
    /// HTTP/HTTPS link
    Http,
    /// FTP link
    Ftp,
    /// File link
    File,
    /// Mail link
    Mailto,
    /// Any other link
    Other,
}

/// Semantic highlighting types.
#[derive(Debug, Clone, Copy, PartialEq, Eq, Structural)]
pub enum SemanticType {
    /// Keyword
    Keyword,
    /// String literal
    String,
    /// Comment
    Comment,
    /// Number
    Number,
    /// Function
    Function,
    /// Variable
    Variable,
    /// Class
    Class,
    /// Operator
    Operator,
}

/// Search modes.
#[derive(Debug, Clone, Copy, PartialEq, Eq, Structural)]
pub enum SearchMode {
    /// Plain search
    Normal,
    /// Regular expression search
    Regex,
    /// Search ignoring case
    CaseInsensitive,
    /// Whole-word search
    WordBoundary,
}

/// Selection modes.
#[derive(Debug, Clone, Copy, PartialEq, Eq, Structural)]
pub enum SelectionMode {
    /// Character selection
    Normal,
    /// Line selection
    Line,
    /// Rectangular selection
    Rectangle,
    /// Word selection
    Word,
}

/// Paste protection levels.
#[derive(Debug, Clone, Copy, PartialEq, Eq, Structural)]
pub enum PasteProtectionLevel {
    /// No protection
    Off,
    /// Low protection
    Low,
    /// Medium protection
    Medium,
    /// High protection
    High,
}

/// Input method types.
#[derive(Debug, Clone, Copy, PartialEq, Eq, Structural)]
pub enum InputMethodType {
    /// Input method editor
    IME,
    /// Voice input
    Voice,
    /// Handwriting input
    Handwriting,
    /// Predictive input
    Prediction,
}

} // verus!
