//! Inline images: decoded image data, metadata, the renderer's state and
//! parsers for the Sixel, Kitty and iTerm2 image protocols. The parsers do
//! not decode pixels yet: each yields an empty image.
use crate::advanced::ImageFormat;
use std::collections::HashMap;
use vstd::prelude::*;

verus! {

/// Decoded image data.
#[derive(Debug, Clone)]
pub struct ProcessedImageData {
    /// Width
    pub width: u32,
    /// Height
    pub height: u32,
    /// Pixel data
    pub pixel_data: Vec<u8>,
    /// Format
    pub format: ImageFormat,
}

/// Image metadata.
#[derive(Debug)]
pub struct ImageMetadata {
    /// Image name
    pub name: String,
    /// Image size
    pub size: (u32, u32),
    /// Image format
    pub format: ImageFormat,
    /// Further metadata
    pub custom_metadata: HashMap<String, String>,
}

impl Clone for ImageMetadata {
    fn clone(&self) -> (c: Self)
        ensures
            c.name@ == self.name@,
            c.size == self.size,
            c.format == self.format,
    {
        ImageMetadata {
            name: self.name.clone(),
            size: self.size,
            format: self.format,
            custom_metadata: self.custom_metadata.clone(),
        }
    }
}

/// Image renderer.
#[derive(Debug)]
pub struct ImageRenderer {
    initialized: bool,
}

impl ImageRenderer {
    /// Whether it has been initialised.
    pub closed spec fn is_initialized(self) -> bool {
        self.initialized
    }

    /// A renderer not yet initialised.
    pub fn new() -> (r: Self)
        ensures
            !r.is_initialized(),
    {
        ImageRenderer { initialized: false }
    }

    /// Initialises the renderer.
    pub fn initialize(&mut self)
        ensures
            final(self).is_initialized(),
    {
        self.initialized = true;
    }

    /// Shuts the renderer down.
    pub fn shutdown(&mut self)
        ensures
            !final(self).is_initialized(),
    {
        self.initialized = false;
    }
}

/// Sixel parser states.
#[derive(Debug, Clone, Copy, PartialEq, Eq, Structural)]
pub enum SixelParserState {
    /// Nothing read yet
    Initial,
    /// Reading parameters
    ParsingParameters,
    /// Reading pixel data
    ParsingPixels,
    /// Done
    Finished,
}

/// Image data read by the Sixel parser.
#[derive(Debug, Clone)]
pub struct SixelPixels {
    /// Width
    pub width: u32,
    /// Height
    pub height: u32,
    /// Image data
    pub data: Vec<u8>,
}

/// Sixel parser.
pub struct SixelParser {
    state: SixelParserState,
}

impl SixelParser {
    /// The parser's state.
    pub closed spec fn parse_state(self) -> SixelParserState {
        self.state
    }

    /// A parser in its initial state.
    pub fn new() -> (p: Self)
        ensures
            p.parse_state() == SixelParserState::Initial,
    {
        SixelParser { state: SixelParserState::Initial }
    }

    /// Parses `data`: pixels are not decoded yet, so the image is empty
    /// (no width, height or data) and the state unchanged.
    pub fn parse(&mut self, data: &[u8]) -> (r: SixelPixels)
        ensures
            r.width == 0,
            r.height == 0,
            r.data@.len() == 0,
            final(self).parse_state() == old(self).parse_state(),
    {
        SixelPixels { width: 0, height: 0, data: Vec::new() }
    }
}

/// Kitty graphics protocol parser states.
#[derive(Debug, Clone, Copy, PartialEq, Eq, Structural)]
pub enum KittyParserState {
    /// Nothing read yet
    Initial,
    /// Reading the header
    ParsingHeader,
    /// Reading image data
    ParsingData,
    /// Done
    Finished,
}

/// Image data read by the Kitty graphics protocol parser.
#[derive(Debug, Clone)]
pub struct KittyImageData {
    /// Width
    pub width: u32,
    /// Height
    pub height: u32,
    /// Image data
    pub data: Vec<u8>,
}

/// Kitty graphics protocol parser.
pub struct KittyParser {
    state: KittyParserState,
}

impl KittyParser {
    /// The parser's state.
    pub closed spec fn parse_state(self) -> KittyParserState {
        self.state
    }

    /// A parser in its initial state.
    pub fn new() -> (p: Self)
        ensures
            p.parse_state() == KittyParserState::Initial,
    {
        KittyParser { state: KittyParserState::Initial }
    }

    /// Parses `data`: pixels are not decoded yet, so the image is empty
    /// (no width, height or data) and the state unchanged.
    pub fn parse(&mut self, data: &[u8]) -> (r: KittyImageData)
        ensures
            r.width == 0,
            r.height == 0,
            r.data@.len() == 0,
            final(self).parse_state() == old(self).parse_state(),
    {
        KittyImageData { width: 0, height: 0, data: Vec::new() }
    }
}

/// iTerm2 inline image parser states.
#[derive(Debug, Clone, Copy, PartialEq, Eq, Structural)]
pub enum ITerm2ParserState {
    /// Nothing read yet
    Initial,
    /// Reading the header
    ParsingHeader,
    /// Reading image data
    ParsingData,
    /// Done
    Finished,
}

/// Image data read by the iTerm2 inline image parser.
#[derive(Debug, Clone)]
pub struct ITerm2ImageData {
    /// Width
    pub width: u32,
    /// Height
    pub height: u32,
    /// Image data
    pub data: Vec<u8>,
}

/// iTerm2 inline image parser.
pub struct ITerm2Parser {
    state: ITerm2ParserState,
}

impl ITerm2Parser {
    /// The parser's state.
    pub closed spec fn parse_state(self) -> ITerm2ParserState {
        self.state
    }

    /// A parser in its initial state.
    pub fn new() -> (p: Self)
        ensures
            p.parse_state() == ITerm2ParserState::Initial,
    {
        ITerm2Parser { state: ITerm2ParserState::Initial }
    }

    /// Parses `data`: pixels are not decoded yet, so the image is empty
    /// (no width, height or data) and the state unchanged.
    pub fn parse(&mut self, data: &[u8]) -> (r: ITerm2ImageData)
        ensures
            r.width == 0,
            r.height == 0,
            r.data@.len() == 0,
            final(self).parse_state() == old(self).parse_state(),
    {
        ITerm2ImageData { width: 0, height: 0, data: Vec::new() }
    }
}

/// Image data of `format` as decoded: with no pixel decoder attached, an
/// empty image.
pub open spec fn decoded(r: ProcessedImageData, format: ImageFormat) -> bool {
    r.width == 0 && r.height == 0 && r.pixel_data@.len() == 0 && r.format == format
}

/// Decodes Sixel image data with a fresh Sixel parser.
pub fn process_sixel_data(data: &[u8]) -> (r: ProcessedImageData)
    ensures
        decoded(r, ImageFormat::Sixel),
{
    let mut parser = SixelParser::new();
    let pixels = parser.parse(data);
    ProcessedImageData {
        width: pixels.width,
        height: pixels.height,
        pixel_data: pixels.data,
        format: ImageFormat::Sixel,
    }
}

/// Decodes Kitty image data with a fresh Kitty parser.
pub fn process_kitty_data(data: &[u8]) -> (r: ProcessedImageData)
    ensures
        decoded(r, ImageFormat::Kitty),
{
    let mut parser = KittyParser::new();
    let image = parser.parse(data);
    ProcessedImageData {
        width: image.width,
        height: image.height,
        pixel_data: image.data,
        format: ImageFormat::Kitty,
    }
}

/// Decodes iTerm2 image data with a fresh iTerm2 parser.
pub fn process_iterm2_data(data: &[u8]) -> (r: ProcessedImageData)
    ensures
        decoded(r, ImageFormat::ITerm2),
{
    let mut parser = ITerm2Parser::new();
    let image = parser.parse(data);
    ProcessedImageData {
        width: image.width,
        height: image.height,
        pixel_data: image.data,
        format: ImageFormat::ITerm2,
    }
}

/// Decodes image data of `format`: by its protocol's parser for Sixel,
/// Kitty and iTerm2 data; PNG, JPEG and GIF data have no decoder attached.
pub fn process_image_data(data: &[u8], format: ImageFormat) -> (r: ProcessedImageData)
    ensures
        decoded(r, format),
{
    match format {
        ImageFormat::Sixel => process_sixel_data(data),
        ImageFormat::Kitty => process_kitty_data(data),
        ImageFormat::ITerm2 => process_iterm2_data(data),
        _ => ProcessedImageData { width: 0, height: 0, pixel_data: Vec::new(), format },
    }
}

} // verus!
