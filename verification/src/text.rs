//! Text utilities and font management.
//!
//! A [`Font`] follows the same ownership pattern as a texture: loaded
//! through the window, counted against it, and released only by handing
//! the handle back to [`Window::unload_font`].

use crate::color::Color;
use crate::drawing::Canvas;
use crate::foreign::has_nul_byte;
use crate::foreign::spec_c_bytes;
use crate::foreign::to_c_bytes;
use crate::foreign::Call;
use crate::foreign::ForeignCall;
use crate::math::Rectangle;
use crate::math::Scalar;
use crate::math::Vector2;
use crate::texture::RawTexture;
use crate::window::Window;
use vstd::prelude::*;
use vstd::string::StringSliceAdditionalSpecFns;

verus! {

/// Kinds of font loading errors.
#[derive(Clone, Copy, Debug, Eq, PartialEq, Structural)]
pub enum LoadFontError {
    /// The foreign loader could not read or decode the file.
    ReadFailed,
    /// The path contains a zero byte, which the foreign string
    /// convention cannot represent.
    InvalidPath,
}

/// The plain record the foreign font loader returns: the glyph atlas
/// texture and the font metrics. An atlas identifier of zero is the
/// loader's sentinel for failure.
#[derive(Clone, Copy, Debug, Eq, PartialEq, Structural)]
pub struct RawFont {
    pub texture: RawTexture,
    pub base_size: i32,
    pub chars_count: i32,
}

/// A font loaded through the window, with its GPU-resident glyph atlas.
pub struct Font {
    raw: RawFont,
}

impl Font {
    /// The foreign identifier of the font's glyph atlas texture.
    pub closed spec fn spec_id(self) -> u32 {
        self.raw.texture.id
    }

    /// The font's base glyph size.
    pub closed spec fn spec_base_size(self) -> i32 {
        self.raw.base_size
    }

    /// A font handle only exists for a load that succeeded.
    #[verifier::type_invariant]
    spec fn wf(self) -> bool {
        self.raw.texture.id != 0
    }

    /// The foreign identifier of the font's glyph atlas texture.
    pub fn get_id(&self) -> (r: u32)
        ensures
            r == self.spec_id(),
    {
        self.raw.texture.id
    }

    /// The font's base glyph size.
    pub fn base_size(&self) -> (r: i32)
        ensures
            r == self.spec_base_size(),
    {
        self.raw.base_size
    }
}

impl Canvas {
    /// Shows the current frames-per-second counter.
    pub fn draw_fps(&mut self, x: i32, y: i32)
        ensures
            final(self)@ == old(self)@ + seq![Call::DrawFps { x, y }],
    {
        self.record(ForeignCall::DrawFps { x, y });
    }

    /// Draws text using the default font.
    ///
    /// Returns whether the text was drawable: text with a zero byte
    /// cannot cross the foreign string boundary, is refused, and leaves
    /// the frame unchanged.
    pub fn draw_text(&mut self, text: &str, x: i32, y: i32, size: i32, color: Color) -> (drawn:
        bool)
        ensures
            drawn == !has_nul_byte(text.spec_bytes()),
            drawn ==> final(self)@ == old(self)@ + seq![
                Call::DrawText { text: spec_c_bytes(text.spec_bytes()), x, y, size, color },
            ],
            !drawn ==> final(self)@ == old(self)@,
    {
        match to_c_bytes(text) {
            None => false,
            Some(ctext) => {
                self.record(ForeignCall::DrawText { text: ctext, x, y, size, color });
                true
            },
        }
    }

    /// Draws text with a loaded font, position, size and spacing.
    ///
    /// Returns whether the text was drawable, as for
    /// [`Canvas::draw_text`].
    pub fn draw_text_ex(
        &mut self,
        font: &Font,
        text: &str,
        position: Vector2,
        size: Scalar,
        spacing: Scalar,
        color: Color,
    ) -> (drawn: bool)
        ensures
            drawn == !has_nul_byte(text.spec_bytes()),
            drawn ==> final(self)@ == old(self)@ + seq![
                Call::DrawTextEx {
                    font_id: font.spec_id(),
                    text: spec_c_bytes(text.spec_bytes()),
                    position,
                    size,
                    spacing,
                    color,
                },
            ],
            !drawn ==> final(self)@ == old(self)@,
    {
        match to_c_bytes(text) {
            None => false,
            Some(ctext) => {
                self.record(
                    ForeignCall::DrawTextEx {
                        font_id: font.get_id(),
                        text: ctext,
                        position,
                        size,
                        spacing,
                        color,
                    },
                );
                true
            },
        }
    }

    /// Draws text wrapped inside a rectangle.
    ///
    /// Returns whether the text was drawable, as for
    /// [`Canvas::draw_text`].
    pub fn draw_text_rec(
        &mut self,
        font: &Font,
        text: &str,
        rectangle: Rectangle,
        size: Scalar,
        spacing: Scalar,
        word_wrap: bool,
        color: Color,
    ) -> (drawn: bool)
        ensures
            drawn == !has_nul_byte(text.spec_bytes()),
            drawn ==> final(self)@ == old(self)@ + seq![
                Call::DrawTextRec {
                    font_id: font.spec_id(),
                    text: spec_c_bytes(text.spec_bytes()),
                    rectangle,
                    size,
                    spacing,
                    word_wrap,
                    color,
                },
            ],
            !drawn ==> final(self)@ == old(self)@,
    {
        match to_c_bytes(text) {
            None => false,
            Some(ctext) => {
                self.record(
                    ForeignCall::DrawTextRec {
                        font_id: font.get_id(),
                        text: ctext,
                        rectangle,
                        size,
                        spacing,
                        word_wrap,
                        color,
                    },
                );
                true
            },
        }
    }
}

impl Window {
    /// Loads a font from a file into GPU memory, with its default size.
    ///
    /// `outcome` is the record the foreign loader returned for this
    /// path; the same checks and accounting apply as for
    /// [`Window::load_texture`].
    pub fn load_font(&mut self, path: &str, outcome: RawFont) -> (r: Result<Font, LoadFontError>)
        requires
            old(self).spec_fonts() < u64::MAX,
        ensures
            has_nul_byte(path.spec_bytes()) ==> r == Err::<Font, LoadFontError>(
                LoadFontError::InvalidPath,
            ) && final(self).trace() == old(self).trace(),
            !has_nul_byte(path.spec_bytes()) && outcome.texture.id == 0 ==> r == Err::<
                Font,
                LoadFontError,
            >(LoadFontError::ReadFailed) && final(self).trace() == old(self).trace().push(
                Call::LoadFont { path: spec_c_bytes(path.spec_bytes()), id: 0 },
            ),
            !has_nul_byte(path.spec_bytes()) && outcome.texture.id != 0 ==> (r matches Ok(f)
                && f.spec_id() == outcome.texture.id && f.spec_base_size() == outcome.base_size)
                && final(self).trace() == old(self).trace().push(
                Call::LoadFont { path: spec_c_bytes(path.spec_bytes()), id: outcome.texture.id },
            ),
            final(self).spec_fonts() == old(self).spec_fonts() + (
            if !has_nul_byte(path.spec_bytes()) && outcome.texture.id != 0 {
                1int
            } else {
                0int
            }),
            final(self).spec_textures() == old(self).spec_textures(),
    {
        match to_c_bytes(path) {
            None => Err(LoadFontError::InvalidPath),
            Some(cpath) => {
                let ghost ev = Call::LoadFont { path: cpath@, id: outcome.texture.id };
                if outcome.texture.id == 0 {
                    let textures = self.texture_count();
                    let fonts = self.font_count();
                    self.log_event(Ghost(ev), textures, fonts);
                    Err(LoadFontError::ReadFailed)
                } else {
                    let textures = self.texture_count();
                    let fonts = self.font_count() + 1;
                    self.log_event(Ghost(ev), textures, fonts);
                    Ok(Font { raw: outcome })
                }
            },
        }
    }

    /// Loads a font from a file into GPU memory at a given point size.
    ///
    /// `outcome` is the record the foreign loader returned for this path
    /// and size; the same checks and accounting apply as for
    /// [`Window::load_font`].
    pub fn load_font_ex(&mut self, path: &str, size: i32, outcome: RawFont) -> (r: Result<
        Font,
        LoadFontError,
    >)
        requires
            old(self).spec_fonts() < u64::MAX,
        ensures
            has_nul_byte(path.spec_bytes()) ==> r == Err::<Font, LoadFontError>(
                LoadFontError::InvalidPath,
            ) && final(self).trace() == old(self).trace(),
            !has_nul_byte(path.spec_bytes()) && outcome.texture.id == 0 ==> r == Err::<
                Font,
                LoadFontError,
            >(LoadFontError::ReadFailed) && final(self).trace() == old(self).trace().push(
                Call::LoadFontEx { path: spec_c_bytes(path.spec_bytes()), size, id: 0 },
            ),
            !has_nul_byte(path.spec_bytes()) && outcome.texture.id != 0 ==> (r matches Ok(f)
                && f.spec_id() == outcome.texture.id && f.spec_base_size() == outcome.base_size)
                && final(self).trace() == old(self).trace().push(
                Call::LoadFontEx {
                    path: spec_c_bytes(path.spec_bytes()),
                    size,
                    id: outcome.texture.id,
                },
            ),
            final(self).spec_fonts() == old(self).spec_fonts() + (
            if !has_nul_byte(path.spec_bytes()) && outcome.texture.id != 0 {
                1int
            } else {
                0int
            }),
            final(self).spec_textures() == old(self).spec_textures(),
    {
        match to_c_bytes(path) {
            None => Err(LoadFontError::InvalidPath),
            Some(cpath) => {
                let ghost ev = Call::LoadFontEx { path: cpath@, size, id: outcome.texture.id };
                if outcome.texture.id == 0 {
                    let textures = self.texture_count();
                    let fonts = self.font_count();
                    self.log_event(Ghost(ev), textures, fonts);
                    Err(LoadFontError::ReadFailed)
                } else {
                    let textures = self.texture_count();
                    let fonts = self.font_count() + 1;
                    self.log_event(Ghost(ev), textures, fonts);
                    Ok(Font { raw: outcome })
                }
            },
        }
    }

    /// Unloads a font, releasing its GPU memory.
    ///
    /// Consuming the handle is the only release path, as for
    /// [`Window::unload_texture`]. The returned record is the unload
    /// call for the driver to perform.
    pub fn unload_font(&mut self, font: Font) -> (r: ForeignCall)
        requires
            old(self).spec_fonts() > 0,
        ensures
            r@ == (Call::UnloadFont { id: font.spec_id() }),
            final(self).trace() == old(self).trace().push(Call::UnloadFont { id: font.spec_id() }),
            final(self).spec_fonts() == old(self).spec_fonts() - 1,
            final(self).spec_textures() == old(self).spec_textures(),
    {
        let id = font.get_id();
        let ghost ev = Call::UnloadFont { id: font.spec_id() };
        let textures = self.texture_count();
        let fonts = self.font_count() - 1;
        self.log_event(Ghost(ev), textures, fonts);
        ForeignCall::UnloadFont { id }
    }
}

} // verus!
