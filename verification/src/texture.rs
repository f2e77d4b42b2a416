//! Texture management.
//!
//! A [`Texture`] owns one GPU-resident image loaded through the window.
//! The handle cannot be copied; giving it back to
//! [`Window::unload_texture`] is the only way to release it, so the
//! window's live count tracks the handles exactly, and teardown cannot
//! run while one exists.

use crate::color::Color;
use crate::drawing::Canvas;
use crate::foreign::has_nul_byte;
use crate::foreign::spec_c_bytes;
use crate::foreign::to_c_bytes;
use crate::foreign::Call;
use crate::foreign::ForeignCall;
use crate::window::Window;
use vstd::prelude::*;
use vstd::string::StringSliceAdditionalSpecFns;

verus! {

/// Kinds of texture loading errors.
#[derive(Clone, Copy, Debug, Eq, PartialEq, Structural)]
pub enum LoadTextureError {
    /// The foreign loader could not read or decode the file.
    ReadFailed,
    /// The path contains a zero byte, which the foreign string
    /// convention cannot represent.
    InvalidPath,
}

/// The plain record the foreign texture loader returns: an identifier
/// and the image metadata. An identifier of zero is the loader's
/// sentinel for failure.
#[derive(Clone, Copy, Debug, Eq, PartialEq, Structural)]
pub struct RawTexture {
    pub id: u32,
    pub width: i32,
    pub height: i32,
    pub mipmaps: i32,
    pub format: i32,
}

/// A GPU-resident 2D texture loaded through the window.
pub struct Texture {
    raw: RawTexture,
}

impl Texture {
    /// The foreign identifier of the texture.
    pub closed spec fn spec_id(self) -> u32 {
        self.raw.id
    }

    /// The texture width.
    pub closed spec fn spec_width(self) -> i32 {
        self.raw.width
    }

    /// The texture height.
    pub closed spec fn spec_height(self) -> i32 {
        self.raw.height
    }

    /// A texture handle only exists for a load that succeeded.
    #[verifier::type_invariant]
    spec fn wf(self) -> bool {
        self.raw.id != 0
    }

    /// Returns the texture width.
    pub fn get_width(&self) -> (r: i32)
        ensures
            r == self.spec_width(),
    {
        self.raw.width
    }

    /// Returns the texture height.
    pub fn get_height(&self) -> (r: i32)
        ensures
            r == self.spec_height(),
    {
        self.raw.height
    }
}

impl Canvas {
    /// Draws a texture.
    pub fn draw_texture(&mut self, texture: &Texture, x: i32, y: i32, color: Color)
        ensures
            final(self)@ == old(self)@ + seq![
                Call::DrawTexture { texture_id: texture.spec_id(), x, y, color },
            ],
    {
        self.record(
            ForeignCall::DrawTexture { texture_id: texture.get_id(), x, y, color },
        );
    }
}

impl Texture {
    /// The foreign identifier of the texture.
    pub fn get_id(&self) -> (r: u32)
        ensures
            r == self.spec_id(),
    {
        self.raw.id
    }
}

impl Window {
    /// Loads a texture from a file into GPU memory.
    ///
    /// `outcome` is the record the foreign loader returned for this
    /// path. A path with a zero byte is refused before any foreign call.
    /// A zero identifier is the loader's failure sentinel — the file
    /// could not be read or decoded — and yields `ReadFailed`, with the
    /// foreign state unchanged apart from the attempted call; the window
    /// stays usable for further loads. On success the returned handle
    /// carries the loader's record and is counted against this window.
    pub fn load_texture(&mut self, path: &str, outcome: RawTexture) -> (r: Result<
        Texture,
        LoadTextureError,
    >)
        requires
            old(self).spec_textures() < u64::MAX,
        ensures
            has_nul_byte(path.spec_bytes()) ==> r == Err::<Texture, LoadTextureError>(
                LoadTextureError::InvalidPath,
            ) && final(self).trace() == old(self).trace(),
            !has_nul_byte(path.spec_bytes()) && outcome.id == 0 ==> r == Err::<
                Texture,
                LoadTextureError,
            >(LoadTextureError::ReadFailed) && final(self).trace() == old(self).trace().push(
                Call::LoadTexture { path: spec_c_bytes(path.spec_bytes()), id: 0 },
            ),
            !has_nul_byte(path.spec_bytes()) && outcome.id != 0 ==> (r matches Ok(t)
                && t.spec_id() == outcome.id && t.spec_width() == outcome.width && t.spec_height()
                == outcome.height) && final(self).trace() == old(self).trace().push(
                Call::LoadTexture { path: spec_c_bytes(path.spec_bytes()), id: outcome.id },
            ),
            final(self).spec_textures() == old(self).spec_textures() + (
            if !has_nul_byte(path.spec_bytes()) && outcome.id != 0 {
                1int
            } else {
                0int
            }),
            final(self).spec_fonts() == old(self).spec_fonts(),
    {
        match to_c_bytes(path) {
            None => Err(LoadTextureError::InvalidPath),
            Some(cpath) => {
                let ghost ev = Call::LoadTexture { path: cpath@, id: outcome.id };
                if outcome.id == 0 {
                    let textures = self.texture_count();
                    let fonts = self.font_count();
                    self.log_event(Ghost(ev), textures, fonts);
                    Err(LoadTextureError::ReadFailed)
                } else {
                    let textures = self.texture_count() + 1;
                    let fonts = self.font_count();
                    self.log_event(Ghost(ev), textures, fonts);
                    Ok(Texture { raw: outcome })
                }
            },
        }
    }

    /// Unloads a texture, releasing its GPU memory.
    ///
    /// Consuming the handle is the only release path, so each texture is
    /// unloaded exactly once, and always before the context teardown.
    /// The returned record is the unload call for the driver to perform.
    pub fn unload_texture(&mut self, texture: Texture) -> (r: ForeignCall)
        requires
            old(self).spec_textures() > 0,
        ensures
            r@ == (Call::UnloadTexture { id: texture.spec_id() }),
            final(self).trace() == old(self).trace().push(
                Call::UnloadTexture { id: texture.spec_id() },
            ),
            final(self).spec_textures() == old(self).spec_textures() - 1,
            final(self).spec_fonts() == old(self).spec_fonts(),
    {
        let id = texture.get_id();
        let ghost ev = Call::UnloadTexture { id: texture.spec_id() };
        let textures = self.texture_count() - 1;
        let fonts = self.font_count();
        self.log_event(Ghost(ev), textures, fonts);
        ForeignCall::UnloadTexture { id }
    }
}

} // verus!
