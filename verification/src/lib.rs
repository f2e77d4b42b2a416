//! Safe, verified core of a binding to a native 2D graphics library.
//!
//! The native library is reached through a driver that performs the raw
//! foreign calls; this crate owns every decision around those calls and
//! proves the properties that make the binding safe to use:
//!
//! - a context is created at most once per factory, and a failed creation
//!   leaves the factory ready for another attempt;
//! - GPU resources (textures, fonts) are counted against the context that
//!   loaded them, and the context teardown call can only be issued once
//!   every resource has been unloaded, so teardown is always the last
//!   foreign call;
//! - every drawing scope brackets its body in exactly one begin-frame and
//!   one end-frame call, and nested camera scopes are properly contained.
//!
//! Value types (colors, vectors, rectangles, cameras) share the foreign
//! library's plain-data layout: real-valued fields are carried as IEEE-754
//! bit patterns that the driver reinterprets without conversion.

pub mod camera;
pub mod color;
pub mod drawing;
pub mod error;
pub mod foreign;
pub mod input;
pub mod math;
pub mod shapes;
pub mod text;
pub mod texture;
pub mod window;

pub use camera::Camera2D;
pub use color::Color;
pub use color::ParseColorError;
pub use drawing::Canvas;
pub use error::Error;
pub use foreign::Call;
pub use foreign::ForeignCall;
pub use input::Gamepad;
pub use input::GamepadAxis;
pub use input::GamepadButton;
pub use input::Key;
pub use input::MouseButton;
pub use math::clamp;
pub use math::Rectangle;
pub use math::Scalar;
pub use math::Vector2;
pub use text::Font;
pub use text::LoadFontError;
pub use text::RawFont;
pub use texture::LoadTextureError;
pub use texture::RawTexture;
pub use texture::Texture;
pub use window::ContextFactory;
pub use window::CreateWindowError;
pub use window::PendingWindow;
pub use window::Window;
pub use window::WindowBuilder;
