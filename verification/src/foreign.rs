//! The vocabulary of foreign calls and the shape of valid call traces.
//!
//! The core never performs a foreign call itself. Every operation records
//! which call the driver must make, as a [`ForeignCall`] value; the ghost
//! trace of a window is the sequence of [`Call`] values, the mathematical
//! image of those records. The predicates and lemmas here say what a
//! well-formed trace looks like: frame brackets appear in matched pairs,
//! nested camera modes are properly contained, and teardown comes last.

use crate::camera::Camera2D;
use crate::color::Color;
use crate::math::Rectangle;
use crate::math::Scalar;
use crate::math::Vector2;
use vstd::prelude::*;
use vstd::string::StrSliceExecFns;
use vstd::string::StringSliceAdditionalSpecFns;

verus! {

/// Window configuration flag: fullscreen mode.
pub const FLAG_FULLSCREEN_MODE: u32 = 2;

/// Window configuration flag: the window may be resized.
pub const FLAG_WINDOW_RESIZABLE: u32 = 4;

/// Window configuration flag: no window decoration.
pub const FLAG_WINDOW_UNDECORATED: u32 = 8;

/// Window configuration flag: transparent window.
pub const FLAG_WINDOW_TRANSPARENT: u32 = 16;

/// Window configuration flag: try to enable four-sample antialiasing.
pub const FLAG_MSAA_4X_HINT: u32 = 32;

/// Window configuration flag: try to enable vertical synchronization.
pub const FLAG_VSYNC_HINT: u32 = 64;

/// Window configuration flag: the window starts hidden.
pub const FLAG_WINDOW_HIDDEN: u32 = 128;

/// Window configuration flag: keep running while minimized.
pub const FLAG_WINDOW_ALWAYS_RUN: u32 = 256;

/// One foreign call for the driver to perform, with its arguments as
/// plain data. Strings cross the boundary as their null-terminated bytes.
#[allow(inconsistent_fields)]
#[derive(Clone, Debug, PartialEq)]
pub enum ForeignCall {
    /// Set the global configuration flags before window creation.
    SetConfigFlags { flags: u32 },
    /// Create the window and graphics context.
    InitWindow { width: i32, height: i32, title: Vec<u8> },
    /// Tear the window and graphics context down.
    CloseWindow,
    /// Open a frame.
    BeginDrawing,
    /// Close the frame and swap buffers.
    EndDrawing,
    /// Enter a camera-transformed region of the current frame.
    BeginMode2D { camera: Camera2D },
    /// Leave the innermost camera-transformed region.
    EndMode2D,
    /// Load a texture; `id` is the identifier the loader returned.
    LoadTexture { path: Vec<u8>, id: u32 },
    /// Unload a texture.
    UnloadTexture { id: u32 },
    /// Load a font with its default size; `id` is the identifier of the
    /// texture the loader returned.
    LoadFont { path: Vec<u8>, id: u32 },
    /// Load a font at a given point size.
    LoadFontEx { path: Vec<u8>, size: i32, id: u32 },
    /// Unload a font.
    UnloadFont { id: u32 },
    /// Fill the frame with one color.
    ClearBackground { color: Color },
    /// Draw the frames-per-second counter.
    DrawFps { x: i32, y: i32 },
    /// Draw text with the default font.
    DrawText { text: Vec<u8>, x: i32, y: i32, size: i32, color: Color },
    /// Draw text with a loaded font.
    DrawTextEx {
        font_id: u32,
        text: Vec<u8>,
        position: Vector2,
        size: Scalar,
        spacing: Scalar,
        color: Color,
    },
    /// Draw text wrapped inside a rectangle.
    DrawTextRec {
        font_id: u32,
        text: Vec<u8>,
        rectangle: Rectangle,
        size: Scalar,
        spacing: Scalar,
        word_wrap: bool,
        color: Color,
    },
    /// Draw one pixel.
    DrawPixel { x: i32, y: i32, color: Color },
    /// Draw one pixel at a vector position.
    DrawPixelVec { position: Vector2, color: Color },
    /// Draw a line between integer endpoints.
    DrawLine { start_x: i32, start_y: i32, end_x: i32, end_y: i32, color: Color },
    /// Draw a line between vector endpoints.
    DrawLineVec { start: Vector2, end: Vector2, color: Color },
    /// Draw a line with a thickness.
    DrawLineEx { start: Vector2, end: Vector2, thickness: Scalar, color: Color },
    /// Draw a cubic-bezier line.
    DrawLineBezier { start: Vector2, end: Vector2, thickness: Scalar, color: Color },
    /// Draw connected lines through a list of points.
    DrawLineStrip { points: Vec<Vector2>, color: Color },
    /// Draw a filled circle.
    DrawCircle { x: i32, y: i32, radius: Scalar, color: Color },
    /// Draw a filled circle sector.
    DrawCircleSector {
        center: Vector2,
        radius: Scalar,
        start_angle: i32,
        end_angle: i32,
        segments: i32,
        color: Color,
    },
    /// Draw the outline of a circle sector.
    DrawCircleSectorLines {
        center: Vector2,
        radius: Scalar,
        start_angle: i32,
        end_angle: i32,
        segments: i32,
        color: Color,
    },
    /// Draw a gradient-filled circle.
    DrawCircleGradient { x: i32, y: i32, radius: Scalar, color1: Color, color2: Color },
    /// Draw a filled circle at a vector position.
    DrawCircleVec { center: Vector2, radius: Scalar, color: Color },
    /// Draw the outline of a circle.
    DrawCircleLines { x: i32, y: i32, radius: Scalar, color: Color },
    /// Draw a filled ellipse.
    DrawEllipse { x: i32, y: i32, radius_h: Scalar, radius_v: Scalar, color: Color },
    /// Draw the outline of an ellipse.
    DrawEllipseLines { x: i32, y: i32, radius_h: Scalar, radius_v: Scalar, color: Color },
    /// Draw a filled ring.
    DrawRing {
        center: Vector2,
        inner_radius: Scalar,
        outer_radius: Scalar,
        start_angle: i32,
        end_angle: i32,
        segments: i32,
        color: Color,
    },
    /// Draw the outline of a ring.
    DrawRingLines {
        center: Vector2,
        inner_radius: Scalar,
        outer_radius: Scalar,
        start_angle: i32,
        end_angle: i32,
        segments: i32,
        color: Color,
    },
    /// Draw a filled rectangle.
    DrawRectangle { x: i32, y: i32, width: i32, height: i32, color: Color },
    /// Draw a filled rectangle at a vector position and size.
    DrawRectangleVec { position: Vector2, size: Vector2, color: Color },
    /// Draw a filled rectangle given as a rectangle value.
    DrawRectangleRec { rectangle: Rectangle, color: Color },
    /// Draw a filled rectangle rotated around an origin.
    DrawRectanglePro { rectangle: Rectangle, origin: Vector2, rotation: Scalar, color: Color },
    /// Draw a rectangle filled with a vertical gradient.
    DrawRectangleGradientV {
        x: i32,
        y: i32,
        width: i32,
        height: i32,
        color1: Color,
        color2: Color,
    },
    /// Draw a rectangle filled with a horizontal gradient.
    DrawRectangleGradientH {
        x: i32,
        y: i32,
        width: i32,
        height: i32,
        color1: Color,
        color2: Color,
    },
    /// Draw a rectangle filled with a four-corner gradient.
    DrawRectangleGradientEx {
        rectangle: Rectangle,
        color1: Color,
        color2: Color,
        color3: Color,
        color4: Color,
    },
    /// Draw the outline of a rectangle.
    DrawRectangleLines { x: i32, y: i32, width: i32, height: i32, color: Color },
    /// Draw the outline of a rectangle with a line thickness.
    DrawRectangleLinesEx { rectangle: Rectangle, thickness: i32, color: Color },
    /// Draw a filled rectangle with rounded corners.
    DrawRectangleRounded { rectangle: Rectangle, roundness: Scalar, segments: i32, color: Color },
    /// Draw the outline of a rectangle with rounded corners.
    DrawRectangleRoundedLines {
        rectangle: Rectangle,
        roundness: Scalar,
        segments: i32,
        color: Color,
    },
    /// Draw a filled triangle.
    DrawTriangle { v1: Vector2, v2: Vector2, v3: Vector2, color: Color },
    /// Draw the outline of a triangle.
    DrawTriangleLines { v1: Vector2, v2: Vector2, v3: Vector2, color: Color },
    /// Draw a fan of triangles around the first point.
    DrawTriangleFan { points: Vec<Vector2>, color: Color },
    /// Draw a strip of triangles.
    DrawTriangleStrip { points: Vec<Vector2>, color: Color },
    /// Draw a filled regular polygon.
    DrawPoly { center: Vector2, sides: i32, radius: Scalar, rotation: Scalar, color: Color },
    /// Draw the outline of a regular polygon.
    DrawPolyLines { center: Vector2, sides: i32, radius: Scalar, rotation: Scalar, color: Color },
    /// Draw a loaded texture.
    DrawTexture { texture_id: u32, x: i32, y: i32, color: Color },
}

/// The mathematical image of a [`ForeignCall`]: the same call with byte
/// and point lists as sequences. Ghost traces are sequences of these.
#[allow(inconsistent_fields)]
pub enum Call {
    SetConfigFlags { flags: u32 },
    InitWindow { width: i32, height: i32, title: Seq<u8> },
    CloseWindow,
    BeginDrawing,
    EndDrawing,
    BeginMode2D { camera: Camera2D },
    EndMode2D,
    LoadTexture { path: Seq<u8>, id: u32 },
    UnloadTexture { id: u32 },
    LoadFont { path: Seq<u8>, id: u32 },
    LoadFontEx { path: Seq<u8>, size: i32, id: u32 },
    UnloadFont { id: u32 },
    ClearBackground { color: Color },
    DrawFps { x: i32, y: i32 },
    DrawText { text: Seq<u8>, x: i32, y: i32, size: i32, color: Color },
    DrawTextEx {
        font_id: u32,
        text: Seq<u8>,
        position: Vector2,
        size: Scalar,
        spacing: Scalar,
        color: Color,
    },
    DrawTextRec {
        font_id: u32,
        text: Seq<u8>,
        rectangle: Rectangle,
        size: Scalar,
        spacing: Scalar,
        word_wrap: bool,
        color: Color,
    },
    DrawPixel { x: i32, y: i32, color: Color },
    DrawPixelVec { position: Vector2, color: Color },
    DrawLine { start_x: i32, start_y: i32, end_x: i32, end_y: i32, color: Color },
    DrawLineVec { start: Vector2, end: Vector2, color: Color },
    DrawLineEx { start: Vector2, end: Vector2, thickness: Scalar, color: Color },
    DrawLineBezier { start: Vector2, end: Vector2, thickness: Scalar, color: Color },
    DrawLineStrip { points: Seq<Vector2>, color: Color },
    DrawCircle { x: i32, y: i32, radius: Scalar, color: Color },
    DrawCircleSector {
        center: Vector2,
        radius: Scalar,
        start_angle: i32,
        end_angle: i32,
        segments: i32,
        color: Color,
    },
    DrawCircleSectorLines {
        center: Vector2,
        radius: Scalar,
        start_angle: i32,
        end_angle: i32,
        segments: i32,
        color: Color,
    },
    DrawCircleGradient { x: i32, y: i32, radius: Scalar, color1: Color, color2: Color },
    DrawCircleVec { center: Vector2, radius: Scalar, color: Color },
    DrawCircleLines { x: i32, y: i32, radius: Scalar, color: Color },
    DrawEllipse { x: i32, y: i32, radius_h: Scalar, radius_v: Scalar, color: Color },
    DrawEllipseLines { x: i32, y: i32, radius_h: Scalar, radius_v: Scalar, color: Color },
    DrawRing {
        center: Vector2,
        inner_radius: Scalar,
        outer_radius: Scalar,
        start_angle: i32,
        end_angle: i32,
        segments: i32,
        color: Color,
    },
    DrawRingLines {
        center: Vector2,
        inner_radius: Scalar,
        outer_radius: Scalar,
        start_angle: i32,
        end_angle: i32,
        segments: i32,
        color: Color,
    },
    DrawRectangle { x: i32, y: i32, width: i32, height: i32, color: Color },
    DrawRectangleVec { position: Vector2, size: Vector2, color: Color },
    DrawRectangleRec { rectangle: Rectangle, color: Color },
    DrawRectanglePro { rectangle: Rectangle, origin: Vector2, rotation: Scalar, color: Color },
    DrawRectangleGradientV {
        x: i32,
        y: i32,
        width: i32,
        height: i32,
        color1: Color,
        color2: Color,
    },
    DrawRectangleGradientH {
        x: i32,
        y: i32,
        width: i32,
        height: i32,
        color1: Color,
        color2: Color,
    },
    DrawRectangleGradientEx {
        rectangle: Rectangle,
        color1: Color,
        color2: Color,
        color3: Color,
        color4: Color,
    },
    DrawRectangleLines { x: i32, y: i32, width: i32, height: i32, color: Color },
    DrawRectangleLinesEx { rectangle: Rectangle, thickness: i32, color: Color },
    DrawRectangleRounded { rectangle: Rectangle, roundness: Scalar, segments: i32, color: Color },
    DrawRectangleRoundedLines {
        rectangle: Rectangle,
        roundness: Scalar,
        segments: i32,
        color: Color,
    },
    DrawTriangle { v1: Vector2, v2: Vector2, v3: Vector2, color: Color },
    DrawTriangleLines { v1: Vector2, v2: Vector2, v3: Vector2, color: Color },
    DrawTriangleFan { points: Seq<Vector2>, color: Color },
    DrawTriangleStrip { points: Seq<Vector2>, color: Color },
    DrawPoly { center: Vector2, sides: i32, radius: Scalar, rotation: Scalar, color: Color },
    DrawPolyLines { center: Vector2, sides: i32, radius: Scalar, rotation: Scalar, color: Color },
    DrawTexture { texture_id: u32, x: i32, y: i32, color: Color },
}

impl View for ForeignCall {
    type V = Call;

    open spec fn view(&self) -> Call {
        match self {
            ForeignCall::SetConfigFlags { flags } => Call::SetConfigFlags { flags: *flags },
            ForeignCall::InitWindow { width, height, title } => Call::InitWindow {
                width: *width,
                height: *height,
                title: title@,
            },
            ForeignCall::CloseWindow => Call::CloseWindow,
            ForeignCall::BeginDrawing => Call::BeginDrawing,
            ForeignCall::EndDrawing => Call::EndDrawing,
            ForeignCall::BeginMode2D { camera } => Call::BeginMode2D { camera: *camera },
            ForeignCall::EndMode2D => Call::EndMode2D,
            ForeignCall::LoadTexture { path, id } => Call::LoadTexture { path: path@, id: *id },
            ForeignCall::UnloadTexture { id } => Call::UnloadTexture { id: *id },
            ForeignCall::LoadFont { path, id } => Call::LoadFont { path: path@, id: *id },
            ForeignCall::LoadFontEx { path, size, id } => Call::LoadFontEx {
                path: path@,
                size: *size,
                id: *id,
            },
            ForeignCall::UnloadFont { id } => Call::UnloadFont { id: *id },
            ForeignCall::ClearBackground { color } => Call::ClearBackground { color: *color },
            ForeignCall::DrawFps { x, y } => Call::DrawFps { x: *x, y: *y },
            ForeignCall::DrawText { text, x, y, size, color } => Call::DrawText {
                text: text@,
                x: *x,
                y: *y,
                size: *size,
                color: *color,
            },
            ForeignCall::DrawTextEx { font_id, text, position, size, spacing, color } => {
                Call::DrawTextEx {
                    font_id: *font_id,
                    text: text@,
                    position: *position,
                    size: *size,
                    spacing: *spacing,
                    color: *color,
                }
            },
            ForeignCall::DrawTextRec {
                font_id,
                text,
                rectangle,
                size,
                spacing,
                word_wrap,
                color,
            } => Call::DrawTextRec {
                font_id: *font_id,
                text: text@,
                rectangle: *rectangle,
                size: *size,
                spacing: *spacing,
                word_wrap: *word_wrap,
                color: *color,
            },
            ForeignCall::DrawPixel { x, y, color } => Call::DrawPixel {
                x: *x,
                y: *y,
                color: *color,
            },
            ForeignCall::DrawPixelVec { position, color } => Call::DrawPixelVec {
                position: *position,
                color: *color,
            },
            ForeignCall::DrawLine { start_x, start_y, end_x, end_y, color } => Call::DrawLine {
                start_x: *start_x,
                start_y: *start_y,
                end_x: *end_x,
                end_y: *end_y,
                color: *color,
            },
            ForeignCall::DrawLineVec { start, end, color } => Call::DrawLineVec {
                start: *start,
                end: *end,
                color: *color,
            },
            ForeignCall::DrawLineEx { start, end, thickness, color } => Call::DrawLineEx {
                start: *start,
                end: *end,
                thickness: *thickness,
                color: *color,
            },
            ForeignCall::DrawLineBezier { start, end, thickness, color } => Call::DrawLineBezier {
                start: *start,
                end: *end,
                thickness: *thickness,
                color: *color,
            },
            ForeignCall::DrawLineStrip { points, color } => Call::DrawLineStrip {
                points: points@,
                color: *color,
            },
            ForeignCall::DrawCircle { x, y, radius, color } => Call::DrawCircle {
                x: *x,
                y: *y,
                radius: *radius,
                color: *color,
            },
            ForeignCall::DrawCircleSector {
                center,
                radius,
                start_angle,
                end_angle,
                segments,
                color,
            } => Call::DrawCircleSector {
                center: *center,
                radius: *radius,
                start_angle: *start_angle,
                end_angle: *end_angle,
                segments: *segments,
                color: *color,
            },
            ForeignCall::DrawCircleSectorLines {
                center,
                radius,
                start_angle,
                end_angle,
                segments,
                color,
            } => Call::DrawCircleSectorLines {
                center: *center,
                radius: *radius,
                start_angle: *start_angle,
                end_angle: *end_angle,
                segments: *segments,
                color: *color,
            },
            ForeignCall::DrawCircleGradient { x, y, radius, color1, color2 } => {
                Call::DrawCircleGradient {
                    x: *x,
                    y: *y,
                    radius: *radius,
                    color1: *color1,
                    color2: *color2,
                }
            },
            ForeignCall::DrawCircleVec { center, radius, color } => Call::DrawCircleVec {
                center: *center,
                radius: *radius,
                color: *color,
            },
            ForeignCall::DrawCircleLines { x, y, radius, color } => Call::DrawCircleLines {
                x: *x,
                y: *y,
                radius: *radius,
                color: *color,
            },
            ForeignCall::DrawEllipse { x, y, radius_h, radius_v, color } => Call::DrawEllipse {
                x: *x,
                y: *y,
                radius_h: *radius_h,
                radius_v: *radius_v,
                color: *color,
            },
            ForeignCall::DrawEllipseLines { x, y, radius_h, radius_v, color } => {
                Call::DrawEllipseLines {
                    x: *x,
                    y: *y,
                    radius_h: *radius_h,
                    radius_v: *radius_v,
                    color: *color,
                }
            },
            ForeignCall::DrawRing {
                center,
                inner_radius,
                outer_radius,
                start_angle,
                end_angle,
                segments,
                color,
            } => Call::DrawRing {
                center: *center,
                inner_radius: *inner_radius,
                outer_radius: *outer_radius,
                start_angle: *start_angle,
                end_angle: *end_angle,
                segments: *segments,
                color: *color,
            },
            ForeignCall::DrawRingLines {
                center,
                inner_radius,
                outer_radius,
                start_angle,
                end_angle,
                segments,
                color,
            } => Call::DrawRingLines {
                center: *center,
                inner_radius: *inner_radius,
                outer_radius: *outer_radius,
                start_angle: *start_angle,
                end_angle: *end_angle,
                segments: *segments,
                color: *color,
            },
            ForeignCall::DrawRectangle { x, y, width, height, color } => Call::DrawRectangle {
                x: *x,
                y: *y,
                width: *width,
                height: *height,
                color: *color,
            },
            ForeignCall::DrawRectangleVec { position, size, color } => Call::DrawRectangleVec {
                position: *position,
                size: *size,
                color: *color,
            },
            ForeignCall::DrawRectangleRec { rectangle, color } => Call::DrawRectangleRec {
                rectangle: *rectangle,
                color: *color,
            },
            ForeignCall::DrawRectanglePro { rectangle, origin, rotation, color } => {
                Call::DrawRectanglePro {
                    rectangle: *rectangle,
                    origin: *origin,
                    rotation: *rotation,
                    color: *color,
                }
            },
            ForeignCall::DrawRectangleGradientV { x, y, width, height, color1, color2 } => {
                Call::DrawRectangleGradientV {
                    x: *x,
                    y: *y,
                    width: *width,
                    height: *height,
                    color1: *color1,
                    color2: *color2,
                }
            },
            ForeignCall::DrawRectangleGradientH { x, y, width, height, color1, color2 } => {
                Call::DrawRectangleGradientH {
                    x: *x,
                    y: *y,
                    width: *width,
                    height: *height,
                    color1: *color1,
                    color2: *color2,
                }
            },
            ForeignCall::DrawRectangleGradientEx { rectangle, color1, color2, color3, color4 } => {
                Call::DrawRectangleGradientEx {
                    rectangle: *rectangle,
                    color1: *color1,
                    color2: *color2,
                    color3: *color3,
                    color4: *color4,
                }
            },
            ForeignCall::DrawRectangleLines { x, y, width, height, color } => {
                Call::DrawRectangleLines {
                    x: *x,
                    y: *y,
                    width: *width,
                    height: *height,
                    color: *color,
                }
            },
            ForeignCall::DrawRectangleLinesEx { rectangle, thickness, color } => {
                Call::DrawRectangleLinesEx {
                    rectangle: *rectangle,
                    thickness: *thickness,
                    color: *color,
                }
            },
            ForeignCall::DrawRectangleRounded { rectangle, roundness, segments, color } => {
                Call::DrawRectangleRounded {
                    rectangle: *rectangle,
                    roundness: *roundness,
                    segments: *segments,
                    color: *color,
                }
            },
            ForeignCall::DrawRectangleRoundedLines { rectangle, roundness, segments, color } => {
                Call::DrawRectangleRoundedLines {
                    rectangle: *rectangle,
                    roundness: *roundness,
                    segments: *segments,
                    color: *color,
                }
            },
            ForeignCall::DrawTriangle { v1, v2, v3, color } => Call::DrawTriangle {
                v1: *v1,
                v2: *v2,
                v3: *v3,
                color: *color,
            },
            ForeignCall::DrawTriangleLines { v1, v2, v3, color } => Call::DrawTriangleLines {
                v1: *v1,
                v2: *v2,
                v3: *v3,
                color: *color,
            },
            ForeignCall::DrawTriangleFan { points, color } => Call::DrawTriangleFan {
                points: points@,
                color: *color,
            },
            ForeignCall::DrawTriangleStrip { points, color } => Call::DrawTriangleStrip {
                points: points@,
                color: *color,
            },
            ForeignCall::DrawPoly { center, sides, radius, rotation, color } => Call::DrawPoly {
                center: *center,
                sides: *sides,
                radius: *radius,
                rotation: *rotation,
                color: *color,
            },
            ForeignCall::DrawPolyLines { center, sides, radius, rotation, color } => {
                Call::DrawPolyLines {
                    center: *center,
                    sides: *sides,
                    radius: *radius,
                    rotation: *rotation,
                    color: *color,
                }
            },
            ForeignCall::DrawTexture { texture_id, x, y, color } => Call::DrawTexture {
                texture_id: *texture_id,
                x: *x,
                y: *y,
                color: *color,
            },
        }
    }
}

/// The trace image of a batch of call records.
pub open spec fn calls_view(s: Seq<ForeignCall>) -> Seq<Call> {
    s.map_values(|c: ForeignCall| c@)
}

/// Whether a call may appear inside a frame: drawing operations and the
/// camera-mode brackets, but no lifecycle, frame or resource call.
pub open spec fn is_frame_op(c: Call) -> bool {
    match c {
        Call::SetConfigFlags { .. } => false,
        Call::InitWindow { .. } => false,
        Call::CloseWindow => false,
        Call::BeginDrawing => false,
        Call::EndDrawing => false,
        Call::LoadTexture { .. } => false,
        Call::UnloadTexture { .. } => false,
        Call::LoadFont { .. } => false,
        Call::LoadFontEx { .. } => false,
        Call::UnloadFont { .. } => false,
        _ => true,
    }
}

/// How a call changes the number of open camera modes.
pub open spec fn mode_delta(c: Call) -> int {
    match c {
        Call::BeginMode2D { .. } => 1,
        Call::EndMode2D => -1,
        _ => 0,
    }
}

/// The number of camera modes left open by a sequence of calls.
pub open spec fn open_modes(s: Seq<Call>) -> int
    decreases s.len(),
{
    if s.len() == 0 {
        0
    } else {
        open_modes(s.drop_last()) + mode_delta(s.last())
    }
}

/// A valid frame body: only in-frame operations, camera modes closed in
/// the order they were opened, never closing more than are open, and all
/// of them closed at the end.
pub open spec fn scoped(s: Seq<Call>) -> bool {
    &&& forall|i: int| 0 <= i < s.len() ==> is_frame_op(#[trigger] s[i])
    &&& forall|i: int| 0 <= i <= s.len() ==> open_modes(#[trigger] s.take(i)) >= 0
    &&& open_modes(s) == 0
}

/// The trace image of a batch distributes over appending one record.
pub proof fn lemma_calls_view_push(s: Seq<ForeignCall>, c: ForeignCall)
    ensures
        calls_view(s.push(c)) =~= calls_view(s).push(c@),
{
}

/// The trace image of a batch distributes over concatenation.
pub proof fn lemma_calls_view_concat(a: Seq<ForeignCall>, b: Seq<ForeignCall>)
    ensures
        calls_view(a + b) =~= calls_view(a) + calls_view(b),
{
}

/// A single call leaves exactly as many modes open as its own effect.
pub proof fn lemma_open_modes_singleton(c: Call)
    ensures
        open_modes(seq![c]) == mode_delta(c),
{
    assert(seq![c].drop_last() =~= Seq::<Call>::empty());
    assert(open_modes(Seq::<Call>::empty()) == 0);
    assert(seq![c].last() == c);
}

/// Splitting a trace splits its open-mode count.
pub proof fn lemma_open_modes_concat(a: Seq<Call>, b: Seq<Call>)
    ensures
        open_modes(a + b) == open_modes(a) + open_modes(b),
    decreases b.len(),
{
    if b.len() == 0 {
        assert(a + b =~= a);
    } else {
        lemma_open_modes_concat(a, b.drop_last());
        assert((a + b).drop_last() =~= a + b.drop_last());
        assert((a + b).last() == b.last());
    }
}

/// Appending one operation that neither opens nor closes a camera mode
/// keeps a frame body valid.
pub proof fn lemma_scoped_push(s: Seq<Call>, c: Call)
    requires
        scoped(s),
        is_frame_op(c),
        mode_delta(c) == 0,
    ensures
        scoped(s.push(c)),
{
    let t = s.push(c);
    assert(t.drop_last() =~= s);
    assert forall|i: int| 0 <= i <= t.len() implies open_modes(#[trigger] t.take(i)) >= 0 by {
        if i <= s.len() {
            assert(t.take(i) =~= s.take(i));
        } else {
            assert(t.take(i) =~= t);
        }
    }
    assert forall|i: int| 0 <= i < t.len() implies is_frame_op(#[trigger] t[i]) by {
        if i < s.len() {
            assert(t[i] == s[i]);
        }
    }
}

/// Wrapping one valid frame body in a camera-mode bracket and appending
/// it to another valid frame body yields a valid frame body: the nested
/// pair is opened and closed entirely inside the outer body.
pub proof fn lemma_scoped_mode_splice(a: Seq<Call>, camera: Camera2D, b: Seq<Call>)
    requires
        scoped(a),
        scoped(b),
    ensures
        scoped(a + seq![Call::BeginMode2D { camera }] + b + seq![Call::EndMode2D]),
{
    let begin = seq![Call::BeginMode2D { camera }];
    let end = seq![Call::EndMode2D];
    let t = a + begin + b + end;
    lemma_open_modes_concat(a, begin);
    lemma_open_modes_concat(a + begin, b);
    lemma_open_modes_concat(a + begin + b, end);
    lemma_open_modes_singleton(Call::BeginMode2D { camera });
    lemma_open_modes_singleton(Call::EndMode2D);
    assert forall|i: int| 0 <= i < t.len() implies is_frame_op(#[trigger] t[i]) by {
        if i < a.len() {
            assert(t[i] == a[i]);
        } else if i == a.len() {
            assert(t[i] == begin[0]);
        } else if i < a.len() + 1 + b.len() {
            assert(t[i] == b[i - a.len() - 1]);
        } else {
            assert(t[i] == end[0]);
        }
    }
    assert forall|i: int| 0 <= i <= t.len() implies open_modes(#[trigger] t.take(i)) >= 0 by {
        if i <= a.len() {
            assert(t.take(i) =~= a.take(i));
        } else if i == a.len() + 1 {
            assert(t.take(i) =~= a + begin);
        } else if i <= a.len() + 1 + b.len() {
            let j = i - a.len() - 1;
            assert(t.take(i) =~= a + begin + b.take(j));
            lemma_open_modes_concat(a + begin, b.take(j));
        } else {
            assert(t.take(i) =~= t);
        }
    }
}

/// Frame bracketing: a frame built from a valid body opens with exactly
/// one begin-frame call, closes with exactly one end-frame call, and has
/// neither anywhere in between.
pub proof fn lemma_frame_brackets(body: Seq<Call>)
    requires
        scoped(body),
    ensures
        ({
            let f = seq![Call::BeginDrawing] + body + seq![Call::EndDrawing];
            &&& f.len() == body.len() + 2
            &&& f[0] == Call::BeginDrawing
            &&& f[f.len() - 1] == Call::EndDrawing
            &&& forall|i: int|
                0 < i < f.len() - 1 ==> !(#[trigger] f[i] == Call::BeginDrawing) && !(f[i]
                    == Call::EndDrawing)
        }),
{
    let f = seq![Call::BeginDrawing] + body + seq![Call::EndDrawing];
    assert forall|i: int|
        0 < i < f.len() - 1 implies !(#[trigger] f[i] == Call::BeginDrawing) && !(f[i]
        == Call::EndDrawing) by {
        assert(f[i] == body[i - 1]);
        assert(is_frame_op(body[i - 1]));
    }
}

/// Nested-scope containment: in a frame built from a valid body, every
/// camera-mode bracket lies strictly between the frame brackets, no
/// prefix of the frame closes more modes than it opened, and the frame
/// closes every mode it opens. Together with the begin-before-end order
/// inside each camera-mode invocation, this is exactly proper nesting:
/// sibling brackets cannot overlap.
pub proof fn lemma_mode_pairs_contained(body: Seq<Call>)
    requires
        scoped(body),
    ensures
        ({
            let f = seq![Call::BeginDrawing] + body + seq![Call::EndDrawing];
            &&& forall|i: int| 0 <= i <= f.len() ==> open_modes(#[trigger] f.take(i)) >= 0
            &&& open_modes(f) == 0
            &&& forall|i: int|
                0 <= i < f.len() && mode_delta(#[trigger] f[i]) != 0 ==> 0 < i < f.len() - 1
        }),
{
    let begin = seq![Call::BeginDrawing];
    let end = seq![Call::EndDrawing];
    let f = begin + body + end;
    lemma_open_modes_concat(begin, body);
    lemma_open_modes_concat(begin + body, end);
    lemma_open_modes_singleton(Call::BeginDrawing);
    lemma_open_modes_singleton(Call::EndDrawing);
    assert forall|i: int| 0 <= i <= f.len() implies open_modes(#[trigger] f.take(i)) >= 0 by {
        if i == 0 {
            assert(f.take(i) =~= Seq::<Call>::empty());
        } else if i <= body.len() + 1 {
            assert(f.take(i) =~= begin + body.take(i - 1));
            lemma_open_modes_concat(begin, body.take(i - 1));
        } else {
            assert(f.take(i) =~= f);
        }
    }
    assert forall|i: int|
        0 <= i < f.len() && mode_delta(#[trigger] f[i]) != 0 implies 0 < i < f.len() - 1 by {}
}

/// How a call changes the number of live textures: one more for a load
/// that returned a usable identifier, one less for an unload.
pub open spec fn texture_delta(c: Call) -> int {
    match c {
        Call::LoadTexture { id, .. } => if id != 0 {
            1
        } else {
            0
        },
        Call::UnloadTexture { .. } => -1,
        _ => 0,
    }
}

/// How a call changes the number of live fonts.
pub open spec fn font_delta(c: Call) -> int {
    match c {
        Call::LoadFont { id, .. } => if id != 0 {
            1
        } else {
            0
        },
        Call::LoadFontEx { id, .. } => if id != 0 {
            1
        } else {
            0
        },
        Call::UnloadFont { .. } => -1,
        _ => 0,
    }
}

/// The number of textures a trace leaves loaded and not yet unloaded.
pub open spec fn live_texture_count(s: Seq<Call>) -> int
    decreases s.len(),
{
    if s.len() == 0 {
        0
    } else {
        live_texture_count(s.drop_last()) + texture_delta(s.last())
    }
}

/// The number of fonts a trace leaves loaded and not yet unloaded.
pub open spec fn live_font_count(s: Seq<Call>) -> int
    decreases s.len(),
{
    if s.len() == 0 {
        0
    } else {
        live_font_count(s.drop_last()) + font_delta(s.last())
    }
}

/// Splitting a trace splits its live-resource counts.
pub proof fn lemma_resource_counts_concat(a: Seq<Call>, b: Seq<Call>)
    ensures
        live_texture_count(a + b) == live_texture_count(a) + live_texture_count(b),
        live_font_count(a + b) == live_font_count(a) + live_font_count(b),
    decreases b.len(),
{
    if b.len() == 0 {
        assert(a + b =~= a);
    } else {
        lemma_resource_counts_concat(a, b.drop_last());
        assert((a + b).drop_last() =~= a + b.drop_last());
        assert((a + b).last() == b.last());
    }
}

/// A single call changes the live-resource counts by its own effect.
pub proof fn lemma_resource_counts_singleton(c: Call)
    ensures
        live_texture_count(seq![c]) == texture_delta(c),
        live_font_count(seq![c]) == font_delta(c),
{
    assert(seq![c].drop_last() =~= Seq::<Call>::empty());
    assert(live_texture_count(Seq::<Call>::empty()) == 0);
    assert(live_font_count(Seq::<Call>::empty()) == 0);
    assert(seq![c].last() == c);
}

/// In-frame operations load and unload nothing.
pub proof fn lemma_frame_ops_touch_no_resources(s: Seq<Call>)
    requires
        forall|i: int| 0 <= i < s.len() ==> is_frame_op(#[trigger] s[i]),
    ensures
        live_texture_count(s) == 0,
        live_font_count(s) == 0,
    decreases s.len(),
{
    if s.len() > 0 {
        assert(forall|i: int|
            0 <= i < s.len() - 1 ==> #[trigger] s.drop_last()[i] == s[i]);
        lemma_frame_ops_touch_no_resources(s.drop_last());
        assert(is_frame_op(s.last()));
    }
}

/// The shape of a complete, resource-correct context history: the
/// teardown call appears exactly once and last, and every resource that
/// was loaded has been unloaded before it.
pub open spec fn teardown_last(s: Seq<Call>) -> bool {
    &&& s.len() > 0
    &&& s.last() == Call::CloseWindow
    &&& forall|i: int| 0 <= i < s.len() - 1 ==> #[trigger] s[i] != Call::CloseWindow
    &&& live_texture_count(s) == 0
    &&& live_font_count(s) == 0
}

/// Resource safety of teardown: a history that never tore the context
/// down and holds no live resource may be closed, and the resulting
/// history has the teardown call exactly once, as its very last foreign
/// call, after every unload.
pub proof fn lemma_teardown_ordering(s: Seq<Call>)
    requires
        forall|i: int| 0 <= i < s.len() ==> #[trigger] s[i] != Call::CloseWindow,
        live_texture_count(s) == 0,
        live_font_count(s) == 0,
    ensures
        teardown_last(s.push(Call::CloseWindow)),
{
    let t = s.push(Call::CloseWindow);
    assert(t.drop_last() =~= s);
    assert(forall|i: int| 0 <= i < t.len() - 1 ==> #[trigger] t[i] == s[i]);
}

/// Whether a byte sequence contains a zero byte, which the foreign
/// null-terminated string convention cannot represent.
pub open spec fn has_nul_byte(s: Seq<u8>) -> bool {
    exists|i: int| 0 <= i < s.len() && s[i] == 0
}

/// The null-terminated image of a byte sequence.
pub open spec fn spec_c_bytes(s: Seq<u8>) -> Seq<u8> {
    s.push(0)
}

/// Converts text to the foreign null-terminated byte convention, or
/// reports that the text contains a zero byte and cannot be converted.
pub fn to_c_bytes(text: &str) -> (r: Option<Vec<u8>>)
    ensures
        match r {
            Some(v) => !has_nul_byte(text.spec_bytes()) && v@ == spec_c_bytes(text.spec_bytes()),
            None => has_nul_byte(text.spec_bytes()),
        },
{
    let mut bytes = text.as_bytes_vec();
    let n = bytes.len();
    let mut i: usize = 0;
    while i < n
        invariant
            bytes@ == text.spec_bytes(),
            n == bytes@.len(),
            i <= n,
            forall|j: int| 0 <= j < i ==> #[trigger] bytes@[j] != 0,
        decreases n - i,
    {
        if bytes[i] == 0 {
            return None;
        }
        i = i + 1;
    }
    bytes.push(0);
    Some(bytes)
}

/// Terminates a byte string for the foreign convention, or reports that
/// it contains a zero byte and cannot be represented.
pub fn c_terminate(bytes: &Vec<u8>) -> (r: Option<Vec<u8>>)
    ensures
        match r {
            Some(v) => !has_nul_byte(bytes@) && v@ == spec_c_bytes(bytes@),
            None => has_nul_byte(bytes@),
        },
{
    let n = bytes.len();
    let mut i: usize = 0;
    while i < n
        invariant
            n == bytes@.len(),
            i <= n,
            forall|j: int| 0 <= j < i ==> #[trigger] bytes@[j] != 0,
        decreases n - i,
    {
        if bytes[i] == 0 {
            return None;
        }
        i = i + 1;
    }
    let mut out = bytes.clone();
    out.push(0);
    Some(out)
}

} // verus!
