//! Basic shape drawing.
//!
//! Every operation records exactly one draw call on the canvas, with its
//! arguments carried unchanged to the driver.

use crate::color::Color;
use crate::drawing::Canvas;
use crate::foreign::Call;
use crate::foreign::ForeignCall;
use crate::math::Rectangle;
use crate::math::Scalar;
use crate::math::Vector2;
use vstd::prelude::*;
use vstd::slice::slice_to_vec;

verus! {

impl Canvas {
    /// Draws a pixel.
    pub fn draw_pixel(&mut self, x: i32, y: i32, color: Color)
        ensures
            final(self)@ == old(self)@ + seq![Call::DrawPixel { x, y, color }],
    {
        self.record(ForeignCall::DrawPixel { x, y, color });
    }

    /// Draws a pixel at a vector position.
    pub fn draw_pixel_vec(&mut self, position: Vector2, color: Color)
        ensures
            final(self)@ == old(self)@ + seq![Call::DrawPixelVec { position, color }],
    {
        self.record(ForeignCall::DrawPixelVec { position, color });
    }

    /// Draws a line.
    pub fn draw_line(&mut self, start_x: i32, start_y: i32, end_x: i32, end_y: i32, color: Color)
        ensures
            final(self)@ == old(self)@ + seq![
                Call::DrawLine { start_x, start_y, end_x, end_y, color },
            ],
    {
        self.record(ForeignCall::DrawLine { start_x, start_y, end_x, end_y, color });
    }

    /// Draws a line between vector endpoints.
    pub fn draw_line_vec(&mut self, start: Vector2, end: Vector2, color: Color)
        ensures
            final(self)@ == old(self)@ + seq![Call::DrawLineVec { start, end, color }],
    {
        self.record(ForeignCall::DrawLineVec { start, end, color });
    }

    /// Draws a line with a thickness.
    pub fn draw_line_ex(&mut self, start: Vector2, end: Vector2, thickness: Scalar, color: Color)
        ensures
            final(self)@ == old(self)@ + seq![Call::DrawLineEx { start, end, thickness, color }],
    {
        self.record(ForeignCall::DrawLineEx { start, end, thickness, color });
    }

    /// Draws a cubic-bezier line.
    pub fn draw_line_bezier(
        &mut self,
        start: Vector2,
        end: Vector2,
        thickness: Scalar,
        color: Color,
    )
        ensures
            final(self)@ == old(self)@ + seq![
                Call::DrawLineBezier { start, end, thickness, color },
            ],
    {
        self.record(ForeignCall::DrawLineBezier { start, end, thickness, color });
    }

    /// Draws connected lines through the given points.
    pub fn draw_line_strip(&mut self, points: &[Vector2], color: Color)
        ensures
            final(self)@ == old(self)@ + seq![Call::DrawLineStrip { points: points@, color }],
    {
        self.record(ForeignCall::DrawLineStrip { points: slice_to_vec(points), color });
    }

    /// Draws a filled circle.
    pub fn draw_circle(&mut self, x: i32, y: i32, radius: Scalar, color: Color)
        ensures
            final(self)@ == old(self)@ + seq![Call::DrawCircle { x, y, radius, color }],
    {
        self.record(ForeignCall::DrawCircle { x, y, radius, color });
    }

    /// Draws a filled circle sector.
    pub fn draw_circle_sector(
        &mut self,
        center: Vector2,
        radius: Scalar,
        start_angle: i32,
        end_angle: i32,
        segments: i32,
        color: Color,
    )
        ensures
            final(self)@ == old(self)@ + seq![
                Call::DrawCircleSector { center, radius, start_angle, end_angle, segments, color },
            ],
    {
        self.record(
            ForeignCall::DrawCircleSector { center, radius, start_angle, end_angle, segments, color },
        );
    }

    /// Draws the outline of a circle sector.
    pub fn draw_circle_sector_lines(
        &mut self,
        center: Vector2,
        radius: Scalar,
        start_angle: i32,
        end_angle: i32,
        segments: i32,
        color: Color,
    )
        ensures
            final(self)@ == old(self)@ + seq![
                Call::DrawCircleSectorLines {
                    center,
                    radius,
                    start_angle,
                    end_angle,
                    segments,
                    color,
                },
            ],
    {
        self.record(
            ForeignCall::DrawCircleSectorLines {
                center,
                radius,
                start_angle,
                end_angle,
                segments,
                color,
            },
        );
    }

    /// Draws a gradient-filled circle.
    pub fn draw_circle_gradient(
        &mut self,
        x: i32,
        y: i32,
        radius: Scalar,
        color1: Color,
        color2: Color,
    )
        ensures
            final(self)@ == old(self)@ + seq![
                Call::DrawCircleGradient { x, y, radius, color1, color2 },
            ],
    {
        self.record(ForeignCall::DrawCircleGradient { x, y, radius, color1, color2 });
    }

    /// Draws a filled circle at a vector position.
    pub fn draw_circle_vec(&mut self, center: Vector2, radius: Scalar, color: Color)
        ensures
            final(self)@ == old(self)@ + seq![Call::DrawCircleVec { center, radius, color }],
    {
        self.record(ForeignCall::DrawCircleVec { center, radius, color });
    }

    /// Draws the outline of a circle.
    pub fn draw_circle_lines(&mut self, x: i32, y: i32, radius: Scalar, color: Color)
        ensures
            final(self)@ == old(self)@ + seq![Call::DrawCircleLines { x, y, radius, color }],
    {
        self.record(ForeignCall::DrawCircleLines { x, y, radius, color });
    }

    /// Draws a filled ellipse.
    pub fn draw_ellipse(&mut self, x: i32, y: i32, radius_h: Scalar, radius_v: Scalar, color: Color)
        ensures
            final(self)@ == old(self)@ + seq![
                Call::DrawEllipse { x, y, radius_h, radius_v, color },
            ],
    {
        self.record(ForeignCall::DrawEllipse { x, y, radius_h, radius_v, color });
    }

    /// Draws the outline of an ellipse.
    pub fn draw_ellipse_lines(
        &mut self,
        x: i32,
        y: i32,
        radius_h: Scalar,
        radius_v: Scalar,
        color: Color,
    )
        ensures
            final(self)@ == old(self)@ + seq![
                Call::DrawEllipseLines { x, y, radius_h, radius_v, color },
            ],
    {
        self.record(ForeignCall::DrawEllipseLines { x, y, radius_h, radius_v, color });
    }

    /// Draws a filled ring.
    pub fn draw_ring(
        &mut self,
        center: Vector2,
        inner_radius: Scalar,
        outer_radius: Scalar,
        start_angle: i32,
        end_angle: i32,
        segments: i32,
        color: Color,
    )
        ensures
            final(self)@ == old(self)@ + seq![
                Call::DrawRing {
                    center,
                    inner_radius,
                    outer_radius,
                    start_angle,
                    end_angle,
                    segments,
                    color,
                },
            ],
    {
        self.record(
            ForeignCall::DrawRing {
                center,
                inner_radius,
                outer_radius,
                start_angle,
                end_angle,
                segments,
                color,
            },
        );
    }

    /// Draws the outline of a ring.
    pub fn draw_ring_lines(
        &mut self,
        center: Vector2,
        inner_radius: Scalar,
        outer_radius: Scalar,
        start_angle: i32,
        end_angle: i32,
        segments: i32,
        color: Color,
    )
        ensures
            final(self)@ == old(self)@ + seq![
                Call::DrawRingLines {
                    center,
                    inner_radius,
                    outer_radius,
                    start_angle,
                    end_angle,
                    segments,
                    color,
                },
            ],
    {
        self.record(
            ForeignCall::DrawRingLines {
                center,
                inner_radius,
                outer_radius,
                start_angle,
                end_angle,
                segments,
                color,
            },
        );
    }

    /// Draws a filled rectangle.
    pub fn draw_rectangle(&mut self, x: i32, y: i32, width: i32, height: i32, color: Color)
        ensures
            final(self)@ == old(self)@ + seq![
                Call::DrawRectangle { x, y, width, height, color },
            ],
    {
        self.record(ForeignCall::DrawRectangle { x, y, width, height, color });
    }

    /// Draws a filled rectangle at a vector position and size.
    pub fn draw_rectangle_vec(&mut self, position: Vector2, size: Vector2, color: Color)
        ensures
            final(self)@ == old(self)@ + seq![
                Call::DrawRectangleVec { position, size, color },
            ],
    {
        self.record(ForeignCall::DrawRectangleVec { position, size, color });
    }

    /// Draws a filled rectangle given as a rectangle value.
    pub fn draw_rectangle_rec(&mut self, rectangle: Rectangle, color: Color)
        ensures
            final(self)@ == old(self)@ + seq![Call::DrawRectangleRec { rectangle, color }],
    {
        self.record(ForeignCall::DrawRectangleRec { rectangle, color });
    }

    /// Draws a filled rectangle rotated around an origin.
    pub fn draw_rectangle_pro(
        &mut self,
        rectangle: Rectangle,
        origin: Vector2,
        rotation: Scalar,
        color: Color,
    )
        ensures
            final(self)@ == old(self)@ + seq![
                Call::DrawRectanglePro { rectangle, origin, rotation, color },
            ],
    {
        self.record(ForeignCall::DrawRectanglePro { rectangle, origin, rotation, color });
    }

    /// Draws a rectangle filled with a vertical gradient.
    pub fn draw_rectangle_vertical_gradient(
        &mut self,
        x: i32,
        y: i32,
        width: i32,
        height: i32,
        color1: Color,
        color2: Color,
    )
        ensures
            final(self)@ == old(self)@ + seq![
                Call::DrawRectangleGradientV { x, y, width, height, color1, color2 },
            ],
    {
        self.record(ForeignCall::DrawRectangleGradientV { x, y, width, height, color1, color2 });
    }

    /// Draws a rectangle filled with a horizontal gradient.
    pub fn draw_rectangle_horizontal_gradient(
        &mut self,
        x: i32,
        y: i32,
        width: i32,
        height: i32,
        color1: Color,
        color2: Color,
    )
        ensures
            final(self)@ == old(self)@ + seq![
                Call::DrawRectangleGradientH { x, y, width, height, color1, color2 },
            ],
    {
        self.record(ForeignCall::DrawRectangleGradientH { x, y, width, height, color1, color2 });
    }

    /// Draws a rectangle filled with a four-corner gradient.
    pub fn draw_rectangle_gradient_ex(
        &mut self,
        rectangle: Rectangle,
        color1: Color,
        color2: Color,
        color3: Color,
        color4: Color,
    )
        ensures
            final(self)@ == old(self)@ + seq![
                Call::DrawRectangleGradientEx { rectangle, color1, color2, color3, color4 },
            ],
    {
        self.record(
            ForeignCall::DrawRectangleGradientEx { rectangle, color1, color2, color3, color4 },
        );
    }

    /// Draws the outline of a rectangle.
    pub fn draw_rectangle_lines(&mut self, x: i32, y: i32, width: i32, height: i32, color: Color)
        ensures
            final(self)@ == old(self)@ + seq![
                Call::DrawRectangleLines { x, y, width, height, color },
            ],
    {
        self.record(ForeignCall::DrawRectangleLines { x, y, width, height, color });
    }

    /// Draws the outline of a rectangle with a line thickness.
    pub fn draw_rectangle_lines_ex(&mut self, rectangle: Rectangle, thickness: i32, color: Color)
        ensures
            final(self)@ == old(self)@ + seq![
                Call::DrawRectangleLinesEx { rectangle, thickness, color },
            ],
    {
        self.record(ForeignCall::DrawRectangleLinesEx { rectangle, thickness, color });
    }

    /// Draws a filled rectangle with rounded corners.
    pub fn draw_rectangle_rounded(
        &mut self,
        rectangle: Rectangle,
        roundness: Scalar,
        segments: i32,
        color: Color,
    )
        ensures
            final(self)@ == old(self)@ + seq![
                Call::DrawRectangleRounded { rectangle, roundness, segments, color },
            ],
    {
        self.record(ForeignCall::DrawRectangleRounded { rectangle, roundness, segments, color });
    }

    /// Draws the outline of a rectangle with rounded corners.
    pub fn draw_rectangle_rounded_lines(
        &mut self,
        rectangle: Rectangle,
        roundness: Scalar,
        segments: i32,
        color: Color,
    )
        ensures
            final(self)@ == old(self)@ + seq![
                Call::DrawRectangleRoundedLines { rectangle, roundness, segments, color },
            ],
    {
        self.record(
            ForeignCall::DrawRectangleRoundedLines { rectangle, roundness, segments, color },
        );
    }

    /// Draws a filled triangle.
    pub fn draw_triangle(&mut self, v1: Vector2, v2: Vector2, v3: Vector2, color: Color)
        ensures
            final(self)@ == old(self)@ + seq![Call::DrawTriangle { v1, v2, v3, color }],
    {
        self.record(ForeignCall::DrawTriangle { v1, v2, v3, color });
    }

    /// Draws the outline of a triangle.
    pub fn draw_triangle_lines(&mut self, v1: Vector2, v2: Vector2, v3: Vector2, color: Color)
        ensures
            final(self)@ == old(self)@ + seq![Call::DrawTriangleLines { v1, v2, v3, color }],
    {
        self.record(ForeignCall::DrawTriangleLines { v1, v2, v3, color });
    }

    /// Draws a fan of triangles around the first point.
    pub fn draw_triangle_fan(&mut self, points: &[Vector2], color: Color)
        ensures
            final(self)@ == old(self)@ + seq![
                Call::DrawTriangleFan { points: points@, color },
            ],
    {
        self.record(ForeignCall::DrawTriangleFan { points: slice_to_vec(points), color });
    }

    /// Draws a strip of triangles.
    pub fn draw_triangle_strip(&mut self, points: &[Vector2], color: Color)
        ensures
            final(self)@ == old(self)@ + seq![
                Call::DrawTriangleStrip { points: points@, color },
            ],
    {
        self.record(ForeignCall::DrawTriangleStrip { points: slice_to_vec(points), color });
    }

    /// Draws a filled regular polygon.
    pub fn draw_polygon(
        &mut self,
        center: Vector2,
        sides: i32,
        radius: Scalar,
        rotation: Scalar,
        color: Color,
    )
        ensures
            final(self)@ == old(self)@ + seq![
                Call::DrawPoly { center, sides, radius, rotation, color },
            ],
    {
        self.record(ForeignCall::DrawPoly { center, sides, radius, rotation, color });
    }

    /// Draws the outline of a regular polygon.
    pub fn draw_polygon_lines(
        &mut self,
        center: Vector2,
        sides: i32,
        radius: Scalar,
        rotation: Scalar,
        color: Color,
    )
        ensures
            final(self)@ == old(self)@ + seq![
                Call::DrawPolyLines { center, sides, radius, rotation, color },
            ],
    {
        self.record(ForeignCall::DrawPolyLines { center, sides, radius, rotation, color });
    }
}

} // verus!
