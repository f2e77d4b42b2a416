use rayquaza::Camera2D;
use rayquaza::Color;
use rayquaza::ContextFactory;
use rayquaza::ForeignCall;
use rayquaza::Rectangle;
use rayquaza::Scalar;
use rayquaza::Vector2;
use rayquaza::Window;
use rayquaza::WindowBuilder;

fn make_window(factory: &mut ContextFactory) -> Window {
    let pending = WindowBuilder::new().build(factory).unwrap();
    pending.finish(factory, true).unwrap()
}

fn s(value: f32) -> Scalar {
    Scalar::new(value.to_bits())
}

fn camera() -> Camera2D {
    Camera2D::new(Vector2::zero(), Vector2::one(), s(0.0), s(1.0))
}

#[test]
fn test_frame_brackets() {
    // Every frame opens with exactly one begin call and closes with
    // exactly one end call, around exactly what the drawing logic did.
    let mut factory = ContextFactory::new();
    let mut window = make_window(&mut factory);
    let batch = window.draw(|mut canvas| {
        canvas.clear_background(Color::black());
        canvas.draw_pixel(3, 4, Color::white());
        // The canvas exposes what it has recorded so far, brackets excluded.
        assert_eq!(canvas.recorded().len(), 2);
        canvas
    });
    assert_eq!(
        batch,
        vec![
            ForeignCall::BeginDrawing,
            ForeignCall::ClearBackground { color: Color::black() },
            ForeignCall::DrawPixel { x: 3, y: 4, color: Color::white() },
            ForeignCall::EndDrawing,
        ]
    );
    assert!(window.close().is_ok());
}

#[test]
fn test_empty_frame() {
    let mut factory = ContextFactory::new();
    let mut window = make_window(&mut factory);
    let batch = window.draw(|canvas| canvas);
    assert_eq!(batch, vec![ForeignCall::BeginDrawing, ForeignCall::EndDrawing]);
    assert!(window.close().is_ok());
}

#[test]
fn test_nested_mode_contained() {
    // A camera mode opens and closes strictly inside the frame, around
    // exactly what its own logic drew; sibling modes do not overlap.
    let mut factory = ContextFactory::new();
    let mut window = make_window(&mut factory);
    let cam = camera();
    let batch = window.draw(move |mut canvas| {
        canvas.draw_pixel(0, 0, Color::black());
        canvas.mode_2d(cam, |mut region| {
            region.draw_pixel(1, 1, Color::white());
            region
        });
        canvas.mode_2d(cam, |region| region);
        canvas
    });
    assert_eq!(
        batch,
        vec![
            ForeignCall::BeginDrawing,
            ForeignCall::DrawPixel { x: 0, y: 0, color: Color::black() },
            ForeignCall::BeginMode2D { camera: cam },
            ForeignCall::DrawPixel { x: 1, y: 1, color: Color::white() },
            ForeignCall::EndMode2D,
            ForeignCall::BeginMode2D { camera: cam },
            ForeignCall::EndMode2D,
            ForeignCall::EndDrawing,
        ]
    );
    assert!(window.close().is_ok());
}

#[test]
fn test_deeply_nested_modes() {
    let mut factory = ContextFactory::new();
    let mut window = make_window(&mut factory);
    let cam = camera();
    let batch = window.draw(move |mut canvas| {
        canvas.mode_2d(cam, move |mut outer| {
            outer.mode_2d(cam, |mut inner| {
                inner.draw_pixel(5, 5, Color::red());
                inner
            });
            outer
        });
        canvas
    });
    assert_eq!(
        batch,
        vec![
            ForeignCall::BeginDrawing,
            ForeignCall::BeginMode2D { camera: cam },
            ForeignCall::BeginMode2D { camera: cam },
            ForeignCall::DrawPixel { x: 5, y: 5, color: Color::red() },
            ForeignCall::EndMode2D,
            ForeignCall::EndMode2D,
            ForeignCall::EndDrawing,
        ]
    );
    assert!(window.close().is_ok());
}

#[test]
fn test_draw_text_refuses_nul() {
    // Text with an embedded zero byte cannot cross the foreign string
    // boundary: the call reports failure and records nothing.
    let mut factory = ContextFactory::new();
    let mut window = make_window(&mut factory);
    let batch = window.draw(|mut canvas| {
        assert!(!canvas.draw_text("bad\0text", 0, 0, 20, Color::black()));
        assert!(canvas.draw_text("Hello world!", 268, 200, 48, Color::white()));
        canvas
    });
    assert_eq!(
        batch,
        vec![
            ForeignCall::BeginDrawing,
            ForeignCall::DrawText {
                text: b"Hello world!\0".to_vec(),
                x: 268,
                y: 200,
                size: 48,
                color: Color::white(),
            },
            ForeignCall::EndDrawing,
        ]
    );
    assert!(window.close().is_ok());
}

#[test]
fn test_shape_calls_recorded() {
    let mut factory = ContextFactory::new();
    let mut window = make_window(&mut factory);
    let rectangle = Rectangle::new(s(1.0), s(2.0), s(3.0), s(4.0));
    let points = [Vector2::zero(), Vector2::one()];
    let batch = window.draw(move |mut canvas| {
        canvas.draw_line(0, 0, 10, 10, Color::red());
        canvas.draw_circle(5, 5, s(2.5), Color::green());
        canvas.draw_rectangle_rec(rectangle, Color::gold());
        canvas.draw_line_strip(&points, Color::lime());
        canvas.draw_triangle(Vector2::zero(), Vector2::one(), Vector2::zero(), Color::pink());
        canvas
    });
    assert_eq!(
        batch,
        vec![
            ForeignCall::BeginDrawing,
            ForeignCall::DrawLine { start_x: 0, start_y: 0, end_x: 10, end_y: 10, color: Color::red() },
            ForeignCall::DrawCircle { x: 5, y: 5, radius: s(2.5), color: Color::green() },
            ForeignCall::DrawRectangleRec { rectangle, color: Color::gold() },
            ForeignCall::DrawLineStrip { points: points.to_vec(), color: Color::lime() },
            ForeignCall::DrawTriangle {
                v1: Vector2::zero(),
                v2: Vector2::one(),
                v3: Vector2::zero(),
                color: Color::pink(),
            },
            ForeignCall::EndDrawing,
        ]
    );
    assert!(window.close().is_ok());
}

#[test]
fn test_draw_texture_recorded() {
    let mut factory = ContextFactory::new();
    let mut window = make_window(&mut factory);
    let raw = rayquaza::RawTexture { id: 11, width: 8, height: 8, mipmaps: 1, format: 7 };
    let texture = window.load_texture("sprite.png", raw).unwrap();
    let batch = window.draw(|mut canvas| {
        canvas.draw_texture(&texture, 40, 50, Color::white());
        canvas
    });
    assert_eq!(
        batch,
        vec![
            ForeignCall::BeginDrawing,
            ForeignCall::DrawTexture { texture_id: 11, x: 40, y: 50, color: Color::white() },
            ForeignCall::EndDrawing,
        ]
    );
    window.unload_texture(texture);
    assert!(window.close().is_ok());
}

#[test]
fn test_successive_frames() {
    // Each invocation of the drawing scope produces its own bracketed
    // batch; the brackets never leak across frames.
    let mut factory = ContextFactory::new();
    let mut window = make_window(&mut factory);
    let first = window.draw(|mut canvas| {
        canvas.clear_background(Color::black());
        canvas
    });
    let second = window.draw(|canvas| canvas);
    assert_eq!(first.len(), 3);
    assert_eq!(second, vec![ForeignCall::BeginDrawing, ForeignCall::EndDrawing]);
    assert!(window.close().is_ok());
}
