use rayquaza::ContextFactory;
use rayquaza::CreateWindowError;
use rayquaza::Error;
use rayquaza::Font;
use rayquaza::ForeignCall;
use rayquaza::LoadFontError;
use rayquaza::LoadTextureError;
use rayquaza::RawFont;
use rayquaza::RawTexture;
use rayquaza::Window;
use rayquaza::WindowBuilder;

fn make_window(factory: &mut ContextFactory) -> Window {
    let pending = WindowBuilder::new().build(factory).unwrap();
    pending.finish(factory, true).unwrap()
}

fn raw_texture(id: u32) -> RawTexture {
    RawTexture { id, width: 64, height: 32, mipmaps: 1, format: 7 }
}

fn raw_font(id: u32) -> RawFont {
    RawFont { texture: raw_texture(id), base_size: 20, chars_count: 95 }
}

#[test]
fn test_single_context() {
    // At most one build attempt yields a live context; later attempts
    // are refused while it is live, and only the test-only reset allows
    // one more.
    let mut factory = ContextFactory::new();
    let window = make_window(&mut factory);
    assert_eq!(
        WindowBuilder::new().build(&factory).err(),
        Some(CreateWindowError::AlreadyCreated)
    );
    assert!(window.close().is_ok());
    assert_eq!(
        WindowBuilder::new().build(&factory).err(),
        Some(CreateWindowError::AlreadyCreated)
    );
    factory.reset();
    let window = make_window(&mut factory);
    assert!(window.close().is_ok());
}

#[test]
fn test_failed_init_allows_retry() {
    // When the foreign library does not report ready, the factory stays
    // free and another attempt may be made.
    let mut factory = ContextFactory::new();
    let pending = WindowBuilder::new().build(&factory).unwrap();
    assert_eq!(
        pending.finish(&mut factory, false).err(),
        Some(CreateWindowError::InitializationFailed)
    );
    assert!(!factory.created());
    let window = make_window(&mut factory);
    assert!(window.close().is_ok());
}

#[test]
fn test_invalid_title() {
    // A title with an embedded zero byte is refused before any foreign
    // call, as a typed error.
    let factory = ContextFactory::new();
    let result = WindowBuilder::new().title("bad\0title").build(&factory);
    assert_eq!(result.err(), Some(CreateWindowError::InvalidTitle));
}

#[test]
fn test_init_calls() {
    let mut factory = ContextFactory::new();
    let pending = WindowBuilder::new()
        .size(320, 240)
        .title("hello")
        .build(&factory)
        .unwrap();
    let calls = pending.init_calls();
    assert_eq!(calls.len(), 2);
    assert_eq!(calls[0], ForeignCall::SetConfigFlags { flags: 0 });
    assert_eq!(
        calls[1],
        ForeignCall::InitWindow { width: 320, height: 240, title: b"hello\0".to_vec() }
    );
    let window = pending.finish(&mut factory, true).unwrap();
    assert!(window.close().is_ok());
}

#[test]
fn test_builder_flags() {
    // Each chainable option sets its flag; fullscreen and resizable are
    // mutually exclusive and clear each other.
    let factory = ContextFactory::new();
    let flags_of = |builder: WindowBuilder| match builder.build(&factory).unwrap().init_calls()[0] {
        ForeignCall::SetConfigFlags { flags } => flags,
        _ => panic!("first call must set the flags"),
    };
    assert_eq!(flags_of(WindowBuilder::new().fullscreen()), 2);
    assert_eq!(flags_of(WindowBuilder::new().resizable()), 4);
    assert_eq!(flags_of(WindowBuilder::new().fullscreen().resizable()), 4);
    assert_eq!(flags_of(WindowBuilder::new().resizable().fullscreen()), 2);
    assert_eq!(flags_of(WindowBuilder::new().undecorated()), 8);
    assert_eq!(flags_of(WindowBuilder::new().transparent()), 16);
    assert_eq!(flags_of(WindowBuilder::new().msaa_4x()), 32);
    assert_eq!(flags_of(WindowBuilder::new().vsync()), 64);
    assert_eq!(flags_of(WindowBuilder::new().hidden()), 128);
    assert_eq!(flags_of(WindowBuilder::new().always_run()), 256);
    assert_eq!(flags_of(WindowBuilder::new().vsync().msaa_4x().undecorated()), 104);
}

#[test]
fn test_load_texture_failure_is_non_corrupting() {
    // A failed load reports `ReadFailed` and leaves the window usable
    // for a following successful load.
    let mut factory = ContextFactory::new();
    let mut window = make_window(&mut factory);
    let missing = window.load_texture("missing.png", raw_texture(0));
    assert_eq!(missing.err(), Some(LoadTextureError::ReadFailed));
    assert_eq!(window.texture_count(), 0);
    let texture = window.load_texture("present.png", raw_texture(5)).unwrap();
    assert_eq!(window.texture_count(), 1);
    assert_eq!(texture.get_width(), 64);
    assert_eq!(texture.get_height(), 32);
    window.unload_texture(texture);
    assert!(window.close().is_ok());
}

#[test]
fn test_load_texture_invalid_path() {
    let mut factory = ContextFactory::new();
    let mut window = make_window(&mut factory);
    let result = window.load_texture("bad\0path.png", raw_texture(5));
    assert_eq!(result.err(), Some(LoadTextureError::InvalidPath));
    assert_eq!(window.texture_count(), 0);
    assert!(window.close().is_ok());
}

#[test]
fn test_load_font() {
    let mut factory = ContextFactory::new();
    let mut window = make_window(&mut factory);
    let missing = window.load_font("missing.ttf", raw_font(0));
    assert_eq!(missing.err(), Some(LoadFontError::ReadFailed));
    let font: Font = window.load_font("present.ttf", raw_font(9)).unwrap();
    assert_eq!(window.font_count(), 1);
    assert_eq!(font.base_size(), 20);
    assert_eq!(window.unload_font(font), ForeignCall::UnloadFont { id: 9 });
    assert!(window.close().is_ok());
}

#[test]
fn test_load_font_ex() {
    let mut factory = ContextFactory::new();
    let mut window = make_window(&mut factory);
    let invalid = window.load_font_ex("bad\0font.ttf", 32, raw_font(9));
    assert_eq!(invalid.err(), Some(LoadFontError::InvalidPath));
    let font = window.load_font_ex("present.ttf", 32, raw_font(9)).unwrap();
    assert_eq!(font.get_id(), 9);
    window.unload_font(font);
    assert!(window.close().is_ok());
}

#[test]
fn test_teardown_is_last_call() {
    // The teardown call can only be issued after every resource has been
    // unloaded, so in the full observed call sequence it comes last,
    // after every unload.
    let mut factory = ContextFactory::new();
    let pending = WindowBuilder::new().build(&mut factory).unwrap();
    let mut observed = pending.init_calls();
    let mut window = pending.finish(&mut factory, true).unwrap();
    let texture = window.load_texture("a.png", raw_texture(3)).unwrap();
    let font = window.load_font("b.ttf", raw_font(4)).unwrap();
    observed.extend(window.draw(|canvas| canvas));

    // Closing is refused while the texture and font are live.
    let mut window = match window.close() {
        Err(window) => window,
        Ok(_) => panic!("close must be refused while resources are live"),
    };
    observed.push(window.unload_texture(texture));

    let mut window = match window.close() {
        Err(window) => window,
        Ok(_) => panic!("close must be refused while the font is live"),
    };
    observed.push(window.unload_font(font));

    let teardown = match window.close() {
        Ok(call) => call,
        Err(_) => panic!("close must succeed once every resource is unloaded"),
    };
    observed.push(teardown);

    assert_eq!(observed.last(), Some(&ForeignCall::CloseWindow));
    let close_count = observed
        .iter()
        .filter(|c| matches!(c, ForeignCall::CloseWindow))
        .count();
    assert_eq!(close_count, 1);
    let unload_positions: Vec<usize> = observed
        .iter()
        .enumerate()
        .filter(|(_, c)| {
            matches!(c, ForeignCall::UnloadTexture { .. } | ForeignCall::UnloadFont { .. })
        })
        .map(|(i, _)| i)
        .collect();
    assert_eq!(unload_positions.len(), 2);
    assert!(unload_positions.iter().all(|&i| i < observed.len() - 1));
}

#[test]
fn test_error_from() {
    assert_eq!(
        Error::from(CreateWindowError::AlreadyCreated),
        Error::CreateWindowError(CreateWindowError::AlreadyCreated)
    );
    assert_eq!(
        Error::from(LoadTextureError::ReadFailed),
        Error::LoadTextureError(LoadTextureError::ReadFailed)
    );
    assert_eq!(
        Error::from(LoadFontError::ReadFailed),
        Error::LoadFontError(LoadFontError::ReadFailed)
    );
}
