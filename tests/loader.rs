use egui_font_loader::{FontLoader, LoadAction, LoadEvent, LoadFontError, LoaderFontData};
use std::io::{Error, ErrorKind};

fn font(name: &str, path: &str) -> LoaderFontData {
    LoaderFontData {
        name: name.to_string(),
        path: path.to_string(),
    }
}

fn expect_check(action: &LoadAction, path: &str) {
    match action {
        LoadAction::CheckPath(p) => assert_eq!(p, path),
        _ => panic!("expected a path check of {path}"),
    }
}

fn expect_read(action: &LoadAction, path: &str) {
    match action {
        LoadAction::ReadFile(p) => assert_eq!(p, path),
        _ => panic!("expected a read of {path}"),
    }
}

fn expect_register(action: &LoadAction, want_name: &str, want_data: &[u8]) {
    match action {
        LoadAction::Register { name, data } => {
            assert_eq!(name, want_name);
            assert_eq!(data.as_slice(), want_data);
        }
        _ => panic!("expected a registration of {want_name}"),
    }
}

fn expect_loaded(action: &LoadAction) {
    assert!(matches!(action, LoadAction::Finish(Ok(()))));
}

/// Drives a loader whose files all exist, with these contents, and returns
/// the registrations it asked for.
fn load_all(fonts: Vec<LoaderFontData>, contents: &[Vec<u8>]) -> Vec<(String, Vec<u8>)> {
    let (mut loader, mut action) = FontLoader::new(fonts);
    let mut registered = Vec::new();
    let mut next_file = 0;
    loop {
        let event = match action {
            LoadAction::CheckPath(_) => LoadEvent::PathChecked(true),
            LoadAction::ReadFile(_) => {
                next_file += 1;
                LoadEvent::FileRead(Ok(contents[next_file - 1].clone()))
            }
            LoadAction::Register { name, data } => {
                registered.push((name, data));
                LoadEvent::Registered
            }
            LoadAction::Finish(result) => {
                assert!(result.is_ok());
                return registered;
            }
        };
        assert!(loader.accepts(&event));
        action = loader.advance(event);
    }
}

#[test]
fn empty_list_finishes_at_once() {
    let (loader, action) = FontLoader::new(Vec::new());
    expect_loaded(&action);
    assert!(loader.is_finished());
    assert!(!loader.accepts(&LoadEvent::PathChecked(true)));
    assert!(!loader.accepts(&LoadEvent::Registered));
}

#[test]
fn body_font_is_registered_with_its_bytes() {
    let bytes = vec![0u8, 1, 0, 0, 0, 7, 0x80, 0xff];
    let (mut loader, action) = FontLoader::new(vec![font("Body", "./fonts/body.ttf")]);
    expect_check(&action, "./fonts/body.ttf");
    let action = loader.advance(LoadEvent::PathChecked(true));
    expect_read(&action, "./fonts/body.ttf");
    let action = loader.advance(LoadEvent::FileRead(Ok(bytes.clone())));
    expect_register(&action, "Body", &bytes);
    let action = loader.advance(LoadEvent::Registered);
    expect_loaded(&action);
    assert!(loader.is_finished());
}

#[test]
fn missing_path_reports_not_found() {
    let (mut loader, action) = FontLoader::new(vec![font("Missing", "./nope.ttf")]);
    expect_check(&action, "./nope.ttf");
    let action = loader.advance(LoadEvent::PathChecked(false));
    match action {
        LoadAction::Finish(Err(LoadFontError::FileNotFound(p))) => assert_eq!(p, "./nope.ttf"),
        _ => panic!("expected FileNotFound"),
    }
    assert!(loader.is_finished());
    assert!(!loader.accepts(&LoadEvent::FileRead(Ok(vec![1, 2]))));
}

#[test]
fn missing_path_stops_before_later_fonts() {
    let fonts = vec![
        font("A", "a.ttf"),
        font("B", "b.ttf"),
        font("C", "c.ttf"),
    ];
    let (mut loader, action) = FontLoader::new(fonts);
    expect_check(&action, "a.ttf");
    expect_read(&loader.advance(LoadEvent::PathChecked(true)), "a.ttf");
    expect_register(&loader.advance(LoadEvent::FileRead(Ok(vec![9]))), "A", &[9]);
    expect_check(&loader.advance(LoadEvent::Registered), "b.ttf");
    match loader.advance(LoadEvent::PathChecked(false)) {
        LoadAction::Finish(Err(e)) => {
            assert!(matches!(&e, LoadFontError::FileNotFound(_)));
            assert_eq!(e.path(), "b.ttf");
        }
        _ => panic!("expected FileNotFound"),
    }
    assert!(loader.is_finished());
    assert!(!loader.accepts(&LoadEvent::PathChecked(true)));
}

#[test]
fn unreadable_file_reports_read_error() {
    let (mut loader, action) = FontLoader::new(vec![font("Locked", "/root/locked.ttf")]);
    expect_check(&action, "/root/locked.ttf");
    expect_read(&loader.advance(LoadEvent::PathChecked(true)), "/root/locked.ttf");
    let cause = Error::new(ErrorKind::PermissionDenied, "permission denied");
    match loader.advance(LoadEvent::FileRead(Err(cause))) {
        LoadAction::Finish(Err(LoadFontError::FileReadError { path, source })) => {
            assert_eq!(path, "/root/locked.ttf");
            assert_eq!(source.kind(), ErrorKind::PermissionDenied);
            assert!(!source.to_string().is_empty());
        }
        _ => panic!("expected FileReadError"),
    }
    assert!(loader.is_finished());
}

#[test]
fn valid_fonts_are_registered_in_order() {
    let fonts = vec![
        font("Regular", "r.ttf"),
        font("Bold", "b.ttf"),
        font("Italic", "i.ttf"),
    ];
    let contents = vec![vec![1u8, 2, 3], vec![4u8], vec![5u8, 6]];
    let registered = load_all(fonts, &contents);
    assert_eq!(
        registered,
        vec![
            ("Regular".to_string(), vec![1u8, 2, 3]),
            ("Bold".to_string(), vec![4u8]),
            ("Italic".to_string(), vec![5u8, 6]),
        ]
    );
}

#[test]
fn loading_twice_registers_twice() {
    let contents = vec![vec![7u8, 7, 7]];
    let first = load_all(vec![font("Same", "same.ttf")], &contents);
    let second = load_all(vec![font("Same", "same.ttf")], &contents);
    assert_eq!(first, vec![("Same".to_string(), vec![7u8, 7, 7])]);
    assert_eq!(first, second);
}

#[test]
fn events_out_of_turn_are_not_accepted() {
    let (mut loader, _) = FontLoader::new(vec![font("X", "x.ttf")]);
    assert!(loader.accepts(&LoadEvent::PathChecked(false)));
    assert!(!loader.accepts(&LoadEvent::FileRead(Ok(Vec::new()))));
    assert!(!loader.accepts(&LoadEvent::Registered));
    loader.advance(LoadEvent::PathChecked(true));
    assert!(loader.accepts(&LoadEvent::FileRead(Ok(Vec::new()))));
    assert!(!loader.accepts(&LoadEvent::PathChecked(true)));
}

#[test]
fn step_registers_with_context_and_moves_on() {
    let ctx = egui::Context::default();
    let (mut loader, action) = FontLoader::new(vec![font("One", "1.ttf"), font("Two", "2.ttf")]);
    expect_check(&action, "1.ttf");
    expect_read(&loader.step(&ctx, LoadEvent::PathChecked(true)), "1.ttf");
    expect_check(&loader.step(&ctx, LoadEvent::FileRead(Ok(vec![1, 2, 3]))), "2.ttf");
    expect_read(&loader.step(&ctx, LoadEvent::PathChecked(true)), "2.ttf");
    expect_loaded(&loader.step(&ctx, LoadEvent::FileRead(Ok(vec![4]))));
    assert!(loader.is_finished());
}
