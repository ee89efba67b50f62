use realtime_svg::args::ArgMap;
use realtime_svg::json::args_object_text;
use realtime_svg::session_data::SessionData;

#[test]
fn insert_get_remove_clear() {
    let mut args = ArgMap::new();
    assert_eq!(args.len(), 0);
    assert!(args.get("x").is_none());

    args.insert("x".to_string(), "\"hi\"".to_string());
    assert_eq!(args.get("x"), Some(&"\"hi\"".to_string()));
    assert_eq!(args.len(), 1);

    // Inserting an existing key replaces the binding in place.
    args.insert("x".to_string(), "\"bye\"".to_string());
    assert_eq!(args.get("x"), Some(&"\"bye\"".to_string()));
    assert_eq!(args.len(), 1);

    args.insert("y".to_string(), "1".to_string());
    assert_eq!(args.len(), 2);

    args.remove("x");
    assert!(args.get("x").is_none());
    assert_eq!(args.get("y"), Some(&"1".to_string()));

    args.clear();
    assert_eq!(args.len(), 0);
    assert!(args.get("y").is_none());
}

#[test]
fn args_object_text_is_exact() {
    let mut args = ArgMap::new();
    assert_eq!(args_object_text(&args), "{}");

    args.insert("x".to_string(), "\"hi\"".to_string());
    assert_eq!(args_object_text(&args), "{\"x\":\"hi\"}");

    args.insert("n".to_string(), "42".to_string());
    assert_eq!(args_object_text(&args), "{\"x\":\"hi\",\"n\":42}");
}

#[test]
fn args_object_text_escapes_keys() {
    let mut args = ArgMap::new();
    args.insert("a\"b\\c\nd\u{1}".to_string(), "true".to_string());
    assert_eq!(args_object_text(&args), "{\"a\\\"b\\\\c\\nd\\u0001\":true}");
}

#[test]
fn replace_args_is_wholesale() {
    let mut old_args = ArgMap::new();
    old_args.insert("keep".to_string(), "\"old\"".to_string());
    old_args.insert("other".to_string(), "\"old\"".to_string());
    let mut session = SessionData::new("<svg/>".to_string(), old_args);

    let mut new_args = ArgMap::new();
    new_args.insert("keep".to_string(), "\"new\"".to_string());
    session.replace_args(new_args);

    // The new binding is there and nothing of the old map survives.
    assert_eq!(session.get_arg("keep"), Some(&"\"new\"".to_string()));
    assert_eq!(session.get_arg("other"), None);
    assert_eq!(session.get_all_args().len(), 1);
}

#[test]
fn set_and_remove_args_on_session() {
    let mut session = SessionData::new("<svg/>".to_string(), ArgMap::new());
    session.set_arg("x".to_string(), "\"v\"".to_string());
    assert_eq!(session.get_arg("x"), Some(&"\"v\"".to_string()));
    session.remove_arg("x");
    assert_eq!(session.get_arg("x"), None);
    session.set_arg("y".to_string(), "2".to_string());
    session.clear_args();
    assert_eq!(session.get_arg("y"), None);
}

#[test]
fn owner_is_kept_as_built() {
    let public = SessionData::new("<svg/>".to_string(), ArgMap::new());
    assert!(public.owner.is_none());
    let owned = SessionData::new_with_owner(
        "<svg/>".to_string(),
        ArgMap::new(),
        "alice".to_string(),
    );
    assert_eq!(owned.owner.as_deref(), Some("alice"));
}
