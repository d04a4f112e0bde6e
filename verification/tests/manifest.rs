use shipnext::manifest::{
    printed_text, register_script, with_script, ManifestError, SCRIPTS, TOOLCHAIN_SCRIPT,
};

fn value(text: &str) -> serde_json::Value {
    serde_json::from_str(text).expect("the test's own JSON")
}

#[test]
fn script_joins_the_scripts_that_are_there() {
    let text = r#"{"name": "demo", "scripts": {"dev": "next dev", "build": "next build"}, "private": true}"#;
    let printed = register_script(text, "tauri", "tauri").unwrap();
    let expected = r#"{
  "name": "demo",
  "private": true,
  "scripts": {
    "build": "next build",
    "dev": "next dev",
    "tauri": "tauri"
  }
}"#;
    assert_eq!(printed, expected);
}

#[test]
fn scripts_are_made_where_there_are_none() {
    let printed = register_script(r#"{"name": "demo"}"#, "tauri", "tauri").unwrap();
    let expected = r#"{
  "name": "demo",
  "scripts": {
    "tauri": "tauri"
  }
}"#;
    assert_eq!(printed, expected);

    let printed = register_script("{}", TOOLCHAIN_SCRIPT, TOOLCHAIN_SCRIPT).unwrap();
    assert_eq!(value(&printed), value(r#"{"scripts": {"tauri": "tauri"}}"#));
}

#[test]
fn scripts_that_are_no_object_give_way() {
    for odd in ["3", "null", "\"x\"", "[\"dev\"]", "true"] {
        let text = format!("{{\"scripts\": {}, \"name\": \"demo\"}}", odd);
        let printed = register_script(&text, "tauri", "tauri").unwrap();
        assert_eq!(
            value(&printed),
            value(r#"{"name": "demo", "scripts": {"tauri": "tauri"}}"#)
        );
    }
}

#[test]
fn script_of_the_same_name_is_replaced() {
    let text = r#"{"scripts": {"tauri": "old", "dev": "next dev"}}"#;
    let printed = register_script(text, "tauri", "tauri").unwrap();
    assert_eq!(
        value(&printed),
        value(r#"{"scripts": {"dev": "next dev", "tauri": "tauri"}}"#)
    );
}

#[test]
fn other_members_stay_as_they_are() {
    let text = r#"{"version": 1.50, "deps": [1, -2, {"a": null}], "scripts": {"x": {"y": [true]}}, "big": 18446744073709551615}"#;
    let changed = value(&register_script(text, "tauri", "cargo tauri").unwrap());
    assert_eq!(changed["version"], value("1.5"));
    assert_eq!(changed["deps"], value(r#"[1, -2, {"a": null}]"#));
    assert_eq!(changed["big"], value("18446744073709551615"));
    assert_eq!(changed["scripts"]["x"], value(r#"{"y": [true]}"#));
    assert_eq!(changed["scripts"]["tauri"], "cargo tauri");
    assert_eq!(changed.as_object().unwrap().len(), 4);
    assert_eq!(changed["scripts"].as_object().unwrap().len(), 2);
}

#[test]
fn registering_twice_is_registering_once() {
    let text = r#"{"name": "demo", "scripts": {"dev": "next dev"}}"#;
    let once = register_script(text, "tauri", "tauri").unwrap();
    let twice = register_script(&once, "tauri", "tauri").unwrap();
    assert_eq!(once, twice);
}

#[test]
fn text_that_is_not_json_is_refused() {
    for text in ["", "{", "{\"scripts\": }", "not json", "{} trailing", "{'a': 1}"] {
        assert_eq!(register_script(text, "tauri", "tauri"), Err(ManifestError::Malformed));
    }
}

#[test]
fn document_that_is_no_object_is_refused() {
    for text in ["[]", "[{\"scripts\": {}}]", "1", "\"scripts\"", "null", "true"] {
        assert_eq!(register_script(text, "tauri", "tauri"), Err(ManifestError::NotAnObject));
        assert_eq!(
            with_script(value(text), "tauri", "tauri"),
            Err(ManifestError::NotAnObject)
        );
    }
}

#[test]
fn document_gets_the_script_as_a_value() {
    let changed = with_script(value(r#"{"scripts": {"dev": "next dev"}}"#), "lint", "eslint .");
    assert_eq!(changed, Ok(value(r#"{"scripts": {"dev": "next dev", "lint": "eslint ."}}"#)));

    let made = with_script(value("{}"), "a\"b", "c\\d").unwrap();
    assert_eq!(made[SCRIPTS]["a\"b"], "c\\d");
}

#[test]
fn printed_document_is_handed_on_and_a_failure_is_named() {
    assert_eq!(printed_text(Ok("{}".to_string())), Ok("{}".to_string()));
    let failure = serde_json::from_str::<serde_json::Value>("{").unwrap_err();
    assert_eq!(printed_text(Err(failure)), Err(ManifestError::Unprintable));
}

#[test]
fn every_object_is_printed() {
    let texts = [
        "{}",
        r#"{"scripts": {}}"#,
        r#"{"n": 1e308, "m": -0.0, "k": 1.5e-7, "deep": [[[[{"a": [null]}]]]]}"#,
        r#"{"": "", "scripts": {"": ""}}"#,
        r#"{"k\u00e9y": "v\n\t\"", "scripts": {"a\\b": "c"}}"#,
    ];
    for text in texts {
        let printed = register_script(text, "tauri", "tauri").expect("an object is printed");
        let read: serde_json::Value = serde_json::from_str(&printed).unwrap();
        assert_eq!(read["scripts"]["tauri"], "tauri");
    }
}
