use serde_json::Value;
use sunrise_launcher::pe::is_aligned;
use sunrise_launcher::settings::{
    add_missing_defaults, build_settings, bundled_settings, document_settings, merge_settings,
    prepare_sunrise_settings, read_settings, settings_language, settings_version,
    without_byte_order_mark, DEFAULT_SETTINGS_RESOURCE, RT_RCDATA,
};

fn object(text: &str) -> serde_json::Map<String, Value> {
    match serde_json::from_str::<Value>(text) {
        Ok(Value::Object(object)) => object,
        _ => panic!("test value is not an object"),
    }
}

const DEFAULTS: &str = r#"{
    "version": 18,
    "video": { "fieldOfView": 70, "vsync": true },
    "steam": { "language": "english", "user": { "name": "Guardian" } }
}"#;

fn defaults() -> serde_json::Map<String, Value> {
    object(DEFAULTS)
}

/// A 64 bit DLL that holds one resource.
fn dll(kind: u32, id: u32, document: &[u8]) -> Vec<u8> {
    let mut image = vec![0u8; 512];
    let mut put = |at: usize, bytes: &[u8]| image[at..at + bytes.len()].copy_from_slice(bytes);
    let section_size = 88 + document.len() as u32;
    put(0, b"MZ");
    put(0x3C, &64u32.to_le_bytes());
    put(64, b"PE\0\0");
    put(68, &0x8664u16.to_le_bytes());
    put(70, &1u16.to_le_bytes());
    put(84, &240u16.to_le_bytes());
    put(88, &0x20Bu16.to_le_bytes());
    put(88 + 56, &0x10000u32.to_le_bytes());
    put(88 + 60, &512u32.to_le_bytes());
    put(88 + 108, &16u32.to_le_bytes());
    put(88 + 112 + 16, &0x1000u32.to_le_bytes());
    put(88 + 112 + 20, &section_size.to_le_bytes());
    put(328, b".rsrc\0\0\0");
    put(336, &section_size.to_le_bytes());
    put(340, &0x1000u32.to_le_bytes());
    put(344, &section_size.to_le_bytes());
    put(348, &512u32.to_le_bytes());

    let mut section = Vec::new();
    for (name, offset) in [
        (kind, 24u32 | 0x8000_0000),
        (id, 48u32 | 0x8000_0000),
        (1033, 72u32),
    ] {
        section.extend_from_slice(&[0u8; 14]);
        section.extend_from_slice(&1u16.to_le_bytes());
        section.extend_from_slice(&name.to_le_bytes());
        section.extend_from_slice(&offset.to_le_bytes());
    }
    section.extend_from_slice(&(0x1000u32 + 88).to_le_bytes());
    section.extend_from_slice(&(document.len() as u32).to_le_bytes());
    section.extend_from_slice(&[0u8; 8]);
    section.extend_from_slice(document);
    image.extend_from_slice(&section);
    image
}

#[test]
fn current_settings_keep_their_values_and_gain_new_defaults() {
    let existing = object(
        r#"{
            "version": 18,
            "video": { "fieldOfView": 90 },
            "steam": { "language": "english", "offline": true }
        }"#,
    );
    let merged = merge_settings(defaults(), Some(existing), "french").expect("merged");
    assert_eq!(merged["version"], 18);
    assert_eq!(merged["video"]["fieldOfView"], 90);
    assert_eq!(merged["video"]["vsync"], true);
    assert_eq!(merged["steam"]["offline"], true);
    assert_eq!(merged["steam"]["user"]["name"], "Guardian");
    assert_eq!(merged["steam"]["language"], "french");
}

#[test]
fn old_or_missing_settings_are_rebuilt_with_the_language() {
    for existing in [
        None,
        Some(object(r#"{ "steam": { "language": "german" } }"#)),
        Some(object(r#"{ "version": 17, "video": { "fieldOfView": 90 } }"#)),
    ] {
        let merged = merge_settings(defaults(), existing, "german").expect("merged");
        assert_eq!(merged["version"], 18);
        assert_eq!(merged["video"]["fieldOfView"], 70);
        assert_eq!(merged["steam"]["language"], "german");
    }
}

#[test]
fn null_and_arrays_stay() {
    let mut settings = object(r#"{ "a": null, "b": [1], "c": { "d": 1.5 }, "e": 2 }"#);
    add_missing_defaults(
        &mut settings,
        &object(r#"{ "a": { "x": 1 }, "b": [1, 2], "c": { "d": 2.5, "f": -3 }, "e": { "y": 1 }, "g": [] }"#),
    );
    assert_eq!(
        settings,
        object(r#"{ "a": null, "b": [1], "c": { "d": 1.5, "f": -3 }, "e": 2, "g": [] }"#)
    );
}

#[test]
fn filling_again_changes_nothing() {
    let mut once = object(r#"{ "video": { "fieldOfView": 90 } }"#);
    add_missing_defaults(&mut once, &defaults());
    let mut twice = once.clone();
    add_missing_defaults(&mut twice, &defaults());
    assert_eq!(once, twice);
    let mut full = defaults();
    add_missing_defaults(&mut full, &defaults());
    assert_eq!(full, defaults());
}

#[test]
fn merging_again_changes_nothing() {
    let existing = object(r#"{ "version": 19, "steam": { "offline": true } }"#);
    let once = merge_settings(defaults(), Some(existing), "french").expect("merged");
    assert_eq!(once["version"], 19);
    let twice = merge_settings(defaults(), Some(once.clone()), "french").expect("merged");
    assert_eq!(once, twice);
}

#[test]
fn versions_are_read() {
    assert_eq!(settings_version(&object(r#"{ "version": 18 }"#)), 18);
    assert_eq!(settings_version(&object(r#"{ "version": 4294967295 }"#)), u32::MAX);
    for text in [
        "{}",
        r#"{ "version": 4294967296 }"#,
        r#"{ "version": -1 }"#,
        r#"{ "version": 1.0 }"#,
        r#"{ "version": "18" }"#,
        r#"{ "version": null }"#,
    ] {
        assert_eq!(settings_version(&object(text)), 0);
    }
}

#[test]
fn settings_without_a_steam_section_are_refused() {
    let existing = object(r#"{ "version": 18, "steam": null }"#);
    let error = merge_settings(defaults(), Some(existing), "french").expect_err("refused");
    assert_eq!(error.text(), "Sunrise settings.json has no valid Steam section.");
}

#[test]
fn the_byte_order_mark_is_skipped() {
    assert_eq!(without_byte_order_mark(b"\xEF\xBB\xBF{}"), b"{}");
    assert_eq!(without_byte_order_mark(b"\xEF\xBB"), b"\xEF\xBB");
    assert_eq!(without_byte_order_mark(b"{}"), b"{}");
    assert_eq!(without_byte_order_mark(b"\xEF\xBB\xBF\xEF\xBB\xBF"), b"\xEF\xBB\xBF");
    assert_eq!(
        read_settings(b"\xEF\xBB\xBF{\"a\":1}"),
        Some(object(r#"{"a":1}"#))
    );
    assert_eq!(read_settings(b"[1]"), None);
    assert_eq!(read_settings(b"{"), None);
}

#[test]
fn deep_documents_are_not_read() {
    let nested = |levels: usize| {
        let mut text = String::new();
        for _ in 0..levels {
            text.push_str("{\"a\":");
        }
        text.push('1');
        for _ in 0..levels {
            text.push('}');
        }
        text
    };
    assert!(read_settings(nested(127).as_bytes()).is_some());
    assert!(read_settings(nested(128).as_bytes()).is_none());
    let deep = object(&nested(127));
    let mut steam = object(r#"{ "version": 1, "steam": {} }"#);
    add_missing_defaults(&mut steam, &deep);
    let bytes = build_settings(steam, None, "french", false).expect("built");
    assert_eq!(settings_language(&bytes), Some("french".to_string()));
}

#[test]
fn languages_are_read() {
    assert_eq!(
        settings_language(b"{\"steam\":{\"language\":\"polish\"}}"),
        Some("polish".to_string())
    );
    for bytes in [
        &b"{\"steam\":{\"language\":1}}"[..],
        b"{\"steam\":{}}",
        b"{\"steam\":[]}",
        b"{}",
        b"[]",
        b"",
    ] {
        assert_eq!(settings_language(bytes), None);
    }
}

#[test]
fn bundled_settings_are_found_in_the_dll() {
    assert_eq!((RT_RCDATA, DEFAULT_SETTINGS_RESOURCE), (10, 101));
    let image = dll(10, 101, DEFAULTS.as_bytes());
    assert_eq!(bundled_settings(&image).expect("settings"), defaults());
    let marked = [b"\xEF\xBB\xBF", DEFAULTS.as_bytes()].concat();
    assert_eq!(
        bundled_settings(&dll(10, 101, &marked)).expect("settings"),
        defaults()
    );
}

#[test]
fn dlls_without_valid_settings_are_refused() {
    let refused = "The Sunrise DLL does not contain valid default settings.";
    for image in [
        Vec::new(),
        DEFAULTS.as_bytes().to_vec(),
        dll(10, 102, DEFAULTS.as_bytes()),
        dll(11, 101, DEFAULTS.as_bytes()),
        dll(10, 101, b"not json"),
        dll(10, 101, b"[]"),
        dll(10, 101, b"{\"version\":1}"),
        dll(10, 101, b"{\"version\":1,\"steam\":null}"),
        dll(10, 101, b"{\"version\":0,\"steam\":{}}"),
        dll(10, 101, b"{\"steam\":{}}"),
    ] {
        assert_eq!(bundled_settings(&image).expect_err("refused").text(), refused);
    }
    assert_eq!(document_settings(None).expect_err("refused").text(), refused);
    assert!(document_settings(Some(b"{\"version\":1,\"steam\":{}}".to_vec())).is_ok());
}

#[test]
fn misaligned_dlls_are_not_looked_at() {
    let image = dll(10, 101, DEFAULTS.as_bytes());
    assert!(is_aligned(&image));
    assert!(is_aligned(b""));
    assert!(is_aligned(b"MZ"));
    for (at, value) in [(60, 68u8), (84, 241), (88 + 112 + 16, 2), (348, 1), (340, 2)] {
        let mut image = image.clone();
        image[at] = value;
        if at == 340 {
            // The directory lies before the section, which does not hold it.
            assert!(is_aligned(&image));
        } else {
            assert!(!is_aligned(&image));
        }
        assert_eq!(
            bundled_settings(&image).expect_err("refused").text(),
            "The Sunrise DLL does not contain valid default settings."
        );
    }
}

#[test]
fn dlls_are_read_or_refused_wherever_they_stand() {
    let image = dll(10, 101, DEFAULTS.as_bytes());
    for offset in 0..16 {
        let mut memory = vec![0u8; offset];
        memory.extend_from_slice(&image);
        match bundled_settings(&memory[offset..]) {
            Ok(settings) => assert_eq!(settings, defaults()),
            Err(error) => assert_eq!(
                error.text(),
                "The Sunrise DLL does not contain valid default settings."
            ),
        }
    }
}

#[test]
fn prepared_settings_are_read_back() {
    let image = dll(10, 101, DEFAULTS.as_bytes());
    let existing = b"{\"version\":18,\"video\":{\"scale\":1.5},\"steam\":{}}";
    let bytes = prepare_sunrise_settings(&image, Some(existing), "french", false).expect("built");
    let read = read_settings(&bytes).expect("object");
    assert_eq!(read["video"]["scale"], 1.5);
    assert_eq!(read["video"]["fieldOfView"], 70);
    assert_eq!(settings_language(&bytes), Some("french".to_string()));
    let text = String::from_utf8(bytes).expect("text");
    assert!(text.starts_with("{\n  \"steam\": {\n    \"language\": \"french\""));
}

#[test]
fn a_reset_does_not_look_at_the_file() {
    let image = dll(10, 101, DEFAULTS.as_bytes());
    let broken = Some(&b"not json"[..]);
    let error = prepare_sunrise_settings(&image, broken, "french", false).expect_err("refused");
    assert_eq!(error.text(), "Sunrise settings.json could not be read.");
    let reset = prepare_sunrise_settings(&image, broken, "french", true).expect("built");
    let fresh = prepare_sunrise_settings(&image, None, "french", false).expect("built");
    assert_eq!(reset, fresh);
    let error = prepare_sunrise_settings(b"", broken, "french", false).expect_err("refused");
    assert_eq!(
        error.text(),
        "The Sunrise DLL does not contain valid default settings."
    );
}
