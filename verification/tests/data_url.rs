use bunode::base64::{decode_base64, encode_base64};
use bunode::data_url::{build_blob_import_wrapper, decode_payload, decode_percent, materialize_javascript_module};
use bunode::error::BunodeError;

#[test]
fn should_decode_percent_data_payload() -> Result<(), BunodeError> {
    let decoded = decode_percent("globalThis.loaded%3D1")?;

    assert_eq!(decoded, b"globalThis.loaded=1");

    Ok(())
}

#[test]
fn should_decode_base64_data_payload() -> Result<(), BunodeError> {
    let decoded = decode_base64("Z2xvYmFsVGhpcy5sb2FkZWQ9MQ==")?;

    assert_eq!(decoded, b"globalThis.loaded=1");

    Ok(())
}

#[test]
fn should_reject_invalid_base64_payload() {
    assert!(decode_base64("Z").is_err());
    assert!(decode_base64("Zg==bad").is_err());
}

#[test]
fn should_percent_decode_base64_data_payload() -> Result<(), BunodeError> {
    let module = materialize_javascript_module("data:text/javascript;base64,Z2xvYmFsVGhpcy5sb2FkZWQ9MQ%3D%3D")?.unwrap();
    let wrapper = String::from_utf8(module.source).unwrap();

    assert!(wrapper.contains("URL.createObjectURL"));
    assert!(wrapper.contains("Z2xvYmFsVGhpcy5sb2FkZWQ9MQ=="));

    Ok(())
}

#[test]
fn should_materialize_javascript_data_import() -> Result<(), BunodeError> {
    let module = materialize_javascript_module("data:text/javascript,globalThis.loaded%3D1")?.unwrap();

    assert!(String::from_utf8(module.source).unwrap().contains("URL.createObjectURL"));

    Ok(())
}

#[test]
fn should_materialize_case_insensitive_javascript_data_import() -> Result<(), BunodeError> {
    let module = materialize_javascript_module("data:Text/JavaScript,globalThis.loaded%3D1")?.unwrap();

    assert!(String::from_utf8(module.source).unwrap().contains("URL.createObjectURL"));

    Ok(())
}

#[test]
fn should_materialize_case_insensitive_data_scheme() -> Result<(), BunodeError> {
    let module = materialize_javascript_module("DATA:text/javascript,globalThis.loaded%3D1")?.unwrap();

    assert!(String::from_utf8(module.source).unwrap().contains("URL.createObjectURL"));

    Ok(())
}

#[test]
fn should_wrap_data_payload_as_blob_import() {
    let wrapper = String::from_utf8(build_blob_import_wrapper(b"import './x.js'")).unwrap();

    assert!(wrapper.contains("await import(__bunodeDataImportUrl)"));
    assert!(!wrapper.contains("import './x.js'"));
}

#[test]
fn should_strip_data_import_fragment() -> Result<(), BunodeError> {
    let module = materialize_javascript_module("data:text/javascript,globalThis.loaded%3D1#cache")?.unwrap();

    assert!(String::from_utf8(module.source).unwrap().contains("URL.createObjectURL"));

    Ok(())
}

#[test]
fn should_ignore_non_data_imports() -> Result<(), BunodeError> {
    assert!(materialize_javascript_module("./preload.mjs")?.is_none());

    Ok(())
}

#[test]
fn data_url_should_name_modules_by_specifier_hash() -> Result<(), BunodeError> {
    let first = materialize_javascript_module("data:text/javascript,1")?.unwrap();
    let again = materialize_javascript_module("data:text/javascript,1")?.unwrap();
    let other = materialize_javascript_module("data:text/javascript,2")?.unwrap();

    assert_eq!(first.file_name, again.file_name);
    assert_ne!(first.file_name, other.file_name);
    assert!(first.file_name.starts_with("bunode-data-import-"));
    assert!(first.file_name.ends_with(".mjs"));
    assert_eq!(first.file_name.len(), "bunode-data-import-".len() + 16 + ".mjs".len());

    Ok(())
}

#[test]
fn data_url_should_ignore_other_media_types() -> Result<(), BunodeError> {
    assert!(materialize_javascript_module("data:text/plain,hello")?.is_none());
    assert!(materialize_javascript_module("https://example.com/x.js")?.is_none());

    Ok(())
}

#[test]
fn data_url_should_reject_missing_comma() {
    let error = materialize_javascript_module("data:text/javascript").err().unwrap();

    assert_eq!(error.to_message(), "data URL import is missing a `,` before its payload");
}

#[test]
fn data_url_should_reject_bad_percent_escape() {
    let error = decode_percent("a%GG").unwrap_err();

    assert_eq!(error.to_message(), "data URL import has an invalid percent escape");
    assert!(decode_percent("%4").is_err());
    assert_eq!(decode_percent("%+5").unwrap(), vec![5u8]);
    assert_eq!(decode_percent("%4a%4A").unwrap(), b"JJ".to_vec());
}

#[test]
fn data_url_should_reject_bad_base64_payload_with_its_error() {
    let error = decode_payload("text/javascript;BASE64", "Z").unwrap_err();

    assert_eq!(error.to_message(), "data URL import has an invalid base64 payload");
}

#[test]
fn base64_should_round_trip_and_match_known_encodings() {
    assert_eq!(encode_base64(b""), "");
    assert_eq!(encode_base64(b"f"), "Zg==");
    assert_eq!(encode_base64(b"fo"), "Zm8=");
    assert_eq!(encode_base64(b"foo"), "Zm9v");
    assert_eq!(encode_base64(b"foobar"), "Zm9vYmFy");
    let bytes: Vec<u8> = (0u8..=255).collect();
    assert_eq!(decode_base64(&encode_base64(&bytes)).unwrap(), bytes);
    assert_eq!(decode_base64("Zm9v\nYmFy").unwrap(), b"foobar");
    assert_eq!(decode_base64("Zm8").unwrap(), b"fo");
    assert!(decode_base64("Zm8==").is_err());
    assert!(decode_base64("Zm9v=").is_err());
}

#[test]
fn base64_text_should_have_four_characters_per_started_group() {
    assert_eq!(encode_base64(b"f"), "Zg==");
    assert_eq!(encode_base64(b"fo"), "Zm8=");
    assert_eq!(encode_base64(b"foo"), "Zm9v");
    for length in 0..40usize {
        let bytes: Vec<u8> = (0..length).map(|i| (i * 37 + 250) as u8).collect();
        let text = encode_base64(&bytes);
        assert_eq!(text.len(), 4 * ((length + 2) / 3));
        let padding = text.chars().rev().take_while(|c| *c == '=').count();
        assert!(padding <= 2);
        assert!(text[..text.len() - padding].chars().all(|c| c.is_ascii_alphanumeric() || c == '+' || c == '/'));
        assert_eq!(decode_base64(&text).ok().unwrap(), bytes);
    }
}
