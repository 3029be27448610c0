use bunode::naming::{content_file_name, fnv1a};

#[test]
fn naming_should_match_fnv1a_test_vectors() {
    assert_eq!(fnv1a(b""), 0xcbf2_9ce4_8422_2325);
    assert_eq!(fnv1a(b"a"), 0xaf63_dc4c_8601_ec8c);
    assert_eq!(fnv1a(b"foobar"), 0x8594_4171_f739_67e8);
}

#[test]
fn naming_should_pad_hashes_to_sixteen_digits() {
    assert_eq!(content_file_name("p-", "", ".x"), "p-cbf29ce484222325.x");
    assert_eq!(content_file_name("p-", "a", ".x"), format!("p-{:016x}.x", fnv1a(b"a")));
}
