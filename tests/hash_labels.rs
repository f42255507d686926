use smash_arc::{hash40, HashLabels};

#[test]
fn from_string_line_feed() {
    let text = "a\nbc\ndef\n";
    let labels = HashLabels::from_string(&text);

    let hash_a = hash40("a");
    let hash_bc = hash40("bc");
    let hash_def = hash40("def");

    assert_eq!("a", hash_a.label(&labels).unwrap());
    assert_eq!("bc", hash_bc.label(&labels).unwrap());
    assert_eq!("def", hash_def.label(&labels).unwrap());
}

#[test]
fn from_string_carriage_return_line_feed() {
    // Ensure the hash label file still works when edited on Windows.
    let text = "a\r\nbc\r\ndef\r\n";
    let labels = HashLabels::from_string(&text);

    let hash_a = hash40("a");
    let hash_bc = hash40("bc");
    let hash_def = hash40("def");

    assert_eq!("a", hash_a.label(&labels).unwrap());
    assert_eq!("bc", hash_bc.label(&labels).unwrap());
    assert_eq!("def", hash_def.label(&labels).unwrap());
}
