use smash_arc::{hash40, hash40_from_bytes, Hash40};

#[test]
fn hash40_path_string() {
    assert_eq!(
        Hash40(0x29954022ed),
        hash40("fighter/mario/model/body/c00/model.numatb")
    );
}

#[test]
fn hash40_path_bytes() {
    assert_eq!(
        Hash40(0x29954022ed),
        hash40_from_bytes("fighter/mario/model/body/c00/model.numatb".as_bytes())
    );
}
