use ws63_flash_algorithm::error::Error;

#[test]
fn error_codes() {
    assert_eq!(Error::WipTimeout.code(), 0x5763_0001);
    assert_eq!(Error::DmaTimeout.code(), 0x5763_0002);
    assert_eq!(Error::BlockProtected.code(), 0x5763_0003);
}
