use ws63_flash_algorithm::algo::Ws63Algo;

fn algo() -> Ws63Algo {
    Ws63Algo {
        saved_sr1: 0x1C,
        saved_sr2: 0x02,
        saved_sr3: 0x20,
        saved_bus_config1: 0,
        saved_bus_dma_ahb_ctrl: 0,
    }
}

#[test]
fn equal_bytes_verify() {
    assert_eq!(algo().verify(0x23_0000, &[1, 2, 3], Some(&[1, 2, 3])), Ok(()));
    assert_eq!(algo().verify(0x23_0000, &[], Some(&[])), Ok(()));
    assert_eq!(algo().verify(0x23_0000, &[], None), Ok(()));
}

#[test]
fn first_difference_is_reported() {
    assert_eq!(algo().verify(0x23_0000, &[1, 9, 9], Some(&[1, 2, 3])), Err(0x23_0001));
    assert_eq!(algo().verify(0x23_0000, &[9, 2, 3], Some(&[1, 2, 3])), Err(0x23_0000));
    assert_eq!(algo().verify(0x23_0000, &[1, 2, 9], Some(&[1, 2, 3])), Err(0x23_0002));
}

#[test]
fn missing_data_differs() {
    assert_eq!(algo().verify(0x23_0000, &[1, 2, 3], Some(&[1, 2])), Err(0x23_0002));
    assert_eq!(algo().verify(0x23_0000, &[1, 2, 3], None), Err(0x23_0000));
}

#[test]
fn surplus_data_is_ignored() {
    assert_eq!(algo().verify(0x23_0000, &[1], Some(&[1, 2])), Ok(()));
}

#[test]
fn failing_address_wraps() {
    assert_eq!(algo().verify(0xFFFF_FFFF, &[1, 2], Some(&[1, 3])), Err(0));
}
