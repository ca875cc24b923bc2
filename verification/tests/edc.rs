use swiftnav::edc::compute_crc24q;


#[test]
fn crc24q() {
    const TEST_DATA: &[u8] = "123456789".as_bytes();
    let crc = compute_crc24q(&TEST_DATA[0..0], 0);
    assert!(
        crc == 0,
        "CRC of empty buffer with starting value 0 should be 0, not {}",
        crc
    );

    let crc = compute_crc24q(&TEST_DATA[0..0], 22);
    assert!(
        crc == 22,
        "CRC of empty buffer with starting value 22 should be 22, not {}",
        crc
    );

    /* Test value taken from python crcmod package tests, see:
     * http://crcmod.sourceforge.net/crcmod.predefined.html */
    let crc = compute_crc24q(TEST_DATA, 0xB704CE);
    assert!(
        crc == 0x21CF02,
        "CRC of \"123456789\" with init value 0xB704CE should be {}, not 0x%06X",
        crc
    );
}

#[test]
fn test_crc24q() {
    const TEST_DATA: &[u8] = "123456789".as_bytes();
    let crc = compute_crc24q(&TEST_DATA[0..0], 0);
    assert!(
        crc == 0,
        "CRC of empty buffer with starting value 0 should be 0, not {crc}",
    );

    let crc = compute_crc24q(&TEST_DATA[0..0], 22);
    assert!(
        crc == 22,
        "CRC of empty buffer with starting value 22 should be 22, not {crc}",
    );

    /* Test value taken from python crcmod package tests, see:
     * http://crcmod.sourceforge.net/crcmod.predefined.html */
    let crc = compute_crc24q(TEST_DATA, 0x00B7_04CE);
    assert!(
        crc == 0x0021_CF02,
        "CRC of \"123456789\" with init value 0xB704CE should be 0x21CF02, not {crc}",
    );
}
