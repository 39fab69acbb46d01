use med_qrng::{get_qwqng_clsid, to_utf16};

#[test]
fn empty_name_is_just_the_nul() {
    assert_eq!(to_utf16(""), vec![0u16]);
}

#[test]
fn ascii_name_encodes_unit_per_char() {
    let expected: Vec<u16> = "RandInt32"
        .encode_utf16()
        .chain(std::iter::once(0))
        .collect();
    assert_eq!(to_utf16("RandInt32"), expected);
}

#[test]
fn astral_char_encodes_as_surrogate_pair() {
    assert_eq!(to_utf16("\u{1D11E}"), vec![0xD834, 0xDD1E, 0]);
}

#[test]
fn mixed_name_keeps_character_order() {
    assert_eq!(
        to_utf16("A\u{10000}B"),
        vec![0x41, 0xD800, 0xDC00, 0x42, 0]
    );
}

#[test]
fn vendor_clsid_resolves_to_its_sixteen_bytes() {
    let g = get_qwqng_clsid().unwrap();
    assert_eq!(g.data1, 0xD7A1BFCF);
    assert_eq!(g.data2, 0x9A30);
    assert_eq!(g.data3, 0x45AF);
    assert_eq!(g.data4, [0xA5, 0xE4, 0x2C, 0xAF, 0x0A, 0x34, 0x49, 0x38]);
}
