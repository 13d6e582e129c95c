use radon::fingerprint::{fingerprint, to_hex};

#[test]
fn bytes_are_written_in_lower_case_hexadecimal() {
    assert_eq!(to_hex(&[]), "");
    assert_eq!(to_hex(&[0x00, 0x0a, 0x14, 0x1e]), "000a141e");
    assert_eq!(to_hex(&[0xff, 0xab, 0xcd, 0xef, 0x10, 0x99]), "ffabcdef1099");
}

#[test]
fn every_byte_takes_two_digits() {
    let all: Vec<u8> = (0..=255).collect();
    let expected: String = all.iter().map(|b| format!("{:02x}", b)).collect();
    assert_eq!(to_hex(&all), expected);
}

#[test]
fn the_fingerprint_of_no_bytes() {
    assert_eq!(
        fingerprint(b""),
        "e3b0c44298fc1c149afbf4c8996fb92427ae41e4649b934ca495991b7852b855"
    );
}

#[test]
fn the_fingerprint_of_a_known_text() {
    assert_eq!(
        fingerprint(b"abc"),
        "ba7816bf8f01cfea414140de5dae2223b00361a396177a9cb410ff61f20015ad"
    );
}

#[test]
fn the_fingerprint_is_not_the_text_itself() {
    let data = b"all:\n\tcc main.c\n";
    let f = fingerprint(data);
    assert_eq!(f.len(), 64);
    assert!(f != to_hex(data));
    assert!(f != fingerprint(b"all:\n\tcc main.c"));
}
