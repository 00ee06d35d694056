use mini_crypto_lab::digest;

#[test]
fn digest_of_empty_input_is_the_known_value() {
    assert_eq!(
        digest(b""),
        "e3b0c44298fc1c149afbf4c8996fb92427ae41e4649b934ca495991b7852b855"
    );
}

#[test]
fn digest_of_abc_is_the_known_value() {
    assert_eq!(
        digest(b"abc"),
        "ba7816bf8f01cfea414140de5dae2223b00361a396177a9cb410ff61f20015ad"
    );
}

#[test]
fn digest_of_text_with_wide_characters_hashes_its_utf8_bytes() {
    assert_eq!(
        digest("héllo ✓".as_bytes()),
        "5657cdef8a85a584e0e961e6f8247cf5d3f8ed21496ed6fdbcfd43a761e94245"
    );
}

#[test]
fn digest_is_deterministic() {
    let input = b"the same bytes, twice";
    assert_eq!(digest(input), digest(input));
    let copy: Vec<u8> = input.to_vec();
    assert_eq!(digest(input), digest(&copy));
}

#[test]
fn digest_differs_on_different_input() {
    assert_ne!(digest(b"x"), digest(b"y"));
    assert_ne!(digest(b""), digest(b"\0"));
    assert_ne!(digest(b"ab"), digest(b"ba"));
}

#[test]
fn digest_is_sixty_four_lowercase_hex_digits() {
    for input in [&b""[..], &b"a"[..], &[0u8; 200][..], &[255u8; 3][..]] {
        let text = digest(input);
        assert_eq!(text.len(), 64);
        assert!(text.chars().all(|c| c.is_ascii_digit() || ('a'..='f').contains(&c)));
    }
}

#[test]
fn digest_is_not_its_input() {
    let input = b"0123456789abcdef0123456789abcdef0123456789abcdef0123456789abcdef";
    assert_ne!(digest(input).as_bytes(), &input[..]);
}
