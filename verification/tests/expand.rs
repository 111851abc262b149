use xorstring::expand::{xorstring, Argument, ArgumentError, Expansion};
use xorstring::XorString;

#[test]
fn no_argument_yields_the_key() {
    for key in 0..=255u8 {
        assert_eq!(xorstring(&Argument::Empty, key), Ok(Expansion::Key(key)));
    }
}

#[test]
fn string_literal_yields_ciphertext_and_length() {
    assert_eq!(
        xorstring(&Argument::Str(String::from("abc")), 1),
        Ok(Expansion::Encrypted { ciphertext: vec![0x60, 0x60, 0x60], length: 3 }),
    );
    assert_eq!(
        xorstring(&Argument::Str(String::from("abc")), 255),
        Ok(Expansion::Encrypted { ciphertext: vec![0x61 ^ 0xff, 0x62, 0x63 ^ 0x01], length: 3 }),
    );
}

#[test]
fn length_counts_bytes_not_characters() {
    let literal = String::from("\u{1F440}\u{1F97A}");
    assert_eq!(literal.chars().count(), 2);
    match xorstring(&Argument::Str(literal), 77) {
        Ok(Expansion::Encrypted { ciphertext, length }) => {
            assert_eq!(length, 8);
            assert_eq!(ciphertext.len(), 8);
            assert_eq!(
                ciphertext,
                vec![
                    0xf0 ^ 77,
                    0x9f ^ 78,
                    0x91 ^ 79,
                    0x80 ^ 80,
                    0xf0 ^ 81,
                    0x9f ^ 82,
                    0xa5 ^ 83,
                    0xba ^ 84,
                ],
            );
            assert_eq!(XorString::new(&ciphertext).decrypt(77), "\u{1F440}\u{1F97A}");
        }
        other => panic!("unexpected expansion: {:?}", other),
    }
}

#[test]
fn empty_literal_yields_empty_ciphertext() {
    assert_eq!(
        xorstring(&Argument::Str(String::new()), 200),
        Ok(Expansion::Encrypted { ciphertext: Vec::new(), length: 0 }),
    );
}

#[test]
fn other_literal_is_refused() {
    assert_eq!(xorstring(&Argument::OtherLiteral, 3), Err(ArgumentError::NotString));
    assert_eq!(ArgumentError::NotString.message(), "not string input");
}

#[test]
fn non_literal_is_refused() {
    assert_eq!(xorstring(&Argument::NotLiteral, 3), Err(ArgumentError::NotLiteral));
    assert_eq!(ArgumentError::NotLiteral.message(), "expected literal");
}

#[test]
fn argument_is_left_as_it_is() {
    let argument = Argument::Str(String::from("kept"));
    let _ = xorstring(&argument, 9);
    assert_eq!(argument, Argument::Str(String::from("kept")));
}
