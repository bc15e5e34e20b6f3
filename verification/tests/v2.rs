use typed_string_encoding::v2::{Deserialize, Secret, Secret1, Secret2, Serialize};

#[test]
fn test_secret_encoding_decoding() {
    let secret_1 = Secret::new(Secret1("secret_1".into()));
    let secret_2 = Secret::new(Secret2(42));

    // Encode the secrets
    let encoded_secret_1 = secret_1.encode();
    let encoded_secret_2 = secret_2.encode();

    // Decode the secrets
    let decoded_secret_1 = encoded_secret_1.decode();
    let decoded_secret_2 = encoded_secret_2.decode();

    // Ensure the secrets match
    let secret_1 = Secret::new(Secret1("secret_1".into()));
    let secret_2 = Secret::new(Secret2(42));

    assert_eq!(decoded_secret_1.secret(), secret_1.secret());
    assert_eq!(decoded_secret_2.secret(), secret_2.secret());
}

#[test]
fn test_secret_states() {
    let decoded = Secret::new(Secret2(905));
    assert_eq!(decoded.secret(), Secret2(905));
    let encoded = decoded.encode();
    assert_eq!(encoded.encoded_secret(), "905");
    assert_eq!(encoded.decode().secret(), Secret2(905));

    let decoded = Secret::new(Secret1("toor123".to_string()));
    let encoded = decoded.encode();
    assert_eq!(encoded.encoded_secret(), "toor123");
    assert_eq!(encoded.decode().secret(), Secret1("toor123".to_string()));
}

#[test]
fn test_plain_number_as_secret() {
    let decoded = Secret::new(42usize);
    assert_eq!(decoded.secret(), 42);
    let encoded = decoded.encode();
    assert_eq!(encoded.encoded_secret(), "42");
    assert_eq!(encoded.decode().secret(), 42);
}

#[test]
fn test_text_form_round_trip() {
    let numbers = vec![0usize, 7, 10, 65_535, usize::MAX];
    for n in numbers {
        assert_eq!(Secret::new(n).encode().decode().secret(), n);
        assert_eq!(Secret::new(Secret2(n)).encode().decode().secret(), Secret2(n));
    }
}

#[test]
fn test_text_forms() {
    assert_eq!(Secret2(12).serialize(), "12");
    assert_eq!(12usize.serialize(), "12");
    assert_eq!(Secret1("x y".to_string()).serialize(), "x y");
    assert_eq!(Secret2::deserialize("0012".to_string()), Secret2(12));
    assert_eq!(<usize as Deserialize>::deserialize("+12".to_string()), 12);
    assert_eq!(Secret1::deserialize("12".to_string()), Secret1("12".to_string()));
}
