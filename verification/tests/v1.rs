use typed_string_encoding::v1::{EncodedSecret, Secret, Secret1, Secret2};

#[test]
fn test_secret1_encode_decode() {
    let secret = Secret1(String::from("My secret message"));
    let encoded_secret = secret.encode();
    let decoded_secret = encoded_secret.decode();
    assert_eq!(decoded_secret.0, "My secret message");
}

#[test]
fn test_secret2_encode_decode() {
    let secret = Secret2(42);
    let encoded_secret = secret.encode();
    let decoded_secret = encoded_secret.decode();
    assert_eq!(decoded_secret.0, 42);
}

#[test]
fn test_secret1_encoded_secret_new() {
    let encoded_secret = EncodedSecret::<Secret1>::new(String::from("My secret message"));
    assert_eq!(encoded_secret.content, "My secret message");
}

#[test]
fn test_secret2_encoded_secret_new() {
    let encoded_secret = EncodedSecret::<Secret2>::new(String::from("42"));
    assert_eq!(encoded_secret.content, "42");
}

#[test]
fn test_secret2_is_encoded_as_its_decimal_text() {
    assert_eq!(Secret2(0).encode().content, "0");
    assert_eq!(Secret2(905).encode().content, "905");
    assert_eq!(Secret2(usize::MAX).encode().content, format!("{}", usize::MAX));
}

#[test]
fn test_secret1_is_encoded_as_itself() {
    assert_eq!(Secret1(String::new()).encode().content, "");
    assert_eq!(Secret1("toor123".to_string()).encode().content, "toor123");
}

#[test]
fn test_encoded_text_decodes_by_its_type() {
    let as_text = EncodedSecret::<Secret1>::new(String::from("42")).decode();
    assert_eq!(as_text.0, "42");
    let as_number = EncodedSecret::<Secret2>::new(String::from("42")).decode();
    assert_eq!(as_number.0, 42);
    let signed = EncodedSecret::<Secret2>::new(String::from("+0042")).decode();
    assert_eq!(signed.0, 42);
}

#[test]
fn test_secret_round_trip() {
    let numbers = vec![0usize, 1, 10, 4096, usize::MAX];
    for n in numbers {
        assert_eq!(Secret2(n).encode().decode().0, n);
        assert_eq!(Secret2::decode(Secret2(n).encode()).0, n);
    }
    let texts = vec!["", "a", "My secret message", "\u{1F511}"];
    for text in texts {
        assert_eq!(Secret1(text.to_string()).encode().decode().0, text);
    }
}
