use gql_async_graphql::auth::AuthError;
use gql_async_graphql::der::{der_integer, jose_es256_signature_to_der};

#[test]
fn converts_jose_es256_signature_to_der() {
    let mut jose = vec![0; 64];
    jose[31] = 1;
    jose[63] = 2;

    let der = jose_es256_signature_to_der(&jose).unwrap();

    assert_eq!(der, vec![0x30, 0x06, 0x02, 0x01, 0x01, 0x02, 0x01, 0x02]);
}

#[test]
fn der_integer_pads_high_bit_and_keeps_zero() {
    assert_eq!(der_integer(&[0x00, 0x00, 0x80, 0x01]), vec![0x02, 0x03, 0x00, 0x80, 0x01]);
    assert_eq!(der_integer(&[0x00, 0x00]), vec![0x02, 0x01, 0x00]);
    assert_eq!(der_integer(&[]), vec![0x02, 0x01, 0x00]);
    assert_eq!(der_integer(&[0x7f]), vec![0x02, 0x01, 0x7f]);
}

#[test]
fn es256_der_with_full_width_components() {
    let mut jose = vec![0xffu8; 64];
    jose[32] = 0x01;
    let der = jose_es256_signature_to_der(&jose).unwrap();
    assert_eq!(der.len(), 2 + 2 + 33 + 2 + 32);
    assert_eq!(&der[0..5], &[0x30, 69, 0x02, 33, 0x00]);
    assert_eq!(der[37], 0x02);
    assert_eq!(der[38], 32);
    assert_eq!(der[39], 0x01);
}

#[test]
fn es256_signature_of_wrong_length_is_rejected() {
    assert_eq!(
        jose_es256_signature_to_der(&[1, 2, 3]),
        Err(AuthError::InvalidToken("invalid ES256 signature length".to_string())),
    );
}
