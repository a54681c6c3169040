use hookdeploy::auth::{validate_signature, AuthError};

fn signed_header(secret: &[u8], body: &[u8]) -> String {
    let key = ring::hmac::Key::new(ring::hmac::HMAC_SHA256, secret);
    let tag = ring::hmac::sign(&key, body);
    format!("sha256={}", hex::encode(tag.as_ref()))
}

#[test]
fn no_secret_accepts_without_header() {
    let body: Vec<u8> = b"{}".to_vec();
    assert_eq!(validate_signature(None, &body, None), Ok(()));
}

#[test]
fn no_secret_accepts_with_any_header() {
    let body: Vec<u8> = b"{}".to_vec();
    let header = String::from("garbage");
    assert_eq!(validate_signature(None, &body, Some(&header)), Ok(()));
}

#[test]
fn correct_signature_accepted() {
    let secret = String::from("s3cr3t");
    let body: Vec<u8> = b"{\"zen\":\"Design for failure.\"}".to_vec();
    let header = signed_header(secret.as_bytes(), &body);
    assert_eq!(validate_signature(Some(&secret), &body, Some(&header)), Ok(()));
}

#[test]
fn body_mutation_rejected() {
    let secret = String::from("s3cr3t");
    let body: Vec<u8> = b"{\"zen\":\"Design for failure.\"}".to_vec();
    let header = signed_header(secret.as_bytes(), &body);
    let mut mutated = body.clone();
    mutated[0] ^= 0x01;
    assert_eq!(
        validate_signature(Some(&secret), &mutated, Some(&header)),
        Err(AuthError::SignatureMismatch)
    );
}

#[test]
fn signature_mutation_rejected() {
    let secret = String::from("s3cr3t");
    let body: Vec<u8> = b"payload".to_vec();
    let header = signed_header(secret.as_bytes(), &body);
    // Flip one hex digit of the tag without leaving the hex alphabet.
    let mut chars: Vec<char> = header.chars().collect();
    let last = *chars.last().unwrap();
    *chars.last_mut().unwrap() = if last == '0' { '1' } else { '0' };
    let mutated: String = chars.into_iter().collect();
    assert_eq!(
        validate_signature(Some(&secret), &body, Some(&mutated)),
        Err(AuthError::SignatureMismatch)
    );
}

#[test]
fn missing_header_is_malformed() {
    let secret = String::from("s3cr3t");
    let body: Vec<u8> = b"payload".to_vec();
    assert_eq!(
        validate_signature(Some(&secret), &body, None),
        Err(AuthError::Malformed)
    );
}

#[test]
fn wrong_prefix_is_malformed() {
    let secret = String::from("s3cr3t");
    let body: Vec<u8> = b"payload".to_vec();
    let header = String::from("sha512=0011");
    assert_eq!(
        validate_signature(Some(&secret), &body, Some(&header)),
        Err(AuthError::Malformed)
    );
}

#[test]
fn short_header_is_malformed() {
    let secret = String::from("s3cr3t");
    let body: Vec<u8> = b"payload".to_vec();
    let header = String::from("sha");
    assert_eq!(
        validate_signature(Some(&secret), &body, Some(&header)),
        Err(AuthError::Malformed)
    );
}

#[test]
fn odd_length_hex_is_malformed() {
    let secret = String::from("s3cr3t");
    let body: Vec<u8> = b"payload".to_vec();
    let header = String::from("sha256=abc");
    assert_eq!(
        validate_signature(Some(&secret), &body, Some(&header)),
        Err(AuthError::Malformed)
    );
}

#[test]
fn non_hex_digits_are_malformed() {
    let secret = String::from("s3cr3t");
    let body: Vec<u8> = b"payload".to_vec();
    let header = String::from("sha256=zz11");
    assert_eq!(
        validate_signature(Some(&secret), &body, Some(&header)),
        Err(AuthError::Malformed)
    );
}

#[test]
fn mixed_case_hex_is_accepted() {
    let secret = String::from("s3cr3t");
    let body: Vec<u8> = b"payload".to_vec();
    let header = signed_header(secret.as_bytes(), &body).to_uppercase();
    let header = header.replace("SHA256=", "sha256=");
    assert_eq!(validate_signature(Some(&secret), &body, Some(&header)), Ok(()));
}
