use cloubil::errors::SigningError;
use cloubil::signers::{aws_get_signature_key, aws_sign, aws_signature, sha256_hex};

fn hex(bytes: &[u8]) -> String {
    let mut out = String::new();
    for b in bytes {
        out.push_str(&format!("{:02x}", b));
    }
    out
}

#[test]
fn signing_key_matches_the_published_vector() {
    let key = aws_get_signature_key(
        "wJalrXUtnFEMI/K7MDENG+bPxRfiCYEXAMPLEKEY",
        "20150830",
        "us-east-1",
        "iam",
    )
    .unwrap();
    assert_eq!(
        key,
        vec![
            196, 175, 177, 204, 87, 113, 216, 113, 118, 58, 57, 62, 68, 183, 3, 87, 27, 85, 204,
            40, 66, 77, 26, 94, 134, 218, 110, 211, 193, 84, 164, 185
        ]
    );
    assert_eq!(
        hex(&key),
        "c4afb1cc5771d871763a393e44b703571b55cc28424d1a5e86da6ed3c154a4b9"
    );
}

#[test]
fn signing_key_of_the_secret_written_with_slashes() {
    let key = aws_get_signature_key(
        "wJalrXUtnFEMI/K7MDENG/bPxRfiCYEXAMPLEKEY",
        "20150830",
        "us-east-1",
        "iam",
    )
    .unwrap();
    assert_eq!(
        hex(&key),
        "2c94c0cf5378ada6887f09bb697df8fc0affdb34ba1cdd5bda32b664bd55b73c"
    );
}

#[test]
fn signing_key_has_32_bytes() {
    let key = aws_get_signature_key("", "", "", "").unwrap();
    assert_eq!(key.len(), 32);
}

#[test]
fn signing_key_is_the_chain_of_four_codes() {
    let k1 = aws_sign(b"AWS4secret", b"20230101").unwrap();
    let k2 = aws_sign(&k1, b"us-east-1").unwrap();
    let k3 = aws_sign(&k2, b"ce").unwrap();
    let k4 = aws_sign(&k3, b"aws4_request").unwrap();
    assert_eq!(
        aws_get_signature_key("secret", "20230101", "us-east-1", "ce"),
        Ok(k4)
    );
}

#[test]
fn signing_key_depends_on_each_part_of_the_scope() {
    let base = aws_get_signature_key("secret", "20230101", "us-east-1", "ce").unwrap();
    assert_ne!(
        aws_get_signature_key("secreT", "20230101", "us-east-1", "ce").unwrap(),
        base
    );
    assert_ne!(
        aws_get_signature_key("secret", "20230102", "us-east-1", "ce").unwrap(),
        base
    );
    assert_ne!(
        aws_get_signature_key("secret", "20230101", "us-east-2", "ce").unwrap(),
        base
    );
    assert_ne!(
        aws_get_signature_key("secret", "20230101", "us-east-1", "s3").unwrap(),
        base
    );
}

#[test]
fn sign_matches_known_codes() {
    assert_eq!(
        hex(&aws_sign(b"key", b"The quick brown fox jumps over the lazy dog").unwrap()),
        "f7bc83f430538424b13298e6aa6fb143ef4d59a14946175997479dbc2d1a3cd8"
    );
    assert_eq!(
        hex(&aws_sign(b"my secret and secure key", b"input message").unwrap()),
        "97d2a569059bbcd8ead4444ff99071f4c01d005bcefe0d3567e1be628e5fdcd9"
    );
}

#[test]
fn sign_takes_a_key_longer_than_a_block() {
    let key = vec![b'k'; 100];
    let code: Result<Vec<u8>, SigningError> = aws_sign(&key, b"msg");
    assert_eq!(
        hex(&code.unwrap()),
        "bd56a1782c2830e8abc6ed866a57a1230661e650b84c62f7ee3accc5fa5af491"
    );
}

#[test]
fn sign_takes_an_empty_key_and_an_empty_message() {
    let code = aws_sign(b"", b"").unwrap();
    assert_eq!(code.len(), 32);
    assert_eq!(
        hex(&code),
        "b613679a0814d9ec772f95d778c35fc5ff1697c493715653c6c712144292c5ad"
    );
}

#[test]
fn signature_is_the_code_in_small_hex_digits() {
    let key = aws_get_signature_key("secret", "20230101", "us-east-1", "ce").unwrap();
    let text = "AWS4-HMAC-SHA256\n20230101T000000Z\n20230101/us-east-1/ce/aws4_request\nd5aa7399906a79d5466a4db1ba8d7407607b3c9981d67514fde7ec804c0ed1b2";
    let signature = aws_signature(&key, text).unwrap();
    assert_eq!(
        signature,
        "eba1e6e7ff86399f1b57f6f94330e7c33afcfde7a349b89ddc399b1f77696aeb"
    );
    assert_eq!(signature, hex(&aws_sign(&key, text.as_bytes()).unwrap()));
}

#[test]
fn digest_matches_known_digests() {
    assert_eq!(
        sha256_hex(""),
        "e3b0c44298fc1c149afbf4c8996fb92427ae41e4649b934ca495991b7852b855"
    );
    assert_eq!(
        sha256_hex("abc"),
        "ba7816bf8f01cfea414140de5dae2223b00361a396177a9cb410ff61f20015ad"
    );
    assert_eq!(
        sha256_hex("{\"a\":1,\"b\":2}"),
        "43258cff783fe7036d8a43033f830adfc60ec037382473548ac742b888292777"
    );
}
