use devoter::crypto::seal_block;
use devoter::crypto::Encryptor;
use devoter::crypto::BACKEND_MAX_LEN;
use devoter::crypto::PKCS1_OVERHEAD;
use devoter::error::EncryptionFault;
use devoter::error::VoteError;
use openssl::error::ErrorStack;
use openssl::pkey::Private;
use openssl::rsa::Padding;
use openssl::rsa::Rsa;

const KEY_2048: &str = "MIIBIjANBgkqhkiG9w0BAQEFAAOCAQ8AMIIBCgKCAQEA19/WVnyRqIYrsEm049vy14P2ueBCmRFYaHb8RIK23tNlWop1J3kbjq3toBiUJdzsCnYpBQNo+4l1/xRJjuKN6kCpNJqGQGP9N13oXf7NEzsi4Uc1VIi9USB809D/g945GLJj1YZbpNnwaS4d+2ja98qItO/SuY9UilWYwAhQT/8+cL5qfDDzBjZahOLJ0wc0wM0QY7vRTBymWYxaywUMDCgKO5m0yhOdGk6A04oihjZTykBk1OUpKrGu4fCE3V40QQ3rQy2JWbP42VumVZlZR0255lxUf+5WrU6JQ4Jup7fRz3EnRAEkoGjfAjueu5Vg/uQDtzm8OtLs1pUjaq4lswIDAQAB";

const KEY_1024: &str = "MIGfMA0GCSqGSIb3DQEBAQUAA4GNADCBiQKBgQDDvvLnanAOp9XfGYkE22PseeeclN5jb4PD/5oEjbK8xFfv08+514SP5WvvuQjHNuCyN8AUvlJ66sNWfTDQGusFVJb1rADzrklw4IKN6i0q0vAvLHdaEKJ6Fu4lYYRofGyAweswPy1UWyPWNkLXuaxRALxkiw3lNlBuswED4I6vswIDAQAB";

fn key_pair(bits: u32) -> (Rsa<Private>, String) {
    let key = Rsa::generate(bits).unwrap();
    let pem = String::from_utf8(key.public_key_to_pem().unwrap()).unwrap();
    let body: String = pem
        .lines()
        .filter(|line| !line.starts_with("-----"))
        .collect();
    (key, body)
}

fn decrypt(key: &Rsa<Private>, ciphertext: &[u8]) -> Vec<u8> {
    let mut plain = vec![0u8; key.size() as usize];
    let n = key.private_decrypt(ciphertext, &mut plain, Padding::PKCS1).unwrap();
    plain.truncate(n);
    plain
}

#[test]
fn constants_of_the_padding() {
    assert_eq!(PKCS1_OVERHEAD, 11);
    assert_eq!(BACKEND_MAX_LEN, i32::MAX as usize);
}

#[test]
fn key_of_2048_bits_has_a_modulus_of_256_bytes() {
    let enc = Encryptor::from_key_body(KEY_2048).unwrap();
    assert_eq!(enc.key_modulus_bytes(), 256);
    assert_eq!(enc.max_plaintext_len(), 245);
}

#[test]
fn key_of_1024_bits_has_a_modulus_of_128_bytes() {
    let enc = Encryptor::from_key_body(KEY_1024).unwrap();
    assert_eq!(enc.key_modulus_bytes(), 128);
    assert_eq!(enc.max_plaintext_len(), 117);
}

#[test]
fn plaintext_up_to_245_bytes_gives_256_bytes_of_ciphertext() {
    let enc = Encryptor::from_key_body(KEY_2048).unwrap();
    for len in [0usize, 1, 46, 100, 244, 245] {
        let plaintext = vec![0x5a_u8; len];
        let ciphertext = enc.encrypt(&plaintext).unwrap();
        assert_eq!(ciphertext.len(), 256);
    }
}

#[test]
fn plaintext_over_245_bytes_is_an_encryption_error() {
    let enc = Encryptor::from_key_body(KEY_2048).unwrap();
    for len in [246usize, 247, 256, 257, 4096] {
        let plaintext = vec![0x5a_u8; len];
        match enc.encrypt(&plaintext) {
            Err(VoteError::Encryption(EncryptionFault::PlaintextTooLong { len: l, max })) => {
                assert_eq!(l, len);
                assert_eq!(max, 245);
            }
            other => panic!("unexpected result: {:?}", other),
        }
    }
}

#[test]
fn limit_follows_the_size_of_the_key() {
    let enc = Encryptor::from_key_body(KEY_1024).unwrap();
    assert_eq!(enc.encrypt(&[1u8; 117]).unwrap().len(), 128);
    assert!(matches!(
        enc.encrypt(&[1u8; 118]),
        Err(VoteError::Encryption(EncryptionFault::PlaintextTooLong { len: 118, max: 117 }))
    ));
}

#[test]
fn ciphertext_decrypts_to_the_plaintext() {
    let (private, body) = key_pair(2048);
    let enc = Encryptor::from_key_body(&body).unwrap();
    let plaintext = b"VOTE\nExample-abcd\nNotch\n127.0.0.1\n1234567890\n";
    let ciphertext = enc.encrypt(plaintext).unwrap();
    assert_eq!(ciphertext.len(), 256);
    assert_ne!(&ciphertext[..plaintext.len()], &plaintext[..]);
    assert_eq!(decrypt(&private, &ciphertext), plaintext.to_vec());
}

#[test]
fn longest_plaintext_decrypts_to_itself() {
    let (private, body) = key_pair(2048);
    let enc = Encryptor::from_key_body(&body).unwrap();
    let plaintext: Vec<u8> = (0..245u32).map(|i| (i % 251) as u8).collect();
    let ciphertext = enc.encrypt(&plaintext).unwrap();
    assert_eq!(decrypt(&private, &ciphertext), plaintext);
}

#[test]
fn padding_is_random() {
    let enc = Encryptor::from_key_body(KEY_2048).unwrap();
    let first = enc.encrypt(b"same plaintext").unwrap();
    let second = enc.encrypt(b"same plaintext").unwrap();
    assert_ne!(first, second);
}

#[test]
fn key_body_outside_ascii_is_refused_as_not_text() {
    assert!(matches!(
        Encryptor::from_key_body("MIIBIjAN\u{e9}Bgkq"),
        Err(VoteError::Encryption(EncryptionFault::KeyNotText))
    ));
}

#[test]
fn key_body_that_is_no_key_is_refused_by_the_backend() {
    for body in ["", "not a key", "AAAA", "MIIBIjANBgkqhkiG9w0BAQEFAAOCAQ8A"] {
        assert!(matches!(
            Encryptor::from_key_body(body),
            Err(VoteError::Encryption(EncryptionFault::Backend(_)))
        ));
    }
}

#[test]
fn armored_key_is_refused_as_a_body() {
    let armored = format!(
        "-----BEGIN PUBLIC KEY-----\n{}\n-----END PUBLIC KEY-----\n",
        KEY_2048
    );
    assert!(matches!(
        Encryptor::from_key_body(&armored),
        Err(VoteError::Encryption(EncryptionFault::Backend(_)))
    ));
}

#[test]
fn admitted_key_keeps_the_size_of_its_modulus() {
    let (private, _) = key_pair(2048);
    let pem = private.public_key_to_pem().unwrap();
    let enc = Encryptor::admit_key(Rsa::public_key_from_pem(&pem)).unwrap();
    assert_eq!(enc.key_modulus_bytes(), 256);
    let ciphertext = enc.encrypt(b"hello").unwrap();
    assert_eq!(decrypt(&private, &ciphertext), b"hello".to_vec());
}

#[test]
fn parse_error_is_passed_on() {
    let parsed = Rsa::public_key_from_pem(b"no pem at all");
    assert!(parsed.is_err());
    assert!(matches!(
        Encryptor::admit_key(parsed),
        Err(VoteError::Encryption(EncryptionFault::Backend(_)))
    ));
}

#[test]
fn block_of_the_size_of_the_modulus_is_the_ciphertext() {
    let block: Vec<u8> = (0..8u8).collect();
    assert_eq!(seal_block(8, block.clone(), Ok(8)).unwrap(), block);
}

#[test]
fn only_the_written_part_of_the_block_is_kept() {
    let block: Vec<u8> = (0..12u8).collect();
    assert_eq!(seal_block(8, block, Ok(8)).unwrap(), (0..8u8).collect::<Vec<u8>>());
}

#[test]
fn block_of_another_size_is_refused() {
    let block: Vec<u8> = (0..8u8).collect();
    assert!(matches!(
        seal_block(8, block.clone(), Ok(7)),
        Err(VoteError::Encryption(EncryptionFault::BlockSize { written: 7, expected: 8 }))
    ));
    assert!(matches!(
        seal_block(9, block.clone(), Ok(8)),
        Err(VoteError::Encryption(EncryptionFault::BlockSize { written: 8, expected: 9 }))
    ));
    assert!(matches!(
        seal_block(9, block, Ok(9)),
        Err(VoteError::Encryption(EncryptionFault::BlockSize { written: 9, expected: 9 }))
    ));
}

#[test]
fn backend_error_is_an_encryption_error() {
    let stack = ErrorStack::get();
    assert!(matches!(
        seal_block(256, vec![0u8; 256], Err(stack)),
        Err(VoteError::Encryption(EncryptionFault::Backend(_)))
    ));
}
