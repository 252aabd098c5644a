use null_chat::storage::secure_delete::{SecureDelete, WipePass, WIPE_CHUNK_BYTES};
use null_chat::storage::vault::{
    derive_key, generate_salt, open_record, parse_salt, salt_text, seal_record, EncryptedVault,
    VaultError, KDF_MEMORY_COST, KDF_PARALLELISM, KDF_TIME_COST, NONCE_LEN, VAULT_VERSION,
};

const SEALED_SECRET: [u8; 34] = [
    2, 2, 2, 2, 2, 2, 2, 2, 2, 2, 2, 2, 116, 179, 170, 59, 47, 35, 21, 130, 236, 125, 56, 195, 178,
    66, 150, 1, 87, 204, 22, 132, 97, 101,
];

#[test]
fn vault_parameters() {
    assert_eq!(VAULT_VERSION, 1);
    assert_eq!(KDF_MEMORY_COST, 65536);
    assert_eq!(KDF_TIME_COST, 3);
    assert_eq!(KDF_PARALLELISM, 4);
    assert_eq!(NONCE_LEN, 12);
}

#[test]
fn seal_record_known_answer() {
    let sealed = seal_record(&[1u8; 32], &[2u8; 12], b"secret").unwrap();
    assert_eq!(sealed, SEALED_SECRET.to_vec());
}

#[test]
fn open_record_known_answer() {
    assert_eq!(open_record(&[1u8; 32], &SEALED_SECRET).unwrap(), b"secret".to_vec());
}

#[test]
fn open_record_wrong_key() {
    assert!(matches!(open_record(&[3u8; 32], &SEALED_SECRET), Err(VaultError::Decryption)));
}

#[test]
fn open_record_too_short() {
    assert!(matches!(open_record(&[1u8; 32], &[0u8; 11]), Err(VaultError::Decryption)));
}

#[test]
fn open_record_tampered() {
    let mut data = SEALED_SECRET;
    data[20] ^= 1;
    assert!(matches!(open_record(&[1u8; 32], &data), Err(VaultError::Decryption)));
}

#[test]
fn derive_key_known_answer() {
    let key = derive_key("correct horse battery staple", &[5u8; 32]).unwrap();
    assert_eq!(
        key,
        [
            22, 150, 23, 66, 180, 134, 252, 110, 193, 42, 216, 90, 113, 59, 91, 188, 63, 132, 236,
            82, 38, 139, 37, 148, 245, 5, 187, 61, 52, 172, 206, 22
        ]
    );
}

#[test]
fn salt_text_then_parse() {
    let salt = generate_salt();
    let text = salt_text(&salt);
    assert_eq!(text.len(), 64);
    assert_eq!(parse_salt(&text).unwrap(), salt);
}

#[test]
fn salt_text_lower_hex() {
    let mut salt = [0u8; 32];
    salt[0] = 0xAB;
    salt[31] = 0x0F;
    let text = salt_text(&salt);
    assert!(text.starts_with("ab00"));
    assert!(text.ends_with("000f"));
}

#[test]
fn parse_salt_trims_whitespace() {
    let text = format!("  {}\n", "01".repeat(32));
    assert_eq!(parse_salt(&text).unwrap(), [1u8; 32]);
}

#[test]
fn parse_salt_accepts_upper_case() {
    assert_eq!(parse_salt(&"AB".repeat(32)).unwrap(), [0xABu8; 32]);
}

#[test]
fn parse_salt_wrong_length() {
    assert!(matches!(parse_salt(&"01".repeat(31)), Err(VaultError::Decryption)));
    assert!(matches!(parse_salt(&"01".repeat(33)), Err(VaultError::Decryption)));
    assert!(matches!(parse_salt(""), Err(VaultError::Decryption)));
}

#[test]
fn parse_salt_odd_or_invalid() {
    assert!(matches!(parse_salt(&"0".repeat(63)), Err(VaultError::Decryption)));
    assert!(matches!(parse_salt(&"zz".repeat(32)), Err(VaultError::Decryption)));
}

#[test]
fn vault_closed_refuses() {
    let vault = EncryptedVault::new();
    assert!(!vault.is_unlocked());
    assert!(matches!(vault.seal_value(b"x"), Err(VaultError::NotOpen)));
    assert!(matches!(vault.open_value(&SEALED_SECRET), Err(VaultError::NotOpen)));
}

#[test]
fn vault_unlock_seal_open_close() {
    let mut vault = EncryptedVault::new();
    vault.unlock("correct horse battery staple", &[5u8; 32]).unwrap();
    assert!(vault.is_unlocked());
    let sealed = vault.seal_value(b"the value").unwrap();
    assert_eq!(sealed.len(), 12 + 9 + 16);
    assert_eq!(vault.open_value(&sealed).unwrap(), b"the value".to_vec());
    vault.close();
    assert!(!vault.is_unlocked());
    assert!(matches!(vault.open_value(&sealed), Err(VaultError::NotOpen)));
}

#[test]
fn vault_seal_value_uses_fresh_nonces() {
    let mut vault = EncryptedVault::new();
    vault.unlock("another passphrase", &[6u8; 32]).unwrap();
    let a = vault.seal_value(b"same").unwrap();
    let b = vault.seal_value(b"same").unwrap();
    assert_ne!(a, b);
}

#[test]
fn vault_wrong_passphrase_cannot_open() {
    let mut vault = EncryptedVault::new();
    vault.unlock("first passphrase", &[7u8; 32]).unwrap();
    let sealed = vault.seal_value(b"data").unwrap();
    let mut other = EncryptedVault::new();
    other.unlock("second passphrase", &[7u8; 32]).unwrap();
    assert!(matches!(other.open_value(&sealed), Err(VaultError::Decryption)));
}

#[test]
fn vault_key_matches_record_functions() {
    let mut vault = EncryptedVault::new();
    vault.unlock("correct horse battery staple", &[5u8; 32]).unwrap();
    let key = derive_key("correct horse battery staple", &[5u8; 32]).unwrap();
    let sealed = vault.seal_value(b"shared").unwrap();
    assert_eq!(open_record(&key, &sealed).unwrap(), b"shared".to_vec());
}

#[test]
fn wipe_buffer_zeroes() {
    let mut buf = vec![0x5Au8; 1000];
    SecureDelete::wipe_buffer(&mut buf);
    assert_eq!(buf.len(), 1000);
    assert!(buf.iter().all(|&b| b == 0));
}

#[test]
fn wipe_plan_passes() {
    let plan = SecureDelete::wipe_plan();
    assert_eq!(plan.len(), 7);
    let fills: Vec<Option<u8>> = plan
        .iter()
        .map(|p| match p {
            WipePass::Fill(b) => Some(*b),
            WipePass::Random => None,
        })
        .collect();
    assert_eq!(fills, vec![Some(0x00), Some(0xFF), Some(0x00), None, None, None, Some(0x00)]);
}

#[test]
fn next_chunk_len_examples() {
    assert_eq!(WIPE_CHUNK_BYTES, 4096);
    assert_eq!(SecureDelete::next_chunk_len(10000, 0), 4096);
    assert_eq!(SecureDelete::next_chunk_len(10000, 8192), 1808);
    assert_eq!(SecureDelete::next_chunk_len(10000, 10000), 0);
    assert_eq!(SecureDelete::next_chunk_len(4096, 0), 4096);
}

#[test]
fn pass_chunk_fill_and_random() {
    let zeros = SecureDelete::pass_chunk(WipePass::Fill(0x00), 10);
    assert_eq!(zeros, vec![0u8; 10]);
    let ones = SecureDelete::pass_chunk(WipePass::Fill(0xFF), 4096);
    assert!(ones.len() == 4096 && ones.iter().all(|&b| b == 0xFF));
    let random = SecureDelete::pass_chunk(WipePass::Random, 4096);
    assert_eq!(random.len(), 4096);
    assert!(random.iter().any(|&b| b != 0));
    assert!(SecureDelete::pass_chunk(WipePass::Random, 0).is_empty());
}

#[test]
fn vault_default_is_closed() {
    let vault = EncryptedVault::default();
    assert!(!vault.is_unlocked());
}

#[test]
fn vault_close_twice() {
    let mut vault = EncryptedVault::new();
    vault.close();
    assert!(!vault.is_unlocked());
    vault.unlock("passphrase one", &[1u8; 32]).unwrap();
    vault.close();
    vault.close();
    assert!(!vault.is_unlocked());
}

#[test]
fn seal_record_length() {
    let sealed = seal_record(&[1u8; 32], &[2u8; 12], &[7u8; 100]).unwrap();
    assert_eq!(sealed.len(), 12 + 100 + 16);
}
