use aes::cipher::block_padding::Pkcs7;
use aes::cipher::{BlockEncryptMut, KeyIvInit};
use icloud_auth::crypto::{
    create_checksum, create_session_key, decrypt_cbc, derive_srp_password, hash_password,
    SrpProtocol,
};
use icloud_auth::hex::{decode_hex, encode_hex};

fn crypto_session_key() -> Vec<u8> {
    (0u8..32).collect()
}

fn crypto_encrypt(session_key: &[u8], plain: &[u8]) -> Vec<u8> {
    let key = create_session_key(session_key, "extra data key:");
    let iv = create_session_key(session_key, "extra data iv:");
    cbc::Encryptor::<aes::Aes256>::new_from_slices(&key, &iv[..16])
        .unwrap()
        .encrypt_padded_vec_mut::<Pkcs7>(plain)
}

#[test]
fn hash_password_is_sha256() {
    assert_eq!(
        encode_hex(&hash_password("password")),
        "5e884898da28047151d0e56f8dc6292773603d0d6aabbdd62a11ef721d1542d8"
    );
    assert_eq!(
        encode_hex(&hash_password("abc")),
        "ba7816bf8f01cfea414140de5dae2223b00361a396177a9cb410ff61f20015ad"
    );
}

#[test]
fn pbkdf2_matches_reference_vector_s2k() {
    let hashed = hash_password("password");
    let derived = derive_srp_password(SrpProtocol::S2k, &hashed, b"salt", 1000);
    assert_eq!(
        encode_hex(&derived),
        "bcf2419af19758a976f4908f0cb534e4b572b9f9b54c2206184052d7b6e878b6"
    );
}

#[test]
fn pbkdf2_matches_reference_vector_s2k_fo() {
    let hashed = hash_password("password");
    let derived = derive_srp_password(SrpProtocol::S2kFo, &hashed, b"salt", 1000);
    assert_eq!(
        encode_hex(&derived),
        "66f7693a7310205a00b3d0634242209a2d4c687187a13e284d295f1c489ee3bf"
    );
}

#[test]
fn pbkdf2_known_answers() {
    let one = derive_srp_password(SrpProtocol::S2k, b"password", b"salt", 1);
    assert_eq!(
        encode_hex(&one),
        "120fb6cffcf8b32c43e7225256c4f837a86548c92ccc35480805987cb70be17b"
    );
    let two = derive_srp_password(SrpProtocol::S2k, b"password", b"salt", 2);
    assert_eq!(
        encode_hex(&two),
        "ae4d0c95af6b46d32d0adff928f06dd02a303f8ef3c251dfd6e2d85a95474c43"
    );
}

#[test]
fn hex_is_applied_only_for_s2k_fo() {
    let hashed = hash_password("password");
    let text = encode_hex(&hashed);
    let via_hex = derive_srp_password(SrpProtocol::S2k, text.as_bytes(), b"salt", 10);
    let fo = derive_srp_password(SrpProtocol::S2kFo, &hashed, b"salt", 10);
    let plain = derive_srp_password(SrpProtocol::S2k, &hashed, b"salt", 10);
    assert_eq!(via_hex, fo);
    assert_ne!(plain, fo);
    assert_eq!(plain.len(), 32);
}

#[test]
fn session_keys_are_hmac_of_their_names() {
    let key = crypto_session_key();
    assert_eq!(
        encode_hex(&create_session_key(&key, "extra data key:")),
        "250df949063138bbc7e52a909dd4e2a78786af068faf5641a1e4e2e7b65d7694"
    );
    assert_eq!(
        encode_hex(&create_session_key(&key, "extra data iv:")),
        "40df232a0e13996879417b38f85526d175fdc5c4a219fb07bff7c5c835e4663a"
    );
    assert_eq!(
        encode_hex(&create_session_key(b"Jefe", "what do ya want for nothing?")),
        "5bdcc146bf60754e6a042426089575c75a003f089d2739839dec58b964ec3843"
    );
}

#[test]
fn checksum_covers_literal_dsid_and_app() {
    let key = crypto_session_key();
    assert_eq!(
        encode_hex(&create_checksum(&key, "12345", "com.apple.gs.xcode.auth")),
        "30da7f2806763faded145e416a972397ae4f0047e34e421de6b89c01be124db2"
    );
}

#[test]
fn encrypt_then_decrypt_round_trips() {
    let key = crypto_session_key();
    for len in [0usize, 1, 15, 16, 17, 31, 32, 33, 255, 1000] {
        let plain: Vec<u8> = (0..len).map(|i| (i * 7 + 3) as u8).collect();
        let sealed = crypto_encrypt(&key, &plain);
        assert_eq!(sealed.len() % 16, 0);
        assert_ne!(sealed, plain);
        assert_eq!(decrypt_cbc(&key, &sealed), Some(plain));
    }
}

#[test]
fn decrypt_round_trips_a_property_list() {
    let key = hash_password("session");
    let plain = b"<?xml version=\"1.0\"?><plist version=\"1.0\"><dict><key>acname</key><string>user@example.com</string></dict></plist>".to_vec();
    let sealed = crypto_encrypt(&key, &plain);
    assert_eq!(decrypt_cbc(&key, &sealed), Some(plain));
}

#[test]
fn decrypt_rejects_bad_length_and_padding() {
    let key = crypto_session_key();
    assert_eq!(decrypt_cbc(&key, &[1, 2, 3]), None);
    assert_eq!(decrypt_cbc(&key, &[]), None);
    let sealed = crypto_encrypt(&key, b"sixteen byte msg");
    let other: Vec<u8> = (1u8..33).collect();
    let wrong = decrypt_cbc(&other, &sealed);
    assert_ne!(wrong, Some(b"sixteen byte msg".to_vec()));
}

#[test]
fn hex_encodes_lower_case_high_nibble_first() {
    assert_eq!(encode_hex(&[]), "");
    assert_eq!(encode_hex(&[0x00, 0x0f, 0xa5, 0xff]), "000fa5ff");
    assert_eq!(encode_hex(&[0x57, 0xd0, 0x4d, 0x9d, 0xd6, 0x86]), "57d04d9dd686");
}

#[test]
fn hex_decodes_either_case_and_rejects_the_rest() {
    assert_eq!(decode_hex(""), Some(vec![]));
    assert_eq!(decode_hex("000fa5ff"), Some(vec![0x00, 0x0f, 0xa5, 0xff]));
    assert_eq!(decode_hex("000FA5Ff"), Some(vec![0x00, 0x0f, 0xa5, 0xff]));
    assert_eq!(decode_hex("abc"), None);
    assert_eq!(decode_hex("zz"), None);
    assert_eq!(decode_hex("0g"), None);
    assert_eq!(decode_hex("+1"), None);
}

#[test]
fn hex_round_trips() {
    let all: Vec<u8> = (0u8..=255).collect();
    assert_eq!(decode_hex(&encode_hex(&all)), Some(all));
}
