//! The cryptographic primitives the login protocol is built from, and the
//! key derivations the protocol defines on top of them.
//!
//! The primitives are computed by outside crates. Each has a name for its
//! result here, and the derivations are stated over those names.

use aes::cipher::block_padding::Pkcs7;
use aes::cipher::{BlockDecryptMut, KeyIvInit};
use base64::engine::general_purpose::STANDARD;
use base64::Engine;
use hmac::{Hmac, Mac};
use sha2::{Digest, Sha256};
use srp::client::SrpClient;
use srp::groups::G_2048;
use vstd::prelude::*;

use crate::hex::{encode_hex, hex_text};

verus! {

/// The SHA-256 digest of `data`.
pub uninterp spec fn sha256_digest(data: Seq<u8>) -> Seq<u8>;

/// The HMAC-SHA256 tag of `message` under `key`.
pub uninterp spec fn hmac_sha256_tag(key: Seq<u8>, message: Seq<u8>) -> Seq<u8>;

/// The first 32 bytes that PBKDF2 with HMAC-SHA256 derives.
pub uninterp spec fn pbkdf2_sha256_key(password: Seq<u8>, salt: Seq<u8>, rounds: u32) -> Seq<u8>;

/// What AES-256 in CBC mode with PKCS#7 padding decrypts `data` to, or
/// `None` where it rejects the key, the vector, the length or the padding.
pub uninterp spec fn aes256_cbc_plaintext(key: Seq<u8>, iv: Seq<u8>, data: Seq<u8>) -> Option<
    Seq<u8>,
>;

/// The public value that belongs to the private exponent `a` in the 2048-bit
/// group.
pub uninterp spec fn srp_public_value(a: Seq<u8>) -> Seq<u8>;

/// What one side of a key exchange knows once the server has replied.
pub struct SrpTranscript {
    /// The proof the client sends.
    pub client_proof: Seq<u8>,
    /// The proof the client expects back.
    pub server_proof: Seq<u8>,
    /// The shared session key.
    pub key: Seq<u8>,
}

/// The transcript of a key exchange in the 2048-bit group with SHA-256, or
/// `None` where the server's public value is refused.
pub uninterp spec fn srp_transcript(
    a: Seq<u8>,
    username: Seq<u8>,
    password: Seq<u8>,
    salt: Seq<u8>,
    b_pub: Seq<u8>,
) -> Option<SrpTranscript>;

/// The standard base64 text of `data`, with padding.
pub uninterp spec fn base64_text(data: Seq<u8>) -> Seq<char>;

/// The bytes that standard base64 `text` stands for, or `None` where the text
/// is not valid base64.
pub uninterp spec fn base64_bytes(text: Seq<char>) -> Option<Seq<u8>>;

/// `Sha256::digest` of the sha2 crate: the digest is the named one and is 32
/// bytes long.
#[verifier::external_body]
pub(crate) fn sha256(data: &[u8]) -> (res: Vec<u8>)
    ensures
        res@ == sha256_digest(data@),
        res@.len() == 32,
{
    Sha256::digest(data).to_vec()
}

/// `Hmac<Sha256>` of the hmac crate, keyed with `key` and fed `message`: the
/// tag is the named one and is 32 bytes long. The key may have any length.
#[verifier::external_body]
pub(crate) fn hmac_sha256(key: &[u8], message: &[u8]) -> (res: Vec<u8>)
    ensures
        res@ == hmac_sha256_tag(key@, message@),
        res@.len() == 32,
{
    let mut mac = <Hmac<Sha256> as Mac>::new_from_slice(key).expect("any key length");
    mac.update(message);
    mac.finalize().into_bytes().to_vec()
}

/// `pbkdf2::pbkdf2` with `Hmac<Sha256>` and a 32-byte output: the named key,
/// 32 bytes long.
#[verifier::external_body]
pub(crate) fn pbkdf2_sha256(password: &[u8], salt: &[u8], rounds: u32) -> (res: Vec<u8>)
    ensures
        res@ == pbkdf2_sha256_key(password@, salt@, rounds),
        res@.len() == 32,
{
    let mut out = [0u8; 32];
    let _ = pbkdf2::pbkdf2::<Hmac<Sha256>>(password, salt, rounds, &mut out);
    out.to_vec()
}

/// `cbc::Decryptor<aes::Aes256>` with PKCS#7 unpadding: the named plaintext.
/// Input whose length is no multiple of the block size is refused.
#[verifier::external_body]
pub(crate) fn aes256_cbc_decrypt(key: &[u8], iv: &[u8], data: &[u8]) -> (res: Option<Vec<u8>>)
    ensures
        res is Some <==> aes256_cbc_plaintext(key@, iv@, data@) is Some,
        res is Some ==> res->0@ == aes256_cbc_plaintext(key@, iv@, data@)->0,
        data@.len() % 16 != 0 ==> res is None,
{
    let cipher = cbc::Decryptor::<aes::Aes256>::new_from_slices(key, iv).ok()?;
    cipher.decrypt_padded_vec_mut::<Pkcs7>(data).ok()
}

/// `SrpClient::compute_public_ephemeral` of the srp crate in the 2048-bit
/// group with SHA-256: the named public value.
#[verifier::external_body]
pub(crate) fn srp_public_ephemeral(a: &[u8]) -> (res: Vec<u8>)
    ensures
        res@ == srp_public_value(a@),
{
    SrpClient::<Sha256>::new(&G_2048).compute_public_ephemeral(a)
}

/// The client's half of a finished key exchange.
pub struct SrpProof {
    /// The proof to send to the server.
    pub proof: Vec<u8>,
    /// The shared session key.
    pub key: Vec<u8>,
}

/// `SrpClient::process_reply` of the srp crate, with the proof and the key
/// read from the verifier it returns: both are those of the named transcript,
/// and there is none exactly where the call fails.
#[verifier::external_body]
pub(crate) fn srp_process_reply(
    a: &[u8],
    username: &[u8],
    password: &[u8],
    salt: &[u8],
    b_pub: &[u8],
) -> (res: Option<SrpProof>)
    ensures
        res is Some <==> srp_transcript(a@, username@, password@, salt@, b_pub@) is Some,
        res is Some ==> res->0.proof@ == srp_transcript(
            a@,
            username@,
            password@,
            salt@,
            b_pub@,
        )->0.client_proof,
        res is Some ==> res->0.key@ == srp_transcript(a@, username@, password@, salt@, b_pub@)->0.key,
{
    let verifier = SrpClient::<Sha256>::new(&G_2048).process_reply(
        a,
        username,
        password,
        salt,
        b_pub,
    ).ok()?;
    Some(SrpProof { proof: verifier.proof().to_vec(), key: verifier.key().to_vec() })
}

/// `SrpClientVerifier::verify_server` of the srp crate, on the verifier of
/// the same exchange: it accepts exactly the server proof of the named
/// transcript.
#[verifier::external_body]
pub(crate) fn srp_verify_server(
    a: &[u8],
    username: &[u8],
    password: &[u8],
    salt: &[u8],
    b_pub: &[u8],
    reply: &[u8],
) -> (res: bool)
    ensures
        res == (srp_transcript(a@, username@, password@, salt@, b_pub@) matches Some(t)
            && t.server_proof == reply@),
{
    match SrpClient::<Sha256>::new(&G_2048).process_reply(a, username, password, salt, b_pub) {
        Ok(verifier) => verifier.verify_server(reply).is_ok(),
        Err(_) => false,
    }
}

/// `Engine::encode` of the base64 crate with the standard alphabet: the named
/// text, which decodes back to `data`.
#[verifier::external_body]
pub(crate) fn base64_encode(data: &[u8]) -> (res: String)
    ensures
        res@ == base64_text(data@),
        base64_bytes(res@) == Some(data@),
{
    STANDARD.encode(data)
}

/// `Engine::decode` of the base64 crate with the standard alphabet: the named
/// bytes, and none exactly where the call fails.
#[verifier::external_body]
pub(crate) fn base64_decode(text: &str) -> (res: Option<Vec<u8>>)
    ensures
        res is Some <==> base64_bytes(text@) is Some,
        res is Some ==> res->0@ == base64_bytes(text@)->0,
{
    STANDARD.decode(text).ok()
}

/// `rand::random` for each of `n` bytes. Nothing is known of the bytes but
/// their number.
#[verifier::external_body]
pub(crate) fn random_bytes(n: usize) -> (res: Vec<u8>)
    ensures
        res@.len() == n,
{
    (0..n).map(|_| rand::random::<u8>()).collect()
}

/// `Uuid::new_v4` of the uuid crate in its hyphenated form. Nothing is
/// claimed of the text.
#[verifier::external_body]
pub(crate) fn random_uuid() -> (res: String) {
    uuid::Uuid::new_v4().to_string()
}

/// The key-exchange variant the server selected.
#[derive(Clone, Copy, Debug, PartialEq, Eq, Structural)]
pub enum SrpProtocol {
    /// The pre-hashed password is used as it is.
    S2k,
    /// The pre-hashed password is written in hexadecimal first.
    S2kFo,
}

/// The bytes that enter PBKDF2 for a pre-hashed password.
pub open spec fn srp_password_input(protocol: SrpProtocol, hashed_password: Seq<u8>) -> Seq<u8> {
    match protocol {
        SrpProtocol::S2k => hashed_password,
        SrpProtocol::S2kFo => vstd::utf8::encode_utf8(hex_text(hashed_password)),
    }
}

/// The password that enters the key exchange.
pub open spec fn srp_password(
    protocol: SrpProtocol,
    hashed_password: Seq<u8>,
    salt: Seq<u8>,
    iterations: u32,
) -> Seq<u8> {
    pbkdf2_sha256_key(srp_password_input(protocol, hashed_password), salt, iterations)
}

/// Derives the 32-byte password for the key exchange from the pre-hashed
/// password. Only the `S2kFo` variant writes the pre-hashed password in
/// hexadecimal before the derivation.
pub fn derive_srp_password(
    protocol: SrpProtocol,
    hashed_password: &[u8],
    salt: &[u8],
    iterations: u32,
) -> (res: Vec<u8>)
    ensures
        res@ == srp_password(protocol, hashed_password@, salt@, iterations),
        res@.len() == 32,
{
    match protocol {
        SrpProtocol::S2k => pbkdf2_sha256(hashed_password, salt, iterations),
        SrpProtocol::S2kFo => {
            let text = encode_hex(hashed_password);
            pbkdf2_sha256(text.as_str().as_bytes(), salt, iterations)
        },
    }
}

/// The key that `name` selects from the session key.
pub open spec fn session_key(key: Seq<u8>, name: Seq<char>) -> Seq<u8> {
    hmac_sha256_tag(key, vstd::utf8::encode_utf8(name))
}

/// Derives a named key from the session key of the exchange.
pub fn create_session_key(key: &[u8], name: &str) -> (res: Vec<u8>)
    ensures
        res@ == session_key(key@, name@),
        res@.len() == 32,
{
    hmac_sha256(key, name.as_bytes())
}

/// What the provisioning data decrypts to under the session key: AES-256 in
/// CBC mode, keyed with the "extra data key:" key and the first 16 bytes of
/// the "extra data iv:" key.
pub open spec fn spd_plaintext(key: Seq<u8>, data: Seq<u8>) -> Option<Seq<u8>> {
    aes256_cbc_plaintext(
        session_key(key, "extra data key:"@),
        session_key(key, "extra data iv:"@).take(16),
        data,
    )
}

/// Decrypts the provisioning data that the server returned. `None` when the
/// length or the padding is refused.
pub fn decrypt_cbc(key: &[u8], data: &[u8]) -> (res: Option<Vec<u8>>)
    ensures
        res is Some <==> spd_plaintext(key@, data@) is Some,
        res is Some ==> res->0@ == spd_plaintext(key@, data@)->0,
{
    let extra_data_key = create_session_key(key, "extra data key:");
    let mut extra_data_iv = create_session_key(key, "extra data iv:");
    extra_data_iv.truncate(16);
    aes256_cbc_decrypt(extra_data_key.as_slice(), extra_data_iv.as_slice(), data)
}

/// The checksum that authorises a request for application tokens.
pub open spec fn app_token_checksum(key: Seq<u8>, dsid: Seq<char>, app_name: Seq<char>) -> Seq<u8> {
    hmac_sha256_tag(
        key,
        vstd::utf8::encode_utf8("apptokens"@) + vstd::utf8::encode_utf8(dsid)
            + vstd::utf8::encode_utf8(app_name),
    )
}

/// Computes the checksum over the literal "apptokens", the directory-services
/// id and the application's name.
pub fn create_checksum(session_key: &[u8], dsid: &str, app_name: &str) -> (res: Vec<u8>)
    ensures
        res@ == app_token_checksum(session_key@, dsid@, app_name@),
        res@.len() == 32,
{
    let mut message = "apptokens".as_bytes_vec();
    let mut rest = dsid.as_bytes_vec();
    message.append(&mut rest);
    let mut tail = app_name.as_bytes_vec();
    message.append(&mut tail);
    hmac_sha256(session_key, message.as_slice())
}

/// Hashes a password as the login expects it: SHA-256 of its UTF-8 bytes.
pub fn hash_password(password: &str) -> (res: Vec<u8>)
    ensures
        res@ == sha256_digest(vstd::utf8::encode_utf8(password@)),
        res@.len() == 32,
{
    sha256(password.as_bytes())
}

} // verus!
