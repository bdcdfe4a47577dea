//! The encryption at rest of the desktop client's token store and of the card's own session:
//! AES-128-CBC on macOS, AES-256-GCM or DPAPI on Windows, behind the mark `v10`.

use vstd::prelude::*;
use vstd::slice::{slice_subrange, slice_to_vec};
use vstd::utf8::*;

use crate::codec::{
    blob_outcome, bytes_outcome, fill_random, text_outcome, utf8_decode, utf8_text,
};
use crate::error::{plain_error, AuthError, ErrorKind, ErrorV};

verus! {

/// The result of `pbkdf2::pbkdf2_hmac` with `sha1::Sha1` in a buffer of `len` bytes.
pub uninterp spec fn pbkdf2_hmac_sha1(
    password: Seq<u8>,
    salt: Seq<u8>,
    rounds: u32,
    len: nat,
) -> Seq<u8>;

/// What AES-128-CBC with PKCS#7 padding decrypts data to: the message, or the words of its
/// error.
pub uninterp spec fn cbc_decrypted(key: Seq<u8>, iv: Seq<u8>, data: Seq<u8>) -> Result<
    Seq<u8>,
    Seq<char>,
>;

/// What AES-128-CBC with PKCS#7 padding encrypts the first `len` bytes of a buffer to, in
/// that buffer: the data, or the words of its error.
pub uninterp spec fn cbc_encrypted(key: Seq<u8>, iv: Seq<u8>, buf: Seq<u8>, len: nat) -> Result<
    Seq<u8>,
    Seq<char>,
>;

/// The message that AES-256-GCM finds in data, where the tag at its end is authentic.
pub uninterp spec fn gcm_opened(key: Seq<u8>, nonce: Seq<u8>, data: Seq<u8>) -> Option<Seq<u8>>;

/// The data, with the tag at its end, that AES-256-GCM makes of a message.
pub uninterp spec fn gcm_sealed(key: Seq<u8>, nonce: Seq<u8>, msg: Seq<u8>) -> Option<Seq<u8>>;

/// Whether those data decrypt to that message.
pub open spec fn decrypts_to(key: Seq<u8>, iv: Seq<u8>, data: Seq<u8>, msg: Seq<u8>) -> bool {
    cbc_decrypted(key, iv, data) == Ok::<Seq<u8>, Seq<char>>(msg)
}

pub open spec fn maybe_bytes(r: Option<Vec<u8>>) -> Option<Seq<u8>> {
    match r {
        Some(b) => Some(b@),
        None => None,
    }
}

/// Calls `pbkdf2::pbkdf2_hmac` with `sha1::Sha1` and a buffer of 16 bytes. The bytes depend
/// on the arguments alone and go by the name `pbkdf2_hmac_sha1`.
#[verifier::external_body]
fn pbkdf2_sha1(password: &[u8], salt: &[u8], rounds: u32) -> (r: [u8; 16])
    ensures
        r@ == pbkdf2_hmac_sha1(password@, salt@, rounds, 16),
{
    let mut key = [0u8; 16];
    pbkdf2::pbkdf2_hmac::<sha1::Sha1>(password, salt, rounds, &mut key);
    key
}

/// Calls `decrypt_padded_mut` of `cbc::Decryptor<aes::Aes128>` with PKCS#7 padding; an error is
/// handed on in its own words. The outcome depends on the arguments alone and goes by the name
/// `cbc_decrypted`. It claims that data that are empty or no multiple of 16 bytes are refused.
#[verifier::external_body]
fn cbc_decrypt(key: &[u8; 16], iv: &[u8; 16], data: &[u8]) -> (r: Result<Vec<u8>, String>)
    ensures
        bytes_outcome(r) == cbc_decrypted(key@, iv@, data@),
        data@.len() == 0 || data@.len() % 16 != 0 ==> r is Err,
{
    let cipher = <cbc::Decryptor<aes::Aes128> as cbc::cipher::KeyIvInit>::new(key.into(), iv.into());
    let mut buf = data.to_vec();
    cbc::cipher::BlockDecryptMut::decrypt_padded_mut::<cbc::cipher::block_padding::Pkcs7>(
        cipher,
        &mut buf,
    ).map(|pt| pt.to_vec()).map_err(|e| e.to_string())
}

/// Calls `encrypt_padded_mut` of `cbc::Encryptor<aes::Aes128>` with PKCS#7 padding; an error is
/// handed on in its own words. The outcome depends on the arguments alone and goes by the name
/// `cbc_encrypted`. It claims that a buffer with room for the padding suffices, that the data
/// are the message with one to sixteen bytes of padding, up to a multiple of 16, and that
/// decrypting with the same key and vector gives the message back.
#[verifier::external_body]
fn cbc_encrypt(key: &[u8; 16], iv: &[u8; 16], buf: Vec<u8>, len: usize) -> (r: Result<
    Vec<u8>,
    String,
>)
    requires
        len <= buf@.len(),
    ensures
        bytes_outcome(r) == cbc_encrypted(key@, iv@, buf@, len as nat),
        len + (16 - len % 16) <= buf@.len() ==> r is Ok,
        r is Ok ==> r->Ok_0@.len() == 16 * (len / 16 + 1),
        r is Ok ==> decrypts_to(key@, iv@, r->Ok_0@, buf@.take(len as int)),
{
    let cipher = <cbc::Encryptor<aes::Aes128> as cbc::cipher::KeyIvInit>::new(key.into(), iv.into());
    let mut buf = buf;
    cbc::cipher::BlockEncryptMut::encrypt_padded_mut::<cbc::cipher::block_padding::Pkcs7>(
        cipher,
        &mut buf,
        len,
    ).map(|ct| ct.to_vec()).map_err(|e| e.to_string())
}

/// The longest message that AES-GCM encrypts.
pub const GCM_MAX: u64 = 0x10_0000_0000;

/// Calls `decrypt` of `aes_gcm::Aes256Gcm` without associated data. The outcome depends on the
/// arguments alone and goes by the name `gcm_opened`. It claims that a message is 16 bytes
/// shorter than its data.
#[verifier::external_body]
fn gcm_decrypt(key: &[u8; 32], nonce: &[u8; 12], data: &[u8]) -> (r: Option<Vec<u8>>)
    ensures
        maybe_bytes(r) == gcm_opened(key@, nonce@, data@),
        r is Some ==> r->0@.len() + 16 == data@.len(),
{
    let cipher = <aes_gcm::Aes256Gcm as aes_gcm::KeyInit>::new(key.into());
    aes_gcm::aead::Aead::decrypt(&cipher, aes_gcm::Nonce::from_slice(nonce), data).ok()
}

/// Calls `encrypt` of `aes_gcm::Aes256Gcm` without associated data. The outcome depends on the
/// arguments alone and goes by the name `gcm_sealed`. It claims that a message that is no
/// longer than the cipher's limit is encrypted, to data 16 bytes longer, which decrypt to the
/// message again with the same key and nonce. Longer messages, which the cipher refuses, are
/// left out.
#[verifier::external_body]
fn gcm_encrypt(key: &[u8; 32], nonce: &[u8; 12], msg: &[u8]) -> (r: Option<Vec<u8>>)
    requires
        msg@.len() <= GCM_MAX,
    ensures
        maybe_bytes(r) == gcm_sealed(key@, nonce@, msg@),
        r is Some && r->0@.len() == msg@.len() + 16,
        gcm_opened(key@, nonce@, r->0@) == Some(msg@),
{
    let cipher = <aes_gcm::Aes256Gcm as aes_gcm::KeyInit>::new(key.into());
    aes_gcm::aead::Aead::encrypt(&cipher, aes_gcm::Nonce::from_slice(nonce), msg).ok()
}

/// The mark in front of encrypted data.
pub open spec fn v10() -> Seq<u8> {
    seq![0x76u8, 0x31, 0x30]
}

/// The initialization vector of AES-CBC: 16 spaces.
pub open spec fn spaces() -> Seq<u8> {
    Seq::new(16, |i: int| 0x20u8)
}

fn sixteen_spaces() -> (r: [u8; 16])
    ensures
        r@ == spaces(),
{
    let r: [u8; 16] = [0x20u8; 16];
    assert(r@ =~= spaces());
    r
}

/// Whether `blob` starts with the mark.
fn has_mark(blob: &[u8]) -> (r: bool)
    ensures
        r == v10().is_prefix_of(blob@),
{
    let r = blob.len() >= 3 && blob[0] == 0x76 && blob[1] == 0x31 && blob[2] == 0x30;
    proof {
        if blob@.len() >= 3 {
            assert(blob@.take(3) =~= seq![blob@[0], blob@[1], blob@[2]]);
            assert(blob@.subrange(0, 3) =~= blob@.take(3));
            if r {
                assert(v10().is_prefix_of(blob@));
            } else {
                assert(v10()[0] == 0x76 && v10()[1] == 0x31 && v10()[2] == 0x30);
            }
        }
    }
    r
}

/// The mark with `body` behind it.
fn marked(body: &[u8]) -> (r: Vec<u8>)
    ensures
        r@ == v10() + body@,
{
    let mut out: Vec<u8> = Vec::new();
    out.push(0x76);
    out.push(0x31);
    out.push(0x30);
    assert(out@ =~= v10());
    out.extend_from_slice(body);
    assert(out@ =~= v10() + body@);
    out
}

/// The key of AES-CBC that a password of the keychain stands for.
pub open spec fn oscrypt_key(password: Seq<char>) -> Seq<u8> {
    pbkdf2_hmac_sha1(encode_utf8(password), encode_utf8("saltysalt"@), 1003, 16)
}

/// Derives the key of AES-CBC from a password of the keychain.
pub fn oscrypt_key_from(password: &str) -> (r: [u8; 16])
    ensures
        r@ == oscrypt_key(password@),
{
    pbkdf2_sha1(password.as_bytes(), "saltysalt".as_bytes(), 1003)
}

/// The text that AES-CBC finds in marked data.
pub open spec fn oscrypt_opened(key: Seq<u8>, blob: Seq<u8>) -> Result<Seq<char>, ErrorV> {
    if !v10().is_prefix_of(blob) {
        Err(plain_error(ErrorKind::Prefix))
    } else {
        match cbc_decrypted(key, spaces(), blob.skip(3)) {
            Ok(pt) => utf8_text(pt),
            Err(e) => Err(ErrorV { kind: ErrorKind::Unpad, detail: e }),
        }
    }
}

/// Decrypts what the desktop client keeps on macOS. Data behind the mark that are empty or no
/// multiple of 16 bytes are refused.
pub fn oscrypt_decrypt(key: &[u8; 16], blob: &[u8]) -> (r: Result<String, AuthError>)
    ensures
        text_outcome(r) == oscrypt_opened(key@, blob@),
        blob@.len() <= 3 || (blob@.len() - 3) % 16 != 0 ==> r is Err,
{
    if !has_mark(blob) {
        return Err(AuthError::new(ErrorKind::Prefix));
    }
    let body: &[u8] = slice_subrange(blob, 3, blob.len());
    assert(body@ == blob@.skip(3));
    match cbc_decrypt(key, &sixteen_spaces(), body) {
        Ok(pt) => utf8_decode(pt),
        Err(e) => Err(AuthError::with(ErrorKind::Unpad, e)),
    }
}

/// A message with zeros behind it, up to the next multiple of 16 bytes that is greater.
pub open spec fn with_room(msg: Seq<u8>) -> Seq<u8> {
    msg + Seq::new((16 - msg.len() % 16) as nat, |i: int| 0u8)
}

/// Marked data that hold a text encrypted with AES-CBC.
pub open spec fn oscrypt_sealed(key: Seq<u8>, text: Seq<char>) -> Result<Seq<u8>, ErrorV> {
    let msg = encode_utf8(text);
    match cbc_encrypted(key, spaces(), with_room(msg), msg.len()) {
        Ok(ct) => Ok(v10() + ct),
        Err(e) => Err(ErrorV { kind: ErrorKind::Pad, detail: e }),
    }
}

/// Encrypts a text as the desktop client does on macOS. Every text is encrypted, to the mark
/// and as many blocks of 16 bytes as the text and at least one byte of padding fill, and
/// decrypting the data with the same key gives the text back.
pub fn oscrypt_encrypt(key: &[u8; 16], plaintext: &str) -> (r: Result<Vec<u8>, AuthError>)
    ensures
        blob_outcome(r) == oscrypt_sealed(key@, plaintext@),
        r is Ok,
        v10().is_prefix_of(r->Ok_0@),
        r->Ok_0@.len() == 3 + 16 * (encode_utf8(plaintext@).len() / 16 + 1),
        oscrypt_opened(key@, r->Ok_0@) == Ok::<Seq<char>, ErrorV>(plaintext@),
{
    let msg: &[u8] = plaintext.as_bytes();
    let pad: usize = 16 - msg.len() % 16;
    let mut buf: Vec<u8> = slice_to_vec(msg);
    let ghost zeros = Seq::new(pad as nat, |i: int| 0u8);
    for i in 0..pad
        invariant
            zeros == Seq::new(pad as nat, |j: int| 0u8),
            buf@ == msg@ + zeros.take(i as int),
    {
        buf.push(0);
        assert(zeros.take(i + 1) =~= zeros.take(i as int).push(0u8));
        assert(buf@ =~= msg@ + zeros.take(i + 1));
    }
    assert(zeros.take(pad as int) =~= zeros);
    assert(buf@ == with_room(msg@));
    assert(buf@.take(msg@.len() as int) =~= msg@);
    match cbc_encrypt(key, &sixteen_spaces(), buf, msg.len()) {
        Ok(ct) => {
            let out: Vec<u8> = marked(ct.as_slice());
            proof {
                assert(out@.skip(3) =~= ct@);
                assert(out@.take(3) =~= v10());
                assert(out@.subrange(0, 3) =~= v10());
                encode_utf8_valid_utf8(plaintext@);
                encode_utf8_decode_utf8(plaintext@);
            }
            Ok(out)
        },
        Err(e) => Err(AuthError::with(ErrorKind::Pad, e)),
    }
}

/// The bytes of `bytes` from `from` on, twelve of them.
fn twelve(bytes: &[u8], from: usize) -> (r: [u8; 12])
    requires
        from + 12 <= bytes@.len(),
    ensures
        r@ == bytes@.subrange(from as int, from + 12),
{
    let mut r: [u8; 12] = [0u8; 12];
    for i in 0..12usize
        invariant
            from + 12 <= bytes.len(),
            forall|j: int| 0 <= j < i ==> r@[j] == bytes@[from + j],
    {
        r[i] = bytes[from + i];
    }
    assert(r@ =~= bytes@.subrange(from as int, from + 12));
    r
}

/// A key of AES-GCM as DPAPI hands it out.
pub open spec fn key_outcome(r: Result<[u8; 32], AuthError>) -> Result<Seq<u8>, ErrorV> {
    match r {
        Ok(k) => Ok(k@),
        Err(e) => Err(e@),
    }
}

/// Takes what DPAPI unwrapped for the key of AES-GCM, which has 32 bytes.
pub fn key_of_unwrapped(bytes: &[u8]) -> (r: Result<[u8; 32], AuthError>)
    ensures
        key_outcome(r) == if bytes@.len() == 32 {
            Ok::<Seq<u8>, ErrorV>(bytes@)
        } else {
            Err(plain_error(ErrorKind::KeyLength))
        },
{
    if bytes.len() != 32 {
        return Err(AuthError::new(ErrorKind::KeyLength));
    }
    let mut r: [u8; 32] = [0u8; 32];
    for i in 0..32usize
        invariant
            bytes@.len() == 32,
            forall|j: int| 0 <= j < i ==> r@[j] == bytes@[j],
    {
        r[i] = bytes[i];
    }
    assert(r@ =~= bytes@);
    Ok(r)
}

/// Whether `blob` has the layout of AES-GCM: the mark, a nonce of 12 bytes, and at least the
/// tag of 16 bytes.
pub open spec fn gcm_layout(blob: Seq<u8>) -> bool {
    v10().is_prefix_of(blob) && blob.len() >= 31
}

/// The text that AES-GCM finds in marked data.
pub open spec fn gcm_blob_opened(key: Seq<u8>, blob: Seq<u8>) -> Result<Seq<char>, ErrorV> {
    if !gcm_layout(blob) {
        Err(plain_error(ErrorKind::NotGcm))
    } else {
        match gcm_opened(key, blob.subrange(3, 15), blob.skip(15)) {
            Some(pt) => utf8_text(pt),
            None => Err(plain_error(ErrorKind::GcmOpen)),
        }
    }
}

/// Decrypts what the desktop client keeps on Windows. The data are longer than the text by the
/// mark, the nonce and the tag.
pub fn aes_gcm_decrypt(key: &[u8; 32], blob: &[u8]) -> (r: Result<String, AuthError>)
    ensures
        text_outcome(r) == gcm_blob_opened(key@, blob@),
        r is Ok ==> gcm_layout(blob@) && encode_utf8(r->Ok_0@).len() + 31 == blob@.len(),
{
    if !has_mark(blob) || blob.len() < 31 {
        return Err(AuthError::new(ErrorKind::NotGcm));
    }
    let nonce: [u8; 12] = twelve(blob, 3);
    let body: &[u8] = slice_subrange(blob, 15, blob.len());
    assert(body@ == blob@.skip(15));
    match gcm_decrypt(key, &nonce, body) {
        Some(pt) => {
            proof {
                if valid_utf8(pt@) {
                    decode_utf8_encode_utf8(pt@);
                }
            }
            utf8_decode(pt)
        },
        None => Err(AuthError::new(ErrorKind::GcmOpen)),
    }
}

/// Marked data that hold a text encrypted with AES-GCM under that nonce.
pub open spec fn gcm_blob_sealed(key: Seq<u8>, nonce: Seq<u8>, text: Seq<char>) -> Result<
    Seq<u8>,
    ErrorV,
> {
    if encode_utf8(text).len() > GCM_MAX {
        Err(plain_error(ErrorKind::GcmSeal))
    } else {
        match gcm_sealed(key, nonce, encode_utf8(text)) {
            Some(ct) => Ok(v10() + nonce + ct),
            None => Err(plain_error(ErrorKind::GcmSeal)),
        }
    }
}

/// Encrypts a text as the desktop client does on Windows, under the given nonce. Decrypting
/// the data with the same key gives the text back.
pub fn aes_gcm_seal(key: &[u8; 32], nonce: &[u8; 12], plaintext: &str) -> (r: Result<
    Vec<u8>,
    AuthError,
>)
    ensures
        blob_outcome(r) == gcm_blob_sealed(key@, nonce@, plaintext@),
        r is Ok <==> encode_utf8(plaintext@).len() <= GCM_MAX,
        r is Ok ==> gcm_blob_opened(key@, r->Ok_0@) == Ok::<Seq<char>, ErrorV>(plaintext@),
{
    let msg: &[u8] = plaintext.as_bytes();
    if msg.len() as u64 > GCM_MAX {
        return Err(AuthError::new(ErrorKind::GcmSeal));
    }
    match gcm_encrypt(key, nonce, msg) {
        Some(ct) => {
            let mut body: Vec<u8> = slice_to_vec(nonce.as_slice());
            body.extend_from_slice(ct.as_slice());
            assert(body@ =~= nonce@ + ct@);
            let out: Vec<u8> = marked(body.as_slice());
            proof {
                assert(out@ =~= v10() + nonce@ + ct@);
                assert(out@.subrange(3, 15) =~= nonce@);
                assert(out@.skip(15) =~= ct@);
                assert(out@.subrange(0, 3) =~= v10());
                encode_utf8_valid_utf8(plaintext@);
                encode_utf8_decode_utf8(plaintext@);
            }
            Ok(out)
        },
        None => Err(AuthError::new(ErrorKind::GcmSeal)),
    }
}

/// Draws a nonce; none where the system has no random bytes to give. Which bytes it is made of
/// is not stated.
fn draw_nonce() -> Option<[u8; 12]> {
    let mut drawn: Vec<u8> = Vec::new();
    drawn.resize(12, 0);
    if fill_random(drawn.as_mut_slice()) {
        Some(twelve(drawn.as_slice(), 0))
    } else {
        None
    }
}

/// Encrypts a text as the desktop client does on Windows, under a nonce that the system draws.
/// Which nonce that is is not stated; whatever it is, decrypting gives the text back.
pub fn aes_gcm_encrypt(key: &[u8; 32], plaintext: &str) -> (r: Result<Vec<u8>, AuthError>)
    ensures
        match r {
            Ok(blob) => gcm_blob_opened(key@, blob@) == Ok::<Seq<char>, ErrorV>(plaintext@)
                && exists|nonce: Seq<u8>|
                nonce.len() == 12 && #[trigger] gcm_blob_sealed(key@, nonce, plaintext@) == Ok::<
                    Seq<u8>,
                    ErrorV,
                >(blob@),
            Err(e) => e@ == plain_error(ErrorKind::NoRandomness) || (e@ == plain_error(
                ErrorKind::GcmSeal,
            ) && encode_utf8(plaintext@).len() > GCM_MAX),
        },
{
    match draw_nonce() {
        Some(nonce) => aes_gcm_seal(key, &nonce, plaintext),
        None => Err(AuthError::new(ErrorKind::NoRandomness)),
    }
}

/// The data that are left for DPAPI: those behind the mark, where there is one.
pub open spec fn dpapi_part(blob: Seq<u8>) -> Seq<u8> {
    if v10().is_prefix_of(blob) {
        blob.skip(3)
    } else {
        blob
    }
}

fn dpapi_bytes(blob: &[u8]) -> (r: Vec<u8>)
    ensures
        r@ == dpapi_part(blob@),
{
    if has_mark(blob) {
        slice_to_vec(slice_subrange(blob, 3, blob.len()))
    } else {
        slice_to_vec(blob)
    }
}

/// What reading the desktop client's data on Windows needs next.
#[derive(Debug)]
pub enum OpenStep {
    /// The key of AES-GCM, from `Local State`.
    Key,
    /// DPAPI, to unprotect these bytes.
    Unprotect(Vec<u8>),
    /// Nothing: this is the text.
    Text(String),
}

pub enum OpenStepV {
    Key,
    Unprotect(Seq<u8>),
    Text(Seq<char>),
}

impl View for OpenStep {
    type V = OpenStepV;

    open spec fn view(&self) -> OpenStepV {
        match self {
            OpenStep::Key => OpenStepV::Key,
            OpenStep::Unprotect(b) => OpenStepV::Unprotect(b@),
            OpenStep::Text(s) => OpenStepV::Text(s@),
        }
    }
}

/// How the desktop client's data are read on Windows at first: data in the layout of AES-GCM ask
/// for its key, all others go to DPAPI.
pub open spec fn open_step(blob: Seq<u8>) -> OpenStepV {
    if gcm_layout(blob) {
        OpenStepV::Key
    } else {
        OpenStepV::Unprotect(dpapi_part(blob))
    }
}

/// How they are read once the key was asked for: what AES-GCM cannot open, for want of the key
/// or otherwise, goes to DPAPI.
pub open spec fn keyed_open_step(key: Option<Seq<u8>>, blob: Seq<u8>) -> OpenStepV {
    match key {
        Some(k) => match gcm_blob_opened(k, blob) {
            Ok(text) => OpenStepV::Text(text),
            Err(_) => OpenStepV::Unprotect(dpapi_part(blob)),
        },
        None => OpenStepV::Unprotect(dpapi_part(blob)),
    }
}

/// Starts to read the desktop client's data on Windows.
pub fn decrypt_safe_storage(blob: &[u8]) -> (r: OpenStep)
    ensures
        r@ == open_step(blob@),
{
    if has_mark(blob) && blob.len() >= 31 {
        OpenStep::Key
    } else {
        OpenStep::Unprotect(dpapi_bytes(blob))
    }
}

/// Goes on to read the desktop client's data on Windows, once the key was asked for.
pub fn decrypt_with_key(key: Option<&[u8; 32]>, blob: &[u8]) -> (r: OpenStep)
    ensures
        r@ == keyed_open_step(key_bytes(key), blob@),
{
    match key {
        Some(k) => match aes_gcm_decrypt(k, blob) {
            Ok(text) => OpenStep::Text(text),
            Err(_) => OpenStep::Unprotect(dpapi_bytes(blob)),
        },
        None => OpenStep::Unprotect(dpapi_bytes(blob)),
    }
}

/// What writing the desktop client's data on Windows needs next.
#[derive(Debug)]
pub enum SealStep {
    /// DPAPI, to protect these bytes.
    Protect(Vec<u8>),
    /// Nothing: these are the data.
    Data(Vec<u8>),
}

pub enum SealStepV {
    Protect(Seq<u8>),
    Data(Seq<u8>),
}

impl View for SealStep {
    type V = SealStepV;

    open spec fn view(&self) -> SealStepV {
        match self {
            SealStep::Protect(b) => SealStepV::Protect(b@),
            SealStep::Data(b) => SealStepV::Data(b@),
        }
    }
}

/// The bytes of a key, where there is one.
pub open spec fn key_bytes(key: Option<&[u8; 32]>) -> Option<Seq<u8>> {
    match key {
        Some(k) => Some(k@),
        None => None,
    }
}

/// How a text is written for the desktop client on Windows: encrypted with AES-GCM where a key
/// is at hand and the cipher takes the text, else by DPAPI.
pub open spec fn seal_step(key: Option<Seq<u8>>, nonce: Seq<u8>, text: Seq<char>) -> SealStepV {
    match key {
        Some(k) => match gcm_blob_sealed(k, nonce, text) {
            Ok(blob) => SealStepV::Data(blob),
            Err(_) => SealStepV::Protect(encode_utf8(text)),
        },
        None => SealStepV::Protect(encode_utf8(text)),
    }
}

/// Whether a text was written as it should be with that key: by AES-GCM where there is a key
/// and the text is within the cipher's limit, and so that it opens again with the same key.
pub open spec fn sealed_well(key: Option<Seq<u8>>, step: SealStepV, text: Seq<char>) -> bool {
    &&& step is Data <==> key is Some && encode_utf8(text).len() <= GCM_MAX
    &&& step is Data ==> gcm_blob_opened(key->0, step->Data_0) == Ok::<Seq<char>, ErrorV>(text)
}

/// Encrypts for the desktop client on Windows, under the given nonce. What AES-GCM encrypts
/// opens again with the same key.
pub fn seal_safe_storage(key: Option<&[u8; 32]>, nonce: &[u8; 12], plaintext: &str) -> (r: SealStep)
    ensures
        r@ == seal_step(key_bytes(key), nonce@, plaintext@),
        sealed_well(key_bytes(key), r@, plaintext@),
{
    match key {
        Some(k) => match aes_gcm_seal(k, nonce, plaintext) {
            Ok(blob) => SealStep::Data(blob),
            Err(_) => SealStep::Protect(slice_to_vec(plaintext.as_bytes())),
        },
        None => SealStep::Protect(slice_to_vec(plaintext.as_bytes())),
    }
}

pub open spec fn seal_outcome(r: Result<SealStep, AuthError>) -> Result<SealStepV, ErrorV> {
    match r {
        Ok(step) => Ok(step@),
        Err(e) => Err(e@),
    }
}

/// Whether writing a text for the desktop client on Windows may come to that, under a nonce that
/// the system draws: a key at hand means AES-GCM, and only for want of random bytes does that
/// fail; without a key nothing is drawn.
pub open spec fn may_seal(
    key: Option<Seq<u8>>,
    text: Seq<char>,
    outcome: Result<SealStepV, ErrorV>,
) -> bool {
    match outcome {
        Ok(step) => sealed_well(key, step, text) && exists|nonce: Seq<u8>|
            nonce.len() == 12 && step == #[trigger] seal_step(key, nonce, text),
        Err(e) => key is Some && e == plain_error(ErrorKind::NoRandomness),
    }
}

/// Encrypts for the desktop client on Windows, under a nonce that the system draws. Which nonce
/// that is is not stated.
pub fn encrypt_safe_storage(key: Option<&[u8; 32]>, plaintext: &str) -> (r: Result<
    SealStep,
    AuthError,
>)
    ensures
        may_seal(key_bytes(key), plaintext@, seal_outcome(r)),
{
    match key {
        Some(_) => match draw_nonce() {
            Some(nonce) => {
                let step: SealStep = seal_safe_storage(key, &nonce, plaintext);
                assert(nonce@.len() == 12);
                Ok(step)
            },
            None => Err(AuthError::new(ErrorKind::NoRandomness)),
        },
        None => {
            let step: SealStep = SealStep::Protect(slice_to_vec(plaintext.as_bytes()));
            proof {
                let any = Seq::new(12, |i: int| 0u8);
                assert(step@ == seal_step(None, any, plaintext@));
            }
            Ok(step)
        },
    }
}

/// Marks what DPAPI protected. Reading hands the same bytes back to DPAPI, unless they happen
/// to be data that AES-GCM can open.
pub fn marked_protected(protected: &[u8]) -> (r: Vec<u8>)
    ensures
        r@ == v10() + protected@,
        dpapi_part(r@) == protected@,
{
    let out: Vec<u8> = marked(protected);
    assert(out@.subrange(0, 3) =~= v10());
    assert(out@.skip(3) =~= protected@);
    out
}

/// Encrypts the card's own session on macOS.
pub fn session_encrypt(key: &[u8; 16], plaintext: &str) -> (r: Result<Vec<u8>, AuthError>)
    ensures
        blob_outcome(r) == oscrypt_sealed(key@, plaintext@),
        r is Ok,
        oscrypt_opened(key@, r->Ok_0@) == Ok::<Seq<char>, ErrorV>(plaintext@),
{
    oscrypt_encrypt(key, plaintext)
}

/// Decrypts the card's own session on macOS.
pub fn session_decrypt(key: &[u8; 16], blob: &[u8]) -> (r: Result<String, AuthError>)
    ensures
        text_outcome(r) == oscrypt_opened(key@, blob@),
{
    oscrypt_decrypt(key, blob)
}

/// What AES-GCM encrypted for the desktop client on Windows bears the mark, asks for the key, and
/// opens to the text again with it.
pub proof fn law_sealed_data_open_again(key: Option<Seq<u8>>, blob: Seq<u8>, text: Seq<char>)
    requires
        sealed_well(key, SealStepV::Data(blob), text),
    ensures
        v10().is_prefix_of(blob),
        open_step(blob) == OpenStepV::Key,
        keyed_open_step(key, blob) == OpenStepV::Text(text),
{
}

/// What DPAPI protected for the desktop client on Windows bears the mark, and the same bytes go
/// back to DPAPI, at once or when AES-GCM has rejected them. Where DPAPI then gives the bytes of
/// the text back, that is the text.
pub proof fn law_protected_data_go_back_to_dpapi(
    protected: Seq<u8>,
    key: Option<Seq<u8>>,
    text: Seq<char>,
)
    requires
        key is Some ==> gcm_blob_opened(key->0, v10() + protected) is Err,
    ensures
        v10().is_prefix_of(v10() + protected),
        open_step(v10() + protected) == OpenStepV::Unprotect(protected) || open_step(
            v10() + protected,
        ) == OpenStepV::Key,
        keyed_open_step(key, v10() + protected) == OpenStepV::Unprotect(protected),
        utf8_text(encode_utf8(text)) == Ok::<Seq<char>, ErrorV>(text),
{
    let blob = v10() + protected;
    assert(blob.subrange(0, 3) =~= v10());
    assert(blob.skip(3) =~= protected);
    encode_utf8_valid_utf8(text);
    encode_utf8_decode_utf8(text);
}

/// What comes of encrypting a text as the session is, and of decrypting the data again: whether
/// that is the text, or why it failed.
pub open spec fn roundtrip(key: Seq<u8>, text: Seq<char>) -> Result<bool, ErrorV> {
    match oscrypt_sealed(key, text) {
        Ok(blob) => match oscrypt_opened(key, blob) {
            Ok(back) => Ok(back == text),
            Err(e) => Err(e),
        },
        Err(e) => Err(e),
    }
}

/// The outcome of a trial.
pub open spec fn trial_outcome(r: Result<bool, AuthError>) -> Result<bool, ErrorV> {
    match r {
        Ok(b) => Ok(b),
        Err(e) => Err(e@),
    }
}

/// Checks that a text survives the encryption of the session. On macOS it always does.
pub fn session_crypto_roundtrip(key: &[u8; 16], probe: &str) -> (r: Result<bool, AuthError>)
    ensures
        trial_outcome(r) == roundtrip(key@, probe@),
        r == Ok::<bool, AuthError>(true),
{
    match session_encrypt(key, probe) {
        Ok(blob) => match session_decrypt(key, blob.as_slice()) {
            Ok(text) => Ok(crate::text::same_text(text.as_str(), probe)),
            Err(e) => Err(e),
        },
        Err(e) => Err(e),
    }
}

/// What a trial says of the bytes that came back for a text: whether they are the text, or why
/// they are none.
pub open spec fn came_back(bytes: Seq<u8>, text: Seq<char>) -> Result<bool, ErrorV> {
    match utf8_text(bytes) {
        Ok(back) => Ok(back == text),
        Err(e) => Err(e),
    }
}

/// Checks on Windows that a text survives the encryption of the session, with what DPAPI gave
/// back for it. Where that is what it was handed, the text has survived.
pub fn session_came_back(bytes: Vec<u8>, probe: &str) -> (r: Result<bool, AuthError>)
    ensures
        trial_outcome(r) == came_back(bytes@, probe@),
        bytes@ == encode_utf8(probe@) ==> r == Ok::<bool, AuthError>(true),
{
    proof {
        encode_utf8_valid_utf8(probe@);
        encode_utf8_decode_utf8(probe@);
    }
    match utf8_decode(bytes) {
        Ok(text) => Ok(crate::text::same_text(text.as_str(), probe)),
        Err(e) => Err(e),
    }
}

// ---- how encrypted data are laid out ----

/// The mark of encrypted data is the text `v10`, and the vector of AES-CBC is sixteen spaces.
pub proof fn law_mark_and_vector_are_texts(i: int)
    ensures
        v10() == seq!['v' as u8, '1' as u8, '0' as u8],
        spaces().len() == 16,
        0 <= i < 16 ==> spaces()[i] == ' ' as u8,
{
}

/// The key that a password stands for is derived with the salt `saltysalt`, in 1003 rounds, and
/// has 128 bits.
pub proof fn law_how_the_key_is_derived(password: Seq<char>)
    ensures
        oscrypt_key(password) == pbkdf2_hmac_sha1(
            encode_utf8(password),
            encode_utf8("saltysalt"@),
            1003,
            16,
        ),
{
}

/// Data behind the mark are what AES-CBC decrypts, under sixteen spaces; data without the mark,
/// and data that it refuses or that are no text, are told apart.
pub proof fn law_marked_data_are_decrypted(key: Seq<u8>, data: Seq<u8>, blob: Seq<u8>)
    ensures
        match cbc_decrypted(key, spaces(), data) {
            Ok(msg) => oscrypt_opened(key, v10() + data) == utf8_text(msg),
            Err(words) => oscrypt_opened(key, v10() + data) == Err::<Seq<char>, ErrorV>(
                ErrorV { kind: ErrorKind::Unpad, detail: words },
            ),
        },
        !v10().is_prefix_of(blob) ==> oscrypt_opened(key, blob) == Err::<Seq<char>, ErrorV>(
            plain_error(ErrorKind::Prefix),
        ),
{
    assert((v10() + data).subrange(0, 3) =~= v10());
    assert((v10() + data).skip(3) =~= data);
}

/// A text is encrypted in a buffer that holds it with zeros behind it up to the next multiple of
/// sixteen bytes, and the data stand behind the mark.
pub proof fn law_texts_are_encrypted_behind_the_mark(key: Seq<u8>, text: Seq<char>, i: int)
    ensures
        ({
            let msg = encode_utf8(text);
            let buf = with_room(msg);
            &&& buf.len() % 16 == 0 && msg.len() < buf.len() <= msg.len() + 16
            &&& buf.take(msg.len() as int) == msg
            &&& msg.len() <= i < buf.len() ==> buf[i] == 0
            &&& match cbc_encrypted(key, spaces(), buf, msg.len()) {
                Ok(data) => oscrypt_sealed(key, text) == Ok::<Seq<u8>, ErrorV>(v10() + data),
                Err(words) => oscrypt_sealed(key, text) == Err::<Seq<u8>, ErrorV>(
                    ErrorV { kind: ErrorKind::Pad, detail: words },
                ),
            }
        }),
{
    let msg = encode_utf8(text);
    assert(with_room(msg).take(msg.len() as int) =~= msg);
}

/// Data of AES-GCM are the mark, a nonce of twelve bytes, and what the cipher opens under that
/// nonce; what is shorter than the tag, or has no mark, is no such data.
pub proof fn law_layout_of_gcm_data(key: Seq<u8>, nonce: Seq<u8>, data: Seq<u8>, blob: Seq<u8>)
    requires
        nonce.len() == 12,
    ensures
        gcm_layout(v10() + nonce + data) <==> data.len() >= 16,
        data.len() >= 16 ==> match gcm_opened(key, nonce, data) {
            Some(msg) => gcm_blob_opened(key, v10() + nonce + data) == utf8_text(msg),
            None => gcm_blob_opened(key, v10() + nonce + data) == Err::<Seq<char>, ErrorV>(
                plain_error(ErrorKind::GcmOpen),
            ),
        },
        gcm_layout(blob) <==> v10().is_prefix_of(blob) && blob.len() >= 3 + 12 + 16,
        !gcm_layout(blob) ==> gcm_blob_opened(key, blob) == Err::<Seq<char>, ErrorV>(
            plain_error(ErrorKind::NotGcm),
        ),
{
    let whole = v10() + nonce + data;
    assert(whole.subrange(0, 3) =~= v10());
    assert(whole.subrange(3, 15) =~= nonce);
    assert(whole.skip(15) =~= data);
}

/// What AES-GCM encrypts stands behind the mark and its nonce; a text beyond the cipher's limit is
/// refused.
pub proof fn law_gcm_seals_behind_mark_and_nonce(key: Seq<u8>, nonce: Seq<u8>, text: Seq<char>)
    ensures
        encode_utf8(text).len() <= 0x10_0000_0000 && gcm_sealed(key, nonce, encode_utf8(text)) is Some
            ==> gcm_blob_sealed(key, nonce, text) == Ok::<Seq<u8>, ErrorV>(
            v10() + nonce + gcm_sealed(key, nonce, encode_utf8(text))->0,
        ),
        encode_utf8(text).len() > 0x10_0000_0000 || gcm_sealed(key, nonce, encode_utf8(text)) is None
            ==> gcm_blob_sealed(key, nonce, text) == Err::<Seq<u8>, ErrorV>(
            plain_error(ErrorKind::GcmSeal),
        ),
{
}

/// On Windows data in the layout of AES-GCM ask for the key, and all others go to DPAPI; with the
/// key they are the text that it opens, and what it does not open goes to DPAPI. What goes there
/// is what stands behind the mark, or all where there is none.
pub proof fn law_reading_on_windows(blob: Seq<u8>, key: Seq<u8>)
    ensures
        gcm_layout(blob) ==> open_step(blob) is Key,
        !gcm_layout(blob) ==> open_step(blob) == OpenStepV::Unprotect(dpapi_part(blob)),
        keyed_open_step(None, blob) == OpenStepV::Unprotect(dpapi_part(blob)),
        gcm_blob_opened(key, blob) is Ok ==> keyed_open_step(Some(key), blob) == OpenStepV::Text(
            gcm_blob_opened(key, blob)->Ok_0,
        ),
        gcm_blob_opened(key, blob) is Err ==> keyed_open_step(Some(key), blob)
            == OpenStepV::Unprotect(dpapi_part(blob)),
        v10().is_prefix_of(blob) ==> blob == v10() + dpapi_part(blob),
        !v10().is_prefix_of(blob) ==> dpapi_part(blob) == blob,
{
    if v10().is_prefix_of(blob) {
        assert(blob =~= blob.subrange(0, 3) + blob.skip(3));
    }
}

/// On Windows a text is encrypted under the nonce where a key is at hand and AES-GCM takes it, and
/// else its bytes are handed to DPAPI as they are.
pub proof fn law_writing_on_windows(key: Seq<u8>, nonce: Seq<u8>, text: Seq<char>)
    ensures
        seal_step(None, nonce, text) == SealStepV::Protect(encode_utf8(text)),
        gcm_blob_sealed(key, nonce, text) is Ok ==> seal_step(Some(key), nonce, text)
            == SealStepV::Data(gcm_blob_sealed(key, nonce, text)->Ok_0),
        gcm_blob_sealed(key, nonce, text) is Err ==> seal_step(Some(key), nonce, text)
            == SealStepV::Protect(encode_utf8(text)),
{
}

/// A trial says that a text came back just where the bytes are those of the text; bytes that are
/// no text are told as such.
pub proof fn law_a_text_came_back_where_its_bytes_did(bytes: Seq<u8>, text: Seq<char>)
    ensures
        came_back(bytes, text) == Ok::<bool, ErrorV>(true) <==> bytes == encode_utf8(text),
        came_back(bytes, text) is Err <==> !valid_utf8(bytes),
        came_back(bytes, text) is Err ==> came_back(bytes, text)->Err_0.kind == ErrorKind::Utf8,
{
    encode_utf8_valid_utf8(text);
    encode_utf8_decode_utf8(text);
    if valid_utf8(bytes) {
        decode_utf8_encode_utf8(bytes);
    }
}

/// What DPAPI unwrapped is the key as it is, where it has 32 bytes, and no key otherwise.
pub proof fn law_keys_have_32_bytes(bytes: &[u8], r: Result<[u8; 32], AuthError>)
    requires
        call_ensures(key_of_unwrapped, (bytes,), r),
    ensures
        r is Ok <==> bytes@.len() == 32,
        r is Ok ==> r->Ok_0@ == bytes@,
        r is Err ==> r->Err_0@ == plain_error(ErrorKind::KeyLength),
{
}

} // verus!
