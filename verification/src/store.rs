//! The files that hold sessions: the desktop client's token store and the card's own session,
//! each a JSON envelope around encrypted data.

use vstd::prelude::*;
use vstd::slice::{slice_subrange, slice_to_vec};
use vstd::utf8::*;

use crate::codec::{
    base64_bytes, base64_decode, base64_encode, base64_text, blob_outcome, decodes_to,
    text_outcome, utf8_decode, utf8_text,
};
use crate::error::{plain_error, AuthError, ErrorKind, ErrorV};
use crate::json::{parse, parsed_text, render, compact_text, reads_as, Json, JsonV, MAX_DEPTH};
use crate::oscrypt::{
    decrypt_safe_storage, decrypt_with_key, encrypt_safe_storage, gcm_blob_opened, key_bytes,
    keyed_open_step, law_protected_data_go_back_to_dpapi, may_seal, open_step, oscrypt_decrypt,
    oscrypt_encrypt, oscrypt_opened, oscrypt_sealed, v10, OpenStep, OpenStepV, SealStep, SealStepV,
};
use crate::text::starts_with;

verus! {

/// The outcome of reading a document.
pub open spec fn document_outcome(r: Result<Json, AuthError>) -> Result<JsonV, ErrorV> {
    match r {
        Ok(j) => Ok(j@),
        Err(e) => Err(e@),
    }
}

/// The document that a text holds.
pub open spec fn document_in(text: Seq<char>) -> Result<JsonV, ErrorV> {
    match parsed_text(text) {
        Ok(v) => Ok(v),
        Err(e) => Err(ErrorV { kind: ErrorKind::Json, detail: e }),
    }
}

/// Reads the document that a text holds.
pub fn document_of(text: &str) -> (r: Result<Json, AuthError>)
    ensures
        document_outcome(r) == document_in(text@),
{
    match parse(text) {
        Ok(j) => Ok(j),
        Err(e) => Err(AuthError::with(ErrorKind::Json, e)),
    }
}

/// A JSON text.
pub fn text_json(s: &str) -> (r: Json)
    ensures
        r@ == JsonV::Str(s@),
{
    Json::Str(s.to_owned())
}

/// The envelope around encrypted data.
pub open spec fn envelope(encryption: Seq<char>, blob: Seq<u8>) -> JsonV {
    JsonV::Null.with("encryption"@, JsonV::Str(encryption)).with(
        "data"@,
        JsonV::Str(base64_text(blob)),
    )
}

proof fn lemma_envelope(encryption: Seq<char>, blob: Seq<u8>)
    ensures
        envelope(encryption, blob).get("encryption"@) == JsonV::Str(encryption),
        envelope(encryption, blob).get("data"@) == JsonV::Str(base64_text(blob)),
        envelope(encryption, blob).plain(MAX_DEPTH as nat),
{
    reveal_strlit("encryption");
    reveal_strlit("data");
    let v = envelope(encryption, blob);
    assert("encryption"@.len() != "data"@.len());
    let members = v->Obj_0;
    assert forall|k: Seq<char>| #[trigger] members.contains_key(k) implies members[k].plain(
        (MAX_DEPTH - 1) as nat,
    ) by {
        assert(k == "encryption"@ || k == "data"@);
    }
}

/// Writes the envelope around encrypted data.
fn enveloped(encryption: &str, blob: &[u8]) -> (r: String)
    ensures
        r@ == compact_text(envelope(encryption@, blob@)),
        reads_as(r@, envelope(encryption@, blob@)),
        decodes_to(base64_text(blob@), blob@),
{
    let data: String = base64_encode(blob);
    proof {
        lemma_envelope(encryption@, blob@);
    }
    render(Json::Null.set("encryption", text_json(encryption)).set("data", Json::Str(data)))
}

// ---- the desktop client's token store ----

/// The encrypted data in the token store's envelope.
pub open spec fn store_blob(doc: JsonV) -> Result<Seq<u8>, ErrorV> {
    let encryption = doc.get("encryption"@).text_or_empty();
    if !"safeStorage"@.is_prefix_of(encryption) {
        Err(ErrorV { kind: ErrorKind::StoreEncryption, detail: encryption })
    } else {
        match doc.get("data"@).text() {
            Some(data) => base64_bytes(data),
            None => Err(plain_error(ErrorKind::StoreData)),
        }
    }
}

/// Takes the encrypted data out of the token store's envelope.
pub fn store_blob_of(doc: &Json) -> (r: Result<Vec<u8>, AuthError>)
    ensures
        blob_outcome(r) == store_blob(doc@),
{
    let encryption: &str = match doc.text_at("encryption") {
        Some(e) => e,
        None => "",
    };
    proof {
        reveal_strlit("");
        assert(encryption@ =~= doc@.get("encryption"@).text_or_empty());
    }
    if !starts_with(encryption, "safeStorage") {
        return Err(AuthError::with(ErrorKind::StoreEncryption, encryption.to_owned()));
    }
    match doc.text_at("data") {
        Some(data) => base64_decode(data),
        None => Err(AuthError::new(ErrorKind::StoreData)),
    }
}

/// The encrypted data in the text of the token store.
pub open spec fn store_data(raw: Seq<char>) -> Result<Seq<u8>, ErrorV> {
    match document_in(raw) {
        Ok(doc) => store_blob(doc),
        Err(e) => Err(e),
    }
}

/// Reads the encrypted data from the text of the token store.
pub fn read_store(raw: &str) -> (r: Result<Vec<u8>, AuthError>)
    ensures
        blob_outcome(r) == store_data(raw@),
{
    match document_of(raw) {
        Ok(doc) => store_blob_of(&doc),
        Err(e) => Err(e),
    }
}

/// The document that encrypted data hold on macOS.
pub open spec fn document_in_blob(key: Seq<u8>, blob: Seq<u8>) -> Result<JsonV, ErrorV> {
    match oscrypt_opened(key, blob) {
        Ok(text) => document_in(text),
        Err(e) => Err(e),
    }
}

/// The document in the text of the token store on macOS.
pub open spec fn store_document(raw: Seq<char>, key: Seq<u8>) -> Result<JsonV, ErrorV> {
    match store_data(raw) {
        Ok(blob) => document_in_blob(key, blob),
        Err(e) => Err(e),
    }
}

fn document_of_blob(key: &[u8; 16], blob: &[u8]) -> (r: Result<Json, AuthError>)
    ensures
        document_outcome(r) == document_in_blob(key@, blob@),
{
    match oscrypt_decrypt(key, blob) {
        Ok(text) => document_of(text.as_str()),
        Err(e) => Err(e),
    }
}

/// Reads the token store on macOS. A key that could not be had matters only once the data
/// have been found.
pub fn load_store(raw: &str, key: Result<[u8; 16], AuthError>) -> (r: Result<Json, AuthError>)
    ensures
        document_outcome(r) == match (store_data(raw@), key) {
            (Err(e), _) => Err(e),
            (Ok(_), Err(e)) => Err(e@),
            (Ok(_), Ok(k)) => store_document(raw@, k@),
        },
{
    match read_store(raw) {
        Ok(blob) => match key {
            Ok(k) => document_of_blob(&k, blob.as_slice()),
            Err(e) => Err(e),
        },
        Err(e) => Err(e),
    }
}

/// Writes the text of the token store around encrypted data, which are found in it again.
pub fn store_text(blob: &[u8]) -> (r: String)
    ensures
        r@ == compact_text(envelope("safeStorage.v1"@, blob@)),
        store_data(r@) == Ok::<Seq<u8>, ErrorV>(blob@),
{
    let r: String = enveloped("safeStorage.v1", blob);
    proof {
        lemma_envelope("safeStorage.v1"@, blob@);
        reveal_strlit("safeStorage.v1");
        reveal_strlit("safeStorage");
        assert("safeStorage"@ =~= "safeStorage.v1"@.take(11));
        assert("safeStorage"@ =~= "safeStorage.v1"@.subrange(0, 11));
    }
    r
}

/// Writes the token store on macOS. What is written is read back with the same key, where the
/// document nests no deeper than `MAX_DEPTH` and its fractions are read back.
pub fn save_store(doc: Json, key: &[u8; 16]) -> (r: Result<String, AuthError>)
    ensures
        text_outcome(r) == match oscrypt_sealed(key@, compact_text(doc@)) {
            Ok(blob) => Ok::<Seq<char>, ErrorV>(compact_text(envelope("safeStorage.v1"@, blob))),
            Err(e) => Err(e),
        },
        r is Ok,
        doc@.plain(MAX_DEPTH as nat) ==> store_document(r->Ok_0@, key@) == Ok::<JsonV, ErrorV>(doc@),
{
    let text: String = render(doc);
    match oscrypt_encrypt(key, text.as_str()) {
        Ok(blob) => Ok(store_text(blob.as_slice())),
        Err(e) => Err(e),
    }
}

/// The document in the text of the token store on Windows, as AES-GCM opens it.
pub open spec fn sealed_store_document(raw: Seq<char>, key: Seq<u8>) -> Result<JsonV, ErrorV> {
    match store_data(raw) {
        Ok(blob) => match gcm_blob_opened(key, blob) {
            Ok(text) => document_in(text),
            Err(e) => Err(e),
        },
        Err(e) => Err(e),
    }
}

/// What writing the token store on Windows needs next.
#[derive(Debug)]
pub enum StoreStep {
    /// DPAPI, to protect these bytes.
    Protect(Vec<u8>),
    /// Nothing: this is the text of the file.
    Text(String),
}

pub enum StoreStepV {
    Protect(Seq<u8>),
    Text(Seq<char>),
}

impl View for StoreStep {
    type V = StoreStepV;

    open spec fn view(&self) -> StoreStepV {
        match self {
            StoreStep::Protect(b) => StoreStepV::Protect(b@),
            StoreStep::Text(raw) => StoreStepV::Text(raw@),
        }
    }
}

/// How encrypted data become the token store: data that are encrypted are put into their
/// envelope.
pub open spec fn store_step(sealed: SealStepV) -> StoreStepV {
    match sealed {
        SealStepV::Data(blob) => StoreStepV::Text(compact_text(envelope("safeStorage.v1"@, blob))),
        SealStepV::Protect(b) => StoreStepV::Protect(b),
    }
}

/// Whether the text that was written as the token store is read back as that document.
pub open spec fn store_reads_back(key: Option<Seq<u8>>, step: StoreStepV, doc: JsonV) -> bool {
    match step {
        StoreStepV::Text(raw) => key is Some && sealed_store_document(raw, key->0) == Ok::<
            JsonV,
            ErrorV,
        >(doc),
        StoreStepV::Protect(b) => document_in_bytes(b) == Ok::<JsonV, ErrorV>(doc),
    }
}

/// Writes the token store on Windows, under a nonce that the system draws. What is written is
/// read back, with the key or from what DPAPI gives back, where the document nests no deeper
/// than `MAX_DEPTH` and its fractions are read back. Without a key, or where the text is too
/// long for the cipher, the document goes to DPAPI.
pub fn save_sealed_store(doc: Json, key: Option<&[u8; 32]>) -> (r: Result<StoreStep, AuthError>)
    ensures
        match r {
            Ok(step) => {
                &&& exists|sealed: SealStepV| #[trigger]
                    may_seal(key_bytes(key), compact_text(doc@), Ok(sealed)) && step@
                        == store_step(sealed)
                &&& doc@.plain(MAX_DEPTH as nat) ==> store_reads_back(
                    key_bytes(key),
                    step@,
                    doc@,
                )
            },
            Err(e) => key is Some && e@ == plain_error(ErrorKind::NoRandomness),
        },
{
    let text: String = render(doc);
    proof {
        if reads_as(text@, doc@) {
            law_protected_document_is_read_back(doc@, text@);
        }
    }
    match encrypt_safe_storage(key, text.as_str()) {
        Ok(sealed) => {
            let ghost s = sealed@;
            assert(may_seal(key_bytes(key), compact_text(doc@), Ok(s)));
            match sealed {
                SealStep::Data(blob) => Ok(StoreStep::Text(store_text(blob.as_slice()))),
                SealStep::Protect(b) => Ok(StoreStep::Protect(b)),
            }
        },
        Err(e) => Err(e),
    }
}

/// What reading the token store on Windows needs next.
#[derive(Debug)]
pub enum LoadStep {
    /// The key of AES-GCM, from `Local State`.
    Key,
    /// DPAPI, to unprotect these bytes.
    Unprotect(Vec<u8>),
    /// Nothing: this is the document, or why there is none.
    Done(Result<Json, AuthError>),
}

pub enum LoadStepV {
    Key,
    Unprotect(Seq<u8>),
    Done(Result<JsonV, ErrorV>),
}

impl View for LoadStep {
    type V = LoadStepV;

    open spec fn view(&self) -> LoadStepV {
        match self {
            LoadStep::Key => LoadStepV::Key,
            LoadStep::Unprotect(b) => LoadStepV::Unprotect(b@),
            LoadStep::Done(r) => LoadStepV::Done(document_outcome(*r)),
        }
    }
}

/// How a step of reading encrypted data is one of reading the token store: a text holds the
/// document.
pub open spec fn load_step_of(step: OpenStepV) -> LoadStepV {
    match step {
        OpenStepV::Key => LoadStepV::Key,
        OpenStepV::Unprotect(b) => LoadStepV::Unprotect(b),
        OpenStepV::Text(text) => LoadStepV::Done(document_in(text)),
    }
}

fn load_step_from(step: OpenStep) -> (r: LoadStep)
    ensures
        r@ == load_step_of(step@),
{
    match step {
        OpenStep::Key => LoadStep::Key,
        OpenStep::Unprotect(b) => LoadStep::Unprotect(b),
        OpenStep::Text(text) => LoadStep::Done(document_of(text.as_str())),
    }
}

/// How the token store is read on Windows at first.
pub open spec fn load_step(raw: Seq<char>) -> LoadStepV {
    match store_data(raw) {
        Ok(blob) => load_step_of(open_step(blob)),
        Err(e) => LoadStepV::Done(Err(e)),
    }
}

/// How it is read once the key was asked for.
pub open spec fn keyed_load_step(raw: Seq<char>, key: Option<Seq<u8>>) -> LoadStepV {
    match store_data(raw) {
        Ok(blob) => load_step_of(keyed_open_step(key, blob)),
        Err(e) => LoadStepV::Done(Err(e)),
    }
}

/// Starts to read the token store on Windows.
pub fn load_sealed_store(raw: &str) -> (r: LoadStep)
    ensures
        r@ == load_step(raw@),
{
    match read_store(raw) {
        Ok(blob) => load_step_from(decrypt_safe_storage(blob.as_slice())),
        Err(e) => LoadStep::Done(Err(e)),
    }
}

/// Goes on to read the token store on Windows, once the key was asked for: without one, or where
/// AES-GCM cannot open the data, they go to DPAPI.
pub fn load_store_with_key(raw: &str, key: Option<&[u8; 32]>) -> (r: LoadStep)
    ensures
        r@ == keyed_load_step(raw@, key_bytes(key)),
        !(r@ is Key),
{
    match read_store(raw) {
        Ok(blob) => load_step_from(decrypt_with_key(key, blob.as_slice())),
        Err(e) => LoadStep::Done(Err(e)),
    }
}

/// A token store that is written on Windows and reads back as a document is read as that
/// document, step by step: the key is asked for, and with it the document comes out.
pub proof fn law_sealed_store_is_read_back(raw: Seq<char>, key: Seq<u8>, doc: JsonV)
    requires
        store_reads_back(Some(key), StoreStepV::Text(raw), doc),
    ensures
        load_step(raw) == LoadStepV::Key,
        keyed_load_step(raw, Some(key)) == LoadStepV::Done(Ok::<JsonV, ErrorV>(doc)),
{
}

/// A token store that DPAPI protected hands the same bytes back to DPAPI, at once or when AES-GCM
/// has rejected them.
pub proof fn law_protected_store_goes_back_to_dpapi(
    raw: Seq<char>,
    protected: Seq<u8>,
    key: Option<Seq<u8>>,
)
    requires
        store_data(raw) == Ok::<Seq<u8>, ErrorV>(v10() + protected),
        key is Some ==> gcm_blob_opened(key->0, v10() + protected) is Err,
    ensures
        load_step(raw) == LoadStepV::Unprotect(protected) || load_step(raw) == LoadStepV::Key,
        keyed_load_step(raw, key) == LoadStepV::Unprotect(protected),
{
    law_protected_data_go_back_to_dpapi(protected, key, Seq::empty());
}

// ---- the card's own session ----

/// The encrypted data in the session's envelope.
pub open spec fn session_blob(doc: JsonV) -> Result<Seq<u8>, ErrorV> {
    match doc.get("data"@).text() {
        Some(data) => base64_bytes(data),
        None => Err(plain_error(ErrorKind::SessionData)),
    }
}

/// Takes the encrypted data out of the session's envelope.
pub fn session_blob_of(doc: &Json) -> (r: Result<Vec<u8>, AuthError>)
    ensures
        blob_outcome(r) == session_blob(doc@),
{
    match doc.text_at("data") {
        Some(data) => base64_decode(data),
        None => Err(AuthError::new(ErrorKind::SessionData)),
    }
}

/// The encrypted data in the text of the session file.
pub open spec fn session_data(raw: Seq<char>) -> Result<Seq<u8>, ErrorV> {
    match document_in(raw) {
        Ok(doc) => session_blob(doc),
        Err(e) => Err(e),
    }
}

/// Reads the encrypted data from the text of the session file.
pub fn read_session(raw: &str) -> (r: Result<Vec<u8>, AuthError>)
    ensures
        blob_outcome(r) == session_data(raw@),
{
    match document_of(raw) {
        Ok(doc) => session_blob_of(&doc),
        Err(e) => Err(e),
    }
}

/// The session in the text of its file on macOS.
pub open spec fn session_document(raw: Seq<char>, key: Seq<u8>) -> Result<JsonV, ErrorV> {
    match session_data(raw) {
        Ok(blob) => document_in_blob(key, blob),
        Err(e) => Err(e),
    }
}

/// The outcome of looking for a session.
pub open spec fn session_outcome(r: Result<Option<Json>, AuthError>) -> Result<
    Option<JsonV>,
    ErrorV,
> {
    match r {
        Ok(Some(j)) => Ok(Some(j@)),
        Ok(None) => Ok(None),
        Err(e) => Err(e@),
    }
}

/// Reads the session on macOS: none where there is no file. A key that could not be had
/// matters only once the data have been found.
pub fn load_session(raw: Option<&str>, key: Result<[u8; 16], AuthError>) -> (r: Result<
    Option<Json>,
    AuthError,
>)
    ensures
        session_outcome(r) == match raw {
            None => Ok(None),
            Some(raw) => match (session_data(raw@), key) {
                (Err(e), _) => Err(e),
                (Ok(_), Err(e)) => Err(e@),
                (Ok(_), Ok(k)) => match session_document(raw@, k@) {
                    Ok(doc) => Ok(Some(doc)),
                    Err(e) => Err(e),
                },
            },
        },
{
    match raw {
        None => Ok(None),
        Some(raw) => match read_session(raw) {
            Ok(blob) => match key {
                Ok(k) => match document_of_blob(&k, blob.as_slice()) {
                    Ok(doc) => Ok(Some(doc)),
                    Err(e) => Err(e),
                },
                Err(e) => Err(e),
            },
            Err(e) => Err(e),
        },
    }
}

/// The document in what DPAPI unprotected.
pub open spec fn document_in_bytes(bytes: Seq<u8>) -> Result<JsonV, ErrorV> {
    match utf8_text(bytes) {
        Ok(text) => document_in(text),
        Err(e) => Err(e),
    }
}

/// Reads the document in what DPAPI unprotected.
pub fn document_of_bytes(bytes: Vec<u8>) -> (r: Result<Json, AuthError>)
    ensures
        document_outcome(r) == document_in_bytes(bytes@),
{
    match utf8_decode(bytes) {
        Ok(text) => document_of(text.as_str()),
        Err(e) => Err(e),
    }
}

/// A document whose bytes come back from DPAPI as they were handed to it is read as it was
/// written.
pub proof fn law_protected_document_is_read_back(doc: JsonV, text: Seq<char>)
    requires
        reads_as(text, doc),
    ensures
        document_in_bytes(encode_utf8(text)) == Ok::<JsonV, ErrorV>(doc),
{
    encode_utf8_valid_utf8(text);
    encode_utf8_decode_utf8(text);
}

/// Writes the text of the session file around encrypted data, which are found in it again.
pub fn session_text(blob: &[u8]) -> (r: String)
    ensures
        r@ == compact_text(envelope("kqb.v1"@, blob@)),
        session_data(r@) == Ok::<Seq<u8>, ErrorV>(blob@),
{
    let r: String = enveloped("kqb.v1", blob);
    proof {
        lemma_envelope("kqb.v1"@, blob@);
    }
    r
}

/// Writes the session on macOS. What is written is read back with the same key, where the
/// document nests no deeper than `MAX_DEPTH` and its fractions are read back.
pub fn save_session(doc: Json, key: &[u8; 16]) -> (r: Result<String, AuthError>)
    ensures
        text_outcome(r) == match oscrypt_sealed(key@, compact_text(doc@)) {
            Ok(blob) => Ok::<Seq<char>, ErrorV>(compact_text(envelope("kqb.v1"@, blob))),
            Err(e) => Err(e),
        },
        r is Ok,
        doc@.plain(MAX_DEPTH as nat) ==> session_document(r->Ok_0@, key@) == Ok::<JsonV, ErrorV>(
            doc@,
        ),
{
    let text: String = render(doc);
    match oscrypt_encrypt(key, text.as_str()) {
        Ok(blob) => Ok(session_text(blob.as_slice())),
        Err(e) => Err(e),
    }
}

// ---- the key in `Local State` on Windows ----

/// The wrapped key of AES-GCM, still protected by DPAPI.
pub open spec fn wrapped_key(state: JsonV) -> Result<Seq<u8>, ErrorV> {
    match state.get("os_crypt"@).get("encrypted_key"@).text() {
        None => Err(plain_error(ErrorKind::NoWrappedKey)),
        Some(text) => match base64_bytes(text) {
            Err(e) => Err(e),
            Ok(blob) => if seq![0x44u8, 0x50, 0x41, 0x50, 0x49].is_prefix_of(blob) {
                Ok(blob.skip(5))
            } else {
                Err(plain_error(ErrorKind::KeyWrapping))
            },
        },
    }
}

/// Takes the mark `DPAPI` off a wrapped key.
pub fn unmarked_key(blob: &[u8]) -> (r: Result<Vec<u8>, AuthError>)
    ensures
        blob_outcome(r) == if seq![0x44u8, 0x50, 0x41, 0x50, 0x49].is_prefix_of(blob@) {
            Ok::<Seq<u8>, ErrorV>(blob@.skip(5))
        } else {
            Err(plain_error(ErrorKind::KeyWrapping))
        },
{
    let ghost mark = seq![0x44u8, 0x50, 0x41, 0x50, 0x49];
    if blob.len() >= 5 && blob[0] == 0x44 && blob[1] == 0x50 && blob[2] == 0x41 && blob[3] == 0x50
        && blob[4] == 0x49 {
        assert(blob@.subrange(0, 5) =~= mark);
        let rest: &[u8] = slice_subrange(blob, 5, blob.len());
        assert(rest@ == blob@.skip(5));
        Ok(slice_to_vec(rest))
    } else {
        proof {
            if mark.is_prefix_of(blob@) {
                assert(mark[0] == blob@.subrange(0, 5)[0]);
                assert(mark[1] == blob@.subrange(0, 5)[1]);
                assert(mark[2] == blob@.subrange(0, 5)[2]);
                assert(mark[3] == blob@.subrange(0, 5)[3]);
                assert(mark[4] == blob@.subrange(0, 5)[4]);
            }
        }
        Err(AuthError::new(ErrorKind::KeyWrapping))
    }
}

/// The wrapped key in the text of `Local State`.
pub open spec fn wrapped_key_in(raw: Seq<char>) -> Result<Seq<u8>, ErrorV> {
    match document_in(raw) {
        Ok(state) => wrapped_key(state),
        Err(e) => Err(e),
    }
}

/// Takes the key of AES-GCM, still protected by DPAPI, out of the document in `Local State`.
pub fn wrapped_key_of(state: &Json) -> (r: Result<Vec<u8>, AuthError>)
    ensures
        blob_outcome(r) == wrapped_key(state@),
{
    let text: Option<&str> = match state.member("os_crypt") {
        Some(part) => part.text_at("encrypted_key"),
        None => None,
    };
    match text {
        Some(text) => match base64_decode(text) {
            Ok(blob) => unmarked_key(blob.as_slice()),
            Err(e) => Err(e),
        },
        None => Err(AuthError::new(ErrorKind::NoWrappedKey)),
    }
}

/// Reads the key of AES-GCM, still protected by DPAPI, from the text of `Local State`.
pub fn os_crypt_key(raw: &str) -> (r: Result<Vec<u8>, AuthError>)
    ensures
        blob_outcome(r) == wrapped_key_in(raw@),
{
    match document_of(raw) {
        Ok(state) => wrapped_key_of(&state),
        Err(e) => Err(e),
    }
}

// ---- what the files hold ----

/// An envelope names the encryption and holds the data in base64, each under its own name.
pub proof fn law_an_envelope_holds_name_and_data(encryption: Seq<char>, blob: Seq<u8>)
    ensures
        envelope(encryption, blob).get("encryption"@) == JsonV::Str(encryption),
        envelope(encryption, blob).get("data"@) == JsonV::Str(base64_text(blob)),
        forall|k: Seq<char>| #[trigger]
            envelope(encryption, blob).member(k) is Some ==> k == "encryption"@ || k == "data"@,
{
    lemma_envelope(encryption, blob);
}

/// The data of the token store are those under `data`, where the encryption is one of the
/// client's; else the failure tells which encryption it is, that there are no data, or what is
/// wrong with them.
pub proof fn law_the_store_is_read_in_its_encryption_only(doc: JsonV)
    ensures
        ({
            let named = doc.get("encryption"@);
            let known = named is Str && "safeStorage"@.is_prefix_of(named->Str_0);
            let data = doc.get("data"@);
            &&& known && data is Str ==> store_blob(doc) == base64_bytes(data->Str_0)
            &&& known && !(data is Str) ==> store_blob(doc) == Err::<Seq<u8>, ErrorV>(
                plain_error(ErrorKind::StoreData),
            )
            &&& !known ==> store_blob(doc) is Err && store_blob(doc)->Err_0.kind
                == ErrorKind::StoreEncryption
            &&& !known && named is Str ==> store_blob(doc)->Err_0.detail == named->Str_0
            &&& !known && !(named is Str) ==> store_blob(doc)->Err_0.detail.len() == 0
        }),
{
    reveal_strlit("safeStorage");
    assert("safeStorage"@.len() == 11);
    if !(doc.get("encryption"@) is Str) {
        assert(!"safeStorage"@.is_prefix_of(Seq::<char>::empty()));
    }
}

/// The data of the card's own session are those under `data`, whatever encryption is named.
pub proof fn law_the_session_is_read_from_its_data(doc: JsonV)
    ensures
        doc.get("data"@) is Str ==> session_blob(doc) == base64_bytes(doc.get("data"@)->Str_0),
        !(doc.get("data"@) is Str) ==> session_blob(doc) == Err::<Seq<u8>, ErrorV>(
            plain_error(ErrorKind::SessionData),
        ),
{
}

/// A text that is read is the document that it holds; one that holds none is told in the parser's
/// words, by every file alike.
pub proof fn law_texts_that_hold_no_document_are_told(raw: Seq<char>)
    ensures
        parsed_text(raw) is Ok ==> document_in(raw) == Ok::<JsonV, ErrorV>(parsed_text(raw)->Ok_0)
            && store_data(raw) == store_blob(parsed_text(raw)->Ok_0) && session_data(raw)
            == session_blob(parsed_text(raw)->Ok_0) && wrapped_key_in(raw) == wrapped_key(
            parsed_text(raw)->Ok_0,
        ),
        parsed_text(raw) is Err ==> ({
            let e = ErrorV { kind: ErrorKind::Json, detail: parsed_text(raw)->Err_0 };
            &&& document_in(raw) == Err::<JsonV, ErrorV>(e)
            &&& store_data(raw) == Err::<Seq<u8>, ErrorV>(e)
            &&& session_data(raw) == Err::<Seq<u8>, ErrorV>(e)
            &&& wrapped_key_in(raw) == Err::<Seq<u8>, ErrorV>(e)
        }),
{
}

/// The document in encrypted data is the one that the decrypted text holds; the first failure on
/// the way is the failure of the whole.
pub proof fn law_documents_are_read_through_the_encryption(
    raw: Seq<char>,
    key: Seq<u8>,
    blob: Seq<u8>,
    text: Seq<char>,
    doc: JsonV,
)
    requires
        oscrypt_opened(key, blob) == Ok::<Seq<char>, ErrorV>(text),
        parsed_text(text) == Ok::<JsonV, Seq<char>>(doc),
    ensures
        document_in_blob(key, blob) == Ok::<JsonV, ErrorV>(doc),
        store_data(raw) == Ok::<Seq<u8>, ErrorV>(blob) ==> store_document(raw, key) == Ok::<
            JsonV,
            ErrorV,
        >(doc),
        session_data(raw) == Ok::<Seq<u8>, ErrorV>(blob) ==> session_document(raw, key) == Ok::<
            JsonV,
            ErrorV,
        >(doc),
{
}

/// A file whose data cannot be found, or cannot be decrypted, is read as just that failure.
pub proof fn law_the_first_failure_to_read_is_told(
    raw: Seq<char>,
    key: Seq<u8>,
    maybe: Option<Seq<u8>>,
    blob: Seq<u8>,
    e: ErrorV,
)
    ensures
        store_data(raw) == Err::<Seq<u8>, ErrorV>(e) ==> store_document(raw, key) == Err::<
            JsonV,
            ErrorV,
        >(e) && sealed_store_document(raw, key) == Err::<JsonV, ErrorV>(e) && load_step(raw)
            == LoadStepV::Done(Err::<JsonV, ErrorV>(e)) && keyed_load_step(raw, maybe)
            == LoadStepV::Done(Err::<JsonV, ErrorV>(e)),
        session_data(raw) == Err::<Seq<u8>, ErrorV>(e) ==> session_document(raw, key) == Err::<
            JsonV,
            ErrorV,
        >(e),
        oscrypt_opened(key, blob) == Err::<Seq<char>, ErrorV>(e) ==> document_in_blob(key, blob)
            == Err::<JsonV, ErrorV>(e),
        store_data(raw) == Ok::<Seq<u8>, ErrorV>(blob) ==> store_document(raw, key)
            == document_in_blob(key, blob),
        session_data(raw) == Ok::<Seq<u8>, ErrorV>(blob) ==> session_document(raw, key)
            == document_in_blob(key, blob),
{
}

/// What DPAPI gives back is read as the document in its text, and as a failure where it is no
/// text or holds no document.
pub proof fn law_unprotected_bytes_are_read_as_documents(bytes: Seq<u8>, text: Seq<char>)
    ensures
        utf8_text(bytes) is Ok ==> document_in_bytes(bytes) == document_in(utf8_text(bytes)->Ok_0),
        utf8_text(bytes) is Err ==> document_in_bytes(bytes) == Err::<JsonV, ErrorV>(
            utf8_text(bytes)->Err_0,
        ),
        document_in_bytes(encode_utf8(text)) == document_in(text),
{
    encode_utf8_valid_utf8(text);
    encode_utf8_decode_utf8(text);
}

/// On Windows data that are encrypted are put into the envelope of the token store, and bytes
/// that DPAPI has to protect go on as they are; and what reading needs next is what the data need
/// next, a text being read as the document in it.
pub proof fn law_the_store_follows_its_data(
    blob: Seq<u8>,
    text: Seq<char>,
    raw: Seq<char>,
    key: Seq<u8>,
)
    ensures
        store_step(SealStepV::Data(blob)) == StoreStepV::Text(
            compact_text(envelope("safeStorage.v1"@, blob)),
        ),
        store_step(SealStepV::Protect(blob)) == StoreStepV::Protect(blob),
        load_step_of(OpenStepV::Key) == LoadStepV::Key,
        load_step_of(OpenStepV::Unprotect(blob)) == LoadStepV::Unprotect(blob),
        load_step_of(OpenStepV::Text(text)) == LoadStepV::Done(document_in(text)),
        store_data(raw) == Ok::<Seq<u8>, ErrorV>(blob) ==> load_step(raw) == load_step_of(
            open_step(blob),
        ) && keyed_load_step(raw, Some(key)) == load_step_of(keyed_open_step(Some(key), blob))
            && keyed_load_step(raw, None) == load_step_of(keyed_open_step(None, blob)),
{
}

/// The wrapped key stands in base64 under `encrypted_key` of `os_crypt`, behind the word `DPAPI`;
/// the failure tells whether it is missing, no base64, or wrapped in another way.
pub proof fn law_the_wrapped_key_stands_behind_its_mark(state: JsonV, wrapped: Seq<u8>)
    ensures
        ({
            let held = state.get("os_crypt"@).get("encrypted_key"@);
            let mark = seq!['D' as u8, 'P' as u8, 'A' as u8, 'P' as u8, 'I' as u8];
            &&& !(held is Str) ==> wrapped_key(state) == Err::<Seq<u8>, ErrorV>(
                plain_error(ErrorKind::NoWrappedKey),
            )
            &&& held is Str && base64_bytes(held->Str_0) is Err ==> wrapped_key(state)
                == base64_bytes(held->Str_0)
            &&& held is Str && base64_bytes(held->Str_0) == Ok::<Seq<u8>, ErrorV>(mark + wrapped)
                ==> wrapped_key(state) == Ok::<Seq<u8>, ErrorV>(wrapped)
            &&& held is Str && wrapped_key(state) is Ok ==> base64_bytes(held->Str_0) == Ok::<
                Seq<u8>,
                ErrorV,
            >(mark + wrapped_key(state)->Ok_0)
            &&& held is Str && base64_bytes(held->Str_0) is Ok && wrapped_key(state) is Err
                ==> wrapped_key(state)->Err_0 == plain_error(ErrorKind::KeyWrapping)
        }),
{
    let mark = seq!['D' as u8, 'P' as u8, 'A' as u8, 'P' as u8, 'I' as u8];
    let bytes = seq![0x44u8, 0x50, 0x41, 0x50, 0x49];
    assert(mark =~= bytes);
    assert((mark + wrapped).subrange(0, 5) =~= bytes);
    assert((mark + wrapped).skip(5) =~= wrapped);
    let held = state.get("os_crypt"@).get("encrypted_key"@);
    if held is Str && base64_bytes(held->Str_0) is Ok {
        let blob = base64_bytes(held->Str_0)->Ok_0;
        if bytes.is_prefix_of(blob) {
            assert(blob =~= blob.subrange(0, 5) + blob.skip(5));
        }
    }
}

/// Without a file there is no session and no failure; with one, a failure to find the data comes
/// before a failure to have the key, and with both the session is what the data hold.
pub proof fn law_a_session_is_read_or_told_why_not(
    raw: &str,
    key: Result<[u8; 16], AuthError>,
    none: Result<Option<Json>, AuthError>,
    r: Result<Option<Json>, AuthError>,
)
    requires
        call_ensures(load_session, (None::<&str>, key), none),
        call_ensures(load_session, (Some(raw), key), r),
    ensures
        none is Ok && none->Ok_0 is None,
        r is Ok ==> r->Ok_0 is Some && key is Ok && session_document(raw@, key->Ok_0@) == Ok::<
            JsonV,
            ErrorV,
        >(r->Ok_0->0@),
        session_data(raw@) is Err ==> r is Err && r->Err_0@ == session_data(raw@)->Err_0,
        session_data(raw@) is Ok && key is Err ==> r is Err && r->Err_0@ == key->Err_0@,
        session_data(raw@) is Ok && key is Ok && session_document(raw@, key->Ok_0@) is Err
            ==> r is Err && r->Err_0@ == session_document(raw@, key->Ok_0@)->Err_0,
{
}

/// The token store is what its data hold; a failure to find the data comes before a failure to
/// have the key.
pub proof fn law_a_store_is_read_or_told_why_not(
    raw: &str,
    key: Result<[u8; 16], AuthError>,
    r: Result<Json, AuthError>,
)
    requires
        call_ensures(load_store, (raw, key), r),
    ensures
        r is Ok ==> key is Ok && store_document(raw@, key->Ok_0@) == Ok::<JsonV, ErrorV>(
            r->Ok_0@,
        ),
        store_data(raw@) is Err ==> r is Err && r->Err_0@ == store_data(raw@)->Err_0,
        store_data(raw@) is Ok && key is Err ==> r is Err && r->Err_0@ == key->Err_0@,
        store_data(raw@) is Ok && key is Ok && store_document(raw@, key->Ok_0@) is Err ==> r is Err
            && r->Err_0@ == store_document(raw@, key->Ok_0@)->Err_0,
{
}

} // verus!
