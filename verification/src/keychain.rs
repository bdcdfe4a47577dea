//! The keychain of macOS: the passwords that the encryption keys are derived from, and the one
//! that the card makes for its own session.

use vstd::prelude::*;
use vstd::utf8::*;

use crate::codec::{fill_random, text_outcome, utf8_decode, utf8_text};
use crate::error::{plain_error, AuthError, ErrorKind, ErrorV};
use crate::oscrypt::{oscrypt_key, oscrypt_key_from};
use crate::text::{hex, hex_char, hex_of, is_white, trim_end, without_white_end};

verus! {

/// What came of a run of the tool `security`.
#[derive(Debug)]
pub enum Ran {
    /// It could not be run.
    Not,
    /// It ended with a failure, with this exit status where it has one.
    Failed(Option<i32>),
    /// It ended well, and wrote this.
    Well(Vec<u8>),
}

pub enum RanV {
    Not,
    Failed(Option<i32>),
    Well(Seq<u8>),
}

impl View for Ran {
    type V = RanV;

    open spec fn view(&self) -> RanV {
        match self {
            Ran::Not => RanV::Not,
            Ran::Failed(status) => RanV::Failed(*status),
            Ran::Well(out) => RanV::Well(out@),
        }
    }
}

/// The password of a service in what the tool wrote when asked for it.
pub open spec fn password_in(service: Seq<char>, ran: RanV) -> Result<Seq<char>, ErrorV> {
    match ran {
        RanV::Not => Err(plain_error(ErrorKind::KeychainRead)),
        RanV::Failed(_) => Err(ErrorV { kind: ErrorKind::KeychainDenied, detail: service }),
        RanV::Well(out) => match utf8_text(out) {
            Ok(text) => Ok(without_white_end(text)),
            Err(e) => Err(e),
        },
    }
}

/// Reads the password of a service from what the tool wrote when asked for it.
pub fn keychain_password(service: &str, ran: Ran) -> (r: Result<String, AuthError>)
    ensures
        text_outcome(r) == password_in(service@, ran@),
{
    match ran {
        Ran::Not => Err(AuthError::new(ErrorKind::KeychainRead)),
        Ran::Failed(_) => Err(AuthError::with(ErrorKind::KeychainDenied, service.to_owned())),
        Ran::Well(out) => match utf8_decode(out) {
            Ok(text) => Ok(trim_end(text.as_str()).to_owned()),
            Err(e) => Err(e),
        },
    }
}

pub open spec fn aes_key_outcome(r: Result<[u8; 16], AuthError>) -> Result<Seq<u8>, ErrorV> {
    match r {
        Ok(k) => Ok(k@),
        Err(e) => Err(e@),
    }
}

/// The key of the desktop client's store: it is derived from the password of the client's
/// own keychain item.
pub fn safe_storage_key(ran: Ran) -> (r: Result<[u8; 16], AuthError>)
    ensures
        aes_key_outcome(r) == match password_in("kimi-desktop Safe Storage"@, ran@) {
            Ok(password) => Ok(oscrypt_key(password)),
            Err(e) => Err(e),
        },
{
    match keychain_password("kimi-desktop Safe Storage", ran) {
        Ok(password) => Ok(oscrypt_key_from(password.as_str())),
        Err(e) => Err(e),
    }
}

/// What the key of the card's own session needs next.
#[derive(Debug)]
pub enum KeyStep {
    /// This password has to be put into the keychain.
    Add(String),
    /// Nothing: this is the key.
    Key([u8; 16]),
    /// Nothing: there is no key.
    Fail(AuthError),
}

pub enum KeyStepV {
    Add(Seq<char>),
    Key(Seq<u8>),
    Fail(ErrorV),
}

impl View for KeyStep {
    type V = KeyStepV;

    open spec fn view(&self) -> KeyStepV {
        match self {
            KeyStep::Add(password) => KeyStepV::Add(password@),
            KeyStep::Key(key) => KeyStepV::Key(key@),
            KeyStep::Fail(e) => KeyStepV::Fail(e@),
        }
    }
}

/// The exit status by which the tool says that the keychain has no such item.
pub const ITEM_NOT_FOUND: i32 = 44;

/// Whether the key of the card's own session may go on that way. Only where the keychain has
/// no item yet, a password of random hexadecimal digits has to be put there; an item that
/// cannot be read is left alone, and the failure to read it is the result.
pub open spec fn key_step(ran: RanV, step: KeyStepV) -> bool {
    if ran == RanV::Failed(Some(ITEM_NOT_FOUND)) {
        match step {
            KeyStepV::Add(password) => exists|bytes: Seq<u8>|
                bytes.len() == 16 && #[trigger] hex(bytes) == password,
            KeyStepV::Key(_) => false,
            KeyStepV::Fail(e) => e == plain_error(ErrorKind::NoRandomness),
        }
    } else {
        step == match password_in("kimi-quota-bar Session Key"@, ran) {
            Ok(password) => KeyStepV::Key(oscrypt_key(password)),
            Err(e) => KeyStepV::Fail(e),
        }
    }
}

/// Finds the key of the card's own session with the password in the keychain, or makes the
/// password of the first login. Which digits that has is not stated.
pub fn session_key(ran: Ran) -> (r: KeyStep)
    ensures
        key_step(ran@, r@),
{
    let missing: bool = match ran {
        Ran::Failed(Some(status)) => status == ITEM_NOT_FOUND,
        _ => false,
    };
    if missing {
        let mut bytes: Vec<u8> = Vec::new();
        bytes.resize(16, 0);
        if !fill_random(bytes.as_mut_slice()) {
            return KeyStep::Fail(AuthError::new(ErrorKind::NoRandomness));
        }
        let password: String = hex_of(bytes.as_slice());
        assert(hex(bytes@) == password@);
        return KeyStep::Add(password);
    }
    match keychain_password("kimi-quota-bar Session Key", ran) {
        Ok(password) => KeyStep::Key(oscrypt_key_from(password.as_str())),
        Err(e) => KeyStep::Fail(e),
    }
}

/// Finds the key of the card's own session once a password was to be put into the keychain.
pub fn session_key_added(password: &str, ran: Ran) -> (r: Result<[u8; 16], AuthError>)
    ensures
        aes_key_outcome(r) == match ran@ {
            RanV::Not => Err::<Seq<u8>, ErrorV>(plain_error(ErrorKind::KeychainWrite)),
            RanV::Failed(_) => Err(plain_error(ErrorKind::KeychainCreate)),
            RanV::Well(_) => Ok(oscrypt_key(password@)),
        },
{
    match ran {
        Ran::Not => Err(AuthError::new(ErrorKind::KeychainWrite)),
        Ran::Failed(_) => Err(AuthError::new(ErrorKind::KeychainCreate)),
        Ran::Well(_) => Ok(oscrypt_key_from(password)),
    }
}

/// What a run of the tool that asks for a password may come to, with that password in the
/// keychain or with none: a password that is there is written with a line break behind it, or
/// not handed out; only where there is none does the tool say that the item is not there.
pub open spec fn may_come_to(item: Option<Seq<char>>, ran: RanV) -> bool {
    match ran {
        RanV::Not => true,
        RanV::Failed(status) => item is Some ==> status != Some(ITEM_NOT_FOUND),
        RanV::Well(out) => item is Some && out == encode_utf8(item->0.push('\n')),
    }
}

proof fn lemma_found_again(service: Seq<char>, bytes: Seq<u8>)
    ensures
        password_in(service, RanV::Well(encode_utf8(hex(bytes).push('\n')))) == Ok::<
            Seq<char>,
            ErrorV,
        >(hex(bytes)),
{
    let written = hex(bytes).push('\n');
    encode_utf8_valid_utf8(written);
    encode_utf8_decode_utf8(written);
    assert(is_white('\n'));
    assert(written.drop_last() =~= hex(bytes));
    assert(without_white_end(written) == without_white_end(hex(bytes)));
    if bytes.len() > 0 {
        let last = bytes.last();
        assert(hex(bytes).last() == hex_char((last % 16) as nat));
        assert(!is_white(hex(bytes).last()));
    }
}

/// With an item in the keychain that the card made, whether it can be read or not, no password
/// is ever put in its place, and a result that is a key is the key of that item: sessions that
/// were written with it stay readable.
pub proof fn law_an_item_is_never_replaced(bytes: Seq<u8>, ran: RanV, step: KeyStepV)
    requires
        may_come_to(Some(hex(bytes)), ran),
        key_step(ran, step),
    ensures
        !(step is Add),
        step is Key ==> step->Key_0 == oscrypt_key(hex(bytes)),
        ran is Well ==> step is Key,
{
    lemma_found_again("kimi-quota-bar Session Key"@, bytes);
}

// ---- what the keychain gives ----

/// A password is what the tool wrote without the white space behind it; a tool that could not be
/// run, one that failed, and one that wrote no text are told apart, and the second with the
/// service that was asked for.
pub proof fn law_passwords_are_read_without_the_line_break(
    service: Seq<char>,
    password: Seq<char>,
    behind: Seq<char>,
    status: Option<i32>,
    out: Seq<u8>,
)
    requires
        password.len() > 0 ==> !is_white(password.last()),
        forall|i: int| 0 <= i < behind.len() ==> is_white(#[trigger] behind[i]),
    ensures
        password_in(service, RanV::Well(encode_utf8(password + behind))) == Ok::<
            Seq<char>,
            ErrorV,
        >(password),
        password_in(service, RanV::Not) == Err::<Seq<char>, ErrorV>(
            plain_error(ErrorKind::KeychainRead),
        ),
        password_in(service, RanV::Failed(status)) == Err::<Seq<char>, ErrorV>(
            ErrorV { kind: ErrorKind::KeychainDenied, detail: service },
        ),
        !valid_utf8(out) ==> password_in(service, RanV::Well(out)) is Err && password_in(
            service,
            RanV::Well(out),
        )->Err_0.kind == ErrorKind::Utf8,
        valid_utf8(out) ==> password_in(service, RanV::Well(out)) is Ok,
{
    let written = password + behind;
    encode_utf8_valid_utf8(written);
    encode_utf8_decode_utf8(written);
    lemma_white_end(password, behind);
}

proof fn lemma_white_end(s: Seq<char>, behind: Seq<char>)
    requires
        s.len() > 0 ==> !is_white(s.last()),
        forall|i: int| 0 <= i < behind.len() ==> is_white(#[trigger] behind[i]),
    ensures
        without_white_end(s + behind) == s,
    decreases behind.len(),
{
    if behind.len() > 0 {
        assert((s + behind).last() == behind.last());
        assert((s + behind).drop_last() =~= s + behind.drop_last());
        assert(is_white(behind[behind.len() - 1]));
        assert forall|i: int| 0 <= i < behind.drop_last().len() implies is_white(
            #[trigger] behind.drop_last()[i],
        ) by {
            assert(behind.drop_last()[i] == behind[i]);
        }
        lemma_white_end(s, behind.drop_last());
    } else {
        assert(s + behind =~= s);
    }
}

/// The key of the card's own session is derived from its own password; only where the tool says,
/// by the status 44, that the item is not there, is a password made: 32 hexadecimal digits.
pub proof fn law_a_password_is_made_only_for_a_missing_item(ran: RanV, step: KeyStepV)
    requires
        key_step(ran, step),
    ensures
        step is Add ==> ran == RanV::Failed(Some(44i32)) && step->Add_0.len() == 32,
        ran == RanV::Failed(Some(44i32)) ==> step is Add || step == KeyStepV::Fail(
            plain_error(ErrorKind::NoRandomness),
        ),
        step is Key ==> ran is Well && password_in("kimi-quota-bar Session Key"@, ran) is Ok
            && step->Key_0 == oscrypt_key(
            password_in("kimi-quota-bar Session Key"@, ran)->Ok_0,
        ),
        ran is Well && valid_utf8(ran->Well_0) ==> step is Key,
        ran != RanV::Failed(Some(44i32)) && step is Fail ==> password_in(
            "kimi-quota-bar Session Key"@,
            ran,
        ) == Err::<Seq<char>, ErrorV>(step->Fail_0),
{
    if step is Add {
        let bytes = choose|bytes: Seq<u8>| bytes.len() == 16 && #[trigger] hex(bytes) == step->Add_0;
        crate::text::law_hex_digits(bytes, 0);
    }
}

/// The key of the client's store comes from the client's own keychain item, that of a new password
/// from that password once the keychain took it; and a keychain that could not be asked is told
/// apart from one that refused.
pub proof fn law_keys_come_from_their_items(
    ran: Ran,
    store_key: Result<[u8; 16], AuthError>,
    password: &str,
    added: Result<[u8; 16], AuthError>,
)
    requires
        call_ensures(safe_storage_key, (ran,), store_key),
        call_ensures(session_key_added, (password, ran), added),
    ensures
        store_key is Ok <==> password_in("kimi-desktop Safe Storage"@, ran@) is Ok,
        store_key is Ok ==> store_key->Ok_0@ == oscrypt_key(
            password_in("kimi-desktop Safe Storage"@, ran@)->Ok_0,
        ),
        store_key is Err ==> password_in("kimi-desktop Safe Storage"@, ran@) == Err::<
            Seq<char>,
            ErrorV,
        >(store_key->Err_0@),
        added is Ok <==> ran@ is Well,
        added is Ok ==> added->Ok_0@ == oscrypt_key(password@),
        ran@ is Not ==> added->Err_0@ == plain_error(ErrorKind::KeychainWrite),
        ran@ is Failed ==> added->Err_0@ == plain_error(ErrorKind::KeychainCreate),
{
}

} // verus!
