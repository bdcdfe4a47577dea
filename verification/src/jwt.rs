//! The claims of a JSON web token, read without checking its signature.

use vstd::prelude::*;

use crate::codec::{base64url_decode, base64url_decoded};
use crate::json::{chars_in, owned_chars, parse_bytes, parsed_bytes, Json, JsonV};
use crate::text::chars_of;

verus! {

/// What stands before the first dot; all of it where there is none.
pub open spec fn before_dot(s: Seq<char>) -> Seq<char>
    decreases s.len(),
{
    if s.len() == 0 || s[0] == '.' {
        Seq::empty()
    } else {
        seq![s[0]] + before_dot(s.skip(1))
    }
}

/// The second of the parts that dots separate, where there are two.
pub open spec fn payload(token: Seq<char>) -> Option<Seq<char>> {
    if token.contains('.') {
        Some(before_dot(token.skip(before_dot(token).len() as int + 1)))
    } else {
        None
    }
}

/// The claims that a token carries, where it carries some that can be read.
pub open spec fn claims(token: Seq<char>) -> Option<JsonV> {
    match payload(token) {
        Some(part) => match base64url_decoded(part) {
            Some(raw) => match parsed_bytes(raw) {
                Ok(v) => Some(v),
                Err(_) => None,
            },
            None => None,
        },
        None => None,
    }
}

/// When a token expires, in seconds since 1970, where it says so.
pub open spec fn expiry(token: Seq<char>) -> Option<int> {
    match claims(token) {
        Some(v) => v.get("exp"@).integer(),
        None => None,
    }
}

/// The user that a token was made out to, where it says so.
pub open spec fn subject(token: Seq<char>) -> Option<Seq<char>> {
    match claims(token) {
        Some(v) => v.get("sub"@).text(),
        None => None,
    }
}

/// What stands before the first dot is the text up to that dot.
proof fn lemma_before_dot(s: Seq<char>, n: int)
    requires
        0 <= n <= s.len(),
        forall|i: int| 0 <= i < n ==> s[i] != '.',
        n < s.len() ==> s[n] == '.',
    ensures
        before_dot(s) == s.take(n),
    decreases n,
{
    if n > 0 {
        let rest = s.skip(1);
        lemma_before_dot(rest, n - 1);
        assert(s.take(n) =~= seq![s[0]] + rest.take(n - 1));
    } else {
        assert(s.take(0) =~= Seq::<char>::empty());
    }
}

/// The place of the first dot from `from` on, or the end.
fn dot_from(cs: &Vec<char>, from: usize) -> (r: usize)
    requires
        from <= cs@.len(),
    ensures
        from <= r <= cs@.len(),
        forall|i: int| from <= i < r ==> cs@[i] != '.',
        r < cs@.len() ==> cs@[r as int] == '.',
{
    let mut i: usize = from;
    while i < cs.len() && cs[i] != '.'
        invariant
            from <= i <= cs@.len(),
            forall|k: int| from <= k < i ==> cs@[k] != '.',
        decreases cs@.len() - i,
    {
        i = i + 1;
    }
    i
}

/// Finds the part of a token that carries its claims.
pub fn payload_of(token: &str) -> (r: Option<&str>)
    ensures
        chars_in(r) == payload(token@),
{
    let cs: Vec<char> = chars_of(token);
    let first: usize = dot_from(&cs, 0);
    proof {
        lemma_before_dot(token@, first as int);
    }
    if first == cs.len() {
        return None;
    }
    assert(token@.contains('.')) by {
        assert(token@[first as int] == '.');
    }
    let second: usize = dot_from(&cs, first + 1);
    proof {
        let rest = token@.skip(first + 1);
        lemma_before_dot(rest, second - first - 1);
        assert(rest.take(second - first - 1) =~= token@.subrange(first + 1, second as int));
    }
    Some(token.substring_char(first + 1, second))
}

fn claims_of(token: &str) -> (r: Option<Json>)
    ensures
        match r {
            Some(j) => claims(token@) == Some(j@),
            None => claims(token@) is None,
        },
{
    match payload_of(token) {
        Some(part) => match base64url_decode(part) {
            Some(raw) => match parse_bytes(raw.as_slice()) {
                Ok(j) => Some(j),
                Err(_) => None,
            },
            None => None,
        },
        None => None,
    }
}

/// The expiry among claims, in seconds since 1970.
pub fn claimed_expiry(claims: &Json) -> (r: Option<i64>)
    ensures
        match r {
            Some(exp) => claims@.get("exp"@).integer() == Some(exp as int),
            None => claims@.get("exp"@).integer() is None,
        },
{
    match claims.member("exp") {
        Some(exp) => exp.as_i64(),
        None => None,
    }
}

/// The user among claims.
pub fn claimed_subject(claims: &Json) -> (r: Option<String>)
    ensures
        owned_chars(r) == claims@.get("sub"@).text(),
{
    match claims.text_at("sub") {
        Some(sub) => Some(sub.to_owned()),
        None => None,
    }
}

/// Reads when a token expires; `None` where it cannot be read.
pub fn jwt_exp(token: &str) -> (r: Option<i64>)
    ensures
        match r {
            Some(exp) => expiry(token@) == Some(exp as int),
            None => expiry(token@) is None,
        },
{
    match claims_of(token) {
        Some(v) => claimed_expiry(&v),
        None => None,
    }
}

/// Reads the user that a token was made out to.
pub fn jwt_sub(token: &str) -> (r: Option<String>)
    ensures
        owned_chars(r) == subject(token@),
{
    match claims_of(token) {
        Some(v) => claimed_subject(&v),
        None => None,
    }
}

/// The user of the account that the card follows, from its token, where it has one.
pub fn current_user_id(token: Option<&str>) -> (r: Option<String>)
    ensures
        owned_chars(r) == match token {
            Some(t) => subject(t@),
            None => None,
        },
{
    match token {
        Some(t) => jwt_sub(t),
        None => None,
    }
}

/// How long before its expiry a token is renewed, in seconds.
pub const REFRESH_SKEW_SECS: i64 = 120;

/// Whether a token that expires then still serves: one that does not say when it expires is
/// tried.
pub open spec fn serves(exp: Option<int>, now: int) -> bool {
    match exp {
        Some(exp) => exp > now + REFRESH_SKEW_SECS,
        None => true,
    }
}

/// Whether a token that expires at `exp` still serves at `now`.
pub fn still_serves(exp: Option<i64>, now: i64) -> (r: bool)
    ensures
        r == serves(
            match exp {
                Some(e) => Some(e as int),
                None => None,
            },
            now as int,
        ),
{
    match exp {
        Some(e) => now <= 0x7fff_ffff_ffff_ffff - REFRESH_SKEW_SECS && e > now + REFRESH_SKEW_SECS,
        None => true,
    }
}

/// Whether a token still serves at `now`.
pub fn is_fresh(token: &str, now: i64) -> (r: bool)
    ensures
        r == serves(expiry(token@), now as int),
{
    still_serves(jwt_exp(token), now)
}

// ---- what is read of a token ----

/// Of a token in two parts or more, with dots between them, the second part carries the claims;
/// one without a dot carries none.
pub proof fn law_the_second_part_carries_the_claims(
    head: Seq<char>,
    body: Seq<char>,
    rest: Seq<char>,
)
    requires
        !head.contains('.'),
        !body.contains('.'),
    ensures
        payload(head) is None,
        payload(head + seq!['.'] + body) == Some(body),
        payload(head + seq!['.'] + body + seq!['.'] + rest) == Some(body),
{
    let two = head + seq!['.'] + body;
    let three = two + seq!['.'] + rest;
    let n = head.len() as int;
    assert forall|i: int| 0 <= i < n implies head[i] != '.' by {
        assert(head.contains(head[i]));
    }
    assert forall|i: int| 0 <= i < body.len() implies body[i] != '.' by {
        assert(body.contains(body[i]));
    }
    assert(two[n] == '.' && three[n] == '.');
    lemma_before_dot(two, n);
    lemma_before_dot(three, n);
    assert(two.contains('.') && three.contains('.'));
    let tail = body + seq!['.'] + rest;
    assert(two.skip(n + 1) =~= body);
    assert(three.skip(n + 1) =~= tail);
    lemma_before_dot(body, body.len() as int);
    lemma_before_dot(tail, body.len() as int);
    assert(body.take(body.len() as int) =~= body);
    assert(tail.take(body.len() as int) =~= body);
}

/// The claims of a token are the document that its second part is the notation of; there are none
/// where it is no such notation, or what it stands for is no document.
pub proof fn law_claims_are_the_document_in_the_token(token: Seq<char>)
    ensures
        claims(token) is Some ==> payload(token) is Some && base64url_decoded(
            payload(token)->0,
        ) is Some && parsed_bytes(base64url_decoded(payload(token)->0)->0) == Ok::<
            JsonV,
            Seq<char>,
        >(claims(token)->0),
        claims(token) is None ==> payload(token) is None || base64url_decoded(
            payload(token)->0,
        ) is None || parsed_bytes(base64url_decoded(payload(token)->0)->0) is Err,
{
}

/// A token says when it expires just where its claims have an integer of 64 bits under `exp`, and
/// to whom it was made out just where they have a text under `sub`.
pub proof fn law_expiry_and_user_are_claims(token: Seq<char>)
    ensures
        expiry(token) is Some <==> claims(token) is Some && claims(token)->0.get("exp"@) is Int
            && -0x8000_0000_0000_0000 <= claims(token)->0.get("exp"@)->Int_0
            <= 0x7fff_ffff_ffff_ffff,
        expiry(token) is Some ==> claims(token)->0.get("exp"@) == JsonV::Int(expiry(token)->0),
        subject(token) is Some <==> claims(token) is Some && claims(token)->0.get("sub"@) is Str,
        subject(token) is Some ==> claims(token)->0.get("sub"@) == JsonV::Str(subject(token)->0),
{
}

/// A token serves just where it has more than two minutes left, or does not say when it expires;
/// one that serves has served all the time before.
pub proof fn law_tokens_serve_until_two_minutes_before_the_end(exp: int, now: int, before: int)
    ensures
        serves(Some(exp), now) <==> exp - now > 120,
        serves(None, now),
        before <= now && serves(Some(exp), now) ==> serves(Some(exp), before),
{
}

/// The user of the account is the one that its token was made out to; without a token there is
/// none.
pub proof fn law_the_user_is_the_one_of_the_token(
    token: &str,
    user: Option<String>,
    nobody: Option<String>,
)
    requires
        call_ensures(current_user_id, (Some(token),), user),
        call_ensures(current_user_id, (None::<&str>,), nobody),
    ensures
        user is Some <==> claims(token@) is Some && claims(token@)->0.get("sub"@) is Str,
        user is Some ==> claims(token@)->0.get("sub"@) == JsonV::Str(user->0@),
        nobody is None,
{
}

} // verus!
