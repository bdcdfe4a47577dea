//! What can go wrong, and the words in which the card says so.

use vstd::prelude::*;

use crate::text::{decimal, decimal_of, occurs, starts_with};

verus! {

#[derive(Clone, Copy, PartialEq, Eq, Structural, Debug)]
pub enum ErrorKind {
    /// The platform has no desktop client.
    Platform,
    /// The encrypted bytes do not start with the version mark.
    Prefix,
    /// A message could not be padded for AES; the detail is the cipher's words.
    Pad,
    /// The AES padding is malformed; the detail is the cipher's words.
    Unpad,
    /// Decrypted bytes are no text; the detail is the decoder's words.
    Utf8,
    /// A text is no JSON; the detail is the parser's words.
    Json,
    /// A text is no base64; the detail is the decoder's words.
    Base64,
    NotGcm,
    GcmOpen,
    GcmSeal,
    /// `Local State` holds no wrapped key.
    NoWrappedKey,
    /// The key is wrapped in an unknown way.
    KeyWrapping,
    KeyLength,
    /// The token file names an unknown encryption, which is the detail.
    StoreEncryption,
    StoreData,
    SessionData,
    /// The server no longer takes the refresh token.
    RefreshDead,
    RefreshStatus(u16),
    RefreshUnreadable,
    RefreshNoToken,
    /// No reply to a refresh; the detail is the transport's words.
    RefreshFailed,
    SignedOut,
    NoRefreshToken,
    /// There is no access token to be used as it is.
    NoStoredToken,
    QuotaUnreadable,
    /// The server no longer takes the access token.
    QuotaExpired,
    QuotaStatus(u16),
    /// No reply to a quota request; the detail is the transport's words.
    QuotaFailed,
    RpcUnreadable,
    /// The server refused a request; the detail is what it said.
    RpcRefused,
    /// No reply to a request; the detail is the transport's words.
    RpcFailed,
    NoTicket,
    NoTokens,
    /// No membership reply; the detail is the transport's words.
    MembershipFailed,
    MembershipUnreadable,
    /// No QR code for the address; the detail is the encoder's words.
    Qr,
    /// The system gives no random bytes.
    NoRandomness,
    /// The keychain could not be asked.
    KeychainRead,
    /// The keychain gives no password for the service that is the detail.
    KeychainDenied,
    /// The keychain could not be asked to take a password.
    KeychainWrite,
    /// The keychain does not take a password.
    KeychainCreate,
    /// Reading, writing or asking the system failed; the detail says how.
    System,
}

#[derive(Debug)]
pub struct AuthError {
    pub kind: ErrorKind,
    pub detail: String,
}

pub struct ErrorV {
    pub kind: ErrorKind,
    pub detail: Seq<char>,
}

impl View for AuthError {
    type V = ErrorV;

    open spec fn view(&self) -> ErrorV {
        ErrorV { kind: self.kind, detail: self.detail@ }
    }
}

/// An error that its kind says all about.
pub open spec fn plain_error(kind: ErrorKind) -> ErrorV {
    ErrorV { kind, detail: Seq::empty() }
}

/// The words of an error: those of its kind, then a number or the detail where it has one.
pub open spec fn error_text(e: ErrorV) -> Seq<char> {
    match e.kind {
        ErrorKind::Platform => "unsupported platform"@,
        ErrorKind::Prefix => "不支持的加密数据前缀"@,
        ErrorKind::Pad => "AES 加密失败: "@ + e.detail,
        ErrorKind::Unpad => "AES 解密失败: "@ + e.detail,
        ErrorKind::NotGcm => "不是有效的 v10 AES-GCM 数据"@,
        ErrorKind::GcmOpen => "AES-GCM 解密失败（密钥不匹配）"@,
        ErrorKind::GcmSeal => "AES-GCM 加密失败"@,
        ErrorKind::NoWrappedKey => "Local State 缺少 os_crypt.encrypted_key"@,
        ErrorKind::KeyWrapping => "未知的 OSCrypt 密钥包装方式"@,
        ErrorKind::KeyLength => "OSCrypt 密钥长度异常"@,
        ErrorKind::StoreEncryption => "未知的令牌加密方式: "@ + e.detail,
        ErrorKind::StoreData => "令牌文件缺少 data 字段"@,
        ErrorKind::SessionData => "会话文件缺少 data 字段"@,
        ErrorKind::RefreshDead => "AUTH_DEAD: 刷新令牌已失效，请重新登录"@,
        ErrorKind::RefreshStatus(code) => "刷新接口返回 "@ + decimal(code as nat),
        ErrorKind::RefreshUnreadable => "刷新接口响应解析失败"@,
        ErrorKind::RefreshNoToken => "刷新接口未返回 access_token"@,
        ErrorKind::RefreshFailed => "刷新接口请求失败: "@ + e.detail,
        ErrorKind::SignedOut => "已退出登录，请重新登录"@,
        ErrorKind::NoRefreshToken => "令牌文件中缺少 refresh_token，请打开 Kimi 客户端登录"@,
        ErrorKind::NoStoredToken => "没有已保存的 access_token，请打开 Kimi 客户端登录"@,
        ErrorKind::QuotaUnreadable => "额度接口响应解析失败"@,
        ErrorKind::QuotaExpired => "AUTH_EXPIRED: 登录已过期"@,
        ErrorKind::QuotaStatus(code) => "额度接口返回 "@ + decimal(code as nat),
        ErrorKind::QuotaFailed => "额度接口请求失败: "@ + e.detail,
        ErrorKind::RpcUnreadable => "认证接口响应解析失败"@,
        ErrorKind::RpcFailed => "认证接口请求失败: "@ + e.detail,
        ErrorKind::NoTicket => "未返回二维码 ticket"@,
        ErrorKind::NoTokens => "登录成功但未返回令牌"@,
        ErrorKind::MembershipFailed => "会员信息请求失败: "@ + e.detail,
        ErrorKind::MembershipUnreadable => "会员信息解析失败"@,
        ErrorKind::NoRandomness => "no random bytes"@,
        ErrorKind::KeychainRead => "无法调用 security 读取钥匙串"@,
        ErrorKind::KeychainDenied => "钥匙串读取被拒绝，请允许访问 \""@ + e.detail + "\""@,
        ErrorKind::KeychainWrite => "无法调用 security 写入钥匙串"@,
        ErrorKind::KeychainCreate => "无法创建会话钥匙串项"@,
        ErrorKind::Utf8
        | ErrorKind::Json
        | ErrorKind::Base64
        | ErrorKind::RpcRefused
        | ErrorKind::Qr
        | ErrorKind::System => e.detail,
    }
}

fn joined(head: &str, tail: &str) -> (r: String)
    ensures
        r@ == head@ + tail@,
{
    let mut s: String = head.to_owned();
    s.append(tail);
    s
}

impl AuthError {
    pub fn new(kind: ErrorKind) -> (r: AuthError)
        ensures
            r@ == plain_error(kind),
    {
        AuthError { kind, detail: String::new() }
    }

    pub fn with(kind: ErrorKind, detail: String) -> (r: AuthError)
        ensures
            r@ == (ErrorV { kind, detail: detail@ }),
    {
        AuthError { kind, detail }
    }

    /// The words of the error.
    pub fn message(&self) -> (r: String)
        ensures
            r@ == error_text(self@),
    {
        let detail: &str = self.detail.as_str();
        match self.kind {
            ErrorKind::Platform => "unsupported platform".to_owned(),
            ErrorKind::Prefix => "不支持的加密数据前缀".to_owned(),
            ErrorKind::Pad => joined("AES 加密失败: ", detail),
            ErrorKind::Unpad => joined("AES 解密失败: ", detail),
            ErrorKind::NotGcm => "不是有效的 v10 AES-GCM 数据".to_owned(),
            ErrorKind::GcmOpen => "AES-GCM 解密失败（密钥不匹配）".to_owned(),
            ErrorKind::GcmSeal => "AES-GCM 加密失败".to_owned(),
            ErrorKind::NoWrappedKey => "Local State 缺少 os_crypt.encrypted_key".to_owned(),
            ErrorKind::KeyWrapping => "未知的 OSCrypt 密钥包装方式".to_owned(),
            ErrorKind::KeyLength => "OSCrypt 密钥长度异常".to_owned(),
            ErrorKind::StoreEncryption => joined("未知的令牌加密方式: ", detail),
            ErrorKind::StoreData => "令牌文件缺少 data 字段".to_owned(),
            ErrorKind::SessionData => "会话文件缺少 data 字段".to_owned(),
            ErrorKind::RefreshDead => "AUTH_DEAD: 刷新令牌已失效，请重新登录".to_owned(),
            ErrorKind::RefreshStatus(code) => joined(
                "刷新接口返回 ",
                decimal_of(code as u64).as_str(),
            ),
            ErrorKind::RefreshUnreadable => "刷新接口响应解析失败".to_owned(),
            ErrorKind::RefreshNoToken => "刷新接口未返回 access_token".to_owned(),
            ErrorKind::RefreshFailed => joined("刷新接口请求失败: ", detail),
            ErrorKind::SignedOut => "已退出登录，请重新登录".to_owned(),
            ErrorKind::NoRefreshToken =>
                "令牌文件中缺少 refresh_token，请打开 Kimi 客户端登录".to_owned(),
            ErrorKind::NoStoredToken =>
                "没有已保存的 access_token，请打开 Kimi 客户端登录".to_owned(),
            ErrorKind::QuotaUnreadable => "额度接口响应解析失败".to_owned(),
            ErrorKind::QuotaExpired => "AUTH_EXPIRED: 登录已过期".to_owned(),
            ErrorKind::QuotaStatus(code) => joined(
                "额度接口返回 ",
                decimal_of(code as u64).as_str(),
            ),
            ErrorKind::QuotaFailed => joined("额度接口请求失败: ", detail),
            ErrorKind::RpcUnreadable => "认证接口响应解析失败".to_owned(),
            ErrorKind::RpcFailed => joined("认证接口请求失败: ", detail),
            ErrorKind::NoTicket => "未返回二维码 ticket".to_owned(),
            ErrorKind::NoTokens => "登录成功但未返回令牌".to_owned(),
            ErrorKind::MembershipFailed => joined("会员信息请求失败: ", detail),
            ErrorKind::MembershipUnreadable => "会员信息解析失败".to_owned(),
            ErrorKind::NoRandomness => "no random bytes".to_owned(),
            ErrorKind::KeychainRead => "无法调用 security 读取钥匙串".to_owned(),
            ErrorKind::KeychainDenied => joined(
                joined("钥匙串读取被拒绝，请允许访问 \"", detail).as_str(),
                "\"",
            ),
            ErrorKind::KeychainWrite => "无法调用 security 写入钥匙串".to_owned(),
            ErrorKind::KeychainCreate => "无法创建会话钥匙串项".to_owned(),
            ErrorKind::Utf8
            | ErrorKind::Json
            | ErrorKind::Base64
            | ErrorKind::RpcRefused
            | ErrorKind::Qr
            | ErrorKind::System => detail.to_owned(),
        }
    }
}

/// A message without the marks that only steer the retries: every one that it starts with is
/// taken off, whichever comes first.
pub open spec fn cleaned(message: Seq<char>) -> Seq<char>
    decreases message.len(),
    via cleaned_shrinks
{
    if "AUTH_DEAD: "@.is_prefix_of(message) {
        cleaned(message.skip("AUTH_DEAD: "@.len() as int))
    } else if "AUTH_EXPIRED: "@.is_prefix_of(message) {
        cleaned(message.skip("AUTH_EXPIRED: "@.len() as int))
    } else {
        message
    }
}

#[via_fn]
proof fn cleaned_shrinks(message: Seq<char>) {
    reveal_strlit("AUTH_DEAD: ");
    reveal_strlit("AUTH_EXPIRED: ");
}

/// Strips the marks that only steer the retries, before a message reaches the card.
pub fn clean_error(msg: &str) -> (r: String)
    ensures
        r@ == cleaned(msg@),
{
    let mut rest: &str = msg;
    let dead: usize = "AUTH_DEAD: ".unicode_len();
    let expired: usize = "AUTH_EXPIRED: ".unicode_len();
    proof {
        reveal_strlit("AUTH_DEAD: ");
        reveal_strlit("AUTH_EXPIRED: ");
    }
    loop
        invariant
            dead == "AUTH_DEAD: "@.len(),
            expired == "AUTH_EXPIRED: "@.len(),
            dead > 0,
            expired > 0,
            cleaned(rest@) == cleaned(msg@),
        decreases rest@.len(),
    {
        let len: usize = rest.unicode_len();
        let n: usize = if starts_with(rest, "AUTH_DEAD: ") {
            dead
        } else if starts_with(rest, "AUTH_EXPIRED: ") {
            expired
        } else {
            return rest.to_owned();
        };
        assert(rest@.subrange(n as int, len as int) == rest@.skip(n as int));
        rest = rest.substring_char(n, len);
    }
}

/// No mark reaches the card, whichever marks a message starts with and in whatever order; what
/// reaches it is the end of the message.
pub proof fn law_no_mark_is_left(message: Seq<char>)
    ensures
        !"AUTH_DEAD: "@.is_prefix_of(cleaned(message)),
        !"AUTH_EXPIRED: "@.is_prefix_of(cleaned(message)),
        cleaned(message).is_suffix_of(message),
    decreases message.len(),
{
    reveal_strlit("AUTH_DEAD: ");
    reveal_strlit("AUTH_EXPIRED: ");
    let n: int = if "AUTH_DEAD: "@.is_prefix_of(message) {
        "AUTH_DEAD: "@.len() as int
    } else if "AUTH_EXPIRED: "@.is_prefix_of(message) {
        "AUTH_EXPIRED: "@.len() as int
    } else {
        0
    };
    if n > 0 {
        let rest = message.skip(n);
        law_no_mark_is_left(rest);
        let end = cleaned(rest);
        assert(rest.subrange(rest.len() - end.len(), rest.len() as int) =~= message.subrange(
            message.len() - end.len(),
            message.len() as int,
        ));
    } else {
        assert(message.subrange(0, message.len() as int) =~= message);
    }
}

/// Cleaning a clean message changes nothing.
pub proof fn law_cleaning_twice_is_cleaning_once(message: Seq<char>)
    ensures
        cleaned(cleaned(message)) == cleaned(message),
{
    law_no_mark_is_left(message);
}

/// A message loses the mark that it starts with, and one without a mark stays as it is.
pub proof fn law_marks_are_stripped(rest: Seq<char>)
    ensures
        cleaned("AUTH_DEAD: "@ + rest) == cleaned(rest),
        cleaned("AUTH_EXPIRED: "@ + rest) == cleaned(rest),
        !"AUTH_DEAD: "@.is_prefix_of(rest) && !"AUTH_EXPIRED: "@.is_prefix_of(rest) ==> cleaned(
            rest,
        ) == rest,
{
    let dead = "AUTH_DEAD: "@;
    let expired = "AUTH_EXPIRED: "@;
    reveal_strlit("AUTH_DEAD: ");
    reveal_strlit("AUTH_EXPIRED: ");
    assert((dead + rest).subrange(0, dead.len() as int) =~= dead);
    assert((expired + rest).subrange(0, expired.len() as int) =~= expired);
    assert((dead + rest).skip(dead.len() as int) =~= rest);
    assert((expired + rest).skip(expired.len() as int) =~= rest);
    assert(!dead.is_prefix_of(expired + rest)) by {
        if dead.is_prefix_of(expired + rest) {
            assert(dead[5] == (expired + rest).subrange(0, dead.len() as int)[5]);
        }
    }
}

/// The words of an error that tells a status end in its number, and those of one that has a detail
/// hold it as it is: behind words of their own, in quotes, or alone.
pub proof fn law_words_tell_number_and_detail(code: u16, detail: Seq<char>)
    ensures
        error_text(ErrorV { kind: ErrorKind::RefreshStatus(code), detail }) == "刷新接口返回 "@
            + decimal(code as nat),
        error_text(ErrorV { kind: ErrorKind::QuotaStatus(code), detail }) == "额度接口返回 "@
            + decimal(code as nat),
        error_text(ErrorV { kind: ErrorKind::Pad, detail }) == "AES 加密失败: "@ + detail,
        error_text(ErrorV { kind: ErrorKind::Unpad, detail }) == "AES 解密失败: "@ + detail,
        error_text(ErrorV { kind: ErrorKind::StoreEncryption, detail }) == "未知的令牌加密方式: "@
            + detail,
        error_text(ErrorV { kind: ErrorKind::RefreshFailed, detail }) == "刷新接口请求失败: "@
            + detail,
        error_text(ErrorV { kind: ErrorKind::QuotaFailed, detail }) == "额度接口请求失败: "@
            + detail,
        error_text(ErrorV { kind: ErrorKind::RpcFailed, detail }) == "认证接口请求失败: "@ + detail,
        error_text(ErrorV { kind: ErrorKind::MembershipFailed, detail }) == "会员信息请求失败: "@
            + detail,
        error_text(ErrorV { kind: ErrorKind::KeychainDenied, detail })
            == "钥匙串读取被拒绝，请允许访问 \""@ + detail + "\""@,
        error_text(ErrorV { kind: ErrorKind::Utf8, detail }) == detail,
        error_text(ErrorV { kind: ErrorKind::Json, detail }) == detail,
        error_text(ErrorV { kind: ErrorKind::Base64, detail }) == detail,
        error_text(ErrorV { kind: ErrorKind::RpcRefused, detail }) == detail,
        error_text(ErrorV { kind: ErrorKind::Qr, detail }) == detail,
        error_text(ErrorV { kind: ErrorKind::System, detail }) == detail,
{
}

/// Whether an error's kind is one of the refresh endpoint's, which do not say that the token is
/// dead.
pub open spec fn of_refresh(kind: ErrorKind) -> bool {
    kind is RefreshStatus || kind == ErrorKind::RefreshUnreadable || kind
        == ErrorKind::RefreshNoToken || kind == ErrorKind::RefreshFailed
}

/// Whether an error's kind is one of the quota endpoint's, which do not say that the token has
/// expired.
pub open spec fn of_quota(kind: ErrorKind) -> bool {
    kind is QuotaStatus || kind == ErrorKind::QuotaUnreadable || kind == ErrorKind::QuotaFailed
}

/// The words of an error say which endpoint it came from, and only a dead and an expired token
/// are marked as such.
pub proof fn law_words_tell_the_endpoint(e: ErrorV)
    ensures
        of_refresh(e.kind) ==> "刷新接口"@.is_prefix_of(error_text(e)),
        of_quota(e.kind) ==> "额度接口"@.is_prefix_of(error_text(e)),
        e.kind == ErrorKind::RpcUnreadable || e.kind == ErrorKind::RpcFailed
            ==> "认证接口"@.is_prefix_of(error_text(e)),
        e.kind == ErrorKind::MembershipUnreadable || e.kind == ErrorKind::MembershipFailed
            ==> "会员信息"@.is_prefix_of(error_text(e)),
        e.kind == ErrorKind::RefreshDead ==> "AUTH_DEAD: "@.is_prefix_of(error_text(e)),
        e.kind == ErrorKind::QuotaExpired ==> "AUTH_EXPIRED: "@.is_prefix_of(error_text(e)),
{
    reveal_strlit("刷新接口");
    reveal_strlit("额度接口");
    reveal_strlit("认证接口");
    reveal_strlit("会员信息");
    reveal_strlit("AUTH_DEAD: ");
    reveal_strlit("AUTH_EXPIRED: ");
    reveal_strlit("刷新接口返回 ");
    reveal_strlit("刷新接口响应解析失败");
    reveal_strlit("刷新接口未返回 access_token");
    reveal_strlit("刷新接口请求失败: ");
    reveal_strlit("额度接口响应解析失败");
    reveal_strlit("额度接口返回 ");
    reveal_strlit("额度接口请求失败: ");
    reveal_strlit("认证接口响应解析失败");
    reveal_strlit("认证接口请求失败: ");
    reveal_strlit("会员信息解析失败");
    reveal_strlit("会员信息请求失败: ");
    reveal_strlit("AUTH_DEAD: 刷新令牌已失效，请重新登录");
    reveal_strlit("AUTH_EXPIRED: 登录已过期");
    let t = error_text(e);
    if of_refresh(e.kind) {
        assert(t.subrange(0, 4) =~= "刷新接口"@);
    } else if of_quota(e.kind) {
        assert(t.subrange(0, 4) =~= "额度接口"@);
    } else if e.kind == ErrorKind::RpcUnreadable || e.kind == ErrorKind::RpcFailed {
        assert(t.subrange(0, 4) =~= "认证接口"@);
    } else if e.kind == ErrorKind::MembershipUnreadable || e.kind == ErrorKind::MembershipFailed {
        assert(t.subrange(0, 4) =~= "会员信息"@);
    } else if e.kind == ErrorKind::RefreshDead {
        assert(t.subrange(0, 11) =~= "AUTH_DEAD: "@);
    } else if e.kind == ErrorKind::QuotaExpired {
        assert(t.subrange(0, 14) =~= "AUTH_EXPIRED: "@);
    }
}

/// Whether an error's kind says all about it: no number and no detail belongs to it.
pub open spec fn says_all(kind: ErrorKind) -> bool {
    match kind {
        ErrorKind::Platform => true,
        ErrorKind::Prefix => true,
        ErrorKind::NotGcm => true,
        ErrorKind::GcmOpen => true,
        ErrorKind::GcmSeal => true,
        ErrorKind::NoWrappedKey => true,
        ErrorKind::KeyWrapping => true,
        ErrorKind::KeyLength => true,
        ErrorKind::StoreData => true,
        ErrorKind::SessionData => true,
        ErrorKind::RefreshDead => true,
        ErrorKind::RefreshUnreadable => true,
        ErrorKind::RefreshNoToken => true,
        ErrorKind::SignedOut => true,
        ErrorKind::NoRefreshToken => true,
        ErrorKind::NoStoredToken => true,
        ErrorKind::QuotaUnreadable => true,
        ErrorKind::QuotaExpired => true,
        ErrorKind::RpcUnreadable => true,
        ErrorKind::NoTicket => true,
        ErrorKind::NoTokens => true,
        ErrorKind::MembershipUnreadable => true,
        ErrorKind::NoRandomness => true,
        ErrorKind::KeychainRead => true,
        ErrorKind::KeychainWrite => true,
        ErrorKind::KeychainCreate => true,
        _ => false,
    }
}

/// Where its kind says all about an error, the words do not depend on the detail, and no two kinds
/// have the same words.
#[verifier::spinoff_prover]
#[verifier::rlimit(40)]
pub proof fn law_words_tell_the_kind(a: ErrorV, b: ErrorV)
    requires
        says_all(a.kind),
        says_all(b.kind),
    ensures
        error_text(a) == error_text(b) <==> a.kind == b.kind,
{
    reveal_strlit("unsupported platform");
    assert("unsupported platform"@.len() == 20);
    assert("unsupported platform"@[0] == 'u');
    reveal_strlit("不支持的加密数据前缀");
    assert("不支持的加密数据前缀"@.len() == 10);
    assert("不支持的加密数据前缀"@[0] == '不');
    reveal_strlit("不是有效的 v10 AES-GCM 数据");
    assert("不是有效的 v10 AES-GCM 数据"@.len() == 20);
    assert("不是有效的 v10 AES-GCM 数据"@[0] == '不');
    reveal_strlit("AES-GCM 解密失败（密钥不匹配）");
    assert("AES-GCM 解密失败（密钥不匹配）"@.len() == 19);
    assert("AES-GCM 解密失败（密钥不匹配）"@[0] == 'A');
    assert("AES-GCM 解密失败（密钥不匹配）"@[1] == 'E');
    reveal_strlit("AES-GCM 加密失败");
    assert("AES-GCM 加密失败"@.len() == 12);
    reveal_strlit("Local State 缺少 os_crypt.encrypted_key");
    assert("Local State 缺少 os_crypt.encrypted_key"@.len() == 37);
    reveal_strlit("未知的 OSCrypt 密钥包装方式");
    assert("未知的 OSCrypt 密钥包装方式"@.len() == 18);
    reveal_strlit("OSCrypt 密钥长度异常");
    assert("OSCrypt 密钥长度异常"@.len() == 14);
    assert("OSCrypt 密钥长度异常"@[0] == 'O');
    reveal_strlit("令牌文件缺少 data 字段");
    assert("令牌文件缺少 data 字段"@.len() == 14);
    assert("令牌文件缺少 data 字段"@[0] == '令');
    reveal_strlit("会话文件缺少 data 字段");
    assert("会话文件缺少 data 字段"@.len() == 14);
    assert("会话文件缺少 data 字段"@[0] == '会');
    reveal_strlit("AUTH_DEAD: 刷新令牌已失效，请重新登录");
    assert("AUTH_DEAD: 刷新令牌已失效，请重新登录"@.len() == 24);
    reveal_strlit("刷新接口响应解析失败");
    assert("刷新接口响应解析失败"@.len() == 10);
    assert("刷新接口响应解析失败"@[0] == '刷');
    reveal_strlit("刷新接口未返回 access_token");
    assert("刷新接口未返回 access_token"@.len() == 20);
    assert("刷新接口未返回 access_token"@[0] == '刷');
    reveal_strlit("已退出登录，请重新登录");
    assert("已退出登录，请重新登录"@.len() == 11);
    reveal_strlit("令牌文件中缺少 refresh_token，请打开 Kimi 客户端登录");
    assert("令牌文件中缺少 refresh_token，请打开 Kimi 客户端登录"@.len() == 36);
    reveal_strlit("没有已保存的 access_token，请打开 Kimi 客户端登录");
    assert("没有已保存的 access_token，请打开 Kimi 客户端登录"@.len() == 34);
    reveal_strlit("额度接口响应解析失败");
    assert("额度接口响应解析失败"@.len() == 10);
    assert("额度接口响应解析失败"@[0] == '额');
    reveal_strlit("AUTH_EXPIRED: 登录已过期");
    assert("AUTH_EXPIRED: 登录已过期"@.len() == 19);
    assert("AUTH_EXPIRED: 登录已过期"@[0] == 'A');
    assert("AUTH_EXPIRED: 登录已过期"@[1] == 'U');
    reveal_strlit("认证接口响应解析失败");
    assert("认证接口响应解析失败"@.len() == 10);
    assert("认证接口响应解析失败"@[0] == '认');
    reveal_strlit("未返回二维码 ticket");
    assert("未返回二维码 ticket"@.len() == 13);
    reveal_strlit("登录成功但未返回令牌");
    assert("登录成功但未返回令牌"@.len() == 10);
    assert("登录成功但未返回令牌"@[0] == '登');
    reveal_strlit("会员信息解析失败");
    assert("会员信息解析失败"@.len() == 8);
    reveal_strlit("no random bytes");
    assert("no random bytes"@.len() == 15);
    reveal_strlit("无法调用 security 读取钥匙串");
    assert("无法调用 security 读取钥匙串"@.len() == 19);
    assert("无法调用 security 读取钥匙串"@[0] == '无');
    assert("无法调用 security 读取钥匙串"@[14] == '读');
    reveal_strlit("无法调用 security 写入钥匙串");
    assert("无法调用 security 写入钥匙串"@.len() == 19);
    assert("无法调用 security 写入钥匙串"@[0] == '无');
    assert("无法调用 security 写入钥匙串"@[14] == '写');
    reveal_strlit("无法创建会话钥匙串项");
    assert("无法创建会话钥匙串项"@.len() == 10);
    assert("无法创建会话钥匙串项"@[0] == '无');
    let s = error_text(a);
    let t = error_text(b);
    if a.kind != b.kind && s == t {
        assert(s.len() == t.len());
    }
}

/// The words of a status tell its number: two of one endpoint are the same only for one status.
pub proof fn law_words_tell_the_status(a: u16, b: u16, detail: Seq<char>)
    ensures
        error_text(ErrorV { kind: ErrorKind::RefreshStatus(a), detail }) == error_text(
            ErrorV { kind: ErrorKind::RefreshStatus(b), detail },
        ) ==> a == b,
        error_text(ErrorV { kind: ErrorKind::QuotaStatus(a), detail }) == error_text(
            ErrorV { kind: ErrorKind::QuotaStatus(b), detail },
        ) ==> a == b,
{
    crate::text::law_numbers_are_read_back(a as nat);
    crate::text::law_numbers_are_read_back(b as nat);
    lemma_same_tail("刷新接口返回 "@, decimal(a as nat), decimal(b as nat));
    lemma_same_tail("额度接口返回 "@, decimal(a as nat), decimal(b as nat));
}

proof fn lemma_same_tail(head: Seq<char>, x: Seq<char>, y: Seq<char>)
    ensures
        head + x == head + y ==> x == y,
{
    if head + x == head + y {
        assert((head + x).skip(head.len() as int) =~= x);
        assert((head + y).skip(head.len() as int) =~= y);
    }
}

proof fn lemma_part(needle: Seq<char>, s: Seq<char>, at: int)
    requires
        0 <= at <= s.len() - needle.len(),
        s.subrange(at, at + needle.len()) == needle,
    ensures
        occurs(needle, s),
{
}

/// The words of an error name what is missing or what went wrong, whatever the detail.
#[verifier::spinoff_prover]
#[verifier::rlimit(40)]
pub proof fn law_words_name_what_went_wrong(detail: Seq<char>)
    ensures
        occurs("refresh_token"@, error_text(ErrorV { kind: ErrorKind::NoRefreshToken, detail })),
        occurs("请打开 Kimi 客户端登录"@, error_text(ErrorV { kind: ErrorKind::NoRefreshToken, detail })),
        occurs("access_token"@, error_text(ErrorV { kind: ErrorKind::NoStoredToken, detail })),
        occurs("请打开 Kimi 客户端登录"@, error_text(ErrorV { kind: ErrorKind::NoStoredToken, detail })),
        occurs("access_token"@, error_text(ErrorV { kind: ErrorKind::RefreshNoToken, detail })),
        occurs("os_crypt.encrypted_key"@, error_text(ErrorV { kind: ErrorKind::NoWrappedKey, detail })),
        occurs("data"@, error_text(ErrorV { kind: ErrorKind::StoreData, detail })),
        occurs("data"@, error_text(ErrorV { kind: ErrorKind::SessionData, detail })),
        occurs("令牌文件"@, error_text(ErrorV { kind: ErrorKind::StoreData, detail })),
        occurs("会话文件"@, error_text(ErrorV { kind: ErrorKind::SessionData, detail })),
        occurs("ticket"@, error_text(ErrorV { kind: ErrorKind::NoTicket, detail })),
        occurs("令牌"@, error_text(ErrorV { kind: ErrorKind::NoTokens, detail })),
        occurs("重新登录"@, error_text(ErrorV { kind: ErrorKind::SignedOut, detail })),
        occurs("已退出登录"@, error_text(ErrorV { kind: ErrorKind::SignedOut, detail })),
        occurs("重新登录"@, error_text(ErrorV { kind: ErrorKind::RefreshDead, detail })),
        occurs("登录已过期"@, error_text(ErrorV { kind: ErrorKind::QuotaExpired, detail })),
        occurs("security 读取"@, error_text(ErrorV { kind: ErrorKind::KeychainRead, detail })),
        occurs("security 写入"@, error_text(ErrorV { kind: ErrorKind::KeychainWrite, detail })),
        occurs("密钥长度"@, error_text(ErrorV { kind: ErrorKind::KeyLength, detail })),
        occurs("密钥包装"@, error_text(ErrorV { kind: ErrorKind::KeyWrapping, detail })),
        occurs("前缀"@, error_text(ErrorV { kind: ErrorKind::Prefix, detail })),
        occurs("v10 AES-GCM"@, error_text(ErrorV { kind: ErrorKind::NotGcm, detail })),
        occurs("解密失败"@, error_text(ErrorV { kind: ErrorKind::GcmOpen, detail })),
        occurs("加密失败"@, error_text(ErrorV { kind: ErrorKind::GcmSeal, detail })),
        occurs("无法创建会话钥匙串项"@, error_text(ErrorV { kind: ErrorKind::KeychainCreate, detail })),
        occurs("unsupported platform"@, error_text(ErrorV { kind: ErrorKind::Platform, detail })),
        occurs("no random bytes"@, error_text(ErrorV { kind: ErrorKind::NoRandomness, detail })),
{
    reveal_strlit("令牌文件中缺少 refresh_token，请打开 Kimi 客户端登录");
    reveal_strlit("refresh_token");
    reveal_strlit("请打开 Kimi 客户端登录");
    reveal_strlit("没有已保存的 access_token，请打开 Kimi 客户端登录");
    reveal_strlit("access_token");
    reveal_strlit("刷新接口未返回 access_token");
    reveal_strlit("Local State 缺少 os_crypt.encrypted_key");
    reveal_strlit("os_crypt.encrypted_key");
    reveal_strlit("令牌文件缺少 data 字段");
    reveal_strlit("data");
    reveal_strlit("会话文件缺少 data 字段");
    reveal_strlit("令牌文件");
    reveal_strlit("会话文件");
    reveal_strlit("未返回二维码 ticket");
    reveal_strlit("ticket");
    reveal_strlit("登录成功但未返回令牌");
    reveal_strlit("令牌");
    reveal_strlit("已退出登录，请重新登录");
    reveal_strlit("重新登录");
    reveal_strlit("已退出登录");
    reveal_strlit("AUTH_DEAD: 刷新令牌已失效，请重新登录");
    reveal_strlit("AUTH_EXPIRED: 登录已过期");
    reveal_strlit("登录已过期");
    reveal_strlit("无法调用 security 读取钥匙串");
    reveal_strlit("security 读取");
    reveal_strlit("无法调用 security 写入钥匙串");
    reveal_strlit("security 写入");
    reveal_strlit("OSCrypt 密钥长度异常");
    reveal_strlit("密钥长度");
    reveal_strlit("未知的 OSCrypt 密钥包装方式");
    reveal_strlit("密钥包装");
    reveal_strlit("不支持的加密数据前缀");
    reveal_strlit("前缀");
    reveal_strlit("不是有效的 v10 AES-GCM 数据");
    reveal_strlit("v10 AES-GCM");
    reveal_strlit("AES-GCM 解密失败（密钥不匹配）");
    reveal_strlit("解密失败");
    reveal_strlit("AES-GCM 加密失败");
    reveal_strlit("加密失败");
    reveal_strlit("无法创建会话钥匙串项");
    reveal_strlit("unsupported platform");
    reveal_strlit("no random bytes");
    assert("令牌文件中缺少 refresh_token，请打开 Kimi 客户端登录"@.subrange(8, 21) =~= "refresh_token"@);
    lemma_part("refresh_token"@, "令牌文件中缺少 refresh_token，请打开 Kimi 客户端登录"@, 8);
    assert("令牌文件中缺少 refresh_token，请打开 Kimi 客户端登录"@.subrange(22, 36) =~= "请打开 Kimi 客户端登录"@);
    lemma_part("请打开 Kimi 客户端登录"@, "令牌文件中缺少 refresh_token，请打开 Kimi 客户端登录"@, 22);
    assert("没有已保存的 access_token，请打开 Kimi 客户端登录"@.subrange(7, 19) =~= "access_token"@);
    lemma_part("access_token"@, "没有已保存的 access_token，请打开 Kimi 客户端登录"@, 7);
    assert("没有已保存的 access_token，请打开 Kimi 客户端登录"@.subrange(20, 34) =~= "请打开 Kimi 客户端登录"@);
    lemma_part("请打开 Kimi 客户端登录"@, "没有已保存的 access_token，请打开 Kimi 客户端登录"@, 20);
    assert("刷新接口未返回 access_token"@.subrange(8, 20) =~= "access_token"@);
    lemma_part("access_token"@, "刷新接口未返回 access_token"@, 8);
    assert("Local State 缺少 os_crypt.encrypted_key"@.subrange(15, 37) =~= "os_crypt.encrypted_key"@);
    lemma_part("os_crypt.encrypted_key"@, "Local State 缺少 os_crypt.encrypted_key"@, 15);
    assert("令牌文件缺少 data 字段"@.subrange(7, 11) =~= "data"@);
    lemma_part("data"@, "令牌文件缺少 data 字段"@, 7);
    assert("会话文件缺少 data 字段"@.subrange(7, 11) =~= "data"@);
    lemma_part("data"@, "会话文件缺少 data 字段"@, 7);
    assert("令牌文件缺少 data 字段"@.subrange(0, 4) =~= "令牌文件"@);
    lemma_part("令牌文件"@, "令牌文件缺少 data 字段"@, 0);
    assert("会话文件缺少 data 字段"@.subrange(0, 4) =~= "会话文件"@);
    lemma_part("会话文件"@, "会话文件缺少 data 字段"@, 0);
    assert("未返回二维码 ticket"@.subrange(7, 13) =~= "ticket"@);
    lemma_part("ticket"@, "未返回二维码 ticket"@, 7);
    assert("登录成功但未返回令牌"@.subrange(8, 10) =~= "令牌"@);
    lemma_part("令牌"@, "登录成功但未返回令牌"@, 8);
    assert("已退出登录，请重新登录"@.subrange(7, 11) =~= "重新登录"@);
    lemma_part("重新登录"@, "已退出登录，请重新登录"@, 7);
    assert("已退出登录，请重新登录"@.subrange(0, 5) =~= "已退出登录"@);
    lemma_part("已退出登录"@, "已退出登录，请重新登录"@, 0);
    assert("AUTH_DEAD: 刷新令牌已失效，请重新登录"@.subrange(20, 24) =~= "重新登录"@);
    lemma_part("重新登录"@, "AUTH_DEAD: 刷新令牌已失效，请重新登录"@, 20);
    assert("AUTH_EXPIRED: 登录已过期"@.subrange(14, 19) =~= "登录已过期"@);
    lemma_part("登录已过期"@, "AUTH_EXPIRED: 登录已过期"@, 14);
    assert("无法调用 security 读取钥匙串"@.subrange(5, 16) =~= "security 读取"@);
    lemma_part("security 读取"@, "无法调用 security 读取钥匙串"@, 5);
    assert("无法调用 security 写入钥匙串"@.subrange(5, 16) =~= "security 写入"@);
    lemma_part("security 写入"@, "无法调用 security 写入钥匙串"@, 5);
    assert("OSCrypt 密钥长度异常"@.subrange(8, 12) =~= "密钥长度"@);
    lemma_part("密钥长度"@, "OSCrypt 密钥长度异常"@, 8);
    assert("未知的 OSCrypt 密钥包装方式"@.subrange(12, 16) =~= "密钥包装"@);
    lemma_part("密钥包装"@, "未知的 OSCrypt 密钥包装方式"@, 12);
    assert("不支持的加密数据前缀"@.subrange(8, 10) =~= "前缀"@);
    lemma_part("前缀"@, "不支持的加密数据前缀"@, 8);
    assert("不是有效的 v10 AES-GCM 数据"@.subrange(6, 17) =~= "v10 AES-GCM"@);
    lemma_part("v10 AES-GCM"@, "不是有效的 v10 AES-GCM 数据"@, 6);
    assert("AES-GCM 解密失败（密钥不匹配）"@.subrange(8, 12) =~= "解密失败"@);
    lemma_part("解密失败"@, "AES-GCM 解密失败（密钥不匹配）"@, 8);
    assert("AES-GCM 加密失败"@.subrange(8, 12) =~= "加密失败"@);
    lemma_part("加密失败"@, "AES-GCM 加密失败"@, 8);
    assert("无法创建会话钥匙串项"@.subrange(0, 10) =~= "无法创建会话钥匙串项"@);
    lemma_part("无法创建会话钥匙串项"@, "无法创建会话钥匙串项"@, 0);
    assert("unsupported platform"@.subrange(0, 20) =~= "unsupported platform"@);
    lemma_part("unsupported platform"@, "unsupported platform"@, 0);
    assert("no random bytes"@.subrange(0, 15) =~= "no random bytes"@);
    lemma_part("no random bytes"@, "no random bytes"@, 0);
}

} // verus!
