use kimi_quota_bar::error::{clean_error, AuthError, ErrorKind};
use kimi_quota_bar::text::{
    chars_of, contains_text, decimal_of, hex_of, parse_i64, same_bytes, same_text, starts_with,
    text_of, trim, trim_end,
};

fn words(kind: ErrorKind) -> String {
    AuthError::new(kind).message()
}

fn words_with(kind: ErrorKind, detail: &str) -> String {
    AuthError::with(kind, detail.to_string()).message()
}

#[test]
fn texts_are_taken_apart_and_put_together() {
    assert_eq!(chars_of("aé字"), vec!['a', 'é', '字']);
    assert_eq!(text_of(&['a', 'é', '字']), "aé字");
    assert!(same_bytes(&[1, 2], &[1, 2]));
    assert!(!same_bytes(&[1, 2], &[1, 3]));
    assert!(!same_bytes(&[1, 2], &[1]));
    assert!(same_text("额度", "额度"));
    assert!(!same_text("额度", "额"));
}

#[test]
fn prefixes_are_found() {
    assert!(starts_with("safeStorage.v1", "safeStorage"));
    assert!(!starts_with("safe", "safeStorage"));
    assert!(starts_with("x", ""));
}

#[test]
fn a_part_of_a_text_is_found_anywhere() {
    assert!(contains_text("xx unauthenticated", "unauthenticated"));
    assert!(contains_text("aab", "ab"));
    assert!(contains_text("a", ""));
    assert!(!contains_text("unauthenticate", "unauthenticated"));
}

#[test]
fn white_space_is_trimmed() {
    assert_eq!(trim(" \t\u{3000}a b\u{a0}\n"), "a b");
    assert_eq!(trim("   "), "");
    assert_eq!(trim_end("  key\r\n"), "  key");
    assert_eq!(trim("\u{200b}x"), "\u{200b}x");
}

#[test]
fn numbers_are_written() {
    assert_eq!(decimal_of(0), "0");
    assert_eq!(decimal_of(1007), "1007");
    assert_eq!(decimal_of(u64::MAX), "18446744073709551615");
    assert_eq!(hex_of(&[0x00, 0x0f, 0xa7, 0xff]), "000fa7ff");
}

#[test]
fn numbers_are_read() {
    assert_eq!(parse_i64("200"), Some(200));
    assert_eq!(parse_i64("+7"), Some(7));
    assert_eq!(parse_i64("-0"), Some(0));
    assert_eq!(parse_i64("9223372036854775807"), Some(i64::MAX));
    assert_eq!(parse_i64("9223372036854775808"), None);
    assert_eq!(parse_i64("-9223372036854775808"), Some(i64::MIN));
    assert_eq!(parse_i64("-9223372036854775809"), None);
    for bad in ["", "+", "-", "1 ", "1.0", "--1", "x"] {
        assert_eq!(parse_i64(bad), None);
    }
}

#[test]
fn marks_do_not_reach_the_card() {
    assert_eq!(clean_error("AUTH_DEAD: 刷新令牌已失效，请重新登录"), "刷新令牌已失效，请重新登录");
    assert_eq!(clean_error("AUTH_EXPIRED: 登录已过期"), "登录已过期");
    assert_eq!(clean_error("额度接口返回 500"), "额度接口返回 500");
    assert_eq!(clean_error("AUTH_DEAD: AUTH_DEAD: AUTH_EXPIRED: x"), "x");
    assert_eq!(clean_error("AUTH_EXPIRED: AUTH_DEAD: x"), "x");
    assert_eq!(clean_error("AUTH_EXPIRED: AUTH_DEAD: AUTH_EXPIRED: "), "");
    assert_eq!(clean_error("AUTH_DEAD:x AUTH_DEAD: y"), "AUTH_DEAD:x AUTH_DEAD: y");
}

#[test]
fn cleaning_twice_is_cleaning_once() {
    for msg in ["AUTH_EXPIRED: AUTH_DEAD: x", "AUTH_DEAD: AUTH_EXPIRED: y", "z", ""] {
        let once = clean_error(msg);
        assert_eq!(clean_error(&once), once);
        assert!(msg.ends_with(&once));
        assert!(!once.starts_with("AUTH_DEAD: ") && !once.starts_with("AUTH_EXPIRED: "));
    }
}

#[test]
fn every_error_has_its_words() {
    assert_eq!(words(ErrorKind::Platform), "unsupported platform");
    assert_eq!(words(ErrorKind::Prefix), "不支持的加密数据前缀");
    assert_eq!(words_with(ErrorKind::Pad, "d"), "AES 加密失败: d");
    assert_eq!(words_with(ErrorKind::Unpad, "d"), "AES 解密失败: d");
    assert_eq!(words_with(ErrorKind::Utf8, "d"), "d");
    assert_eq!(words_with(ErrorKind::Json, "d"), "d");
    assert_eq!(words_with(ErrorKind::Base64, "d"), "d");
    assert_eq!(words(ErrorKind::NotGcm), "不是有效的 v10 AES-GCM 数据");
    assert_eq!(words(ErrorKind::GcmOpen), "AES-GCM 解密失败（密钥不匹配）");
    assert_eq!(words(ErrorKind::GcmSeal), "AES-GCM 加密失败");
    assert_eq!(words(ErrorKind::NoWrappedKey), "Local State 缺少 os_crypt.encrypted_key");
    assert_eq!(words(ErrorKind::KeyWrapping), "未知的 OSCrypt 密钥包装方式");
    assert_eq!(words(ErrorKind::KeyLength), "OSCrypt 密钥长度异常");
    assert_eq!(words_with(ErrorKind::StoreEncryption, "rot13"), "未知的令牌加密方式: rot13");
    assert_eq!(words(ErrorKind::StoreData), "令牌文件缺少 data 字段");
    assert_eq!(words(ErrorKind::SessionData), "会话文件缺少 data 字段");
    assert_eq!(words(ErrorKind::RefreshDead), "AUTH_DEAD: 刷新令牌已失效，请重新登录");
    assert_eq!(words(ErrorKind::RefreshStatus(503)), "刷新接口返回 503");
    assert_eq!(words(ErrorKind::RefreshUnreadable), "刷新接口响应解析失败");
    assert_eq!(words(ErrorKind::RefreshNoToken), "刷新接口未返回 access_token");
    assert_eq!(words_with(ErrorKind::RefreshFailed, "dns"), "刷新接口请求失败: dns");
    assert_eq!(words(ErrorKind::SignedOut), "已退出登录，请重新登录");
    assert_eq!(
        words(ErrorKind::NoRefreshToken),
        "令牌文件中缺少 refresh_token，请打开 Kimi 客户端登录"
    );
    assert_eq!(
        words(ErrorKind::NoStoredToken),
        "没有已保存的 access_token，请打开 Kimi 客户端登录"
    );
    assert_eq!(words(ErrorKind::QuotaUnreadable), "额度接口响应解析失败");
    assert_eq!(words(ErrorKind::QuotaExpired), "AUTH_EXPIRED: 登录已过期");
    assert_eq!(words(ErrorKind::QuotaStatus(502)), "额度接口返回 502");
    assert_eq!(words_with(ErrorKind::QuotaFailed, "dns"), "额度接口请求失败: dns");
    assert_eq!(words(ErrorKind::RpcUnreadable), "认证接口响应解析失败");
    assert_eq!(words_with(ErrorKind::RpcRefused, "no"), "no");
    assert_eq!(words_with(ErrorKind::RpcFailed, "dns"), "认证接口请求失败: dns");
    assert_eq!(words(ErrorKind::NoTicket), "未返回二维码 ticket");
    assert_eq!(words(ErrorKind::NoTokens), "登录成功但未返回令牌");
    assert_eq!(words_with(ErrorKind::MembershipFailed, "dns"), "会员信息请求失败: dns");
    assert_eq!(words(ErrorKind::MembershipUnreadable), "会员信息解析失败");
    assert_eq!(words_with(ErrorKind::Qr, "data too long"), "data too long");
    assert_eq!(words(ErrorKind::KeychainRead), "无法调用 security 读取钥匙串");
    assert_eq!(
        words_with(ErrorKind::KeychainDenied, "svc"),
        "钥匙串读取被拒绝，请允许访问 \"svc\""
    );
    assert_eq!(words(ErrorKind::KeychainWrite), "无法调用 security 写入钥匙串");
    assert_eq!(words(ErrorKind::KeychainCreate), "无法创建会话钥匙串项");
    assert_eq!(words_with(ErrorKind::System, "no home dir"), "no home dir");
}
