//! Reading Windows command output, attributes and the proxy setting.

use cdisklinker::win_util::{
    get_system_proxy, has_reparse_attribute, is_mount_point_tag, is_ntfs_name,
    junction_target_from_output, mklink_arguments, mklink_failure, proxy_url, registry_value_from_output,
    removal_kind, Removal,
};

fn gbk(s: &str) -> Vec<u8> {
    let (bytes, _, _) = encoding_rs::GBK.encode(s);
    bytes.into_owned()
}

#[test]
fn registry_value_is_last_word_of_matching_line() {
    let out = b"\r\nHKEY_CURRENT_USER\\Software\\Microsoft\\Windows\\CurrentVersion\\Internet Settings\r\n    ProxyEnable    REG_DWORD    0x1\r\n\r\n";
    assert_eq!(registry_value_from_output(out, "ProxyEnable"), Some("0x1".to_string()));
    assert_eq!(registry_value_from_output(out, "ProxyServer"), None);
    let out = b"    ProxyServer    REG_SZ    127.0.0.1:7897\n";
    assert_eq!(registry_value_from_output(out, "ProxyServer"), Some("127.0.0.1:7897".to_string()));
    // invalid UTF-8 is replaced, not refused
    let out = b"    ProxyServer    REG_SZ    h\xffst:1\n";
    assert_eq!(registry_value_from_output(out, "ProxyServer"), Some("h\u{fffd}st:1".to_string()));
}

#[test]
fn proxy_from_settings() {
    assert_eq!(get_system_proxy(Some("0x1"), Some("127.0.0.1:7897")), Some("http://127.0.0.1:7897".to_string()));
    assert_eq!(get_system_proxy(Some("0x0"), Some("127.0.0.1:7897")), None);
    assert_eq!(get_system_proxy(None, Some("127.0.0.1:7897")), None);
    assert_eq!(get_system_proxy(Some("0x1"), None), None);
    assert_eq!(get_system_proxy(Some("0x1"), Some("   ")), None);
    // the https address is preferred wherever it stands
    assert_eq!(
        get_system_proxy(Some("0x1"), Some("http=127.0.0.1:8080;https=127.0.0.1:8443")),
        Some("http://127.0.0.1:8443".to_string())
    );
    assert_eq!(
        get_system_proxy(Some("0x1"), Some("http=1.2.3.4:80;https=5.6.7.8:443")),
        Some("http://5.6.7.8:443".to_string())
    );
    assert_eq!(
        get_system_proxy(Some("0x1"), Some("https=127.0.0.1:8443;http=127.0.0.1:8080")),
        Some("http://127.0.0.1:8443".to_string())
    );
}

#[test]
fn proxy_url_forms() {
    assert_eq!(proxy_url("https://p:1"), Some("https://p:1".to_string()));
    assert_eq!(proxy_url("http://p:1"), Some("http://p:1".to_string()));
    // the first piece naming an address wins, https before http within a piece
    assert_eq!(proxy_url("ftp=f:21; http=h:80 ;https=s:443"), Some("http://s:443".to_string()));
    assert_eq!(proxy_url("ftp=f:21; http=h:80"), Some("http://h:80".to_string()));
    assert_eq!(proxy_url("socks=s:1080"), None);
    assert_eq!(proxy_url("https="), None);
    assert_eq!(proxy_url("  a:1  "), Some("http://a:1".to_string()));
}

#[test]
fn junction_target_chinese_and_english() {
    let zh = gbk("重解析标记值 : 0xa0000003\r\n标记值: Microsoft\r\n替换名称:   \\??\\F:\\.c_cache\\Kingsoft\r\n打印名称:              F:\\.c_cache\\Kingsoft\r\n");
    assert_eq!(junction_target_from_output(&zh), Ok("F:\\.c_cache\\Kingsoft".to_string()));
    let en = b"Reparse Tag Value : 0xa0000003\r\nPrint Name:            D:\\Games\\Steam\r\n";
    assert_eq!(junction_target_from_output(en), Ok("D:\\Games\\Steam".to_string()));
    let none = b"Print Name:     \r\nnothing here\r\n";
    assert_eq!(
        junction_target_from_output(none),
        Err("无法从 fsutil 输出中解析 Junction 目标路径（不支持当前系统语言格式）".to_string())
    );
}

#[test]
fn mklink_texts() {
    assert_eq!(mklink_arguments("C:\\My Games", "D:\\My Games"), "/c mklink /J \"C:\\My Games\" \"D:\\My Games\"");
    let msg = mklink_failure(&gbk("  当文件已存在时，无法创建该文件。\r\n"), b"\r\n");
    assert_eq!(msg, "mklink /J 失败: 当文件已存在时，无法创建该文件。 ");
}

#[test]
fn attributes_and_tags() {
    assert!(has_reparse_attribute(0x410));
    assert!(!has_reparse_attribute(0x10));
    assert!(!has_reparse_attribute(u32::MAX));
    let tag = 0xA000_0003u32.to_le_bytes();
    let mut buffer = [0u8; 16];
    buffer[..4].copy_from_slice(&tag);
    assert!(is_mount_point_tag(&buffer, 20));
    assert!(!is_mount_point_tag(&buffer, 3));
    let symlink = 0xA000_000Cu32.to_le_bytes();
    assert!(!is_mount_point_tag(&symlink, 4));
    assert!(is_ntfs_name("NTFS"));
    assert!(is_ntfs_name("ntfs"));
    assert!(!is_ntfs_name("exFAT"));
}

#[test]
fn removal_never_follows_a_junction() {
    assert_eq!(removal_kind(true, false, true), Removal::UnlinkDirectory);
    assert_eq!(removal_kind(true, true, false), Removal::UnlinkDirectory);
    assert_eq!(removal_kind(false, true, false), Removal::UnlinkFile);
    assert_eq!(removal_kind(false, false, true), Removal::EmptyThenRemove);
    assert_eq!(removal_kind(false, false, false), Removal::DeleteFile);
}
