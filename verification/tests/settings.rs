use frper::settings::{
    enabled_text, parse_enabled, proxy_write_outcome, setting_update_outcome, Cfg, ProxyTable, SettingError,
};

fn proxy(id: Option<&str>, enabled: bool) -> ProxyTable {
    ProxyTable {
        id: id.map(|s| s.to_string()),
        name: "ssh".to_string(),
        base: "{}".to_string(),
        local: "{\"local_port\":\"22\"}".to_string(),
        slb: "{}".to_string(),
        proxy_type: "tcp".to_string(),
        proxy_type_value: "{\"remote_port\":\"6000\"}".to_string(),
        enabled,
    }
}

#[test]
fn enabled_flag_round_trips() {
    assert_eq!(enabled_text(true), "true");
    assert_eq!(enabled_text(false), "false");
    assert!(parse_enabled(enabled_text(true)));
    assert!(!parse_enabled(enabled_text(false)));
    assert!(!parse_enabled("True"));
    assert!(!parse_enabled("1"));
    assert!(!parse_enabled(""));
}

#[test]
fn lookup_id_defaults_to_minus_one() {
    assert_eq!(proxy(Some("abc"), true).lookup_id(), "abc");
    assert_eq!(proxy(None, true).lookup_id(), "-1");
}

#[test]
fn insert_params_in_column_order() {
    let p = proxy(None, false);
    assert_eq!(
        p.insert_params("id-1".to_string()),
        vec!["id-1", "ssh", "{}", "{\"local_port\":\"22\"}", "{}", "tcp", "{\"remote_port\":\"6000\"}", "false"]
    );
}

#[test]
fn add_params_take_a_fresh_uuid() {
    let p = proxy(None, true);
    let a = p.add_params();
    let b = p.add_params();
    assert_eq!(a.len(), 8);
    let id = &a[0];
    assert_eq!(id.chars().count(), 36);
    for (i, c) in id.chars().enumerate() {
        if i == 8 || i == 13 || i == 18 || i == 23 {
            assert_eq!(c, '-');
        } else {
            assert!(c.is_ascii_digit() || ('a'..='f').contains(&c));
        }
    }
    assert_eq!(id.chars().nth(14), Some('4'));
    assert!(matches!(id.chars().nth(19), Some('8' | '9' | 'a' | 'b')));
    assert_eq!(&a[1..], &["ssh", "{}", "{\"local_port\":\"22\"}", "{}", "tcp", "{\"remote_port\":\"6000\"}", "true"]);
    assert_ne!(a[0], b[0]);
}

#[test]
fn edit_and_toggle_params() {
    let p = proxy(Some("42"), true);
    assert_eq!(
        p.edit_params(),
        vec!["ssh", "{}", "{\"local_port\":\"22\"}", "{}", "tcp", "{\"remote_port\":\"6000\"}", "42"]
    );
    assert_eq!(p.toggle_params(), vec!["true", "42"]);
    assert_eq!(proxy(None, false).toggle_params(), vec!["false", "-1"]);
}

#[test]
fn update_params_value_then_key() {
    let c = Cfg {
        key: "server_addr".to_string(),
        default_value: None,
        value: "1.2.3.4".to_string(),
        desc: "d".to_string(),
        options: None,
        remark: None,
        set_type: "common".to_string(),
    };
    assert_eq!(c.update_params(), vec!["1.2.3.4", "server_addr"]);
}

#[test]
fn proxy_write_outcomes() {
    let ok = proxy_write_outcome(1, Some("新建失败"));
    assert!(ok.restart);
    assert_eq!((ok.reply.code, ok.reply.data, ok.reply.msg), (200, None, "操作成功"));
    let none = proxy_write_outcome(0, Some("新建失败"));
    assert!(!none.restart);
    assert_eq!((none.reply.code, none.reply.msg), (300, "新建失败"));
    let many = proxy_write_outcome(2, None);
    assert!(!many.restart);
    assert_eq!((many.reply.code, many.reply.msg), (300, "操作失败"));
}

#[test]
fn setting_update_outcomes() {
    assert!(matches!(setting_update_outcome(1), Ok("ok")));
    assert!(matches!(setting_update_outcome(0), Err(SettingError::UpdateFailed)));
    assert!(matches!(setting_update_outcome(3), Err(SettingError::UpdateFailed)));
    assert_eq!(SettingError::UpdateFailed.message(), "update failed");
}
