use frper::service::{ini_config_text, ini_lines, ini_text, proxy_kind, ProxyDetail, ProxyKind, ProxySection};
use frper::settings::Cfg;
use frper::types::{Base, Local, Slb, Tcp, Http, TcpMux};

fn s(x: &str) -> Option<String> {
    Some(x.to_string())
}

fn cfg(key: &str, value: &str) -> Cfg {
    Cfg {
        key: key.to_string(),
        default_value: None,
        value: value.to_string(),
        desc: String::new(),
        options: None,
        remark: None,
        set_type: "common".to_string(),
    }
}

fn empty_base() -> Base {
    Base { use_encryption: None, use_compression: None, proxy_protocol_version: None, bandwidth_limit: None }
}

fn empty_local() -> Local {
    Local { local_ip: None, local_port: None, plugin: None, plugin_params: None }
}

fn empty_slb() -> Slb {
    Slb {
        group: None,
        group_key: None,
        health_check_type: None,
        health_check_timeout_s: None,
        health_check_max_failed: None,
        health_check_interval_s: None,
        health_check_url: None,
    }
}

fn ssh_proxy() -> ProxySection {
    ProxySection::new(
        "ssh".to_string(),
        "tcp".to_string(),
        Base { use_encryption: s("true"), ..empty_base() },
        Local { local_ip: s("127.0.0.1"), local_port: s("22"), ..empty_local() },
        empty_slb(),
        ProxyDetail::Tcp(Tcp { remote_port: s("6000") }),
    )
    .unwrap()
}

#[test]
fn base_lines_keep_order_and_blank_unset_fields() {
    let base = Base {
        use_encryption: s("true"),
        use_compression: None,
        proxy_protocol_version: s("v2"),
        bandwidth_limit: s(""),
    };
    let mut vec = vec!["before".to_string()];
    base.insert_to_vec(&mut vec);
    assert_eq!(vec, vec!["before", "use_encryption=true", "", "proxy_protocol_version=v2", "bandwidth_limit="]);
}

#[test]
fn slb_and_http_field_counts() {
    let mut vec = Vec::new();
    empty_slb().insert_to_vec(&mut vec);
    assert_eq!(vec.len(), 7);
    assert!(vec.iter().all(|l| l.is_empty()));
    let http = Http {
        custom_domains: s("a.example.com"),
        subdomain: None,
        locations: None,
        route_by_http_user: None,
        http_user: s("u"),
        http_pwd: s("p"),
        host_header_rewrite: None,
        headers: None,
    };
    let mut vec = Vec::new();
    http.insert_to_vec(&mut vec);
    assert_eq!(vec, vec!["custom_domains=a.example.com", "", "", "", "http_user=u", "http_pwd=p", "", ""]);
}

#[test]
fn tcpmux_lines() {
    let d = TcpMux { multiplexer: s("httpconnect"), custom_domains: None, subdomain: s("x"), route_by_http_user: None };
    let mut vec = Vec::new();
    d.insert_to_vec(&mut vec);
    assert_eq!(vec, vec!["multiplexer=httpconnect", "", "subdomain=x", ""]);
}

#[test]
fn proxy_kinds_by_type() {
    assert_eq!(proxy_kind("tcp"), Some(ProxyKind::Tcp));
    assert_eq!(proxy_kind("udp"), Some(ProxyKind::Udp));
    assert_eq!(proxy_kind("http"), Some(ProxyKind::Http));
    assert_eq!(proxy_kind("https"), Some(ProxyKind::Https));
    assert_eq!(proxy_kind("stcp"), Some(ProxyKind::Stcp));
    assert_eq!(proxy_kind("sudp"), Some(ProxyKind::Sudp));
    assert_eq!(proxy_kind("xtcp"), Some(ProxyKind::Xtcp));
    assert_eq!(proxy_kind("tcpmux"), Some(ProxyKind::TcpMux));
    assert_eq!(proxy_kind("TCP"), None);
    assert_eq!(proxy_kind(""), None);
}

#[test]
fn ini_lines_drop_empty_values_and_lines() {
    let settings = vec![cfg("server_addr", "1.2.3.4"), cfg("token", ""), cfg("server_port", "7000")];
    let lines = ini_lines(&settings, &vec![ssh_proxy()]);
    assert_eq!(
        lines,
        vec![
            "[common]",
            "server_addr=1.2.3.4",
            "server_port=7000",
            "[ssh]",
            "type=tcp",
            "use_encryption=true",
            "local_ip=127.0.0.1",
            "local_port=22",
            "remote_port=6000",
        ]
    );
    assert!(lines.iter().all(|l| !l.is_empty()));
}

#[test]
fn ini_lines_of_nothing_is_common_header() {
    assert_eq!(ini_lines(&vec![], &vec![]), vec!["[common]"]);
}

#[test]
fn unsupported_proxy_has_header_and_type_only() {
    let p = ProxySection::new(
        "web".to_string(),
        "quic".to_string(),
        empty_base(),
        empty_local(),
        empty_slb(),
        ProxyDetail::Unsupported,
    )
    .unwrap();
    assert_eq!(ini_lines(&vec![], &vec![p]), vec!["[common]", "[web]", "type=quic"]);
}

#[test]
fn export_and_data_dir_texts() {
    let settings = vec![cfg("server_addr", "1.2.3.4")];
    let export = ini_config_text(&settings, &vec![ssh_proxy()], true);
    assert_eq!(
        export,
        "[common]\nserver_addr=1.2.3.4\n[ssh]\ntype=tcp\nuse_encryption=true\nlocal_ip=127.0.0.1\nlocal_port=22\nremote_port=6000"
    );
    let kept = ini_config_text(&settings, &vec![ssh_proxy()], false);
    assert_eq!(kept, format!("{}\n\n", export));
}

#[test]
fn ini_text_joins_with_line_breaks() {
    assert_eq!(ini_text(vec!["a".to_string(), "b".to_string()], true), "a\nb");
    assert_eq!(ini_text(vec!["a".to_string()], false), "a\n\n");
    assert_eq!(ini_text(vec![], true), "");
    assert_eq!(ini_text(vec![], false), "\n");
}

#[test]
fn sections_must_carry_the_options_of_their_type() {
    let tcp = || ProxyDetail::Tcp(Tcp { remote_port: s("6000") });
    assert!(ProxySection::new("a".into(), "udp".into(), empty_base(), empty_local(), empty_slb(), tcp()).is_none());
    assert!(ProxySection::new("a".into(), "quic".into(), empty_base(), empty_local(), empty_slb(), tcp()).is_none());
    assert!(ProxySection::new("a".into(), "tcp".into(), empty_base(), empty_local(), empty_slb(), ProxyDetail::Unsupported)
        .is_none());
    let p = ProxySection::new("a".into(), "tcp".into(), empty_base(), empty_local(), empty_slb(), tcp()).unwrap();
    assert_eq!((p.name.as_str(), p.proxy_type.as_str()), ("a", "tcp"));
    assert_eq!(p.detail.detail_kind(), Some(ProxyKind::Tcp));
    assert_eq!(ProxyDetail::Unsupported.detail_kind(), None);
}
