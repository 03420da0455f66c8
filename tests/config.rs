use asset_server::config::{acme_plan, serve_mode, Config, ConfigError, ServeMode};

fn config(port: u32) -> Config {
    Config {
        front_dir: "front".to_string(),
        onnx_dir: "onnx".to_string(),
        port,
        email: "admin@example.com".to_string(),
        domains: vec!["example.com".to_string(), "www.example.com".to_string()],
    }
}

#[test]
fn port_443_serves_tls_with_redirect() {
    let m = serve_mode(443).unwrap();
    assert_eq!(m, ServeMode::Tls { port: 443 });
    assert_eq!(m.port(), 443);
    assert_eq!(m.redirect_port(), Some(80));
}

#[test]
fn other_ports_serve_plaintext_without_redirect() {
    let m = serve_mode(8080).unwrap();
    assert_eq!(m, ServeMode::Plain { port: 8080 });
    assert_eq!(m.port(), 8080);
    assert_eq!(m.redirect_port(), None);
    assert_eq!(serve_mode(0).unwrap(), ServeMode::Plain { port: 0 });
    assert_eq!(serve_mode(65535).unwrap(), ServeMode::Plain { port: 65535 });
}

#[test]
fn port_beyond_tcp_range_is_refused() {
    assert_eq!(serve_mode(65536), Err(ConfigError::InvalidPort));
    assert_eq!(serve_mode(u32::MAX), Err(ConfigError::InvalidPort));
}

#[test]
fn acme_plan_on_tls_port() {
    let p = acme_plan(&config(443)).unwrap();
    assert_eq!(p.domains, vec!["example.com".to_string(), "www.example.com".to_string()]);
    assert_eq!(p.contacts, vec!["mailto:admin@example.com".to_string()]);
    assert_eq!(p.cache_dir, "./cache");
    assert!(p.production);
    assert_eq!(p.alpn_protocols, vec![b"h2".to_vec()]);
}

#[test]
fn no_acme_plan_on_other_ports() {
    assert!(acme_plan(&config(8080)).is_none());
    assert!(acme_plan(&config(80)).is_none());
}
