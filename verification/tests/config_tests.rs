use rusty_proxy::config::{parse_port_text, resolve_config};

#[test]
fn missing_arguments_give_the_defaults() {
    let c = resolve_config(None, None);
    assert_eq!(c.port, 80);
    assert_eq!(c.status, b"@RustyManager".to_vec());
    assert!(!c.secure);
}

#[test]
fn secure_port_selects_the_secure_variant() {
    let c = resolve_config(Some(b"443".to_vec()), None);
    assert_eq!(c.port, 443);
    assert!(c.secure);
}

#[test]
fn ordinary_port_selects_the_plain_variant() {
    let c = resolve_config(Some(b"8080".to_vec()), None);
    assert_eq!(c.port, 8080);
    assert!(!c.secure);
}

#[test]
fn status_argument_is_kept_verbatim() {
    let c = resolve_config(None, Some(b"custom text".to_vec()));
    assert_eq!(c.status, b"custom text".to_vec());
}

#[test]
fn unparsable_port_falls_back_to_default() {
    assert_eq!(parse_port_text(&b"abc".to_vec()), 80);
    assert_eq!(parse_port_text(&b"12x".to_vec()), 80);
    assert_eq!(parse_port_text(&b"".to_vec()), 80);
    assert_eq!(parse_port_text(&b"-1".to_vec()), 80);
    assert_eq!(parse_port_text(&b"+".to_vec()), 80);
    assert_eq!(parse_port_text(&b" 22".to_vec()), 80);
}

#[test]
fn oversized_port_falls_back_to_default() {
    assert_eq!(parse_port_text(&b"65536".to_vec()), 80);
    assert_eq!(parse_port_text(&b"99999999999999999999".to_vec()), 80);
}

#[test]
fn port_parse_accepts_what_a_u16_parse_accepts() {
    assert_eq!(parse_port_text(&b"0".to_vec()), 0);
    assert_eq!(parse_port_text(&b"22".to_vec()), 22);
    assert_eq!(parse_port_text(&b"1194".to_vec()), 1194);
    assert_eq!(parse_port_text(&b"65535".to_vec()), 65535);
    assert_eq!(parse_port_text(&b"+443".to_vec()), 443);
    assert_eq!(parse_port_text(&b"0080".to_vec()), 80);
}
