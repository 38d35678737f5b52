use zeus_orchestrator::config::{
    format_port, parse_port, Config, ConfigError, Setting, BIND_ADDR_VAR, DEFAULT_BIND_ADDR,
    DEFAULT_PORT, PORT_VAR,
};

#[test]
fn setting_names_and_defaults() {
    assert_eq!(PORT_VAR, "ZEUS_HTTP_PORT");
    assert_eq!(BIND_ADDR_VAR, "ZEUS_BIND_ADDR");
    assert_eq!(DEFAULT_PORT, 8080);
    assert_eq!(DEFAULT_BIND_ADDR, "0.0.0.0");
}

#[test]
fn parse_port_reads_decimal_numbers() {
    assert_eq!(parse_port("8080"), Ok(8080));
    assert_eq!(parse_port("3000"), Ok(3000));
    assert_eq!(parse_port("1"), Ok(1));
    assert_eq!(parse_port("443"), Ok(443));
}

#[test]
fn parse_port_accepts_the_whole_range() {
    assert_eq!(parse_port("0"), Ok(0));
    assert_eq!(parse_port("65535"), Ok(65535));
}

#[test]
fn parse_port_rejects_the_first_value_out_of_range() {
    assert_eq!(parse_port("65536"), Err(ConfigError::PortOutOfRange));
}

#[test]
fn parse_port_rejects_99999() {
    assert_eq!(parse_port("99999"), Err(ConfigError::PortOutOfRange));
}

#[test]
fn parse_port_rejects_very_long_numbers() {
    assert_eq!(
        parse_port("99999999999999999999999999999999999999999999"),
        Err(ConfigError::PortOutOfRange)
    );
    assert_eq!(parse_port("4294967296"), Err(ConfigError::PortOutOfRange));
    assert_eq!(parse_port("4295032832"), Err(ConfigError::PortOutOfRange));
    assert_eq!(parse_port("18446744073709551616"), Err(ConfigError::PortOutOfRange));
}

#[test]
fn parse_port_rejects_text_that_is_no_number() {
    assert_eq!(parse_port("not-a-number"), Err(ConfigError::PortNotNumeric));
    assert_eq!(parse_port("http"), Err(ConfigError::PortNotNumeric));
    assert_eq!(parse_port("80a"), Err(ConfigError::PortNotNumeric));
    assert_eq!(parse_port("a80"), Err(ConfigError::PortNotNumeric));
    assert_eq!(parse_port("8_0"), Err(ConfigError::PortNotNumeric));
    assert_eq!(parse_port("8.0"), Err(ConfigError::PortNotNumeric));
    assert_eq!(parse_port("0x50"), Err(ConfigError::PortNotNumeric));
}

#[test]
fn parse_port_rejects_the_empty_text() {
    assert_eq!(parse_port(""), Err(ConfigError::PortNotNumeric));
}

#[test]
fn parse_port_rejects_blanks() {
    assert_eq!(parse_port(" 8080"), Err(ConfigError::PortNotNumeric));
    assert_eq!(parse_port("8080 "), Err(ConfigError::PortNotNumeric));
    assert_eq!(parse_port("80 80"), Err(ConfigError::PortNotNumeric));
    assert_eq!(parse_port("8080\n"), Err(ConfigError::PortNotNumeric));
}

#[test]
fn parse_port_takes_one_leading_plus() {
    assert_eq!(parse_port("+8080"), Ok(8080));
    assert_eq!(parse_port("+0"), Ok(0));
    assert_eq!(parse_port("+"), Err(ConfigError::PortNotNumeric));
    assert_eq!(parse_port("++80"), Err(ConfigError::PortNotNumeric));
    assert_eq!(parse_port("8+0"), Err(ConfigError::PortNotNumeric));
    assert_eq!(parse_port("80+"), Err(ConfigError::PortNotNumeric));
    assert_eq!(parse_port("+65536"), Err(ConfigError::PortOutOfRange));
}

#[test]
fn parse_port_rejects_a_minus_sign() {
    assert_eq!(parse_port("-1"), Err(ConfigError::PortNotNumeric));
    assert_eq!(parse_port("-0"), Err(ConfigError::PortNotNumeric));
    assert_eq!(parse_port("-"), Err(ConfigError::PortNotNumeric));
}

#[test]
fn parse_port_accepts_leading_zeros() {
    assert_eq!(parse_port("00080"), Ok(80));
    assert_eq!(parse_port("0000000000000000000000065535"), Ok(65535));
    assert_eq!(parse_port("0000000000000000000000065536"), Err(ConfigError::PortOutOfRange));
    assert_eq!(parse_port("+000"), Ok(0));
}

#[test]
fn parse_port_rejects_digits_outside_ascii() {
    assert_eq!(parse_port("\u{0663}\u{0660}"), Err(ConfigError::PortNotNumeric));
    assert_eq!(parse_port("\u{ff18}\u{ff10}"), Err(ConfigError::PortNotNumeric));
    assert_eq!(parse_port("80\u{00e9}"), Err(ConfigError::PortNotNumeric));
}

#[test]
fn parse_port_sees_a_stray_character_behind_an_overflow() {
    assert_eq!(parse_port("99999x"), Err(ConfigError::PortNotNumeric));
    assert_eq!(parse_port("x99999"), Err(ConfigError::PortNotNumeric));
}

#[test]
fn parse_port_succeeds_where_the_standard_parser_does() {
    let samples = [
        "", "+", "-", "0", "7", "80", "+80", "-80", "080", "8080", "65535", "65536", "70000",
        "99999", "100000", "not-a-number", "12ab", " 12", "12 ", "1e3", "+-1", "0000", "6553a",
        "655350", "+65535", "+65536",
    ];
    for text in samples {
        assert_eq!(parse_port(text).ok(), text.parse::<u16>().ok(), "on {:?}", text);
    }
}

#[test]
fn format_port_writes_shortest_decimal() {
    assert_eq!(format_port(0), "0");
    assert_eq!(format_port(9), "9");
    assert_eq!(format_port(10), "10");
    assert_eq!(format_port(100), "100");
    assert_eq!(format_port(8080), "8080");
    assert_eq!(format_port(65535), "65535");
    assert_eq!(format_port(40009), "40009");
}

#[test]
fn every_port_survives_writing_and_reading() {
    let mut port: u16 = 0;
    loop {
        let text = format_port(port);
        assert_eq!(text, port.to_string());
        assert_eq!(parse_port(&text), Ok(port));
        if port == u16::MAX {
            break;
        }
        port += 1;
    }
}

#[test]
fn resolve_without_settings_gives_the_defaults() {
    let config = Config::resolve(None, None).unwrap();
    assert_eq!(config.port, 8080);
    assert_eq!(config.bind_addr, "0.0.0.0");
    assert_eq!(config.socket_addr(), "0.0.0.0:8080");
}

#[test]
fn resolve_takes_both_settings() {
    let config = Config::resolve(Some("3000"), Some("127.0.0.1")).unwrap();
    assert_eq!(config, Config { port: 3000, bind_addr: String::from("127.0.0.1") });
    assert_eq!(config.socket_addr(), "127.0.0.1:3000");
}

#[test]
fn resolve_takes_each_setting_alone() {
    let config = Config::resolve(Some("9000"), None).unwrap();
    assert_eq!(config.port, 9000);
    assert_eq!(config.bind_addr, "0.0.0.0");
    let config = Config::resolve(None, Some("::1")).unwrap();
    assert_eq!(config.port, 8080);
    assert_eq!(config.bind_addr, "::1");
    assert_eq!(config.socket_addr(), "::1:8080");
}

#[test]
fn resolve_keeps_any_bind_address_as_it_is() {
    for addr in ["", "localhost", "not an address", "10.0.0.1 ", "\u{00fc}ber", "a:b:c"] {
        let config = Config::resolve(Some("80"), Some(addr)).unwrap();
        assert_eq!(config.bind_addr, addr);
        assert_eq!(config.port, 80);
        assert_eq!(config.socket_addr(), format!("{}:80", addr));
    }
}

#[test]
fn resolve_fails_on_a_port_that_is_no_number() {
    assert_eq!(Config::resolve(Some("not-a-number"), None), Err(ConfigError::PortNotNumeric));
    assert_eq!(
        Config::resolve(Some("not-a-number"), Some("127.0.0.1")),
        Err(ConfigError::PortNotNumeric)
    );
    assert_eq!(Config::resolve(Some(""), None), Err(ConfigError::PortNotNumeric));
}

#[test]
fn resolve_fails_on_a_port_out_of_range() {
    assert_eq!(Config::resolve(Some("99999"), None), Err(ConfigError::PortOutOfRange));
    assert_eq!(
        Config::resolve(Some("65536"), Some("0.0.0.0")),
        Err(ConfigError::PortOutOfRange)
    );
}

#[test]
fn socket_addr_joins_address_and_port() {
    let config = Config { port: 0, bind_addr: String::from("192.168.1.20") };
    assert_eq!(config.socket_addr(), "192.168.1.20:0");
    let config = Config { port: 65535, bind_addr: String::from("[::]") };
    assert_eq!(config.socket_addr(), "[::]:65535");
}

#[test]
fn config_clone_is_equal() {
    let config = Config::resolve(Some("+443"), Some("example.org")).unwrap();
    let copy = config.clone();
    assert_eq!(copy, config);
    assert_eq!(copy.socket_addr(), "example.org:443");
}

#[test]
fn resolve_found_without_settings_gives_the_defaults() {
    let config = Config::resolve_found(Setting::Absent, Setting::Absent).unwrap();
    assert_eq!(config, Config { port: 8080, bind_addr: String::from("0.0.0.0") });
}

#[test]
fn resolve_found_takes_both_texts() {
    let config =
        Config::resolve_found(Setting::Text("3000"), Setting::Text("127.0.0.1")).unwrap();
    assert_eq!(config, Config { port: 3000, bind_addr: String::from("127.0.0.1") });
    assert_eq!(config.socket_addr(), "127.0.0.1:3000");
}

#[test]
fn resolve_found_agrees_with_resolve_on_texts() {
    for port in ["0", "8080", "+1", "65535", "65536", "99999", "", "not-a-number", " 1"] {
        for addr in ["", "::", "10.1.2.3", "host name"] {
            assert_eq!(
                Config::resolve_found(Setting::Text(port), Setting::Text(addr)),
                Config::resolve(Some(port), Some(addr))
            );
            assert_eq!(
                Config::resolve_found(Setting::Text(port), Setting::Absent),
                Config::resolve(Some(port), None)
            );
        }
    }
    assert_eq!(
        Config::resolve_found(Setting::Absent, Setting::Text("::1")),
        Config::resolve(None, Some("::1"))
    );
}

#[test]
fn resolve_found_fails_on_a_port_that_holds_no_text() {
    assert_eq!(
        Config::resolve_found(Setting::NotText, Setting::Absent),
        Err(ConfigError::PortNotNumeric)
    );
    assert_eq!(
        Config::resolve_found(Setting::NotText, Setting::Text("127.0.0.1")),
        Err(ConfigError::PortNotNumeric)
    );
    assert_eq!(
        Config::resolve_found(Setting::NotText, Setting::NotText),
        Err(ConfigError::PortNotNumeric)
    );
}

#[test]
fn resolve_found_fails_on_an_invalid_port_text() {
    assert_eq!(
        Config::resolve_found(Setting::Text("not-a-number"), Setting::Absent),
        Err(ConfigError::PortNotNumeric)
    );
    assert_eq!(
        Config::resolve_found(Setting::Text("99999"), Setting::Absent),
        Err(ConfigError::PortOutOfRange)
    );
}

#[test]
fn resolve_found_uses_the_default_for_an_address_that_holds_no_text() {
    let config = Config::resolve_found(Setting::Text("9090"), Setting::NotText).unwrap();
    assert_eq!(config, Config { port: 9090, bind_addr: String::from("0.0.0.0") });
    let config = Config::resolve_found(Setting::Absent, Setting::NotText).unwrap();
    assert_eq!(config, Config { port: 8080, bind_addr: String::from("0.0.0.0") });
}
