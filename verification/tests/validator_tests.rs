//! The validators of caller-supplied tokens.

use mcp_netdiag_rs::commands as compact;
use mcp_netdiag_rs::errors::NetdiagError;
use mcp_netdiag_rs::netdiag::commands;
use mcp_netdiag_rs::netdiag::validators;

fn reason(r: Result<(), NetdiagError>) -> String {
    match r {
        Err(NetdiagError::InvalidParam { reason, .. }) => reason,
        other => panic!("expected InvalidParam, got {other:?}"),
    }
}

#[test]
fn commands_validate_mac_accepts_valid_mac() {
    assert!(compact::validate_mac("aa:bb:cc:dd:ee:ff").is_ok());
    assert!(commands::validate_mac("aa:bb:cc:dd:ee:ff").is_ok());
}

#[test]
fn commands_validate_mac_rejects_invalid_mac() {
    assert!(compact::validate_mac("aa:bb:cc").is_err());
    assert!(commands::validate_mac("aa:bb:cc").is_err());
}

#[test]
fn commands_validate_token_rejects_bad_chars() {
    assert!(compact::validate_token("target", "8.8.8.8;rm").is_err());
    assert!(commands::validate_ip_or_host("8.8.8.8;rm").is_err());
}

#[test]
fn commands_validate_unit_accepts_template_units() {
    assert!(commands::validate_unit("serial-getty@ttyS0.service").is_ok());
}

#[test]
fn commands_validate_ip_or_host_accepts_normal_targets() {
    assert!(commands::validate_ip_or_host("8.8.8.8").is_ok());
    assert!(commands::validate_ip_or_host("gateway.local").is_ok());
}

#[test]
fn commands_validate_ip_or_host_rejects_leading_dash() {
    let err = commands::validate_ip_or_host("-f").unwrap_err();
    assert!(matches!(err, NetdiagError::InvalidParam { ref name, .. } if name == "target"));
    assert_eq!(err.code(), -32010);
    assert!(commands::validate_ip_or_host("-q30").is_err());
}

#[test]
fn commands_validate_interface_accepts_normal_names() {
    assert!(commands::validate_interface("eth0").is_ok());
    assert!(commands::validate_interface("wlp3s0").is_ok());
    assert!(commands::validate_interface("br-lan").is_ok());
}

#[test]
fn commands_validate_interface_rejects_leading_dash() {
    let err = commands::validate_interface("-h").unwrap_err();
    assert!(
        matches!(err, NetdiagError::InvalidParam { ref name, ref reason, .. }
            if name == "interface" && reason.contains("must not begin with '-'"))
    );
    assert_eq!(err.code(), -32010);
    assert!(commands::validate_interface("-i").is_err());
    assert!(commands::validate_interface("--reset").is_err());
}

#[test]
fn commands_validate_unit_rejects_leading_dash() {
    let err = commands::validate_unit("-h").unwrap_err();
    assert!(
        matches!(err, NetdiagError::InvalidParam { ref name, ref reason, .. }
            if name == "unit" && reason.contains("must not begin with '-'"))
    );
    assert_eq!(err.code(), -32010);
    assert!(commands::validate_unit("-foo.service").is_err());
}

#[test]
fn validators_validate_mac_accepts_valid_mac() {
    assert!(validators::validate_mac("aa:bb:cc:dd:ee:ff").is_ok());
}

#[test]
fn validators_validate_mac_rejects_invalid_mac() {
    assert!(validators::validate_mac("aa:bb:cc").is_err());
}

#[test]
fn validators_validate_token_rejects_bad_chars() {
    assert!(validators::validate_token("target", "8.8.8.8;rm").is_err());
}

#[test]
fn validators_validate_unit_accepts_template_units() {
    assert!(validators::validate_unit("serial-getty@ttyS0.service").is_ok());
}

#[test]
fn validators_validate_ip_or_host_accepts_normal_targets() {
    assert!(validators::validate_ip_or_host("8.8.8.8").is_ok());
    assert!(validators::validate_ip_or_host("gateway.local").is_ok());
}

#[test]
fn validators_validate_ip_or_host_rejects_leading_dash() {
    let err = validators::validate_ip_or_host("-f").unwrap_err();
    assert!(matches!(err, NetdiagError::InvalidParam { ref name, .. } if name == "target"));
    assert_eq!(err.code(), -32010);
    assert!(validators::validate_ip_or_host("-q30").is_err());
}

#[test]
fn validators_validate_interface_accepts_normal_names() {
    assert!(validators::validate_interface("eth0").is_ok());
    assert!(validators::validate_interface("wlp3s0").is_ok());
    assert!(validators::validate_interface("br-lan").is_ok());
}

#[test]
fn validators_validate_interface_rejects_leading_dash() {
    let err = validators::validate_interface("-h").unwrap_err();
    assert!(
        matches!(err, NetdiagError::InvalidParam { ref name, ref reason, .. }
            if name == "interface" && reason.contains("must not begin with '-'"))
    );
    assert_eq!(err.code(), -32010);
    assert!(validators::validate_interface("-i").is_err());
    assert!(validators::validate_interface("--reset").is_err());
}

#[test]
fn validators_validate_unit_rejects_leading_dash() {
    let err = validators::validate_unit("-h").unwrap_err();
    assert!(
        matches!(err, NetdiagError::InvalidParam { ref name, ref reason, .. }
            if name == "unit" && reason.contains("must not begin with '-'"))
    );
    assert_eq!(err.code(), -32010);
    assert!(validators::validate_unit("-foo.service").is_err());
}

#[test]
fn tokens_are_bounded_in_length() {
    let longest = "a".repeat(128);
    let too_long = "a".repeat(129);
    assert!(validators::validate_interface(&longest).is_ok());
    assert_eq!(
        reason(validators::validate_interface(&too_long)),
        "must be non-empty and <= 128 chars",
    );
    assert_eq!(
        reason(validators::validate_interface("")),
        "must be non-empty and <= 128 chars",
    );
    assert!(compact::validate_interface(&longest).is_ok());
    assert_eq!(
        reason(compact::validate_interface(&too_long)),
        "must be non-empty and <= 128 chars",
    );
}

#[test]
fn the_length_of_a_token_is_counted_in_bytes() {
    let wide = "\u{e9}".repeat(65);
    assert_eq!(
        reason(validators::validate_ip_or_host(&wide)),
        "must be non-empty and <= 128 chars",
    );
    let narrow = "\u{e9}".repeat(64);
    assert_eq!(
        reason(validators::validate_ip_or_host(&narrow)),
        "contains unsupported characters",
    );
    assert_eq!(
        reason(compact::validate_ip_or_host(&wide)),
        "must be non-empty and <= 128 chars",
    );
}

#[test]
fn the_flaws_of_a_token_are_looked_for_in_order() {
    assert_eq!(
        reason(validators::validate_interface("-;")),
        "must not begin with '-'",
    );
    assert_eq!(
        reason(validators::validate_interface("e;")),
        "contains unsupported characters",
    );
    assert!(validators::validate_interface("fe80::1/64_x.y-z").is_ok());
}

#[test]
fn only_units_may_hold_an_at_sign() {
    assert!(validators::validate_unit("getty@tty1").is_ok());
    assert!(validators::validate_interface("getty@tty1").is_err());
    assert!(validators::validate_ip_or_host("getty@tty1").is_err());
}

#[test]
fn shell_metacharacters_are_refused() {
    for c in [
        ';', '|', '&', '$', '`', '(', ')', '<', '>', '*', '?', '~', '!', '#', '\'', '"', '\\',
        ' ', '\t', '\n', '\0', '=', ',', '+', '%',
    ] {
        let token = format!("a{c}b");
        assert!(validators::validate_interface(&token).is_err(), "{c:?}");
        assert!(validators::validate_ip_or_host(&token).is_err(), "{c:?}");
        assert!(validators::validate_unit(&token).is_err(), "{c:?}");
        assert!(compact::validate_interface(&token).is_err(), "{c:?}");
    }
}

#[test]
fn compact_tokens_may_begin_with_a_dash() {
    assert!(compact::validate_interface("-h").is_ok());
    assert!(compact::validate_ip_or_host("-f").is_ok());
    assert_eq!(
        reason(compact::validate_interface("e;")),
        "contains unsupported characters",
    );
}

#[test]
fn mac_addresses_have_one_form() {
    assert!(validators::validate_mac("AA:bB:00:19:eE:Ff").is_ok());
    for bad in [
        "",
        "zz",
        "aa:bb:cc:dd:ee",
        "aa:bb:cc:dd:ee:ff:00",
        "aa:bb:cc:dd:ee:fg",
        "aa:bb:cc:dd:ee:f",
        "aa:bb:cc:dd:ee:fff",
        "aa-bb-cc-dd-ee-ff",
        ":aa:bb:cc:dd:ee",
        "aa:bb:cc:dd:ee:ff ",
    ] {
        let r = validators::validate_mac(bad);
        assert!(
            matches!(r, Err(NetdiagError::InvalidParam { ref name, .. }) if name == "mac"),
            "{bad:?}",
        );
        assert_eq!(reason(r), "must be in aa:bb:cc:dd:ee:ff form");
    }
}

#[test]
fn extra_characters_widen_the_class() {
    assert!(validators::validate_token_with_extra("x", "a+b", &['+']).is_ok());
    assert!(validators::validate_token_with_extra("x", "a+b", &['%']).is_err());
    assert!(validators::validate_token("x", "a+b").is_err());
}
