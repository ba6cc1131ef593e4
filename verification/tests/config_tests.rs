use aqueduct::config::args::Args;
use aqueduct::config::config_handler::{
    complete_config, credential_step, credentials_missing, is_token, parse_endpoint,
    resolve_config, token_entered, ConfigEnv, CredentialStage, DialogStep, TunnelCredential,
};
use aqueduct::config::error::ConfigError;
use aqueduct::config::text::{
    is_all_alphanumeric, is_all_graphic, parse_port, split_at_first_colon, trim, white_space,
};

fn no_env() -> ConfigEnv {
    ConfigEnv { host: None, service: None, user: None, password: None, token: None }
}

fn no_args() -> Args {
    Args {
        host: None,
        service: None,
        username: None,
        password: None,
        token: None,
        insecure_tls: false,
    }
}

fn s(text: &str) -> Option<String> {
    Some(text.to_string())
}

#[test]
fn trim_removes_white_space_at_both_ends() {
    assert_eq!(trim("  hello \t\n"), "hello");
    assert_eq!(trim("\u{3000}a b\u{a0}"), "a b");
    assert_eq!(trim("   "), "");
    assert_eq!(trim(""), "");
    for text in ["  a  ", "\u{2000}x\u{3000}", "", "b"] {
        assert_eq!(trim(&trim(text)), trim(text));
    }
    assert!(white_space('\u{2028}'));
    assert!(!white_space('x'));
}

#[test]
fn split_at_first_colon_keeps_later_colons() {
    assert_eq!(split_at_first_colon("example.com:8080"), ("example.com".to_string(), s("8080")));
    assert_eq!(split_at_first_colon("a:b:c"), ("a".to_string(), s("b:c")));
    assert_eq!(split_at_first_colon("plain"), ("plain".to_string(), None));
    assert_eq!(split_at_first_colon(":"), ("".to_string(), s("")));
    for text in ["host:1:2", "no-colon", ":x", "y:"] {
        let (head, tail) = split_at_first_colon(text);
        assert!(!head.contains(':'));
        match tail {
            Some(rest) => assert_eq!(format!("{head}:{rest}"), text),
            None => assert_eq!(head, text),
        }
    }
}

#[test]
fn parse_port_reads_u16_like_std() {
    for text in ["0", "80", "+443", "65535", "00080", "", "+", "-1", "65536", "8o", " 80", "99999999999"] {
        assert_eq!(parse_port(text), text.parse::<u16>().ok(), "{text:?}");
    }
    assert_eq!(parse_port("30330"), Some(30330));
}

#[test]
fn character_classes() {
    assert!(is_all_alphanumeric("User42"));
    assert!(is_all_alphanumeric(""));
    assert!(!is_all_alphanumeric("user_42"));
    assert!(is_all_graphic("p@ss!~"));
    assert!(!is_all_graphic("pass word"));
    assert!(!is_all_graphic("pässword"));
}

#[test]
fn defaults_without_any_setting() {
    let c = resolve_config(&no_env(), &no_args()).ok().unwrap();
    assert_eq!(c.tunnel_host, "127.0.0.1");
    assert_eq!(c.tunnel_host_port, 30330);
    assert_eq!(c.tunnel_service, "127.0.0.1");
    assert_eq!(c.tunnel_service_port, 80);
    assert!(c.tunnel_user.is_none() && c.tunnel_password.is_none() && c.tunnel_token.is_none());
    assert!(!c.tunnel_disable_certificate_check);
    assert!(credentials_missing(&c));
}

#[test]
fn environment_sets_endpoints_with_default_ports() {
    let env = ConfigEnv { host: s("tunnel.example.com"), service: s("localhost"), ..no_env() };
    let c = resolve_config(&env, &no_args()).ok().unwrap();
    assert_eq!(c.tunnel_host, "tunnel.example.com");
    assert_eq!(c.tunnel_host_port, 30330);
    assert_eq!(c.tunnel_service, "localhost");
    assert_eq!(c.tunnel_service_port, 80);
}

#[test]
fn command_line_overrides_environment() {
    let env = ConfigEnv {
        host: s("env.example.com:1000"),
        service: s("envservice:2000"),
        user: s("envuser"),
        password: s("envpass"),
        token: None,
    };
    let args = Args {
        host: s("arg.example.com:3000"),
        service: s("10.0.0.2:4000"),
        username: s("arguser"),
        password: None,
        token: None,
        insecure_tls: true,
    };
    let c = resolve_config(&env, &args).ok().unwrap();
    assert_eq!(c.tunnel_host, "arg.example.com");
    assert_eq!(c.tunnel_host_port, 3000);
    assert_eq!(c.tunnel_service, "10.0.0.2");
    assert_eq!(c.tunnel_service_port, 4000);
    assert_eq!(c.tunnel_user, s("arguser"));
    assert_eq!(c.tunnel_password, s("envpass"));
    assert!(c.tunnel_disable_certificate_check);
    assert!(!credentials_missing(&c));
}

#[test]
fn empty_credentials_are_dropped() {
    let env = ConfigEnv { user: s(""), password: s("pw"), token: s(""), ..no_env() };
    let args = Args { password: s(""), ..no_args() };
    let c = resolve_config(&env, &args).ok().unwrap();
    assert_eq!(c.tunnel_user, None);
    assert_eq!(c.tunnel_password, None);
    assert_eq!(c.tunnel_token, None);
}

#[test]
fn invalid_values_are_refused() {
    let bad_name = ConfigEnv { host: s("not a host:80"), ..no_env() };
    assert!(matches!(resolve_config(&bad_name, &no_args()), Err(ConfigError::InvalidDNSName)));
    let bad_port = ConfigEnv { service: s("localhost:http"), ..no_env() };
    match resolve_config(&bad_port, &no_args()) {
        Err(ConfigError::InvalidPort(text)) => assert_eq!(text, "http"),
        _ => panic!("expected InvalidPort"),
    }
    let too_big = Args { host: s("example.com:70000"), ..no_args() };
    assert!(matches!(resolve_config(&no_env(), &too_big), Err(ConfigError::InvalidPort(_))));
}

#[test]
fn service_argument_needs_a_port() {
    let args = Args { service: s("localhost"), ..no_args() };
    match resolve_config(&no_env(), &args) {
        Err(ConfigError::InvalidValue((name, variable))) => {
            assert_eq!(name, "service");
            assert_eq!(variable, "AQUEDUCT_SERVICE");
        }
        _ => panic!("expected InvalidValue"),
    }
    // the name is checked before the port
    let args = Args { service: s("bad name"), ..no_args() };
    assert!(matches!(resolve_config(&no_env(), &args), Err(ConfigError::InvalidDNSName)));
}

#[test]
fn parse_endpoint_accepts_ip_addresses() {
    match parse_endpoint("192.168.1.10:22", 30330, false) {
        Ok((name, port)) => {
            assert_eq!(name, "192.168.1.10");
            assert_eq!(port, 22);
        }
        Err(_) => panic!("expected an endpoint"),
    }
    assert!(matches!(parse_endpoint(":22", 30330, false), Err(ConfigError::InvalidDNSName)));
}

#[test]
fn complete_config_puts_in_entered_credentials() {
    let c = resolve_config(&no_env(), &no_args()).ok().unwrap();
    assert!(matches!(complete_config(c, None), Err(ConfigError::AuthenticationRequired)));

    let c = resolve_config(&no_env(), &no_args()).ok().unwrap();
    let c = complete_config(c, Some(TunnelCredential::Token("aq_x".to_string()))).ok().unwrap();
    assert_eq!(c.tunnel_token, s("aq_x"));

    let c = resolve_config(&no_env(), &no_args()).ok().unwrap();
    let entered = TunnelCredential::Password("alice".to_string(), "secret".to_string());
    let c = complete_config(c, Some(entered)).ok().unwrap();
    assert_eq!(c.tunnel_user, s("alice"));
    assert_eq!(c.tunnel_password, s("secret"));

    // credentials already given: nothing is asked, nothing is replaced
    let env = ConfigEnv { token: s("aq_given"), ..no_env() };
    let c = resolve_config(&env, &no_args()).ok().unwrap();
    let c = complete_config(c, None).ok().unwrap();
    assert_eq!(c.tunnel_token, s("aq_given"));
}

fn valid_token() -> String {
    format!("aq_{}", "1".repeat(43))
}

#[test]
fn token_form() {
    assert!(is_token(&valid_token()));
    assert!(is_token(&format!("aq_{}", "z".repeat(44))));
    assert!(!is_token(&format!("aq_{}", "1".repeat(42))));
    assert!(!is_token(&format!("aq_{}", "1".repeat(45))));
    assert!(!is_token(&format!("aq_{}0", "1".repeat(42))));
    assert!(!is_token(&format!("xx_{}", "1".repeat(43))));
}

#[test]
fn credential_prompt_selects_a_method() {
    assert!(matches!(
        credential_step(CredentialStage::SelectMethod, s(" 1 ")),
        DialogStep::Ask(CredentialStage::Username)
    ));
    assert!(matches!(
        credential_step(CredentialStage::SelectMethod, s("2\n")),
        DialogStep::Ask(CredentialStage::Token)
    ));
    assert!(matches!(
        credential_step(CredentialStage::SelectMethod, s("3")),
        DialogStep::Ask(CredentialStage::SelectMethod)
    ));
    assert!(matches!(credential_step(CredentialStage::SelectMethod, None), DialogStep::Abort));
}

#[test]
fn credential_prompt_password_path() {
    let step = credential_step(CredentialStage::Username, s("alice42 "));
    let stage = match step {
        DialogStep::Ask(stage @ CredentialStage::Password(_)) => stage,
        _ => panic!("expected the password prompt"),
    };
    assert!(matches!(
        credential_step(CredentialStage::Username, s("al ice")),
        DialogStep::Retry(CredentialStage::Username)
    ));
    match credential_step(stage, s("p@ss!")) {
        DialogStep::Done(TunnelCredential::Password(user, password)) => {
            assert_eq!(user, "alice42");
            assert_eq!(password, "p@ss!");
        }
        _ => panic!("expected credentials"),
    }
    assert!(matches!(
        credential_step(CredentialStage::Password("alice".to_string()), s("pä")),
        DialogStep::Retry(CredentialStage::Password(_))
    ));
}

#[test]
fn credential_prompt_token_path() {
    match credential_step(CredentialStage::Token, Some(format!("  {}  ", valid_token()))) {
        DialogStep::Done(TunnelCredential::Token(token)) => assert_eq!(token, valid_token()),
        _ => panic!("expected a token"),
    }
    assert!(matches!(
        credential_step(CredentialStage::Token, s("aq_short")),
        DialogStep::Retry(CredentialStage::Token)
    ));
    assert!(matches!(
        token_entered("anything".to_string(), false),
        DialogStep::Retry(CredentialStage::Token)
    ));
    assert!(matches!(
        token_entered("anything".to_string(), true),
        DialogStep::Done(TunnelCredential::Token(_))
    ));
}

#[test]
fn prompt_run_ends_with_accepted_credentials() {
    let lines = ["x", "2", "aq_short", "  aq_0000000000000000000000000000000000000000000"];
    let mut stage = CredentialStage::SelectMethod;
    for line in lines {
        match credential_step(stage, s(line)) {
            DialogStep::Ask(next) | DialogStep::Retry(next) => stage = next,
            _ => panic!("an invalid token must be refused"),
        }
    }
    assert!(matches!(stage, CredentialStage::Token));
    match credential_step(stage, Some(valid_token())) {
        DialogStep::Done(TunnelCredential::Token(t)) => {
            assert!(t.starts_with("aq_"));
            assert!(t.len() == 46 || t.len() == 47);
        }
        _ => panic!("expected a token"),
    }
}
