use koek::{
    Displayed, IpAddress, Ipv4Address, Ipv6Address, Redactable, Render, DEFAULT_REDACTED_VALUE,
};
use std::fmt::Display;

#[test]
fn can_redact_string() {
    let value = String::from("qax qex qqx");
    let redacted = value.redacted();

    assert_ne!(value, redacted);
    assert_eq!(DEFAULT_REDACTED_VALUE, redacted);
}

#[test]
fn can_redact_integer() {
    let value = 1234;
    let redacted = value.redacted();

    assert_ne!(value.to_string(), redacted);
    assert_ne!(value.render(), redacted);
    assert_eq!(DEFAULT_REDACTED_VALUE, redacted);
}

#[test]
fn can_redact_float() {
    let value = Displayed(12.34);
    let redacted = value.redacted();

    assert_ne!(value.0.to_string(), redacted);
    assert_ne!(value.render(), redacted);
    assert_eq!(DEFAULT_REDACTED_VALUE, redacted);
}

#[test]
fn can_redact_ipv4() {
    let value = Ipv4Address::new(1, 2, 3, 4);
    let redacted = value.redacted();

    assert_ne!(value.render(), redacted);
    assert_eq!("1.2.3.xxx", redacted);
}

#[test]
fn can_redact_ipv6() {
    let value = Ipv6Address::new(1, 2, 3, 4, 5, 6, 7, 8);
    let redacted = value.redacted();

    assert_ne!(value.render(), redacted);
    assert_eq!(DEFAULT_REDACTED_VALUE, redacted);
}

#[test]
fn can_redact_ip() {
    let value = IpAddress::V4(Ipv4Address::new(1, 2, 3, 4));
    let redacted = value.redacted();

    assert_ne!(value.render(), redacted);
    assert_eq!("1.2.3.xxx", redacted);
}

struct CustomSecretStructViaDisplay {
    tell_noone: String,
}

impl Display for CustomSecretStructViaDisplay {
    fn fmt(&self, f: &mut std::fmt::Formatter<'_>) -> std::fmt::Result {
        f.write_str(&self.tell_noone)
    }
}

#[test]
fn can_redact_custom_struct_via_display() {
    let value = Displayed(CustomSecretStructViaDisplay {
        tell_noone: String::from("the secret value"),
    });
    let redacted = value.redacted();

    assert_eq!("the secret value", value.render());
    assert_ne!(value.0.to_string(), redacted);
    assert_eq!(DEFAULT_REDACTED_VALUE, redacted);
}

struct CustomSecretStructViaCustomLogic {
    first_name: String,
    last_name: String,
}

impl Display for CustomSecretStructViaCustomLogic {
    fn fmt(&self, f: &mut std::fmt::Formatter<'_>) -> std::fmt::Result {
        f.write_str(&format!("{} {}", &self.first_name, &self.last_name))
    }
}

impl Redactable for CustomSecretStructViaCustomLogic {
    fn redacted(&self) -> String {
        format!("{}. {}.", &self.first_name[0..1], &self.last_name[0..1])
    }
}

#[test]
fn can_redact_custom_struct_via_custom_logic() {
    let value = CustomSecretStructViaCustomLogic {
        first_name: String::from("Firstname"),
        last_name: String::from("Lastname"),
    };
    let redacted = value.redacted();

    assert_ne!(value.to_string(), redacted);
    assert_eq!("F. L.", redacted);
}

struct Plain {
    content: String,
}

impl Render for Plain {
    fn render(&self) -> String {
        self.content.clone()
    }
}

impl Redactable for Plain {}

#[test]
fn a_type_that_brings_no_rule_is_masked() {
    let value = Plain {
        content: String::from("the secret value"),
    };
    let redacted = value.redacted();

    assert_ne!(value.render(), redacted);
    assert_eq!(DEFAULT_REDACTED_VALUE, redacted);
}
