use atem_core::connection::{pump_step, relay_step, status_after_pump, PumpStep, StateUpdate};
use atem_core::{resolve_udp_target, ClientError, ConnectionStatus};

fn octets_of(ip: &str) -> Option<(u8, u8, u8, u8)> {
    match resolve_udp_target(ip, 9910) {
        Ok(t) => {
            assert_eq!(t.port, 9910);
            Some(t.octets)
        }
        Err(ClientError::InvalidIp(text)) => {
            assert_eq!(text, ip);
            None
        }
        Err(ClientError::Necromancer(_)) => panic!("parsing never reports a protocol error"),
    }
}

#[test]
fn accepts_a_plain_address() {
    assert_eq!(octets_of("192.168.1.50"), Some((192, 168, 1, 50)));
}

#[test]
fn accepts_the_extreme_addresses() {
    assert_eq!(octets_of("0.0.0.0"), Some((0, 0, 0, 0)));
    assert_eq!(octets_of("255.255.255.255"), Some((255, 255, 255, 255)));
    assert_eq!(octets_of("10.0.100.9"), Some((10, 0, 100, 9)));
}

#[test]
fn keeps_the_port() {
    let t = resolve_udp_target("1.2.3.4", 1).ok().unwrap();
    assert_eq!(t.port, 1);
    assert_eq!(t.octets, (1, 2, 3, 4));
}

#[test]
fn refuses_an_octet_over_255() {
    assert_eq!(octets_of("256.1.1.1"), None);
    assert_eq!(octets_of("1.2.3.999"), None);
}

#[test]
fn refuses_leading_zeros() {
    assert_eq!(octets_of("01.2.3.4"), None);
    assert_eq!(octets_of("1.2.3.00"), None);
}

#[test]
fn refuses_a_wrong_number_of_fields() {
    assert_eq!(octets_of("1.2.3"), None);
    assert_eq!(octets_of("1.2.3.4.5"), None);
    assert_eq!(octets_of(""), None);
    assert_eq!(octets_of("1..2.3"), None);
    assert_eq!(octets_of("1.2.3."), None);
}

#[test]
fn refuses_other_characters() {
    assert_eq!(octets_of("a.b.c.d"), None);
    assert_eq!(octets_of(" 1.2.3.4"), None);
    assert_eq!(octets_of("1.2.3.4 "), None);
    assert_eq!(octets_of("+1.2.3.4"), None);
    assert_eq!(octets_of("1.2.3.4:9910"), None);
    assert_eq!(octets_of("localhost"), None);
}

#[test]
fn refuses_four_digit_fields() {
    assert_eq!(octets_of("0001.2.3.4"), None);
    assert_eq!(octets_of("1.2.3.0255"), None);
}

#[test]
fn mixed_samples() {
    let samples = [
        ("9.99.199.249", Some((9, 99, 199, 249))),
        (".", None),
        ("...", None),
        ("1.-1.1.1", None),
        ("1.1.1.1x", None),
        ("00.0.0.0", None),
        ("1.1.1.1.", None),
    ];
    for (s, expected) in samples {
        assert_eq!(octets_of(s), expected, "{s}");
    }
}

#[test]
fn dotted_quads_round_trip() {
    for (a, b, c, d) in [(0u8, 0u8, 0u8, 0u8), (9, 10, 99, 100), (255, 254, 1, 200), (192, 168, 1, 50)] {
        let text = format!("{a}.{b}.{c}.{d}");
        assert_eq!(octets_of(&text), Some((a, b, c, d)));
    }
}

#[test]
fn snapshot_pump_decisions() {
    assert_eq!(pump_step(StateUpdate::Changed), PumpStep::Publish);
    assert_eq!(pump_step(StateUpdate::Lagged), PumpStep::Skip);
    assert_eq!(pump_step(StateUpdate::Closed), PumpStep::Stop);
    assert_eq!(status_after_pump(), ConnectionStatus::Disconnected);
}

#[test]
fn relay_pump_decisions() {
    assert_eq!(relay_step(true), PumpStep::Publish);
    assert_eq!(relay_step(false), PumpStep::Stop);
}
