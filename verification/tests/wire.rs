use broadcast_server::decimal::render;
use broadcast_server::wire::{ack_line, login_line, outbound_line, relay_line, Message};

#[test]
fn render_single_digits() {
    assert_eq!(render(0), "0");
    assert_eq!(render(7), "7");
    assert_eq!(render(9), "9");
}

#[test]
fn render_has_no_leading_zero() {
    assert_eq!(render(10), "10");
    assert_eq!(render(100), "100");
    assert_eq!(render(1005), "1005");
    assert_eq!(render(8888), "8888");
}

#[test]
fn render_largest_identifier() {
    assert_eq!(render(65535), "65535");
}

#[test]
fn render_agrees_with_std_everywhere() {
    let mut n: u16 = 0;
    loop {
        assert_eq!(render(n), format!("{}", n));
        if n == u16::MAX {
            break;
        }
        n += 1;
    }
}

#[test]
fn login_line_names_the_identifier() {
    assert_eq!(login_line(51234), "LOGIN:51234\n");
    assert_eq!(login_line(0), "LOGIN:0\n");
}

#[test]
fn ack_line_is_fixed() {
    assert_eq!(ack_line(), "ACK:MESSAGE\n");
    assert_eq!(ack_line().as_bytes(), b"ACK:MESSAGE\n");
}

#[test]
fn relay_line_names_source_then_payload() {
    assert_eq!(relay_line(51234, "REQUEST"), "MESSAGE:51234 REQUEST\n");
}

#[test]
fn relay_line_keeps_payload_as_it_is() {
    assert_eq!(relay_line(1, ""), "MESSAGE:1 \n");
    assert_eq!(relay_line(2, "  two  words "), "MESSAGE:2   two  words \n");
    assert_eq!(relay_line(3, "héllo wörld ✓"), "MESSAGE:3 héllo wörld ✓\n");
}

#[test]
fn outbound_line_acknowledges_own_message() {
    let message = Message { payload: "REQUEST".to_string(), source: 4000 };
    assert_eq!(outbound_line(4000, &message), "ACK:MESSAGE\n");
}

#[test]
fn outbound_line_relays_message_of_another() {
    let message = Message { payload: "REQUEST".to_string(), source: 4000 };
    assert_eq!(outbound_line(4001, &message), "MESSAGE:4000 REQUEST\n");
}
