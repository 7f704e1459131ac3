use wox_ui_shell::bridge::{backend_endpoint, TransportBridge};

#[test]
fn outbound_messages_cross_unmodified_in_order() {
    let mut b = TransportBridge::new();
    let msgs: Vec<Vec<u8>> = vec![b"query".to_vec(), b"".to_vec(), b"\x00\xffraw".to_vec()];
    let wires = b.relay_outbound_all(msgs.clone());
    assert_eq!(wires, msgs);
}

#[test]
fn inbound_messages_cross_unmodified_in_order() {
    let mut b = TransportBridge::new();
    let msgs: Vec<Vec<u8>> = vec![b"result".to_vec(), b"more".to_vec(), b"done".to_vec()];
    let delivered = b.relay_inbound_all(msgs.clone());
    assert_eq!(delivered, msgs);
}

#[test]
fn the_two_relays_are_independent() {
    let mut b = TransportBridge::new();
    let wire = b.relay_outbound(b"up".to_vec());
    assert_eq!(wire, b"up".to_vec());
    let delivered = b.relay_inbound(b"down".to_vec());
    assert_eq!(delivered, b"down".to_vec());
    let wire = b.relay_outbound(b"up again".to_vec());
    assert_eq!(wire, b"up again".to_vec());
}

#[test]
fn the_endpoint_is_localhost_with_the_port() {
    assert_eq!(backend_endpoint(34987), "localhost:34987");
    assert_eq!(backend_endpoint(40000), "localhost:40000");
    assert_eq!(backend_endpoint(0), "localhost:0");
}
