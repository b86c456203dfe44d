use swap::codec::{decode, encode, EncryptedSignature, TransferProof, WireMessage};
use swap::session::{
    dial, quote_accepted, quote_xmr, DialAction, FailureKind, InboundEvent, OutEvent, SessionState,
};

fn all_messages() -> Vec<WireMessage> {
    vec![
        WireMessage::QuoteRequest { btc: 1_000_000 },
        WireMessage::QuoteResponse { xmr: 10_000_000_000_000 },
        WireMessage::TransferProof(TransferProof { tx_hash: 11, tx_key: 22 }),
        WireMessage::TransferProofAck,
        WireMessage::EncryptedSignature(EncryptedSignature { swap_id: 5, tx_redeem_encsig: 77 }),
        WireMessage::EncryptedSignatureAck,
    ]
}

#[test]
fn every_wire_message_round_trips() {
    for msg in all_messages() {
        let bytes = encode(&msg);
        assert_eq!(decode(&bytes), Some(msg));
    }
}

#[test]
fn extreme_field_values_round_trip() {
    let msg = WireMessage::QuoteRequest { btc: u64::MAX };
    assert_eq!(decode(&encode(&msg)), Some(msg));
    let msg = WireMessage::TransferProof(TransferProof { tx_hash: 0, tx_key: u64::MAX });
    assert_eq!(decode(&encode(&msg)), Some(msg));
}

#[test]
fn malformed_bytes_decode_to_nothing() {
    assert_eq!(decode(&vec![]), None);
    // Unknown tag.
    assert_eq!(decode(&vec![9]), None);
    // Truncated quote request.
    assert_eq!(decode(&vec![1, 0, 0, 0]), None);
    // Trailing byte after an ack.
    assert_eq!(decode(&vec![4, 0]), None);
}

#[test]
fn quote_request_has_a_known_layout() {
    let bytes = encode(&WireMessage::QuoteRequest { btc: 0x0102 });
    assert_eq!(bytes, vec![1, 0x02, 0x01, 0, 0, 0, 0, 0, 0]);
}

#[test]
fn dial_is_idempotent_while_connected() {
    let mut session = SessionState { connected: false };
    assert_eq!(dial(&mut session), DialAction::Reconnect);
    assert!(session.connected);

    // Connected: dialing again changes nothing and does no work.
    let before = session;
    assert_eq!(dial(&mut session), DialAction::KeepConnection);
    assert_eq!(session, before);
    assert_eq!(dial(&mut session), DialAction::KeepConnection);
    assert_eq!(session, before);
}

#[test]
fn inbound_request_carries_the_signature_through() {
    let msg = EncryptedSignature { swap_id: 5, tx_redeem_encsig: 77 };
    let event = InboundEvent::Request { peer: 3, msg, channel: 8 };
    assert_eq!(OutEvent::from(event), OutEvent::MsgReceived { peer: 3, msg, channel: 8 });
}

#[test]
fn wrong_direction_message_surfaces_as_failure() {
    assert_eq!(
        OutEvent::from(InboundEvent::Response { peer: 3 }),
        OutEvent::Failure { peer: 3, kind: FailureKind::UnexpectedResponse }
    );
    assert_eq!(
        OutEvent::from(InboundEvent::InboundFailure { peer: 3 }),
        OutEvent::Failure { peer: 3, kind: FailureKind::Inbound }
    );
    assert_eq!(
        OutEvent::from(InboundEvent::OutboundFailure { peer: 3 }),
        OutEvent::Failure { peer: 3, kind: FailureKind::Outbound }
    );
    assert_eq!(OutEvent::from(InboundEvent::ResponseSent { peer: 3 }), OutEvent::AckSent);
}

#[test]
fn quote_is_gated_by_max_buy() {
    assert!(quote_accepted(1_000_000, 1_000_000));
    assert!(!quote_accepted(1_000_001, 1_000_000));
}

#[test]
fn spot_quote_converts_satoshi_to_piconero() {
    // 1 000 000 sat at 10 000 000 piconero per satoshi buys 10 XMR.
    assert_eq!(quote_xmr(1_000_000, 10_000_000), Some(10_000_000_000_000));
    assert_eq!(quote_xmr(u64::MAX, 2), None);
}
