use chia::protocol as p;
use chia::protocol::{Bytes, ChiaProtocolMessage, ProtocolMessageTypes};
use chia::traits::Streamable;
use sage_core::codec::{Message, MAX_PAYLOAD_LEN};
use sage_core::error::ClientError;
use sage_core::request::{RequestKind, COIN_STATE_UPDATE, NEW_PEAK_WALLET, REQUEST_PEERS};

fn message(kind: u8, id: Option<u16>, payload: &[u8]) -> Message {
    Message { kind, id, payload: payload.to_vec() }
}

#[test]
fn encode_with_id_lays_out_every_field() {
    let frame = message(43, Some(0x0102), &[7, 8, 9]).encode().unwrap();
    assert_eq!(frame, vec![43, 1, 0x01, 0x02, 0, 0, 0, 3, 7, 8, 9]);
}

#[test]
fn encode_without_id_omits_the_id_bytes() {
    let frame = message(69, None, &[0xaa]).encode().unwrap();
    assert_eq!(frame, vec![69, 0, 0, 0, 0, 1, 0xaa]);
}

#[test]
fn encode_empty_payload() {
    assert_eq!(message(44, Some(65535), &[]).encode().unwrap(), vec![44, 1, 0xff, 0xff, 0, 0, 0, 0]);
}

#[test]
fn encode_length_is_big_endian() {
    let payload = vec![5u8; 0x01_02_03];
    let frame = message(1, None, &payload).encode().unwrap();
    assert_eq!(&frame[..6], &[1, 0, 0x00, 0x01, 0x02, 0x03]);
    assert_eq!(frame.len(), 6 + 0x01_02_03);
}

#[test]
fn decode_inverts_encode() {
    let cases = [
        message(0, None, &[]),
        message(255, Some(0), &[1]),
        message(43, Some(258), &[0, 1, 2, 3, 4, 5]),
        message(99, Some(65535), &[0xff; 300]),
        message(50, None, &[9; 70_000]),
    ];
    for sent in cases {
        let frame = sent.encode().unwrap();
        assert_eq!(Message::decode(&frame), Ok(sent));
    }
}

#[test]
fn encode_inverts_decode() {
    let frame = vec![98u8, 1, 0x12, 0x34, 0, 0, 0, 2, 0xde, 0xad];
    let decoded = Message::decode(&frame).unwrap();
    assert_eq!(decoded, message(98, Some(0x1234), &[0xde, 0xad]));
    assert_eq!(decoded.encode().unwrap(), frame);
}

#[test]
fn decode_rejects_short_reads() {
    assert_eq!(Message::decode(&[]), Err(ClientError::MalformedFrame));
    assert_eq!(Message::decode(&[43]), Err(ClientError::MalformedFrame));
    assert_eq!(Message::decode(&[43, 0]), Err(ClientError::MalformedFrame));
    assert_eq!(Message::decode(&[43, 0, 0, 0, 0]), Err(ClientError::MalformedFrame));
    assert_eq!(Message::decode(&[43, 1, 0]), Err(ClientError::MalformedFrame));
    assert_eq!(Message::decode(&[43, 1, 0, 5, 0, 0, 0]), Err(ClientError::MalformedFrame));
}

#[test]
fn decode_rejects_missing_payload_bytes() {
    assert_eq!(Message::decode(&[43, 0, 0, 0, 0, 3, 1, 2]), Err(ClientError::MalformedFrame));
}

#[test]
fn decode_rejects_trailing_bytes() {
    assert_eq!(Message::decode(&[43, 0, 0, 0, 0, 1, 1, 2]), Err(ClientError::MalformedFrame));
    assert_eq!(Message::decode(&[43, 1, 0, 1, 0, 0, 0, 0, 9]), Err(ClientError::MalformedFrame));
}

#[test]
fn decode_rejects_unknown_id_tag() {
    assert_eq!(Message::decode(&[43, 2, 0, 0, 0, 0]), Err(ClientError::MalformedFrame));
    assert_eq!(Message::decode(&[43, 255, 0, 1, 0, 0, 0, 0]), Err(ClientError::MalformedFrame));
}

#[test]
fn payload_at_the_cap_is_framed_and_one_more_byte_is_not() {
    assert_eq!(MAX_PAYLOAD_LEN, 64 * 1024 * 1024);
    let mut at_cap = Message { kind: 1, id: None, payload: vec![0u8; MAX_PAYLOAD_LEN] };
    let frame = at_cap.encode().unwrap();
    assert_eq!(frame.len(), MAX_PAYLOAD_LEN + 6);
    assert_eq!(&frame[..6], &[1, 0, 0x04, 0, 0, 0]);
    assert_eq!(Message::decode(&frame).unwrap().payload.len(), MAX_PAYLOAD_LEN);
    at_cap.payload.push(0);
    assert_eq!(at_cap.encode(), Err(ClientError::MalformedFrame));
}

#[test]
fn decode_rejects_declared_length_over_the_cap() {
    let mut frame = vec![1u8, 0, 0x04, 0, 0, 1];
    frame.extend(vec![0u8; MAX_PAYLOAD_LEN + 1]);
    assert_eq!(Message::decode(&frame), Err(ClientError::MalformedFrame));
}

#[test]
fn frames_agree_with_the_protocol_library() {
    let body = vec![1u8, 2, 3, 4, 5];
    let theirs = chia::protocol::Message::new(
        ProtocolMessageTypes::RequestPeers,
        Some(513),
        Bytes::new(body.clone()),
    );
    let ours = message(REQUEST_PEERS, Some(513), &body);
    assert_eq!(ours.encode().unwrap(), theirs.to_bytes().unwrap());

    let pushed = chia::protocol::Message::new(
        ProtocolMessageTypes::CoinStateUpdate,
        None,
        Bytes::new(body.clone()),
    );
    let decoded = Message::decode(&pushed.to_bytes().unwrap()).unwrap();
    assert_eq!(decoded, message(COIN_STATE_UPDATE, None, &body));

    let parsed = chia::protocol::Message::from_bytes(&ours.encode().unwrap()).unwrap();
    assert_eq!(parsed.msg_type, ProtocolMessageTypes::RequestPeers);
    assert_eq!(parsed.id, Some(513));
    assert_eq!(parsed.data.as_ref(), body.as_slice());
}

fn kinds<B: ChiaProtocolMessage, T: ChiaProtocolMessage>() -> (u8, u8) {
    (B::msg_type() as u8, T::msg_type() as u8)
}

#[test]
fn request_kinds_agree_with_the_protocol_library() {
    let table = [
        (RequestKind::SendTransaction, kinds::<p::SendTransaction, p::TransactionAck>(), None),
        (
            RequestKind::RequestPuzzleState,
            kinds::<p::RequestPuzzleState, p::RespondPuzzleState>(),
            Some(p::RejectPuzzleState::msg_type() as u8),
        ),
        (
            RequestKind::RequestCoinState,
            kinds::<p::RequestCoinState, p::RespondCoinState>(),
            Some(p::RejectCoinState::msg_type() as u8),
        ),
        (RequestKind::RegisterForPhUpdates, kinds::<p::RegisterForPhUpdates, p::RespondToPhUpdates>(), None),
        (
            RequestKind::RegisterForCoinUpdates,
            kinds::<p::RegisterForCoinUpdates, p::RespondToCoinUpdates>(),
            None,
        ),
        (
            RequestKind::RequestRemovePuzzleSubscriptions,
            kinds::<p::RequestRemovePuzzleSubscriptions, p::RespondRemovePuzzleSubscriptions>(),
            None,
        ),
        (
            RequestKind::RequestRemoveCoinSubscriptions,
            kinds::<p::RequestRemoveCoinSubscriptions, p::RespondRemoveCoinSubscriptions>(),
            None,
        ),
        (RequestKind::RequestTransaction, kinds::<p::RequestTransaction, p::RespondTransaction>(), None),
        (
            RequestKind::RequestPuzzleSolution,
            kinds::<p::RequestPuzzleSolution, p::RespondPuzzleSolution>(),
            Some(p::RejectPuzzleSolution::msg_type() as u8),
        ),
        (RequestKind::RequestChildren, kinds::<p::RequestChildren, p::RespondChildren>(), None),
        (RequestKind::RequestPeers, kinds::<p::RequestPeers, p::RespondPeers>(), None),
    ];
    for (request, (opcode, response), rejection) in table {
        assert_eq!(request.opcode(), opcode);
        assert_eq!(request.response(), response);
        assert_eq!(request.rejection(), rejection);
    }
    assert_eq!(COIN_STATE_UPDATE, p::CoinStateUpdate::msg_type() as u8);
    assert_eq!(NEW_PEAK_WALLET, p::NewPeakWallet::msg_type() as u8);
}
