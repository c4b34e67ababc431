use anycall::channel::{exchange_outcome, message_received, new_channel_pair, reply_sent, request_sent, send_reply, ChannelErr};
use anycall::coder::CborCoder;
use anycall::counter::CounterServerImpl;

fn encoded_request(a: i32, b: i32) -> Vec<u8> {
    let mut bytes = Vec::new();
    ciborium::into_writer(&(a, b), &mut bytes).unwrap();
    bytes
}

#[test]
fn test_counter_when_receiver_is_dropped() {
    let (sender, receiver) = new_channel_pair(CounterServerImpl, CborCoder);
    drop(receiver);
    let r = sender.exchange::<(), ()>(encoded_request(1, 1));
    assert!(matches!(r, Err(ChannelErr::SendReq(_))));
}

#[test]
fn receiving_after_every_sender_is_dropped_fails() {
    let (sender, receiver) = new_channel_pair(CounterServerImpl, CborCoder);
    drop(sender);
    let r = receiver.receive_request::<(), ()>();
    assert!(matches!(r, Err(ChannelErr::RecvResp(_))));
}

#[test]
fn replying_to_a_departed_client_fails() {
    let (reply_to, reply_from) = std::sync::mpsc::sync_channel::<Vec<u8>>(1);
    drop(reply_from);
    let r = send_reply::<(), ()>(reply_to, vec![1]);
    assert!(matches!(r, Err(ChannelErr::SendResp(_))));
}

#[test]
fn reply_reaches_the_waiting_client() {
    let (reply_to, reply_from) = std::sync::mpsc::sync_channel::<Vec<u8>>(1);
    let r = send_reply::<(), ()>(reply_to, vec![4, 2]);
    assert!(r.is_ok());
    assert_eq!(reply_from.recv().unwrap(), vec![4, 2]);
}

#[test]
fn channel_outcomes_map_to_their_errors() {
    let (reply_to, reply_from) = std::sync::mpsc::sync_channel::<Vec<u8>>(1);
    let (tx, rx) = std::sync::mpsc::channel::<(Vec<u8>, std::sync::mpsc::SyncSender<Vec<u8>>)>();
    drop(rx);
    let failed = tx.send((vec![1], reply_to));
    assert!(matches!(request_sent::<(), ()>(failed), Err(ChannelErr::SendReq(_))));
    assert!(matches!(request_sent::<(), ()>(Ok(())), Ok(())));
    assert!(matches!(message_received::<u8, (), ()>(Ok(3)), Ok(3)));
    drop(reply_from);
    let (lone_tx, lone_rx) = std::sync::mpsc::sync_channel::<Vec<u8>>(1);
    drop(lone_tx);
    assert!(matches!(
        message_received::<Vec<u8>, (), ()>(lone_rx.recv()),
        Err(ChannelErr::RecvResp(_))
    ));
    let (gone_tx, gone_rx) = std::sync::mpsc::sync_channel::<Vec<u8>>(1);
    drop(gone_rx);
    assert!(matches!(reply_sent::<(), ()>(gone_tx.send(vec![2])), Err(ChannelErr::SendResp(_))));
    assert!(matches!(reply_sent::<(), ()>(Ok(())), Ok(())));
}

#[test]
fn exchange_outcome_prefers_a_failed_send() {
    let (reply_to, _reply_from) = std::sync::mpsc::sync_channel::<Vec<u8>>(1);
    let (tx, rx) = std::sync::mpsc::channel::<(Vec<u8>, std::sync::mpsc::SyncSender<Vec<u8>>)>();
    drop(rx);
    let failed = tx.send((vec![1], reply_to));
    assert!(matches!(exchange_outcome::<(), ()>(failed, None), Err(ChannelErr::SendReq(_))));
    assert!(matches!(
        exchange_outcome::<(), ()>(Ok(()), Some(Ok(vec![9]))),
        Ok(ref b) if b == &vec![9]
    ));
}

#[test]
fn request_envelope_carries_the_request() {
    let (reply_to, reply_from) = std::sync::mpsc::sync_channel::<Vec<u8>>(1);
    let (bytes, back) = anycall::channel::request_envelope(vec![5, 6], reply_to);
    assert_eq!(bytes, vec![5, 6]);
    back.send(vec![7]).unwrap();
    assert_eq!(reply_from.recv().unwrap(), vec![7]);
}
