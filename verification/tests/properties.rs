use am_bridge::bridge::{
    classify_submit, completion_result, poll_recv, CompletionBridge, OpPoll, SubmitOutcome,
};
use am_bridge::data::{
    AmDataType, RawMsg, ATTR_FIELD_REPLY_EP, ATTR_FLAG_DATA, ATTR_FLAG_RNDV,
};
use am_bridge::msg::AmMsg;
use am_bridge::registry::{AmPoll, DispatchStatus, Worker};
use am_bridge::send::{AmProto, Endpoint};
use am_bridge::AmError;

fn msg_with(payload: Vec<u8>, attr: u64, reply_ep: u64) -> AmMsg {
    AmMsg::from_raw(RawMsg::from_raw(5, vec![9u8, 8], payload, reply_ep, attr))
}

#[test]
fn round_trip_eager_kind() {
    let payload = vec![3u8, 1, 4, 1, 5];
    let mut m = msg_with(payload.clone(), 0, 0);
    assert_eq!(m.data_type(), Some(AmDataType::Eager));
    assert_eq!(m.data_len(), payload.len());
    assert_eq!(m.get_data(), Some(&payload));
    assert_eq!(m.recv_data().unwrap(), payload);
}

#[test]
fn round_trip_borrowed_kind() {
    let payload = vec![2u8, 7, 1, 8];
    let mut m = msg_with(payload.clone(), ATTR_FLAG_DATA, 0);
    assert_eq!(m.data_type(), Some(AmDataType::Data));
    assert_eq!(m.data_len(), payload.len());
    assert_eq!(m.get_data(), Some(&payload));
    assert_eq!(m.recv_data().unwrap(), payload);
}

#[test]
fn round_trip_rndv_kind() {
    let payload = vec![1u8, 6, 1, 8, 0, 3];
    let mut m = msg_with(payload.clone(), ATTR_FLAG_RNDV, 0);
    assert_eq!(m.data_type(), Some(AmDataType::Rndv));
    assert_eq!(m.data_len(), payload.len());
    // a rendezvous payload is not readable before the pull
    assert_eq!(m.get_data(), None);
    assert_eq!(m.recv_data().unwrap(), payload);
}

#[test]
fn rndv_takes_precedence_over_data_flag() {
    let m = msg_with(vec![1u8], ATTR_FLAG_DATA | ATTR_FLAG_RNDV, 0);
    assert_eq!(m.data_type(), Some(AmDataType::Rndv));
}

#[test]
fn empty_payload_is_no_payload() {
    let mut m = msg_with(Vec::new(), ATTR_FLAG_DATA, 0);
    assert_eq!(m.contains_data(), false);
    assert_eq!(m.data_type(), None);
    assert_eq!(m.data_len(), 0);
    assert_eq!(m.recv_data().unwrap(), Vec::<u8>::new());
}

#[test]
fn retrieval_consumes_then_yields_empty() {
    let payload = vec![5u8; 16];
    let mut m = msg_with(payload.clone(), 0, 0);
    assert_eq!(m.recv_data().unwrap(), payload);
    // after a successful retrieval no payload is held
    assert_eq!(m.contains_data(), false);
    assert_eq!(m.data_len(), 0);
    // a second retrieval is empty, never an error
    assert_eq!(m.recv_data().unwrap(), Vec::<u8>::new());
    let mut buf = vec![7u8; 4];
    assert_eq!(m.recv_data_single(&mut buf).unwrap(), 0);
    assert_eq!(buf, vec![7u8; 4]);
}

#[test]
fn single_buffer_too_small_fails_and_keeps_payload() {
    let mut m = msg_with(vec![1u8, 2, 3, 4], 0, 0);
    let mut buf = vec![0u8; 3];
    assert_eq!(m.recv_data_single(&mut buf), Err(AmError::BufferTooSmall));
    assert_eq!(buf, vec![0u8; 3]);
    // a failed retrieval leaves the payload held (and releasable)
    assert_eq!(m.contains_data(), true);
    let mut buf = vec![0u8; 5];
    assert_eq!(m.recv_data_single(&mut buf).unwrap(), 4);
    assert_eq!(buf, vec![1u8, 2, 3, 4, 0]);
    assert_eq!(m.contains_data(), false);
}

#[test]
fn vectored_scatter_fills_regions_in_order() {
    let mut m = msg_with(vec![1u8, 2, 3, 4, 5, 6], ATTR_FLAG_DATA, 0);
    let mut iov = vec![vec![0u8; 2], vec![0u8; 3], vec![9u8; 4]];
    assert_eq!(m.recv_data_vectored(&mut iov).unwrap(), 6);
    assert_eq!(iov[0], vec![1u8, 2]);
    assert_eq!(iov[1], vec![3u8, 4, 5]);
    // the last region keeps its own remainder beyond the written prefix
    assert_eq!(iov[2], vec![6u8, 9, 9, 9]);
    assert_eq!(m.contains_data(), false);
}

#[test]
fn vectored_capacity_too_small_fails_whole() {
    let mut m = msg_with(vec![1u8, 2, 3, 4, 5, 6], 0, 0);
    let mut iov = vec![vec![0u8; 2], vec![0u8; 3]];
    assert_eq!(m.recv_data_vectored(&mut iov), Err(AmError::BufferTooSmall));
    assert_eq!(iov[0], vec![0u8; 2]);
    assert_eq!(iov[1], vec![0u8; 3]);
    assert_eq!(m.contains_data(), true);
}

#[test]
fn fifo_per_id() {
    let mut w = Worker::new();
    w.am_register(3);
    // two senders, one id: arrival order is delivery order
    assert!(w.dispatch_arrival(3, vec![b'a'], vec![1u8], 0, 0).is_some());
    assert!(w.dispatch_arrival(3, vec![b'b'], vec![2u8], 0, 0).is_some());
    match w.am_recv(3) {
        AmPoll::Msg(m) => assert_eq!(m.header(), &vec![b'a']),
        _ => panic!("expected first message"),
    }
    match w.am_recv(3) {
        AmPoll::Msg(m) => assert_eq!(m.header(), &vec![b'b']),
        _ => panic!("expected second message"),
    }
    assert!(matches!(w.am_recv(3), AmPoll::Wait));
}

#[test]
fn unregister_drains_exactly_then_finishes() {
    let mut w = Worker::new();
    w.am_register(8);
    for k in 0u8..3 {
        assert!(w.dispatch_arrival(8, vec![k], vec![k; 2], 0, 0).is_some());
    }
    w.am_unregister(8);
    // no new arrival can appear after unregistration
    assert!(w.dispatch_arrival(8, vec![99u8], vec![9u8], 0, 0).is_none());
    // exactly the three queued envelopes drain, in arrival order
    for k in 0u8..3 {
        match w.am_recv(8) {
            AmPoll::Msg(m) => assert_eq!(m.header(), &vec![k]),
            _ => panic!("expected a drained message"),
        }
    }
    // then no message will ever come
    assert!(matches!(w.am_recv(8), AmPoll::Finished));
    assert!(matches!(w.am_recv(8), AmPoll::Finished));
}

#[test]
fn recv_on_unknown_id_finishes() {
    let mut w = Worker::new();
    assert!(matches!(w.am_recv(42), AmPoll::Finished));
}

#[test]
fn register_is_idempotent() {
    let mut w = Worker::new();
    w.am_register(4);
    assert!(w.dispatch_arrival(4, vec![1u8], Vec::new(), 0, 0).is_some());
    // a second registration leaves the live handler exactly as it is
    w.am_register(4);
    assert!(matches!(w.am_recv(4), AmPoll::Msg(_)));
    assert!(matches!(w.am_recv(4), AmPoll::Wait));
}

#[test]
fn reregistration_after_unregister_starts_fresh() {
    let mut w = Worker::new();
    w.am_register(6);
    w.am_unregister(6);
    assert!(matches!(w.am_recv(6), AmPoll::Finished));
    w.am_register(6);
    assert!(matches!(w.am_recv(6), AmPoll::Wait));
    assert!(w.dispatch_arrival(6, vec![1u8], vec![2u8], 0, 0).is_some());
    assert!(matches!(w.am_recv(6), AmPoll::Msg(_)));
}

#[test]
fn dispatch_status_answers_ownership() {
    let mut w = Worker::new();
    w.am_register(1);
    assert_eq!(
        w.dispatch_arrival(1, vec![0u8], vec![1u8], 0, 0),
        Some(DispatchStatus::Consumed)
    );
    assert_eq!(
        w.dispatch_arrival(1, vec![0u8], vec![1u8], 0, ATTR_FLAG_DATA),
        Some(DispatchStatus::Deferred)
    );
    assert_eq!(
        w.dispatch_arrival(1, vec![0u8], vec![1u8], 0, ATTR_FLAG_RNDV),
        Some(DispatchStatus::Deferred)
    );
}

#[test]
fn reply_gating_rejects_without_capability() {
    // no reply bit and no target
    let m = msg_with(vec![1u8], 0, 0);
    assert!(!m.need_reply());
    assert_eq!(
        m.reply(2, vec![1u8], vec![2u8], false, None).err(),
        Some(AmError::PreconditionViolated)
    );
    // reply bit set but the target handle is null: still gated
    let m = msg_with(vec![1u8], ATTR_FIELD_REPLY_EP, 0);
    assert!(!m.need_reply());
    assert!(m.reply_vectorized(2, vec![1u8], vec![vec![2u8]], false, None).is_err());
}

#[test]
fn reply_goes_to_the_reply_target() {
    let m = msg_with(vec![1u8], ATTR_FIELD_REPLY_EP, 77);
    assert!(m.need_reply());
    let op = m.reply(2, vec![5u8], vec![6u8, 7], true, None).unwrap();
    assert_eq!(op.target, 77);
    assert_eq!(op.id, 2);
    assert_eq!(op.header, vec![5u8]);
    assert_eq!(op.payload, vec![6u8, 7]);
}

#[test]
fn send_flags_are_exact() {
    let ep = Endpoint { handle: 1 };
    assert_eq!(ep.am_send(1, vec![], vec![], false, None).flags, 0);
    assert_eq!(ep.am_send(1, vec![], vec![], true, None).flags, 1);
    assert_eq!(ep.am_send(1, vec![], vec![], false, Some(AmProto::Eager)).flags, 2);
    assert_eq!(ep.am_send(1, vec![], vec![], true, Some(AmProto::Eager)).flags, 3);
    assert_eq!(ep.am_send(1, vec![], vec![], false, Some(AmProto::Rndv)).flags, 4);
    assert_eq!(ep.am_send(1, vec![], vec![], true, Some(AmProto::Rndv)).flags, 5);
}

#[test]
fn vectorized_send_concatenates_regions() {
    let ep = Endpoint { handle: 9 };
    let op = ep.am_send_vectorized(
        2,
        vec![0u8],
        vec![vec![1u8, 2], vec![3u8], Vec::new(), vec![4u8, 5]],
        false,
        None,
    );
    assert_eq!(op.payload, vec![1u8, 2, 3, 4, 5]);
    assert_eq!(op.target, 9);
}

#[test]
fn release_obligation_tracked_and_discharged() {
    let mut m = msg_with(vec![1u8, 2], ATTR_FLAG_DATA, 0);
    assert!(m.needs_release());
    m.discard_payload();
    assert!(!m.needs_release());
    assert!(!m.contains_data());

    let mut m = msg_with(vec![1u8, 2], ATTR_FLAG_RNDV, 0);
    assert!(m.needs_release());
    assert_eq!(m.recv_data().unwrap(), vec![1u8, 2]);
    assert!(!m.needs_release());

    let m = msg_with(vec![1u8, 2], 0, 0);
    assert!(!m.needs_release());
}

#[test]
fn submit_outcomes_classified() {
    assert_eq!(classify_submit(0), SubmitOutcome::Completed);
    assert_eq!(classify_submit(5), SubmitOutcome::Pending(5));
    assert_eq!(classify_submit(-3), SubmitOutcome::Failed(-3));
    assert_eq!(completion_result(0), Ok(()));
    assert_eq!(completion_result(-3), Err(AmError::TransportFailure(-3)));
    assert_eq!(poll_recv(1), OpPoll::Pending);
    assert_eq!(poll_recv(0), OpPoll::Ready);
    assert_eq!(poll_recv(-5), OpPoll::Ready);
}

#[test]
fn completion_bridge_resolves_once() {
    // immediate success: resolved by the submission itself
    let mut b = CompletionBridge::new();
    assert_eq!(b.take_result(), None);
    assert_eq!(b.submit(0), SubmitOutcome::Completed);
    assert_eq!(b.take_result(), Some(Ok(())));

    // pending, then resolved by the callback with a failure status
    let mut b = CompletionBridge::new();
    assert_eq!(b.submit(8), SubmitOutcome::Pending(8));
    assert_eq!(b.take_result(), None);
    b.park();
    b.complete(-7);
    assert!(!b.waiting);
    assert_eq!(b.take_result(), Some(Err(AmError::TransportFailure(-7))));
}
