use am_bridge::data::{ATTR_FIELD_REPLY_EP, ATTR_FLAG_RNDV};
use am_bridge::registry::{AmPoll, DispatchStatus, Worker};
use am_bridge::send::{AmProto, Endpoint, SendOp, SEND_FLAG_REPLY};

// Model transport delivery: hand a built send to the receiving worker. The
// transport chooses the descriptor flags of the arrival; the reply endpoint
// handle accompanies it exactly when the send asked for reply capability.
fn deliver(
    w: &mut Worker,
    op: SendOp,
    desc_flags: u64,
    reply_handle: u64,
) -> Option<DispatchStatus> {
    let mut attr = desc_flags;
    let mut reply_ep = 0u64;
    if op.flags & SEND_FLAG_REPLY != 0 {
        attr |= ATTR_FIELD_REPLY_EP;
        reply_ep = reply_handle;
    }
    w.dispatch_arrival(op.id, op.header, op.payload, reply_ep, attr)
}

#[test]
fn am() {
    let mut worker1 = Worker::new();
    let mut worker2 = Worker::new();
    // endpoint2 is worker2's connection towards worker1; handle 7 names the
    // reverse direction that replies travel.
    let endpoint2 = Endpoint { handle: 21 };

    worker1.am_register(16);
    worker2.am_register(12);

    let header = vec![1u8, 2, 3, 4];
    let data = vec![1u8; 1 << 10];

    // send msg
    let op = endpoint2.am_send(16, header.clone(), data.clone(), true, None);
    let result = deliver(&mut worker1, op, 0, 7);
    assert!(result.is_some());

    // recv msg
    let mut msg = match worker1.am_recv(16) {
        AmPoll::Msg(m) => m,
        _ => panic!("no msg"),
    };
    assert_eq!(msg.header(), &header);
    assert_eq!(msg.contains_data(), true);
    assert_eq!(msg.data_len(), data.len());
    let recv_data = msg.recv_data().unwrap();
    assert_eq!(data, recv_data);
    assert_eq!(msg.contains_data(), false);

    // send reply
    let header = vec![1u8, 3, 9, 10];
    let data = vec![9u8; 1 << 20];
    let rop = msg
        .reply(12, header.clone(), data.clone(), false, Some(AmProto::Rndv))
        .unwrap();
    assert_eq!(rop.target, 7);
    let result = deliver(&mut worker2, rop, ATTR_FLAG_RNDV, 0);
    assert!(result.is_some());

    // recv reply
    let mut reply = match worker2.am_recv(12) {
        AmPoll::Msg(m) => m,
        _ => panic!("no reply"),
    };
    assert_eq!(reply.header(), &header);
    assert_eq!(reply.contains_data(), true);
    assert_eq!(reply.data_len(), data.len());
    let recv_data = reply.recv_data().unwrap();
    assert_eq!(data, recv_data);
    assert_eq!(reply.contains_data(), false);
}
