//! End-to-end scenarios run through the verified pipeline: post, FIFO
//! queue, framing on the wire, the handler's decisions, the processor, and
//! the reply path back.  The socket layer is replaced by the byte vectors
//! the codec produces and consumes.

use rust_comm::codec::decode_frame;
use rust_comm::codec::decode_frame_at;
use rust_comm::codec::encode_frame;
use rust_comm::codec::plan_send;
use rust_comm::message::Message;
use rust_comm::queue::FifoQueue;
use rust_comm::session::classify;
use rust_comm::session::make_end_message;
use rust_comm::session::make_quit_message;
use rust_comm::session::SessionControl;
use rust_comm::pool::WorkerPool;

/// The scenario processor: copy the content, set the type to REPLY.
fn echo_reply(msg: &Message) -> Message {
    let mut reply = Message::create_msg_bytes_fit(msg.get_content_bytes());
    reply.set_type(2);
    reply
}

/// Runs the server side over a client's outbound bytes: decodes frame by
/// frame, applies the handler decision, and returns the reply bytes and
/// what ended the loop.
fn serve(wire: &Vec<u8>) -> (Vec<u8>, Option<SessionControl>) {
    let mut reply_wire: Vec<u8> = Vec::new();
    let mut at = 0usize;
    while at < wire.len() {
        let (msg, used) = decode_frame_at(wire, at).unwrap();
        at += used;
        match classify(msg.get_type()) {
            SessionControl::EndSession => return (reply_wire, Some(SessionControl::EndSession)),
            SessionControl::QuitServer => return (reply_wire, Some(SessionControl::QuitServer)),
            SessionControl::Data => {
                let reply = echo_reply(&msg);
                reply_wire.extend_from_slice(&encode_frame(&reply));
            }
        }
    }
    (reply_wire, None)
}

#[test]
fn echo_scenario() {
    // a FLUSH "ping" comes back as REPLY "ping"
    let mut msg = Message::create_msg_str_fit("ping");
    msg.set_type(16);
    let plan = plan_send(&msg);
    assert!(plan.flush);
    let (reply_wire, ended) = serve(&plan.frame);
    assert_eq!(ended, None);
    let (reply, _) = decode_frame(&reply_wire).unwrap();
    assert_eq!(reply.get_type(), 2);
    assert_eq!(reply.get_content_str().unwrap(), "ping");
}

#[test]
fn end_scenario() {
    // after the echo, an END with empty content closes the session only
    let mut ping = Message::create_msg_str_fit("ping");
    ping.set_type(16);
    let mut wire = encode_frame(&ping);
    let end = make_end_message();
    let plan = plan_send(&end);
    assert!(plan.flush);
    assert!(plan.last);
    wire.extend_from_slice(&plan.frame);
    let (reply_wire, ended) = serve(&wire);
    assert_eq!(ended, Some(SessionControl::EndSession));
    // the ping was still answered before the session closed
    let (reply, used) = decode_frame(&reply_wire).unwrap();
    assert_eq!(used, reply_wire.len());
    assert_eq!(reply.get_content_str().unwrap(), "ping");
    // the pool keeps running: a new connection still gets served
    let mut pool: WorkerPool<u8> = WorkerPool::new(4);
    pool.post(1);
    assert!(pool.is_running());
    assert_eq!(pool.begin_work(), Some(1));
}

#[test]
fn quit_scenario() {
    // a QUIT with empty content shuts the listener down: the handler says
    // so, and a stopped pool accepts no further connection
    let quit = make_quit_message();
    let wire = encode_frame(&quit);
    let (reply_wire, ended) = serve(&wire);
    assert_eq!(ended, Some(SessionControl::QuitServer));
    assert!(reply_wire.is_empty());
    let mut pool: WorkerPool<u8> = WorkerPool::new(4);
    pool.stop();
    pool.post(1);
    assert_eq!(pool.begin_work(), None);
}

#[test]
fn concurrent_clients_scenario() {
    // 16 clients, 1000 FLUSH messages of 4096 bytes each: every client
    // gets its 1000 replies in posting order, 16000 replies in all
    let mut total_replies = 0usize;
    for client in 0..16u8 {
        let mut sendq: FifoQueue<Message> = FifoQueue::new();
        for i in 0..1000usize {
            let mut body = vec![client; 4096];
            body[0] = (i % 256) as u8;
            body[1] = (i / 256) as u8;
            let mut msg = Message::create_msg_bytes_fit(&body);
            msg.set_type(16);
            sendq.en_q(msg);
        }
        // the send worker drains the queue in FIFO order onto the wire
        let mut wire: Vec<u8> = Vec::new();
        for msg in sendq.drain() {
            let plan = plan_send(&msg);
            assert!(plan.flush);
            wire.extend_from_slice(&plan.frame);
        }
        let (reply_wire, ended) = serve(&wire);
        assert_eq!(ended, None);
        // the client reads its replies back in order
        let mut at = 0usize;
        for i in 0..1000usize {
            let (reply, used) = decode_frame_at(&reply_wire, at).unwrap();
            at += used;
            assert_eq!(reply.get_type(), 2);
            let body = reply.get_content_bytes();
            assert_eq!(body.len(), 4096);
            assert_eq!(body[0] as usize, i % 256);
            assert_eq!(body[1] as usize, i / 256);
            total_replies += 1;
        }
        assert_eq!(at, reply_wire.len());
    }
    assert_eq!(total_replies, 16000);
}
