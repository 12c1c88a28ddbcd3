use rust_comm::basic;
use rust_comm::basic::bytes_to_vec;
use rust_comm::basic::Log;
use rust_comm::logger::Logr;
use rust_comm::logger::MuteLog;
use rust_comm::traits::Logger;
use rust_comm::traits::Msg;
use rust_comm::traits::MsgType;
use rust_comm::traits::Process;
use rust_comm::message::Message;
use rust_comm::message::HEADER_SIZE;
use rust_comm::processing::CommProcessing;

#[test]
fn it_works() {
    assert_eq!(2 + 2, 4);
}

#[test]
fn lib_it_works() {
    assert_eq!(2 + 2, 4);
}

#[test]
fn loggers_accept_text() {
    MuteLog::write("dropped");
    Logr::<MuteLog>::write("forwarded and dropped");
    basic::MuteLog::write("dropped");
    let _ = basic::MuteLog::new();
    let _ = basic::VerboseLog::new();
    let _ = <basic::MuteLog as Log>::default();
}

#[test]
fn processor_hook_runs() {
    let mut msg = Message::create_msg_str_fit("abc");
    msg.set_type(1);
    <CommProcessing<MuteLog> as Process<Message>>::process_message(&mut msg);
    assert_eq!(msg.get_type(), 2);
    let _ = CommProcessing::<MuteLog>::new();
}

#[test]
fn msg_trait_mirrors_the_inherent_interface() {
    let mut msg = <Message as Msg>::new(HEADER_SIZE + 3);
    assert_eq!(Msg::len(&msg), HEADER_SIZE + 3);
    assert!(!Msg::is_empty(&msg));
    Msg::set_type(&mut msg, 16);
    assert_eq!(Msg::get_type(&msg), 16);
    Msg::set_content_bytes(&mut msg, &[1, 2, 3]);
    assert_eq!(Msg::get_content_size(&msg), 3);
    assert_eq!(Msg::get_content_bytes(&msg), &[1, 2, 3][..]);
    Msg::set_content_str(&mut msg, "xyz");
    assert_eq!(Msg::get_content_str(&msg).unwrap(), "xyz");
    assert_eq!(Msg::type_display(&msg), "FLUSH");
    assert_eq!(Msg::get_bytes(&msg).len(), HEADER_SIZE + 3);
    assert_eq!(Msg::get_ref(&msg).len(), HEADER_SIZE + 3);
    Msg::init(&mut msg);
    assert_eq!(Msg::get_bytes(&msg), &[0u8; 12][..]);
}

#[test]
fn basic_message_type_is_guarded() {
    let mut msg = basic::Message::new();
    assert_eq!(msg.get_type().get_type(), basic::MessageType::TEXT);
    msg.set_type(basic::MessageType::END);
    assert_eq!(msg.get_type().get_type(), basic::MessageType::END);
    // an unknown value is ignored
    msg.set_type(3);
    assert_eq!(msg.get_type().get_type(), basic::MessageType::END);
    // the MsgType hook sees the same values
    let mut mt = msg.get_type();
    MsgType::set_type(&mut mt, basic::MessageType::QUIT);
    assert_eq!(MsgType::get_type(&mt), basic::MessageType::QUIT);
}

#[test]
fn basic_message_body_operations() {
    let mut msg = basic::Message::new();
    assert_eq!(msg.get_body_size(), 0);
    msg.set_body_str("hello");
    msg.set_body_str(" world");
    assert_eq!(msg.get_body_size(), 11);
    assert_eq!(msg.get_body_str(), "hello world");
    assert_eq!(msg.get_body(), &b"hello world".to_vec());
    msg.clear();
    assert_eq!(msg.get_body_size(), 0);
    msg.set_body_bytes(vec![104, 105]);
    assert_eq!(msg.get_body_str(), "hi");
    let copy = msg.clone();
    assert_eq!(copy.get_body(), msg.get_body());
}

#[test]
fn basic_message_lossy_body_text() {
    let mut msg = basic::Message::new();
    msg.set_body_bytes(vec![0xff, 104, 105]);
    assert_eq!(msg.get_body_str(), "\u{fffd}hi");
}

#[test]
fn basic_type_display_names() {
    let mut msg = basic::Message::new();
    assert_eq!(msg.type_display(), "TEXT");
    msg.set_type(basic::MessageType::BYTES);
    assert_eq!(msg.type_display(), "BYTES");
    msg.set_type(basic::MessageType::QUIT);
    assert_eq!(msg.type_display(), "END");
}

#[test]
fn bytes_to_vec_copies() {
    let v = bytes_to_vec(&[1, 2, 3]);
    assert_eq!(v, vec![1, 2, 3]);
    assert_eq!(bytes_to_vec(&[]), Vec::<u8>::new());
}
