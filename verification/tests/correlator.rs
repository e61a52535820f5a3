//! The correlator: calls out, replies back, in any order.

use resonite_link::codec::Wire;
use resonite_link::controller::{ClientError, Correlator, Delivery, IdGenerator, Submission};
use resonite_link::json::{DecodeError, Json};
use resonite_link::messages::{Message, MessageWrapper};
use resonite_link::responses::{Response, ResponseKind};

fn get_root() -> Message {
    Message::new_get_slot("ROOT", 1, false)
}

fn make_response(kind: ResponseKind) -> Response {
    Response { source_message_id: None, success: false, error_info: None, kind }
}

fn make_error_response(error_info: &str) -> Response {
    Response {
        source_message_id: None,
        success: true,
        error_info: Some(error_info.into()),
        kind: ResponseKind::Response,
    }
}

/// Who waits for a call: in these tests, a name.
type Waiter = &'static str;

fn sent(submission: Submission<Waiter>) -> (String, Json) {
    match submission {
        Submission::Send { id, frame } => (id, frame),
        Submission::Refuse { error, .. } => panic!("refused: {error:?}"),
    }
}

/// What a service does with a frame: it reads the call and answers with the
/// canned reply under the id of the call.
fn answer(frame: &Json, mut canned: Response) -> (Message, Json) {
    let envelope = MessageWrapper::decode(frame).unwrap();
    canned.source_message_id = Some(envelope.message_id);
    (envelope.inner, canned.encode())
}

fn resolved(delivery: Delivery<Waiter>) -> (String, Waiter, Response) {
    match delivery {
        Delivery::Resolve { id, waiter, mut response } => {
            response.source_message_id = None;
            (id, waiter, response)
        }
        other => panic!("not resolved: {other:?}"),
    }
}

#[test]
fn two_calls_resolve_each_with_its_reply() {
    let mut link = Correlator::new(None);
    let (first, first_frame) = sent(link.submit(get_root(), "first caller"));
    let (second, second_frame) = sent(link.submit(get_root(), "second caller"));
    assert_ne!(first, second);
    assert_eq!(link.in_flight(), 2);

    let (first_call, first_reply) = answer(&first_frame, make_response(ResponseKind::Response));
    let (second_call, second_reply) = answer(&second_frame, make_error_response("Bad things!"));
    assert_eq!(vec![first_call, second_call], vec![get_root(), get_root()]);

    assert_eq!(
        resolved(link.receive(&first_reply)),
        (first, "first caller", make_response(ResponseKind::Response))
    );
    assert_eq!(
        resolved(link.receive(&second_reply)),
        (second, "second caller", make_error_response("Bad things!"))
    );
    assert_eq!(link.in_flight(), 0);
    assert!(link.close());
}

#[test]
fn replies_may_come_in_any_order() {
    let mut link = Correlator::new(Some("t"));
    let (first, first_frame) = sent(link.submit(get_root(), "first caller"));
    let (second, second_frame) = sent(link.submit(Message::new_get_component("C"), "second caller"));
    let (third, third_frame) = sent(link.submit(get_root(), "third caller"));
    assert_eq!((first.as_str(), second.as_str(), third.as_str()), ("t_0", "t_1", "t_2"));
    let (_, first_reply) = answer(&first_frame, make_response(ResponseKind::Response));
    let (_, second_reply) = answer(&second_frame, make_error_response("second"));
    let (_, third_reply) = answer(&third_frame, make_error_response("third"));

    assert_eq!(
        resolved(link.receive(&second_reply)),
        (second, "second caller", make_error_response("second"))
    );
    assert_eq!(link.in_flight(), 2);
    assert_eq!(
        resolved(link.receive(&third_reply)),
        (third, "third caller", make_error_response("third"))
    );
    assert_eq!(
        resolved(link.receive(&first_reply)),
        (first, "first caller", make_response(ResponseKind::Response))
    );
    assert_eq!(link.in_flight(), 0);
}

#[test]
fn a_reply_resolves_its_call_once() {
    let mut link = Correlator::new(Some("t"));
    let (_, frame) = sent(link.submit(get_root(), "caller"));
    let (_, reply) = answer(&frame, make_response(ResponseKind::Response));
    assert!(matches!(link.receive(&reply), Delivery::Resolve { waiter: "caller", .. }));
    let mut expected = make_response(ResponseKind::Response);
    expected.source_message_id = Some("t_0".into());
    assert_eq!(link.receive(&reply), Delivery::Unpaired(expected));
}

#[test]
fn the_frame_of_a_call_carries_its_id() {
    let mut link = Correlator::new(Some("t"));
    let (id, frame) = sent(link.submit(get_root(), "caller"));
    assert_eq!(
        frame,
        MessageWrapper { inner: get_root(), message_id: id }.encode()
    );
}

#[test]
fn frames_that_are_no_reply_are_dropped() {
    let mut link = Correlator::new(Some("t"));
    sent(link.submit(get_root(), "caller"));
    assert_eq!(link.receive(&Json::Null), Delivery::Undecodable(DecodeError::WrongType));
    assert_eq!(
        link.receive(&Json::Object(vec![])),
        Delivery::Undecodable(DecodeError::MissingField)
    );
    let nameless = make_response(ResponseKind::Response);
    assert_eq!(
        link.receive(&nameless.encode()),
        Delivery::Unpaired(make_response(ResponseKind::Response))
    );
    let mut stranger = make_response(ResponseKind::Response);
    stranger.source_message_id = Some("t_7".into());
    let frame = stranger.encode();
    assert_eq!(link.receive(&frame), Delivery::Unpaired(stranger));
    assert_eq!(link.in_flight(), 1);
    assert!(!link.is_closed());
}

#[test]
fn closing_leaves_calls_unanswered() {
    let mut link = Correlator::new(Some("t"));
    let (_, frame) = sent(link.submit(get_root(), "caller"));
    let (_, reply) = answer(&frame, make_response(ResponseKind::Response));
    assert!(!link.is_closed());
    assert!(link.close());
    assert!(link.is_closed());
    assert!(!link.close());
    assert!(link.is_closed());
    assert_eq!(link.in_flight(), 1);
    assert_eq!(link.receive(&reply), Delivery::Stopped);
    assert_eq!(link.in_flight(), 1);
    assert_eq!(
        link.submit(get_root(), "late caller"),
        Submission::Refuse { error: ClientError::ConnectionClosed, waiter: "late caller" }
    );
    assert_eq!(link.in_flight(), 1);
}

#[test]
fn a_call_that_cannot_be_written_out_fails() {
    let mut link = Correlator::new(Some("t"));
    let (kept, _) = sent(link.submit(get_root(), "patient caller"));
    let (id, _) = sent(link.submit(get_root(), "caller"));
    assert_eq!(
        link.abandon(&id, "key must be a string"),
        Some(("caller", ClientError::MessageRenderingError("key must be a string".into())))
    );
    assert_eq!(link.in_flight(), 1);
    assert_eq!(link.abandon(&id, "again"), None);
    let (next, _) = sent(link.submit(get_root(), "next caller"));
    assert_eq!(next, "t_2");
    assert_eq!(
        link.abandon(&kept, "late"),
        Some(("patient caller", ClientError::MessageRenderingError("late".into())))
    );
}

#[test]
fn a_connection_takes_its_ids_from_its_generator() {
    let mut ids = IdGenerator::new_with_prefix("g");
    ids.next();
    ids.next();
    let mut link = Correlator::with_ids(ids);
    assert_eq!(sent(link.submit(get_root(), "caller")).0, "g_2");
}

#[test]
fn errors_say_what_went_wrong() {
    assert_eq!(ClientError::ConnectionClosed.to_string(), "socket connection is closed");
    assert_eq!(
        ClientError::FailureToConnect("refused".into()).to_string(),
        "failed to connect to server refused"
    );
    assert_eq!(
        ClientError::MessageRenderingError("bad key".into()).to_string(),
        "outbound message is invalid bad key"
    );
    assert_eq!(ClientError::ConnectionClosed.debug_text(), "ConnectionClosed");
    assert_eq!(
        ClientError::FailureToConnect("refused".into()).debug_text(),
        "FailureToConnect(refused)"
    );
    assert_eq!(
        ClientError::MessageRenderingError("bad key".into()).debug_text(),
        "MessageRenderingError(bad key)"
    );
}
