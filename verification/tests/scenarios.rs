use sqs_replay::begin;
use sqs_replay::lookup_url;
use sqs_replay::replay;
use sqs_replay::step;
use sqs_replay::Action;
use sqs_replay::Event;
use sqs_replay::Message;
use sqs_replay::ReplayError;
use sqs_replay::State;
use sqs_replay::TransportError;

type Attributes = Vec<(String, String)>;

const NAME: &str = "orders-dlq";
const DLQ: &str = "https://queue/orders-dlq";
const SOURCE: &str = "S";

/// One call made on the queue service.
#[derive(Debug, Clone, PartialEq, Eq)]
enum Call {
    Resolve(String),
    List(String),
    Receive(String),
    Send(String, String),
    Delete(String, String),
}

/// A queue service held in memory that writes down every call.
struct Queues {
    sources: Vec<String>,
    dlq: Vec<Message<Attributes>>,
    source: Vec<(String, Option<Attributes>)>,
    calls: Vec<Call>,
    pauses: Vec<u64>,
    failing_receive: Option<usize>,
    failing_send: Option<usize>,
    failing_delete: Option<usize>,
    unheard_send: Option<usize>,
    unheard_delete: Option<usize>,
    receives: usize,
    sends: usize,
    deletes: usize,
}

impl Queues {
    fn holding(bodies: &[&str]) -> Queues {
        let mut dlq = Vec::new();
        for (i, body) in bodies.iter().enumerate() {
            dlq.push(Message {
                id: Some(format!("id-{}", i)),
                body: Some(body.to_string()),
                attributes: Some(vec![("n".to_string(), i.to_string())]),
                receipt_handle: Some(format!("handle-{}", i)),
            });
        }
        Queues {
            sources: vec![SOURCE.to_string()],
            dlq,
            source: Vec::new(),
            calls: Vec::new(),
            pauses: Vec::new(),
            failing_receive: None,
            failing_send: None,
            failing_delete: None,
            unheard_send: None,
            unheard_delete: None,
            receives: 0,
            sends: 0,
            deletes: 0,
        }
    }

    fn count(&self, wanted: fn(&Call) -> bool) -> usize {
        self.calls.iter().filter(|call| wanted(call)).count()
    }

    fn bodies_left(&self) -> Vec<String> {
        self.dlq.iter().map(|message| message.body.clone().unwrap_or_default()).collect()
    }

    fn bodies_delivered(&self) -> Vec<String> {
        self.source.iter().map(|delivery| delivery.0.clone()).collect()
    }

    fn perform(&mut self, action: Action<Attributes>) -> Event<Attributes> {
        match action {
            Action::ResolveName(name) => {
                self.calls.push(Call::Resolve(name.clone()));
                Event::NameResolved(Ok(if name == NAME { Some(DLQ.to_string()) } else { None }))
            }
            Action::ListSources(dlq) => {
                self.calls.push(Call::List(dlq.clone()));
                Event::SourcesListed(Ok(if dlq == DLQ { self.sources.clone() } else { vec![] }))
            }
            Action::Receive(request) => {
                assert_eq!(request.max_messages, 1);
                assert_eq!(request.wait_seconds, None);
                self.calls.push(Call::Receive(request.queue_url.clone()));
                self.receives += 1;
                if self.failing_receive == Some(self.receives) || request.queue_url != DLQ {
                    return Event::Received(Err(TransportError));
                }
                Event::Received(Ok(self.dlq.first().cloned()))
            }
            Action::Send(request) => {
                assert_eq!(request.deduplication_id, None);
                assert_eq!(request.group_id, None);
                self.calls.push(Call::Send(request.queue_url.clone(), request.body.clone()));
                self.sends += 1;
                if self.failing_send == Some(self.sends) || request.queue_url != SOURCE {
                    return Event::Sent(Err(TransportError));
                }
                self.source.push((request.body, request.attributes));
                if self.unheard_send == Some(self.sends) {
                    return Event::Sent(Err(TransportError));
                }
                Event::Sent(Ok(()))
            }
            Action::Delete(request) => {
                self.calls.push(Call::Delete(
                    request.queue_url.clone(),
                    request.receipt_handle.clone(),
                ));
                self.deletes += 1;
                if self.failing_delete == Some(self.deletes) || request.queue_url != DLQ {
                    return Event::Deleted(Err(TransportError));
                }
                let handle = Some(request.receipt_handle);
                let held = self.dlq.iter().position(|message| message.receipt_handle == handle);
                match held {
                    Some(index) => {
                        self.dlq.remove(index);
                        if self.unheard_delete == Some(self.deletes) {
                            return Event::Deleted(Err(TransportError));
                        }
                        Event::Deleted(Ok(()))
                    }
                    None => Event::Deleted(Err(TransportError)),
                }
            }
            Action::Pause(millis) => {
                self.pauses.push(millis);
                Event::Paused
            }
            Action::Stop => unreachable!("the driver does not perform a stop"),
        }
    }

    /// Runs a session to its end, as a driver would.
    fn drive(&mut self, start: (State, Action<Attributes>)) -> State {
        let (mut state, mut action) = start;
        let mut turns = 0;
        while action != Action::Stop {
            turns += 1;
            assert!(turns < 10_000, "the session does not end");
            let event = self.perform(action);
            let next = step(state, event);
            state = next.0;
            action = next.1;
        }
        assert!(state.is_final());
        state
    }
}

/// A session on the two addresses of the test queues.
fn replay_queues(delay: u64) -> (State, Action<Attributes>) {
    let dlq = lookup_url(Ok(Some(DLQ.to_string()))).expect("an address");
    let source = lookup_url(Ok(Some(SOURCE.to_string()))).expect("an address");
    replay(dlq, source, delay)
}

fn is_receive(call: &Call) -> bool {
    matches!(call, Call::Receive(_))
}

fn is_send(call: &Call) -> bool {
    matches!(call, Call::Send(_, _))
}

fn is_delete(call: &Call) -> bool {
    matches!(call, Call::Delete(_, _))
}

fn touches_messages(call: &Call) -> bool {
    is_receive(call) || is_send(call) || is_delete(call)
}

#[test]
fn two_messages_are_replayed_in_order() {
    let mut queues = Queues::holding(&["a", "b"]);
    let end = queues.drive(replay_queues(0));
    assert_eq!(end, State::Done);
    assert_eq!(
        queues.calls,
        vec![
            Call::Receive(DLQ.to_string()),
            Call::Send("S".to_string(), "a".to_string()),
            Call::Delete(DLQ.to_string(), "handle-0".to_string()),
            Call::Receive(DLQ.to_string()),
            Call::Send("S".to_string(), "b".to_string()),
            Call::Delete(DLQ.to_string(), "handle-1".to_string()),
            Call::Receive(DLQ.to_string()),
        ]
    );
    assert_eq!(queues.bodies_delivered(), vec!["a".to_string(), "b".to_string()]);
    assert!(queues.dlq.is_empty());
    assert_eq!(queues.pauses, vec![0, 0]);
}

#[test]
fn a_session_begun_by_name_resolves_then_replays() {
    let mut queues = Queues::holding(&["a", "b"]);
    let end = queues.drive(begin(NAME.to_string(), 0));
    assert_eq!(end, State::Done);
    assert_eq!(
        queues.calls,
        vec![
            Call::Resolve(NAME.to_string()),
            Call::List(DLQ.to_string()),
            Call::Receive(DLQ.to_string()),
            Call::Send("S".to_string(), "a".to_string()),
            Call::Delete(DLQ.to_string(), "handle-0".to_string()),
            Call::Receive(DLQ.to_string()),
            Call::Send("S".to_string(), "b".to_string()),
            Call::Delete(DLQ.to_string(), "handle-1".to_string()),
            Call::Receive(DLQ.to_string()),
        ]
    );
    assert_eq!(queues.bodies_delivered(), vec!["a".to_string(), "b".to_string()]);
    assert!(queues.dlq.is_empty());
}

#[test]
fn a_dlq_with_a_sibling_source_is_refused_before_any_message_moves() {
    let mut queues = Queues::holding(&["a", "b"]);
    queues.sources = vec![SOURCE.to_string(), "https://queue/sibling-dlq".to_string()];
    let end = queues.drive(begin(NAME.to_string(), 0));
    assert_eq!(end, State::Aborted(ReplayError::AmbiguousSource));
    assert_eq!(queues.calls, vec![Call::Resolve(NAME.to_string()), Call::List(DLQ.to_string())]);
    assert_eq!(queues.count(touches_messages), 0);
    assert_eq!(queues.bodies_left(), vec!["a".to_string(), "b".to_string()]);
    assert!(queues.source.is_empty());
    assert!(queues.pauses.is_empty());
}

#[test]
fn a_dlq_without_source_is_refused_before_any_message_moves() {
    let mut queues = Queues::holding(&["a"]);
    queues.sources = vec![];
    let end = queues.drive(begin(NAME.to_string(), 0));
    assert_eq!(end, State::Aborted(ReplayError::NoSourceFound));
    assert_eq!(queues.count(touches_messages), 0);
    assert_eq!(queues.bodies_left(), vec!["a".to_string()]);
    assert!(queues.source.is_empty());
}

#[test]
fn an_unknown_queue_name_ends_the_session_at_once() {
    let mut queues = Queues::holding(&["a"]);
    let end = queues.drive(begin("no-such-queue".to_string(), 0));
    assert_eq!(end, State::Aborted(ReplayError::LookupFailed));
    assert_eq!(queues.calls, vec![Call::Resolve("no-such-queue".to_string())]);
}

#[test]
fn draining_k_messages_takes_k_plus_one_receives() {
    for k in 0..12 {
        let bodies: Vec<String> = (0..k).map(|i| format!("body-{}", i)).collect();
        let borrowed: Vec<&str> = bodies.iter().map(|body| body.as_str()).collect();
        let mut queues = Queues::holding(&borrowed);
        let end = queues.drive(replay_queues(3));
        assert_eq!(end, State::Done);
        assert_eq!(queues.count(is_receive), k + 1);
        assert_eq!(queues.count(is_send), k);
        assert_eq!(queues.count(is_delete), k);
        assert_eq!(queues.pauses, vec![3; k]);
        assert_eq!(queues.bodies_delivered(), bodies);
        assert!(queues.dlq.is_empty());
    }
}

#[test]
fn an_empty_dlq_is_done_after_one_receive() {
    let mut queues = Queues::holding(&[]);
    let end = queues.drive(replay_queues(1000));
    assert_eq!(end, State::Done);
    assert_eq!(queues.calls, vec![Call::Receive(DLQ.to_string())]);
    assert!(queues.pauses.is_empty());
}

#[test]
fn forwarded_messages_keep_body_and_attributes() {
    let mut queues = Queues::holding(&[]);
    let attributes: Attributes = vec![
        ("content-type".to_string(), "application/json".to_string()),
        ("empty".to_string(), String::new()),
        ("unicode".to_string(), "\u{00e9}\u{4e2d}\u{1F980}".to_string()),
    ];
    queues.dlq.push(Message {
        id: None,
        body: Some("{\"order\": 17, \"note\": \"caf\u{00e9}\\n\"}".to_string()),
        attributes: Some(attributes.clone()),
        receipt_handle: Some("h-1".to_string()),
    });
    queues.dlq.push(Message {
        id: Some("second".to_string()),
        body: Some(String::new()),
        attributes: None,
        receipt_handle: Some("h-2".to_string()),
    });
    let end = queues.drive(replay_queues(0));
    assert_eq!(end, State::Done);
    assert_eq!(
        queues.source,
        vec![
            ("{\"order\": 17, \"note\": \"caf\u{00e9}\\n\"}".to_string(), Some(attributes)),
            (String::new(), None),
        ]
    );
}

#[test]
fn a_failed_forward_is_never_followed_by_a_delete() {
    let mut queues = Queues::holding(&["a", "b", "c"]);
    queues.failing_send = Some(1);
    let end = queues.drive(replay_queues(0));
    assert_eq!(end, State::Aborted(ReplayError::ForwardFailed));
    assert_eq!(queues.count(is_delete), 0);
    assert_eq!(
        queues.calls,
        vec![Call::Receive(DLQ.to_string()), Call::Send("S".to_string(), "a".to_string())]
    );
    assert_eq!(queues.bodies_left(), vec!["a".to_string(), "b".to_string(), "c".to_string()]);
}

#[test]
fn every_delete_comes_right_after_the_send_of_the_same_message() {
    let mut queues = Queues::holding(&["a", "b", "c", "d"]);
    queues.failing_send = Some(4);
    queues.drive(replay_queues(0));
    let mut deletes = 0;
    for (at, call) in queues.calls.iter().enumerate() {
        if let Call::Delete(_, handle) = call {
            deletes += 1;
            assert!(at >= 2);
            assert!(is_send(&queues.calls[at - 1]));
            assert!(is_receive(&queues.calls[at - 2]));
            assert_eq!(*handle, format!("handle-{}", deletes - 1));
        }
    }
    assert_eq!(deletes, 3);
}

#[test]
fn a_failed_forward_halts_the_remaining_messages() {
    let mut queues = Queues::holding(&["a", "b", "c"]);
    queues.failing_send = Some(2);
    let end = queues.drive(replay_queues(0));
    assert_eq!(end, State::Aborted(ReplayError::ForwardFailed));
    assert_eq!(queues.count(is_receive), 2);
    assert_eq!(queues.bodies_delivered(), vec!["a".to_string()]);
    assert_eq!(queues.bodies_left(), vec!["b".to_string(), "c".to_string()]);
    assert_eq!(queues.calls.last(), Some(&Call::Send("S".to_string(), "b".to_string())));
}

#[test]
fn a_failed_acknowledge_halts_the_remaining_messages() {
    let mut queues = Queues::holding(&["a", "b", "c"]);
    queues.failing_delete = Some(1);
    let end = queues.drive(replay_queues(0));
    assert_eq!(end, State::Aborted(ReplayError::AckFailed));
    assert_eq!(queues.count(is_receive), 1);
    assert_eq!(queues.bodies_delivered(), vec!["a".to_string()]);
    assert_eq!(queues.bodies_left(), vec!["a".to_string(), "b".to_string(), "c".to_string()]);
    assert!(queues.pauses.is_empty());
}

#[test]
fn a_failed_receive_halts_the_session() {
    let mut queues = Queues::holding(&["a", "b"]);
    queues.failing_receive = Some(2);
    let end = queues.drive(replay_queues(0));
    assert_eq!(end, State::Aborted(ReplayError::TransportFailed));
    assert_eq!(queues.bodies_delivered(), vec!["a".to_string()]);
    assert_eq!(queues.bodies_left(), vec!["b".to_string()]);
}

#[test]
fn a_message_without_body_halts_the_messages_behind_it() {
    let mut queues = Queues::holding(&["a", "b", "c"]);
    queues.dlq[1].body = None;
    let end = queues.drive(replay_queues(0));
    assert_eq!(end, State::Aborted(ReplayError::ForwardFailed));
    assert_eq!(queues.count(is_receive), 2);
    assert_eq!(queues.count(is_send), 1);
    assert_eq!(queues.bodies_delivered(), vec!["a".to_string()]);
    assert_eq!(queues.dlq.len(), 2);
}

#[test]
fn a_message_without_receipt_handle_is_left_on_both_queues() {
    let mut queues = Queues::holding(&["a", "b"]);
    queues.dlq[0].receipt_handle = None;
    let end = queues.drive(replay_queues(0));
    assert_eq!(end, State::Aborted(ReplayError::AckFailed));
    assert_eq!(queues.count(is_delete), 0);
    assert_eq!(queues.bodies_delivered(), vec!["a".to_string()]);
    assert_eq!(queues.bodies_left(), vec!["a".to_string(), "b".to_string()]);
}

#[test]
fn the_configured_delay_is_kept_after_every_message() {
    let mut queues = Queues::holding(&["a", "b", "c"]);
    let end = queues.drive(begin(NAME.to_string(), 1000));
    assert_eq!(end, State::Done);
    assert_eq!(queues.pauses, vec![1000, 1000, 1000]);
}

#[test]
fn a_send_whose_answer_is_lost_leaves_the_message_on_both_queues() {
    let mut queues = Queues::holding(&["a", "b", "c"]);
    queues.unheard_send = Some(2);
    let end = queues.drive(replay_queues(0));
    assert_eq!(end, State::Aborted(ReplayError::ForwardFailed));
    assert_eq!(queues.bodies_delivered(), vec!["a".to_string(), "b".to_string()]);
    assert_eq!(queues.bodies_left(), vec!["b".to_string(), "c".to_string()]);
    assert_eq!(queues.count(is_delete), 1);
}

#[test]
fn a_delete_whose_answer_is_lost_still_ends_the_session() {
    let mut queues = Queues::holding(&["a", "b", "c"]);
    queues.unheard_delete = Some(1);
    let end = queues.drive(replay_queues(0));
    assert_eq!(end, State::Aborted(ReplayError::AckFailed));
    assert_eq!(queues.bodies_delivered(), vec!["a".to_string()]);
    assert_eq!(queues.bodies_left(), vec!["b".to_string(), "c".to_string()]);
    assert_eq!(queues.count(is_receive), 1);
}

#[test]
fn no_message_is_lost_wherever_a_request_fails() {
    let bodies = ["a", "b", "c", "d"];
    let all: Vec<String> = bodies.iter().map(|body| body.to_string()).collect();
    for at in 1..=5 {
        for kind in 0..5 {
            let mut queues = Queues::holding(&bodies);
            match kind {
                0 => queues.failing_receive = Some(at),
                1 => queues.failing_send = Some(at),
                2 => queues.failing_delete = Some(at),
                3 => queues.unheard_send = Some(at),
                _ => queues.unheard_delete = Some(at),
            }
            queues.drive(replay_queues(0));
            let delivered = queues.bodies_delivered();
            let left = queues.bodies_left();
            let deleted = all.len() - left.len();
            assert!(deleted <= delivered.len());
            assert!(delivered.len() <= deleted + 1);
            assert_eq!(delivered, all[..delivered.len()].to_vec());
            assert_eq!(left, all[deleted..].to_vec());
        }
    }
}
