use translator::queue::{Received, RequestQueue};
use translator::translation_api::translation_text;
use translator::translator::{translate_outcome, TranslationModelResult, TranslatorError};
use translator::worker::{Dequeued, WorkerAction, WorkerEvent, WorkerState};

/// A request as the test driver queues it: the text and the caller's id.
type Request = (String, usize);

/// Drives the worker loop on one thread, as the actor's thread would, and
/// records each delivered reply against its caller's id. The stop signal
/// reads as set from the `stop_from`-th check on; callers listed in
/// `abandoned` have dropped their reply slots.
fn drive(
    queue: &mut RequestQueue<Request>,
    load: Result<(), TranslatorError>,
    model: fn(&str) -> TranslationModelResult,
    stop_from: Option<usize>,
    abandoned: &[usize],
    replies: &mut Vec<(usize, TranslationModelResult)>,
) -> (Result<(), TranslatorError>, usize) {
    let (mut state, mut action) = WorkerState::start();
    let mut in_hand: Option<Request> = None;
    let mut checks = 0usize;
    let mut translated = 0usize;
    let mut load = Some(load);
    loop {
        let event = match action {
            WorkerAction::LoadModel => match load.take().unwrap() {
                Ok(()) => WorkerEvent::LoadSucceeded,
                Err(e) => WorkerEvent::LoadFailed(e),
            },
            WorkerAction::CheckStop => {
                let set = matches!(stop_from, Some(k) if checks >= k);
                checks += 1;
                WorkerEvent::StopChecked(set)
            }
            WorkerAction::Dequeue => match queue.try_recv() {
                Received::Message(m) => {
                    in_hand = Some(m);
                    WorkerEvent::Dequeued(Dequeued::Message)
                }
                Received::Empty => WorkerEvent::Dequeued(Dequeued::Empty),
                Received::Disconnected => WorkerEvent::Dequeued(Dequeued::Disconnected),
            },
            WorkerAction::TranslateAndReply => {
                let (text, id) = in_hand.take().unwrap();
                translated += 1;
                let result = model(&text);
                let delivered = !abandoned.contains(&id);
                if delivered {
                    replies.push((id, result));
                }
                WorkerEvent::ReplyWritten(delivered)
            }
            WorkerAction::Exit(outcome) => return (outcome, translated),
        };
        assert!(state.expects(&event));
        let (s, a) = state.step(event);
        state = s;
        action = a;
    }
}

fn uppercase_stub(text: &str) -> TranslationModelResult {
    Ok(text.to_uppercase().split(' ').map(|s| s.to_string()).collect())
}

fn failing_stub(text: &str) -> TranslationModelResult {
    if text == "bad" {
        Err(TranslatorError::RustBertError("inference failed".to_string()))
    } else {
        uppercase_stub(text)
    }
}

#[test]
fn end_to_end_uppercase_stub() {
    let mut q: RequestQueue<Request> = RequestQueue::new(100);
    assert!(q.try_send(("hello world".to_string(), 0)).is_ok());
    q.drop_sender();
    let mut replies = Vec::new();
    let (outcome, n) = drive(&mut q, Ok(()), uppercase_stub, None, &[], &mut replies);
    assert_eq!(outcome, Ok(()));
    assert_eq!(n, 1);
    let (id, reply) = replies.remove(0);
    assert_eq!(id, 0);
    let segments = translate_outcome(true, Some(reply)).unwrap();
    assert_eq!(segments, vec!["HELLO".to_string(), "WORLD".to_string()]);
    assert_eq!(translation_text(&segments), "HELLO WORLD");
}

#[test]
fn stop_with_no_requests_completes() {
    let mut q: RequestQueue<Request> = RequestQueue::new(100);
    let mut replies = Vec::new();
    let (outcome, n) = drive(&mut q, Ok(()), uppercase_stub, Some(0), &[], &mut replies);
    assert_eq!(outcome, Ok(()));
    assert_eq!(n, 0);
    assert!(replies.is_empty());
}

#[test]
fn in_flight_request_is_answered_before_stop() {
    let mut q: RequestQueue<Request> = RequestQueue::new(100);
    assert!(q.try_send(("ciao".to_string(), 3)).is_ok());
    assert!(q.try_send(("later".to_string(), 4)).is_ok());
    let mut replies = Vec::new();
    let (outcome, n) = drive(&mut q, Ok(()), uppercase_stub, Some(1), &[], &mut replies);
    assert_eq!(outcome, Ok(()));
    assert_eq!(n, 1);
    assert_eq!(replies, vec![(3, Ok(vec!["CIAO".to_string()]))]);
    assert_eq!(q.len(), 1);
}

#[test]
fn replies_follow_request_order() {
    let mut q: RequestQueue<Request> = RequestQueue::new(100);
    let texts = ["a b", "c", "d e f", "g"];
    for (i, t) in texts.iter().enumerate() {
        assert!(q.try_send((t.to_string(), i)).is_ok());
    }
    q.drop_sender();
    let mut replies = Vec::new();
    let (outcome, _) = drive(&mut q, Ok(()), uppercase_stub, None, &[], &mut replies);
    assert_eq!(outcome, Ok(()));
    let ids: Vec<usize> = replies.iter().map(|(id, _)| *id).collect();
    assert_eq!(ids, vec![0, 1, 2, 3]);
    assert_eq!(replies[2].1, Ok(vec!["D".to_string(), "E".to_string(), "F".to_string()]));
    assert_eq!(replies[3].1, Ok(vec!["G".to_string()]));
}

#[test]
fn abandoned_reply_does_not_stop_the_loop() {
    let mut q: RequestQueue<Request> = RequestQueue::new(100);
    assert!(q.try_send(("first".to_string(), 0)).is_ok());
    assert!(q.try_send(("second".to_string(), 1)).is_ok());
    q.drop_sender();
    let mut replies = Vec::new();
    let (outcome, n) = drive(&mut q, Ok(()), uppercase_stub, None, &[0], &mut replies);
    assert_eq!(outcome, Ok(()));
    assert_eq!(n, 2);
    assert_eq!(replies, vec![(1, Ok(vec!["SECOND".to_string()]))]);
}

#[test]
fn inference_failure_is_local_to_its_request() {
    let mut q: RequestQueue<Request> = RequestQueue::new(100);
    assert!(q.try_send(("bad".to_string(), 0)).is_ok());
    assert!(q.try_send(("good".to_string(), 1)).is_ok());
    q.drop_sender();
    let mut replies = Vec::new();
    let (outcome, _) = drive(&mut q, Ok(()), failing_stub, None, &[], &mut replies);
    assert_eq!(outcome, Ok(()));
    assert_eq!(
        replies,
        vec![
            (0, Err(TranslatorError::RustBertError("inference failed".to_string()))),
            (1, Ok(vec!["GOOD".to_string()])),
        ]
    );
}

#[test]
fn load_failure_ends_the_loop_with_its_error() {
    let mut q: RequestQueue<Request> = RequestQueue::new(100);
    assert!(q.try_send(("stranded".to_string(), 0)).is_ok());
    let mut replies = Vec::new();
    let err = TranslatorError::RustBertError("no model".to_string());
    let (outcome, n) = drive(&mut q, Err(err.clone()), uppercase_stub, None, &[], &mut replies);
    assert_eq!(outcome, Err(err));
    assert_eq!(n, 0);
    assert!(replies.is_empty());
    assert_eq!(q.len(), 1);
}

#[test]
fn disconnected_queue_ends_the_loop() {
    let mut q: RequestQueue<Request> = RequestQueue::new(100);
    q.drop_sender();
    let mut replies = Vec::new();
    let (outcome, n) = drive(&mut q, Ok(()), uppercase_stub, None, &[], &mut replies);
    assert_eq!(outcome, Ok(()));
    assert_eq!(n, 0);
}

#[test]
fn step_rejects_events_out_of_turn() {
    let (state, action) = WorkerState::start();
    assert_eq!(state, WorkerState::Loading);
    assert_eq!(action, WorkerAction::LoadModel);
    assert!(!state.expects(&WorkerEvent::StopChecked(true)));
    assert!(!WorkerState::Stopped.expects(&WorkerEvent::LoadSucceeded));
    assert!(WorkerState::Busy.expects(&WorkerEvent::ReplyWritten(false)));
    assert!(WorkerState::Stopped.is_stopped());
    let (s, a) = WorkerState::Busy.step(WorkerEvent::ReplyWritten(false));
    assert_eq!(s, WorkerState::Ready);
    assert_eq!(a, WorkerAction::CheckStop);
}

#[test]
fn two_actors_do_not_interfere() {
    let mut en_it: RequestQueue<Request> = RequestQueue::new(100);
    let mut it_en: RequestQueue<Request> = RequestQueue::new(100);
    assert!(en_it.try_send(("hello".to_string(), 0)).is_ok());
    assert!(it_en.try_send(("ciao".to_string(), 1)).is_ok());
    assert!(en_it.try_send(("world".to_string(), 2)).is_ok());
    en_it.drop_sender();
    it_en.drop_sender();
    let mut replies_a = Vec::new();
    let mut replies_b = Vec::new();
    let (a, _) = drive(&mut en_it, Ok(()), uppercase_stub, None, &[], &mut replies_a);
    let (b, _) = drive(&mut it_en, Ok(()), uppercase_stub, None, &[], &mut replies_b);
    assert_eq!(a, Ok(()));
    assert_eq!(b, Ok(()));
    assert_eq!(
        replies_a,
        vec![(0, Ok(vec!["HELLO".to_string()])), (2, Ok(vec!["WORLD".to_string()]))]
    );
    assert_eq!(replies_b, vec![(1, Ok(vec!["CIAO".to_string()]))]);
}
