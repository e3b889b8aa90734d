use js_executor::{
    open_request, settle, submission, Action, Event, JsExecutor, Reply, TransportError, Worker,
    MAX_CAPACITY,
};
use serde_json::Value;

fn runtime() -> tokio::runtime::Runtime {
    tokio::runtime::Builder::new_current_thread().build().unwrap()
}

#[test]
fn settle_passes_the_reply_through() {
    let (request, receiver) = open_request("1+1");
    let (worker, _) = Worker::new().step(Event::Dequeued(request));
    let _ = worker.step(Event::EngineFinished(Ok(Value::from(2))));
    let received = runtime().block_on(receiver);
    assert_eq!(settle(received), Ok(Reply::Value(Value::from(2))));
}

#[test]
fn dropped_slot_gives_result_unavailable() {
    let (request, receiver) = open_request("1+1");
    drop(request);
    let received = runtime().block_on(receiver);
    assert_eq!(settle(received), Err(TransportError::ResultUnavailable));
}

#[test]
fn submission_to_a_gone_worker_fails() {
    let (executor, receiver) = JsExecutor::connect(1);
    drop(receiver);
    let (request, _reply) = open_request("1+1");
    let sent = runtime().block_on(executor.queue().send(request));
    assert_eq!(submission(sent), Err(TransportError::SubmissionFailed));
}

#[test]
fn queued_requests_reach_the_worker_in_order() {
    let (executor, mut receiver) = JsExecutor::connect(2);
    let rt = runtime();
    let mut replies = Vec::new();
    for code in ["1+1", "2+2"] {
        let (request, reply) = open_request(code);
        assert_eq!(submission(rt.block_on(executor.queue().send(request))), Ok(()));
        replies.push(reply);
    }
    let full = open_request("3+3").0;
    assert!(executor.queue().try_send(full).is_err());

    let mut worker = Worker::new();
    for expected in ["1+1", "2+2"] {
        let request = receiver.try_recv().unwrap();
        let (next, action) = worker.step(Event::Dequeued(request));
        assert_eq!(action, Action::RunEngine(expected.to_string()));
        let (next, _) = next.step(Event::EngineFinished(Ok(Value::from(expected))));
        worker = next;
    }
    drop(executor);
    assert!(rt.block_on(receiver.recv()).is_none());
    let (_worker, action) = worker.step(Event::QueueClosed);
    assert_eq!(action, Action::Stop);
    for (reply, expected) in replies.into_iter().zip(["1+1", "2+2"]) {
        assert_eq!(settle(rt.block_on(reply)), Ok(Reply::Value(Value::from(expected))));
    }
}

#[test]
fn undrained_requests_resolve_when_the_queue_goes() {
    let (executor, receiver) = JsExecutor::connect(4);
    let rt = runtime();
    let (request, reply) = open_request("1+1");
    assert_eq!(submission(rt.block_on(executor.queue().send(request))), Ok(()));
    drop(receiver);
    assert_eq!(settle(rt.block_on(reply)), Err(TransportError::ResultUnavailable));
}

#[test]
fn queue_is_bounded_by_the_capacity_given() {
    for capacity in [1usize, 2, 32] {
        let (executor, _receiver) = JsExecutor::connect(capacity);
        assert_eq!(executor.queue().max_capacity(), capacity);
    }
    assert_eq!(MAX_CAPACITY, usize::MAX >> 3);
}
