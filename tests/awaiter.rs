use std::sync::mpsc;
use std::time::{Duration, Instant};
use wait_not_await::{Await, Worker};

type HelloWorker = Worker<String, fn() -> String>;

fn hello() -> String {
    "Hello, World!".to_string()
}

/// A handle on a computation whose worker the test starts itself.
fn await_hello_world() -> (Await<String>, HelloWorker) {
    let mut pending: Option<HelloWorker> = None;
    let task: fn() -> String = hello;
    let awaiter = Await::new(task, |worker| pending = Some(worker));
    (awaiter, pending.expect("the spawner receives the worker"))
}

#[test]
fn test_wait_none() {
    let (mut awaiter, worker) = await_hello_world();
    worker.run();

    assert_eq!(Some(&"Hello, World!".to_string()), awaiter.wait(None));
    assert_eq!(Some(&"Hello, World!".to_string()), awaiter.result());
}

#[test]
fn test_wait_not_enough() {
    let (mut awaiter, worker) = await_hello_world();

    let start = Instant::now();
    assert_eq!(None, awaiter.wait(Some(Duration::from_millis(500))));
    let waited = start.elapsed();
    assert!(waited >= Duration::from_millis(500));
    assert!(waited < Duration::from_millis(1500));
    assert_eq!(None, awaiter.result());

    worker.run();
    assert_eq!(Some(&"Hello, World!".to_string()), awaiter.wait(None));
}

#[test]
fn test_wait_more() {
    let (mut awaiter, worker) = await_hello_world();
    worker.run();

    assert_eq!(Some(&"Hello, World!".to_string()), awaiter.wait(Some(Duration::from_millis(1500))));
    assert_eq!(Some(&"Hello, World!".to_string()), awaiter.result());
}

#[test]
fn test_result_loop() {
    let (mut awaiter, worker) = await_hello_world();

    assert_eq!(None, awaiter.result());
    worker.run();
    while let None = awaiter.result() {}

    assert_eq!(Some(&"Hello, World!".to_string()), awaiter.result());
    assert_eq!(Some(&"Hello, World!".to_string()), awaiter.wait(None));
}

#[test]
fn test_then() {
    let (greeting, worker) = await_hello_world();

    let (send, recv) = mpsc::channel();

    assert!(greeting.then(move |result: &String| {
        send.send(result.clone()).unwrap();
    }));
    worker.run();

    assert_eq!("Hello, World!".to_string(), recv.recv_timeout(Duration::from_millis(1500)).unwrap());
}

#[test]
fn test_mut() {
    let mut result = "Is not completed yet";
    let mut pending = None;

    let mut awaiter = Await::new(
        move || {
            result = "Hello, World!";

            result
        },
        |worker| pending = Some(worker),
    );

    assert_eq!("Is not completed yet", result);
    pending.unwrap().run();
    assert_eq!(&"Hello, World!", awaiter.wait(None).unwrap());
    assert_eq!("Is not completed yet", result);
}

#[test]
fn resolved_value_is_kept_across_calls() {
    let (mut awaiter, worker) = await_hello_world();
    worker.run();

    assert_eq!(Some(&hello()), awaiter.result());
    for _ in 0..3 {
        assert_eq!(Some(&hello()), awaiter.wait(Some(Duration::from_millis(0))));
        assert_eq!(Some(&hello()), awaiter.wait(None));
        assert_eq!(Some(&hello()), awaiter.result());
    }
}

#[test]
fn zero_timeout_on_pending_handle_is_a_poll() {
    let (mut awaiter, worker) = await_hello_world();

    let start = Instant::now();
    assert_eq!(None, awaiter.wait(Some(Duration::from_millis(0))));
    assert!(start.elapsed() < Duration::from_millis(500));

    worker.run();
    assert_eq!(Some(&hello()), awaiter.wait(Some(Duration::from_millis(0))));
}

#[test]
fn callbacks_run_once_in_order_before_the_result_is_sent() {
    let (mut awaiter, worker) = await_hello_world();
    let (send, recv) = mpsc::channel();
    let first = send.clone();
    let second = send;

    assert!(awaiter.then(move |r: &String| first.send(format!("first {}", r)).unwrap()));
    assert!(awaiter.then(move |r: &String| second.send(format!("second {}", r)).unwrap()));
    worker.run();

    assert_eq!(Some(&hello()), awaiter.result());
    let seen: Vec<String> = recv.try_iter().collect();
    assert_eq!(vec!["first Hello, World!".to_string(), "second Hello, World!".to_string()], seen);
}

#[test]
fn then_after_the_worker_finished_reports_failure() {
    let (awaiter, worker) = await_hello_world();
    worker.run();

    assert!(!awaiter.then(|_r: &String| {}));
}

#[test]
fn worker_of_a_dropped_handle_finishes_quietly() {
    let (awaiter, worker) = await_hello_world();
    drop(awaiter);
    worker.run();
}

#[test]
fn spawner_receives_the_worker_before_new_returns() {
    let mut calls: u32 = 0;
    let mut awaiter = Await::new(|| 7u64, |worker| {
        calls += 1;
        worker.run();
    });
    assert_eq!(1, calls);
    assert_eq!(Some(&7u64), awaiter.wait(None));
}

#[test]
fn then_on_a_resolved_handle_is_refused() {
    let (mut awaiter, worker) = await_hello_world();
    worker.run();
    assert_eq!(Some(&hello()), awaiter.wait(None));

    let (send, recv) = mpsc::channel::<String>();
    assert!(!awaiter.then(move |r: &String| send.send(r.clone()).unwrap()));
    assert!(recv.try_recv().is_err());
}
