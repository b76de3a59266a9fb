use scd40_monitor::reading::Reading;
use scd40_monitor::store::SharedReading;
use scd40_monitor::worker::handle_request;
use scd40_monitor::worker::pool_new;
use scd40_monitor::worker::pool_step;
use scd40_monitor::worker::ConnectionSlot;
use scd40_monitor::worker::Timeouts;
use scd40_monitor::worker::Worker;
use scd40_monitor::worker::WorkerAction;
use scd40_monitor::worker::WorkerEvent;
use scd40_monitor::worker::WorkerPhase;
use scd40_monitor::worker::HTTP_PORT;
use scd40_monitor::worker::WEB_TASK_POOL_SIZE;

fn json_response(body: &str) -> Vec<u8> {
    format!(
        "HTTP/1.1 200 OK\r\nContent-Type: application/json\r\nContent-Length: {}\r\n\r\n{}",
        body.len(),
        body
    )
    .into_bytes()
}

fn expect_response(a: WorkerAction) -> Vec<u8> {
    match a {
        WorkerAction::Respond(v) => v,
        other => panic!("expected a response, got {:?}", other),
    }
}

#[test]
fn defaults_match_the_configuration() {
    let t = Timeouts::new_default();
    assert_eq!(t.start_read_ms, 5000);
    assert_eq!(t.read_ms, 1000);
    assert_eq!(t.write_ms, 1000);
    assert!(t.keep_alive);
    assert_eq!(HTTP_PORT, 80);
    assert_eq!(WEB_TASK_POOL_SIZE, 2);
}

#[test]
fn connection_slot_preallocates_its_buffers() {
    let slot = ConnectionSlot::new();
    assert_eq!(slot.rx.len(), 1024);
    assert_eq!(slot.tx.len(), 1024);
}

#[test]
fn data_before_any_poll_serves_the_sentinel() {
    let store = SharedReading::new();
    let resp = handle_request(&store, b"GET /data HTTP/1.1\r\n\r\n").expect("well-formed");
    let expected = json_response(r#"[["co2ppm",0],["temperature",0.00],["humidity",0.00]]"#);
    assert_eq!(resp, expected);
}

#[test]
fn data_after_a_poll_serves_exactly_the_polled_values() {
    let mut store = SharedReading::new();
    store.write(Reading::new(815, 2140, 4600));
    let resp = handle_request(&store, b"GET /data HTTP/1.1\r\n\r\n").expect("well-formed");
    let expected = json_response(r#"[["co2ppm",815],["temperature",21.40],["humidity",46.00]]"#);
    assert_eq!(resp, expected);
}

#[test]
fn unknown_path_gets_a_404_through_the_worker() {
    let store = SharedReading::new();
    let config = Timeouts::new_default();
    let mut w = Worker::new();
    w.step(&config, &store, WorkerEvent::Accepted);
    let a = w.step(
        &config,
        &store,
        WorkerEvent::Bytes(b"GET /nope HTTP/1.1\r\n\r\n".to_vec()),
    );
    let resp = expect_response(a);
    assert_eq!(
        resp,
        b"HTTP/1.1 404 Not Found\r\nContent-Length: 0\r\n\r\n".to_vec()
    );
}

#[test]
fn a_head_split_across_chunks_is_reassembled() {
    let store = SharedReading::new();
    let config = Timeouts::new_default();
    let mut w = Worker::new();
    w.step(&config, &store, WorkerEvent::Accepted);
    let a = w.step(&config, &store, WorkerEvent::Bytes(b"GET /data HTT".to_vec()));
    assert!(matches!(a, WorkerAction::KeepWaiting));
    let a = w.step(&config, &store, WorkerEvent::Bytes(b"P/1.1\r\n\r\n".to_vec()));
    let resp = expect_response(a);
    let expected = json_response(r#"[["co2ppm",0],["temperature",0.00],["humidity",0.00]]"#);
    assert_eq!(resp, expected);
    // Keep-alive: the worker still holds the connection for the next request.
    assert_eq!(w.phase, WorkerPhase::Receiving);
}

#[test]
fn without_keep_alive_the_worker_answers_and_closes() {
    let store = SharedReading::new();
    let mut config = Timeouts::new_default();
    config.keep_alive = false;
    let mut w = Worker::new();
    w.step(&config, &store, WorkerEvent::Accepted);
    let a = w.step(
        &config,
        &store,
        WorkerEvent::Bytes(b"GET / HTTP/1.1\r\n\r\n".to_vec()),
    );
    assert!(matches!(a, WorkerAction::RespondThenClose(_)));
    assert_eq!(w.phase, WorkerPhase::Accepting);
}

#[test]
fn malformed_request_closes_the_connection() {
    let store = SharedReading::new();
    let config = Timeouts::new_default();
    let mut w = Worker::new();
    w.step(&config, &store, WorkerEvent::Accepted);
    let a = w.step(&config, &store, WorkerEvent::Bytes(b"NONSENSE\r\n\r\n".to_vec()));
    assert!(matches!(a, WorkerAction::Close));
    assert_eq!(w.phase, WorkerPhase::Accepting);
    assert_eq!(w.buf.len(), 0);
}

#[test]
fn an_overfull_buffer_closes_the_connection() {
    let store = SharedReading::new();
    let config = Timeouts::new_default();
    let mut w = Worker::new();
    w.step(&config, &store, WorkerEvent::Accepted);
    let a = w.step(&config, &store, WorkerEvent::Bytes(vec![b'x'; 4096]));
    assert!(matches!(a, WorkerAction::Close));
    assert_eq!(w.phase, WorkerPhase::Accepting);
}

#[test]
fn a_timed_out_connection_does_not_affect_the_other_worker() {
    let mut store = SharedReading::new();
    store.write(Reading::new(815, 2140, 4600));
    let config = Timeouts::new_default();
    let mut pool = pool_new(2);

    // Both workers hold a connection.
    pool_step(&mut pool, 0, &config, &store, WorkerEvent::Accepted);
    pool_step(&mut pool, 1, &config, &store, WorkerEvent::Accepted);
    pool_step(
        &mut pool,
        1,
        &config,
        &store,
        WorkerEvent::Bytes(b"GET /data HTT".to_vec()),
    );

    // The first connection sends nothing within the start-read timeout and
    // is closed.
    let a = pool_step(&mut pool, 0, &config, &store, WorkerEvent::StartReadTimedOut);
    assert!(matches!(a, WorkerAction::Close));
    assert_eq!(pool[0].phase, WorkerPhase::Accepting);

    // The second worker, untouched, completes its request normally, and the
    // store still serves the same reading.
    assert_eq!(pool[1].phase, WorkerPhase::Receiving);
    assert_eq!(pool[1].buf, b"GET /data HTT".to_vec());
    let a = pool_step(
        &mut pool,
        1,
        &config,
        &store,
        WorkerEvent::Bytes(b"P/1.1\r\n\r\n".to_vec()),
    );
    let resp = expect_response(a);
    let expected = json_response(r#"[["co2ppm",815],["temperature",21.40],["humidity",46.00]]"#);
    assert_eq!(resp, expected);
    assert_eq!(store.read(), Reading::new(815, 2140, 4600));
}

#[test]
fn two_workers_serve_interleaved_connections_independently() {
    let store = SharedReading::new();
    let config = Timeouts::new_default();
    let mut pool = pool_new(2);

    pool_step(&mut pool, 0, &config, &store, WorkerEvent::Accepted);
    pool_step(&mut pool, 1, &config, &store, WorkerEvent::Accepted);

    // Chunks of the two connections arrive interleaved; each worker gathers
    // only its own.
    pool_step(&mut pool, 0, &config, &store, WorkerEvent::Bytes(b"GET / ".to_vec()));
    pool_step(&mut pool, 1, &config, &store, WorkerEvent::Bytes(b"GET /main.css ".to_vec()));
    let a0 = pool_step(
        &mut pool,
        0,
        &config,
        &store,
        WorkerEvent::Bytes(b"HTTP/1.1\r\n\r\n".to_vec()),
    );
    let a1 = pool_step(
        &mut pool,
        1,
        &config,
        &store,
        WorkerEvent::Bytes(b"HTTP/1.1\r\n\r\n".to_vec()),
    );

    let r0 = expect_response(a0);
    let r1 = expect_response(a1);
    let html = String::from_utf8(r0).unwrap();
    let css = String::from_utf8(r1).unwrap();
    assert!(html.starts_with("HTTP/1.1 200 OK\r\nContent-Type: text/html\r\n"));
    assert!(html.contains("CO2 monitor"));
    assert!(css.starts_with("HTTP/1.1 200 OK\r\nContent-Type: text/css\r\n"));
    assert!(css.contains("font-family"));
}

#[test]
fn peer_going_away_returns_the_worker_to_accepting() {
    let store = SharedReading::new();
    let config = Timeouts::new_default();
    let mut w = Worker::new();
    w.step(&config, &store, WorkerEvent::Accepted);
    w.step(&config, &store, WorkerEvent::Bytes(b"GET".to_vec()));
    let a = w.step(&config, &store, WorkerEvent::PeerClosed);
    assert!(matches!(a, WorkerAction::Close));
    assert_eq!(w.phase, WorkerPhase::Accepting);
    assert_eq!(w.buf.len(), 0);
}
