use client_conn::conn::{handshake, Action, Builder, DriveState, Event, Exec};
use client_conn::dispatch::Dispatch;
use client_conn::handle::ResponseState;
use client_conn::{Error, Poll};

type Chan = Dispatch<String, Vec<u8>>;

fn open_h1() -> (client_conn::handle::SendRequest, client_conn::conn::Connection<u32>, Chan) {
    let mut hs = handshake(7u32);
    match hs.poll::<String, Vec<u8>>() {
        Poll::Ready(Ok(parts)) => parts,
        _ => panic!("handshake did not complete"),
    }
}

#[test]
fn default_round_trip_delivers_peer_response() {
    let (mut tx, mut conn, mut chan) = open_h1();
    assert!(!conn.is_http2());
    let mut fut = tx.send_request(&mut chan, "GET / HTTP/1.1".to_string());
    assert_eq!(fut.status(), &ResponseState::Waiting(0));
    assert_eq!(fut.poll(&mut chan), Poll::Pending);
    let act = conn.poll(&mut chan, Event::Writable);
    assert_eq!(act, Action::Write(0, "GET / HTTP/1.1".to_string()));
    assert_eq!(fut.poll(&mut chan), Poll::Pending);
    let body = b"HTTP/1.1 200 OK\r\ncontent-length: 2\r\n\r\nhi".to_vec();
    assert_eq!(conn.poll(&mut chan, Event::Response(body.clone())), Action::Wait);
    assert_eq!(fut.poll(&mut chan), Poll::Ready(Ok(body)));
    assert_eq!(fut.status(), &ResponseState::Finished);
}

#[test]
fn saturated_channel_fails_at_once() {
    let (mut tx, _conn, mut chan) = open_h1();
    let _first = tx.send_request(&mut chan, "first".to_string());
    assert!(!tx.is_ready(&chan));
    assert_eq!(tx.poll_ready(&chan), Poll::Pending);
    let mut second = tx.send_request(&mut chan, "second".to_string());
    assert_eq!(second.status(), &ResponseState::Failed(Error::NotReady));
    match second.poll(&mut chan) {
        Poll::Ready(Err(e)) => {
            assert_eq!(e, Error::NotReady);
            assert!(e.is_canceled());
            assert_eq!(e.message(), "connection was not ready");
        }
        other => panic!("unexpected {:?}", other),
    }
}

#[test]
fn retryable_send_hands_request_back() {
    let (mut tx, mut conn, mut chan) = open_h1();
    assert!(tx.send_request_retryable(&mut chan, "a".to_string()).is_ok());
    // taken by the driver, still unanswered
    assert_eq!(conn.poll(&mut chan, Event::Writable), Action::Write(0, "a".to_string()));
    match tx.send_request_retryable(&mut chan, "b".to_string()) {
        Err((e, Some(req))) => {
            assert_eq!(e, Error::NotReady);
            assert_eq!(req, "b");
        }
        _ => panic!("second request was accepted"),
    }
    assert_eq!(conn.poll(&mut chan, Event::Response(b"ok".to_vec())), Action::Wait);
    assert!(tx.is_ready(&chan));
    assert!(tx.send_request_retryable(&mut chan, "b".to_string()).is_ok());
}

#[test]
fn dropped_response_future_does_not_disturb_driver() {
    let (mut tx, mut conn, mut chan) = open_h1();
    let fut = tx.send_request(&mut chan, "req".to_string());
    assert_eq!(conn.poll(&mut chan, Event::Writable), Action::Write(0, "req".to_string()));
    fut.cancel(&mut chan);
    assert_eq!(conn.poll(&mut chan, Event::Response(b"late".to_vec())), Action::Wait);
    assert_eq!(conn.state(), DriveState::Running);
    tx.release(&mut chan);
    assert_eq!(conn.poll(&mut chan, Event::Writable), Action::Shutdown);
    assert_eq!(conn.state(), DriveState::Done);
}

#[test]
fn h1_answers_in_submission_order() {
    let (tx, mut conn, mut chan) = open_h1();
    let mut tx2 = tx.into_http2(&mut chan);
    let mut f0 = tx2.send_request_retryable(&mut chan, "0".to_string()).ok().unwrap();
    let mut f1 = tx2.send_request_retryable(&mut chan, "1".to_string()).ok().unwrap();
    assert_eq!(conn.poll(&mut chan, Event::Writable), Action::Write(0, "0".to_string()));
    // one at a time on HTTP/1.1, whatever the channel admits
    assert_eq!(conn.poll(&mut chan, Event::Writable), Action::Wait);
    assert_eq!(conn.poll(&mut chan, Event::Response(b"r0".to_vec())), Action::Wait);
    assert_eq!(conn.poll(&mut chan, Event::Writable), Action::Write(1, "1".to_string()));
    assert_eq!(conn.poll(&mut chan, Event::Response(b"r1".to_vec())), Action::Wait);
    assert_eq!(f1.poll(&mut chan), Poll::Ready(Ok(b"r1".to_vec())));
    assert_eq!(f0.poll(&mut chan), Poll::Ready(Ok(b"r0".to_vec())));
}

#[test]
fn h2_cloned_handles_resolve_independently() {
    let mut b = Builder::new();
    b.http2_only(true);
    b.executor(Exec::Custom(3));
    let mut hs = b.handshake(1u8);
    let (tx, mut conn, mut chan) = match hs.poll::<String, Vec<u8>>() {
        Poll::Ready(Ok(parts)) => parts,
        _ => panic!("handshake did not complete"),
    };
    assert!(conn.is_http2());
    let mut a = tx.into_http2(&mut chan);
    let mut c = a.clone_on(&mut chan);
    assert_eq!(chan.senders(), 2);
    let mut fa = a.send_request_retryable(&mut chan, "a".to_string()).ok().unwrap();
    let mut fc = c.send_request_retryable(&mut chan, "c".to_string()).ok().unwrap();
    assert_eq!(fa.status(), &ResponseState::Waiting(0));
    assert_eq!(fc.status(), &ResponseState::Waiting(1));
    assert_eq!(conn.poll(&mut chan, Event::Writable), Action::Write(0, "a".to_string()));
    assert_eq!(conn.poll(&mut chan, Event::Writable), Action::Write(1, "c".to_string()));
    assert_eq!(conn.poll(&mut chan, Event::StreamResponse(1, b"rc".to_vec())), Action::Wait);
    assert_eq!(fa.poll(&mut chan), Poll::Pending);
    assert_eq!(fc.poll(&mut chan), Poll::Ready(Ok(b"rc".to_vec())));
    assert_eq!(conn.poll(&mut chan, Event::StreamResponse(0, b"ra".to_vec())), Action::Wait);
    assert_eq!(fa.poll(&mut chan), Poll::Ready(Ok(b"ra".to_vec())));
    a.release(&mut chan);
    assert_eq!(conn.poll(&mut chan, Event::Writable), Action::Wait);
    c.release(&mut chan);
    // HTTP/2 has no hand-off: the transport is shut down either way
    assert_eq!(conn.poll_without_shutdown(&mut chan, Event::Writable), Action::Shutdown);
}

#[test]
fn h2_unknown_stream_fails_connection() {
    let mut b = Builder::new();
    b.http2_only(true);
    let mut hs = b.handshake(1u8);
    let (tx, mut conn, mut chan) = match hs.poll::<String, Vec<u8>>() {
        Poll::Ready(Ok(parts)) => parts,
        _ => panic!("handshake did not complete"),
    };
    let mut a = tx.into_http2(&mut chan);
    let mut f = a.send_request_retryable(&mut chan, "a".to_string()).ok().unwrap();
    assert_eq!(conn.poll(&mut chan, Event::StreamResponse(0, b"x".to_vec())), Action::Fail(Error::Unexpected));
    assert_eq!(conn.state(), DriveState::Failed(Error::Unexpected));
    assert!(a.is_closed(&chan));
    assert_eq!(f.poll(&mut chan), Poll::Ready(Err(Error::Unexpected)));
}

#[test]
fn upgrade_tail_bytes_come_back_with_transport() {
    let (mut tx, mut conn, mut chan) = open_h1();
    let mut fut = tx.send_request(&mut chan, "GET /chat".to_string());
    assert_eq!(conn.poll_without_shutdown(&mut chan, Event::Writable), Action::Write(0, "GET /chat".to_string()));
    let head = b"HTTP/1.1 101 Switching Protocols\r\n\r\n".to_vec();
    assert_eq!(conn.poll_without_shutdown(&mut chan, Event::Response(head.clone())), Action::Wait);
    assert_eq!(conn.poll_without_shutdown(&mut chan, Event::Unconsumed(vec![1, 2, 3])), Action::Wait);
    assert_eq!(conn.poll_without_shutdown(&mut chan, Event::Unconsumed(vec![4])), Action::Wait);
    assert_eq!(conn.poll_without_shutdown(&mut chan, Event::Upgraded), Action::Finish);
    assert_eq!(conn.state(), DriveState::Done);
    assert_eq!(fut.poll(&mut chan), Poll::Ready(Ok(head)));
    let parts = conn.into_parts();
    assert_eq!(parts.io, 7u32);
    assert_eq!(parts.read_buf, vec![1, 2, 3, 4]);
}

#[test]
fn upgrade_without_support_is_an_error() {
    let b = Builder::new();
    let mut hs = b.handshake_no_upgrades(5u32);
    let (_tx, mut conn, mut chan) = match hs.poll::<String, Vec<u8>>() {
        Poll::Ready(Ok(parts)) => parts,
        _ => panic!("handshake did not complete"),
    };
    assert_eq!(conn.poll(&mut chan, Event::Upgraded), Action::Fail(Error::Unexpected));
}

#[test]
fn http2_driver_has_no_parts() {
    let mut b = Builder::new();
    b.http2_only(true);
    let mut hs = b.handshake(1u8);
    let (_tx, mut conn, mut chan) = match hs.poll::<String, Vec<u8>>() {
        Poll::Ready(Ok(parts)) => parts,
        _ => panic!("handshake did not complete"),
    };
    assert!(conn.is_http2());
    assert_eq!(conn.poll(&mut chan, Event::Unconsumed(vec![9])), Action::Fail(Error::Unexpected));
    assert!(conn.is_http2());
}

#[test]
fn handshake_runs_once() {
    let mut hs = handshake(7u32);
    assert!(!hs.is_done());
    assert!(hs.poll::<String, Vec<u8>>().is_ready());
    assert!(hs.is_done());
}

#[test]
fn builder_defaults_and_setters() {
    let mut b = Builder::new();
    assert!(!b.is_http2_only());
    assert!(b.is_h1_writev());
    assert!(!b.is_h1_title_case_headers());
    assert_eq!(b.current_executor(), Exec::Default);
    b.h1_writev(false).h1_title_case_headers(true);
    b.http2_only(true).executor(Exec::Custom(9));
    assert!(b.is_http2_only());
    assert!(!b.is_h1_writev());
    assert!(b.is_h1_title_case_headers());
    assert_eq!(b.current_executor(), Exec::Custom(9));
}

#[test]
fn eof_with_outstanding_request_fails_it() {
    let (mut tx, mut conn, mut chan) = open_h1();
    let mut fut = tx.send_request(&mut chan, "x".to_string());
    assert_eq!(conn.poll(&mut chan, Event::Writable), Action::Write(0, "x".to_string()));
    assert_eq!(conn.poll(&mut chan, Event::Eof), Action::Fail(Error::Incomplete));
    assert_eq!(fut.poll(&mut chan), Poll::Ready(Err(Error::Incomplete)));
    assert!(tx.is_closed(&chan));
    assert_eq!(tx.poll_ready(&chan), Poll::Ready(Err(Error::Closed)));
    assert!(Error::Closed.is_closed());
}

#[test]
fn eof_when_idle_finishes() {
    let (_tx, mut conn, mut chan) = open_h1();
    assert_eq!(conn.poll(&mut chan, Event::Eof), Action::Shutdown);
    assert_eq!(conn.state(), DriveState::Done);
}

#[test]
fn fault_ends_pending_requests_with_its_error() {
    let (mut tx, mut conn, mut chan) = open_h1();
    let mut fut = tx.send_request(&mut chan, "x".to_string());
    assert_eq!(conn.poll(&mut chan, Event::Fault(42)), Action::Fail(Error::Fault(42)));
    assert_eq!(fut.poll(&mut chan), Poll::Ready(Err(Error::Fault(42))));
    assert_eq!(Error::Fault(42).message(), "connection failed");
}

#[test]
fn response_without_request_is_unexpected() {
    let (_tx, mut conn, mut chan) = open_h1();
    assert_eq!(conn.poll(&mut chan, Event::Response(vec![])), Action::Fail(Error::Unexpected));
}

#[test]
fn when_ready_yields_handle_back() {
    let (tx, mut conn, mut chan) = open_h1();
    let mut w = tx.when_ready();
    let mut tx = match w.poll(&chan) {
        Poll::Ready(Ok(tx)) => tx,
        _ => panic!("fresh channel not ready"),
    };
    let _f = tx.send_request(&mut chan, "x".to_string());
    let mut w = tx.when_ready();
    assert!(matches!(w.poll(&chan), Poll::Pending));
    assert_eq!(conn.poll(&mut chan, Event::Writable), Action::Write(0, "x".to_string()));
    assert!(matches!(w.poll(&chan), Poll::Pending));
    assert_eq!(conn.poll(&mut chan, Event::Response(vec![1])), Action::Wait);
    assert!(matches!(w.poll(&chan), Poll::Ready(Ok(_))));
}

#[test]
fn channel_ids_follow_acceptance() {
    let mut d: Dispatch<u8, u8> = Dispatch::new(false);
    assert_eq!(d.try_send(10), Ok(0));
    assert_eq!(d.try_send(11), Ok(1));
    assert!(d.is_outstanding(0) && d.is_outstanding(1) && !d.is_outstanding(2));
    assert_eq!(d.take(), Some((0, 10)));
    assert_eq!(d.take(), Some((1, 11)));
    assert_eq!(d.take(), None);
    assert!(!d.answer(5, Ok(1)));
    assert!(d.answer(1, Ok(21)));
    d.answer_oldest(Ok(20));
    assert_eq!(d.poll_response(0), Poll::Ready(Ok(20)));
    assert_eq!(d.poll_response(1), Poll::Ready(Ok(21)));
    d.close(Error::Canceled);
    assert_eq!(d.try_send(12), Err(12));
    assert_eq!(d.poll_ready(), Poll::Ready(Err(Error::Closed)));
}

#[test]
fn closing_twice_keeps_channel_closed() {
    let mut d: Dispatch<u8, u8> = Dispatch::new(true);
    d.close(Error::Canceled);
    d.close(Error::Canceled);
    assert!(d.is_closed());
    assert!(!d.is_ready());
    assert_eq!(d.poll_response(0), Poll::Ready(Err(Error::Canceled)));
}

#[test]
fn upgrade_with_queued_request_is_not_success() {
    let (tx, mut conn, mut chan) = open_h1();
    let mut tx2 = tx.into_http2(&mut chan);
    let mut f0 = tx2.send_request_retryable(&mut chan, "up".to_string()).ok().unwrap();
    let mut f1 = tx2.send_request_retryable(&mut chan, "next".to_string()).ok().unwrap();
    assert_eq!(conn.poll_without_shutdown(&mut chan, Event::Writable), Action::Write(0, "up".to_string()));
    assert_eq!(conn.poll_without_shutdown(&mut chan, Event::Response(b"101".to_vec())), Action::Wait);
    assert_eq!(conn.poll_without_shutdown(&mut chan, Event::Upgraded), Action::Fail(Error::Incomplete));
    assert_eq!(conn.state(), DriveState::Failed(Error::Incomplete));
    assert_eq!(f0.poll(&mut chan), Poll::Ready(Ok(b"101".to_vec())));
    // the request that was never written comes back for a retry
    assert_eq!(
        f1.poll_retryable(&mut chan),
        Poll::Ready(Err((Error::Incomplete, Some("next".to_string()))))
    );
}

#[test]
fn upgrade_with_request_in_flight_is_not_success() {
    let (mut tx, mut conn, mut chan) = open_h1();
    let mut f = tx.send_request(&mut chan, "x".to_string());
    assert_eq!(conn.poll_without_shutdown(&mut chan, Event::Writable), Action::Write(0, "x".to_string()));
    assert_eq!(conn.poll_without_shutdown(&mut chan, Event::Upgraded), Action::Fail(Error::Incomplete));
    assert_eq!(f.poll_retryable(&mut chan), Poll::Ready(Err((Error::Incomplete, None))));
}

#[test]
fn h2_stream_fault_fails_only_its_request() {
    let mut b = Builder::new();
    b.http2_only(true);
    let mut hs = b.handshake(1u8);
    let (tx, mut conn, mut chan) = match hs.poll::<String, Vec<u8>>() {
        Poll::Ready(Ok(parts)) => parts,
        _ => panic!("handshake did not complete"),
    };
    let mut a = tx.into_http2(&mut chan);
    let mut fa = a.send_request_retryable(&mut chan, "a".to_string()).ok().unwrap();
    let mut fb = a.send_request_retryable(&mut chan, "b".to_string()).ok().unwrap();
    assert_eq!(conn.poll(&mut chan, Event::Writable), Action::Write(0, "a".to_string()));
    assert_eq!(conn.poll(&mut chan, Event::Writable), Action::Write(1, "b".to_string()));
    assert_eq!(conn.poll(&mut chan, Event::StreamFault(0, 8)), Action::Wait);
    assert_eq!(conn.state(), DriveState::Running);
    assert_eq!(fa.poll(&mut chan), Poll::Ready(Err(Error::Fault(8))));
    assert_eq!(conn.poll(&mut chan, Event::StreamResponse(1, b"rb".to_vec())), Action::Wait);
    assert_eq!(fb.poll(&mut chan), Poll::Ready(Ok(b"rb".to_vec())));
}

#[test]
fn dropped_driver_cancels_pending_requests() {
    let (mut tx, conn, mut chan) = open_h1();
    let mut f = tx.send_request(&mut chan, "x".to_string());
    conn.close(&mut chan);
    assert!(tx.is_closed(&chan));
    assert_eq!(tx.poll_ready(&chan), Poll::Ready(Err(Error::Closed)));
    assert_eq!(f.poll_retryable(&mut chan), Poll::Ready(Err((Error::Canceled, Some("x".to_string())))));
}

#[test]
fn dropped_future_leaves_next_exchange_working() {
    let (mut tx, mut conn, mut chan) = open_h1();
    let f = tx.send_request(&mut chan, "first".to_string());
    assert_eq!(conn.poll(&mut chan, Event::Writable), Action::Write(0, "first".to_string()));
    f.cancel(&mut chan);
    assert_eq!(conn.poll(&mut chan, Event::Response(b"r0".to_vec())), Action::Wait);
    assert_eq!(tx.poll_ready(&chan), Poll::Ready(Ok(())));
    let mut g = tx.send_request(&mut chan, "second".to_string());
    assert_eq!(conn.poll(&mut chan, Event::Writable), Action::Write(1, "second".to_string()));
    assert_eq!(conn.poll(&mut chan, Event::Response(b"r1".to_vec())), Action::Wait);
    assert_eq!(g.poll(&mut chan), Poll::Ready(Ok(b"r1".to_vec())));
}
