use rustuv::access::Access;
use rustuv::error::{EBADF, EBUSY, ECANCELED, ECONNREFUSED, EINVAL, ENOENT, EOF, EPIPE, UNKNOWN};
use rustuv::event_loop::{EventLoop, LocalLoop, Teardown, TeardownStep};
use rustuv::homing::{HomeHandle, HomingMissile};
use rustuv::net::{IpAddr, SockaddrStorage, SocketAddr, AF_INET, AF_INET6};
use rustuv::queue::QueuePool;
use rustuv::raw::{self, slice_to_uv_buf, HandleLife, Loop, UvBuf};
use rustuv::stream::Duplex;
use rustuv::task::RequestCtx;
use rustuv::tcp::{TcpListener, TCP_BACKLOG};
use rustuv::timeout::{AccessTimeout, ConnectCtx, Grant, Guard, TimeoutAction, TimerCommand};
use rustuv::timer::{Action, Callback, Timer};
use rustuv::udp::Udp;
use rustuv::{block, unblock, wakeup, BlockedTask, ForbidUnwind, UvError};

fn event_loop(id: usize) -> EventLoop {
    EventLoop::new(Loop::new(id), QueuePool::new(id + 1000))
}

#[test]
fn error_names_and_descriptions() {
    assert_eq!(UvError(ECANCELED).to_string(), "ECANCELED: operation canceled");
    assert_eq!(UvError(ECONNREFUSED).name(), "ECONNREFUSED");
    assert_eq!(UvError(EPIPE).desc(), "broken pipe");
    assert_eq!(UvError(-12345).name(), "UNKNOWN");
    assert_eq!(UvError(-12345).desc(), "unknown error");
    assert_eq!(UvError::new(ENOENT).code(), -2);
}

#[test]
fn error_to_io_error() {
    assert_eq!(UvError(EOF).to_io_error(), -1);
    assert_eq!(UvError(ECANCELED).to_io_error(), 125);
    assert_eq!(UvError(ENOENT).to_io_error(), 2);
}

#[test]
fn blockers_count_and_busy_close() {
    let mut l = Loop::new(7);
    let mut slot: Option<BlockedTask> = None;
    block(&mut l, BlockedTask::new(42), &mut slot);
    assert_eq!(l.get_data(), 1);
    // a loop with a parked task refuses to close
    assert_eq!(l.close(), Err(UvError(EBUSY)));
    let t = wakeup(&mut slot);
    assert_eq!(t.reawaken(), 42);
    assert!(slot.is_none());
    unblock(&mut l);
    assert_eq!(l.get_data(), 0);
    assert_eq!(l.close(), Ok(()));
}

#[test]
fn event_loop_close_waits_for_blockers() {
    let mut el = event_loop(3);
    assert!(!el.has_active_io());
    let mut slot: Option<BlockedTask> = None;
    block(el.uv_loop(), BlockedTask::new(1), &mut slot);
    assert!(el.has_active_io());
    assert!(el.take_pool().is_some());
    assert_eq!(el.close(), Err(UvError(EBUSY)));
    let _ = wakeup(&mut slot);
    unblock(el.uv_loop());
    assert_eq!(el.close(), Ok(()));
}

#[test]
fn handle_life_single_close_callback() {
    let mut h = HandleLife::new();
    assert!(!h.is_freed());
    h.close();
    h.close_cb();
    h.free();
    assert!(h.is_freed());
}

#[test]
fn forbid_unwind_detects_failure() {
    let f = ForbidUnwind::new("reading", false);
    assert_eq!(f.finish(false), Ok(()));
    let f = ForbidUnwind::new("reading", false);
    assert_eq!(f.finish(true), Err("reading"));
}

#[test]
fn borrow_local_loop() {
    let mut tls = LocalLoop::new();
    assert_eq!(EventLoop::borrow(&mut tls).err(), Some(UvError(UNKNOWN)));
    let el = event_loop(9);
    assert_eq!(el.run(&mut tls), Ok(()));
    // a second loop cannot run on the same thread
    let other = event_loop(10);
    assert!(other.run(&mut tls).is_err());
    let b = EventLoop::borrow(&mut tls).unwrap();
    assert_eq!(b.local(), 9);
    // already borrowed
    assert!(EventLoop::borrow(&mut tls).is_err());
    b.release(&mut tls);
    assert!(EventLoop::borrow(&mut tls).is_ok());
    el.finish_run(&mut tls);
    assert_eq!(EventLoop::borrow_raw(&tls), Err(UvError(UNKNOWN)));
}

#[test]
fn access_serves_waiters_in_order() {
    let mut a: Access<()> = Access::new(());
    assert!(a.grant(1));
    assert!(!a.grant(2));
    a.enqueue(2, BlockedTask::new(20));
    assert!(!a.grant(3));
    a.enqueue(3, BlockedTask::new(30));
    assert_eq!(a.release().unwrap().reawaken(), 20);
    assert_eq!(a.holder_of(), Some(2));
    assert_eq!(a.release().unwrap().reawaken(), 30);
    assert_eq!(a.holder_of(), Some(3));
    assert!(a.release().is_none());
    assert_eq!(a.holder_of(), None);
}

#[test]
fn access_dequeue_by_owner() {
    let mut a: Access<()> = Access::new(());
    assert!(a.grant(1));
    a.enqueue(2, BlockedTask::new(20));
    a.enqueue(3, BlockedTask::new(30));
    assert_eq!(a.dequeue(3).unwrap().reawaken(), 30);
    assert!(a.dequeue(3).is_none());
    assert_eq!(a.release().unwrap().reawaken(), 20);
}

#[test]
fn homing_missile_returns_to_origin() {
    let home = HomeHandle::new(5, 55);
    let m = home.fire_homing_missile(8);
    assert!(m.needs_travel());
    assert_eq!(m.home(), 5);
    assert_eq!(m.land(), Some(8));
    let m = home.fire_homing_missile(5);
    assert!(!m.needs_travel());
    assert_eq!(m.land(), None);
}

#[test]
fn make_handle_names_loop_and_queue() {
    let mut el = event_loop(4);
    let h = el.make_handle();
    assert_eq!(h.id(), 4);
    assert_eq!(h.queue(), 1004);
}

#[test]
fn queue_pool_delivers_only_local_tasks() {
    let mut q = QueuePool::new(1);
    q.send(7, BlockedTask::new(1));
    q.send(8, BlockedTask::new(2));
    q.send(7, BlockedTask::new(3));
    let (mine, exit) = q.on_async(7);
    assert!(!exit);
    let ids: Vec<u64> = mine.into_iter().map(|t| t.reawaken()).collect();
    assert_eq!(ids, vec![1, 3]);
    q.shutdown();
    let (mine, exit) = q.on_async(8);
    assert!(exit);
    assert_eq!(mine.len(), 1);
}

#[test]
fn sleep_zero_and_negative_fire_at_once() {
    let mut el = event_loop(1);
    let mut t = Timer::new_on(&mut el, raw::Timer::from_raw(11));
    let (prev, start) = t.sleep(0, BlockedTask::new(1));
    assert!(prev.is_none());
    assert_eq!((start.timeout, start.repeat), (0, 0));
    let (_, start) = t.sleep(-5, BlockedTask::new(2));
    assert_eq!(start.timeout, 0);
    let (_, start) = t.sleep(250, BlockedTask::new(3));
    assert_eq!(start.timeout, 250);
}

#[test]
fn oneshot_then_sleep_drops_oneshot() {
    let mut el = event_loop(1);
    let mut t = Timer::new_on(&mut el, raw::Timer::from_raw(11));
    let (prev, _) = t.oneshot(1000, Callback::new(5));
    assert!(prev.is_none());
    let (prev, _) = t.sleep(10, BlockedTask::new(9));
    match prev {
        Some(Action::CallOnce(cb)) => assert_eq!(cb.id(), 5),
        _ => panic!("the oneshot should come back"),
    }
    match t.timer_cb() {
        Action::WakeTask(task) => assert_eq!(task.reawaken(), 9),
        _ => panic!("the sleeper should wake"),
    }
}

#[test]
fn second_oneshot_replaces_first() {
    let mut el = event_loop(1);
    let mut t = Timer::new_on(&mut el, raw::Timer::from_raw(11));
    let (_, start) = t.oneshot(10000, Callback::new(1));
    assert_eq!(start.timeout, 10000);
    let (prev, start) = t.oneshot(1, Callback::new(2));
    assert_eq!(start.timeout, 1);
    // the 10 s callback is dropped: its receiver sees the hangup
    match prev {
        Some(Action::CallOnce(cb)) => assert_eq!(cb.id(), 1),
        _ => panic!("first oneshot should come back"),
    }
    match t.timer_cb() {
        Action::CallOnce(cb) => assert_eq!(cb.id(), 2),
        _ => panic!("only the 1 ms oneshot fires"),
    }
}

#[test]
fn periodic_period_and_stale_callback() {
    let mut el = event_loop(1);
    let mut t = Timer::new_on(&mut el, raw::Timer::from_raw(11));
    let (_, start) = t.periodic(0, Callback::new(3));
    assert_eq!((start.timeout, start.repeat), (1, 1));
    let (_, start) = t.periodic(20, Callback::new(4));
    assert_eq!((start.timeout, start.repeat), (20, 20));
    let (cb, id) = match t.timer_cb() {
        Action::CallMany(cb, id) => (cb, id),
        _ => panic!("periodic"),
    };
    assert!(t.restore(cb, id).is_none());
    let (cb, id) = match t.timer_cb() {
        Action::CallMany(cb, id) => (cb, id),
        _ => panic!("periodic"),
    };
    // the callback ran, and meanwhile the timer was dropped
    let _ = t.close();
    assert_eq!(t.restore(cb, id).unwrap().id(), 4);
}

#[test]
fn connect_timeout_nonpositive_is_canceled() {
    let mut cx = ConnectCtx::new();
    assert_eq!(cx.connect(Some(0)), Err(UvError(ECANCELED)));
    assert_eq!(cx.connect(Some(-10)), Err(UvError(ECANCELED)));
    assert_eq!(cx.connect(Some(50)), Ok(Some(50)));
}

#[test]
fn connect_timer_fires_first() {
    let mut cx = ConnectCtx::new();
    assert_eq!(cx.connect(Some(10)), Ok(Some(10)));
    cx.park(BlockedTask::new(3));
    assert_eq!(cx.on_timer().reawaken(), 3);
    let (r, close_timer) = cx.finish();
    assert_eq!(r, Err(UvError(ECANCELED)));
    assert!(close_timer);
    // the late connect callback only frees its request
    let done = cx.on_connect(0);
    assert!(done.wake.is_none());
    assert!(!done.stop_timer);
}

#[test]
fn connect_completes() {
    let mut cx = ConnectCtx::new();
    assert_eq!(cx.connect(None), Ok(None));
    cx.park(BlockedTask::new(4));
    let done = cx.on_connect(0);
    assert_eq!(done.wake.unwrap().reawaken(), 4);
    assert!(!done.stop_timer);
    assert_eq!(cx.finish().0, Ok(()));
    let mut cx = ConnectCtx::new();
    assert_eq!(cx.connect(None), Ok(None));
    cx.park(BlockedTask::new(4));
    let _ = cx.on_connect(ECONNREFUSED);
    assert_eq!(cx.finish().0, Err(UvError(ECONNREFUSED)));
}

#[test]
fn access_timeout_cancels_waiter() {
    let mut at: AccessTimeout<()> = AccessTimeout::new(());
    let other = at.clone_client();
    assert_eq!(other, 1);
    assert_eq!(at.clone_count(), 2);
    assert!(!at.timed_out(other));
    // clone 0 holds the access, with no timeout
    let g = match at.grant(0) {
        Ok(Grant::Granted(g)) => g,
        _ => panic!("free access"),
    };
    assert!(!g.can_timeout());
    // clone 1 waits, under a timeout of its own
    assert_eq!(at.set_timeout(other, Some(10), 77), TimerCommand::Start { ms: 10, create: true });
    assert!(matches!(at.grant(other), Ok(Grant::Wait)));
    at.wait(other, BlockedTask::new(20));
    match at.on_timeout(other) {
        TimeoutAction::Wake(t) => assert_eq!(t.reawaken(), 20),
        _ => panic!("the waiter is dequeued"),
    }
    assert!(at.timed_out(other));
    assert!(!at.timed_out(0));
    assert_eq!(at.resume(other).0.err(), Some(UvError(ECANCELED)));
    // nobody waits any more: releasing hands the access to nobody
    assert!(at.release(0, g).is_none());
    assert_eq!(at.grant(other).err(), Some(UvError(ECANCELED)));
    assert_eq!(at.set_timeout(other, None, 0), TimerCommand::Stop);
    assert!(matches!(at.grant(other), Ok(Grant::Granted(_))));
}

#[test]
fn access_timeout_hands_over_in_order() {
    let mut at: AccessTimeout<()> = AccessTimeout::new(());
    let b = at.clone_client();
    let c = at.clone_client();
    let g = match at.grant(0) {
        Ok(Grant::Granted(g)) => g,
        _ => panic!("free access"),
    };
    assert!(matches!(at.grant(b), Ok(Grant::Wait)));
    at.wait(b, BlockedTask::new(2));
    assert!(matches!(at.grant(c), Ok(Grant::Wait)));
    at.wait(c, BlockedTask::new(3));
    assert_eq!(at.release(0, g).unwrap().reawaken(), 2);
    let (gb, next) = at.resume(b);
    assert!(next.is_none());
    // clone c was woken by nobody yet: it does not hold the access
    assert_eq!(at.resume(c).0.err(), Some(UvError(ECANCELED)));
    assert_eq!(at.release(b, gb.unwrap()).unwrap().reawaken(), 3);
    let (gc, _) = at.resume(c);
    assert!(at.release(c, gc.unwrap()).is_none());
}

#[test]
fn access_timeout_cancels_request() {
    let mut at: AccessTimeout<()> = AccessTimeout::new(());
    assert_eq!(at.set_timeout(0, Some(-3), 9), TimerCommand::Start { ms: 0, create: true });
    let g = match at.grant(0) {
        Ok(Grant::Granted(g)) => g,
        _ => panic!("free access"),
    };
    assert!(g.can_timeout());
    match at.on_timeout(0) {
        TimeoutAction::Unblock(p) => assert_eq!(p, 9),
        _ => panic!("the request is canceled"),
    }
    assert!(at.release(0, g).is_none());
    assert_eq!(at.set_timeout(0, Some(5), 9), TimerCommand::Start { ms: 5, create: false });
}

/// The missile of a task already on loop 1, the home of the test streams.
fn homed() -> HomingMissile {
    HomeHandle::new(1, 1001).fire_homing_missile(1)
}

fn tcp(id: usize) -> Duplex<raw::Tcp> {
    Duplex::new(raw::Tcp::from_raw(id), HomeHandle::new(1, 1001))
}

fn read_grant<H: Copy>(d: &mut Duplex<H>, clone: usize) -> Guard {
    match d.read_access().grant(clone) {
        Ok(Grant::Granted(g)) => g,
        _ => panic!("the read access is free"),
    }
}

#[test]
fn accept_with_timeout_race() {
    let mut el = event_loop(1);
    let listener = TcpListener::bind_on(&mut el, raw::Tcp::from_raw(50));
    let (mut acceptor, backlog) = listener.listen();
    assert_eq!(backlog, TCP_BACKLOG);
    assert_eq!(backlog, 128);
    assert!(matches!(acceptor.set_timeout(0, Some(10)), TimerCommand::Start { ms: 10, create: true }));

    // first accept: nothing pending, park, the timeout fires
    assert!(acceptor.accept(0).is_none());
    let g = match acceptor.access().timeout().grant(0) {
        Ok(Grant::Granted(g)) => g,
        _ => panic!("free access"),
    };
    acceptor.access().park(BlockedTask::new(1));
    assert_eq!(acceptor.access().on_timeout(0).unwrap().reawaken(), 1);
    assert_eq!(acceptor.access().accept_woken().err(), Some(UvError(ECANCELED)));
    assert!(acceptor.access().timeout().release(0, g).is_none());

    // second accept: timed out, canceled at once
    assert_eq!(acceptor.accept(0).unwrap().err(), Some(UvError(ECANCELED)));

    // a client connects: the next accept succeeds
    assert!(acceptor.listen_cb(0, Some(Ok(tcp(60)))).is_none());
    let c = acceptor.accept(0).unwrap().unwrap();
    assert_eq!(c.raw().raw(), 60);

    // timeout cleared: accept parks until the next connection
    let _ = acceptor.set_timeout(0, None);
    assert!(acceptor.accept(0).is_none());
    let g = match acceptor.access().timeout().grant(0) {
        Ok(Grant::Granted(g)) => g,
        _ => panic!("free access"),
    };
    acceptor.access().park(BlockedTask::new(2));
    assert_eq!(acceptor.listen_cb(0, Some(Ok(tcp(61)))).unwrap().reawaken(), 2);
    assert_eq!(acceptor.access().accept_woken().unwrap().raw().raw(), 61);
    assert!(acceptor.access().timeout().release(0, g).is_none());
}

#[test]
fn accept_after_close_drains_then_eof() {
    let mut el = event_loop(1);
    let (mut acceptor, _) = TcpListener::bind_on(&mut el, raw::Tcp::from_raw(50)).listen();
    let _ = acceptor.listen_cb(0, Some(Ok(tcp(70))));
    let _ = acceptor.listen_cb(ECONNREFUSED, None);
    assert!(acceptor.close_accept().is_none());
    assert_eq!(acceptor.accept(0).unwrap().unwrap().raw().raw(), 70);
    assert_eq!(acceptor.accept(0).unwrap().err(), Some(UvError(ECONNREFUSED)));
    assert_eq!(acceptor.accept(0).unwrap().err(), Some(UvError(EOF)));
    assert_eq!(acceptor.accept(0).unwrap().err(), Some(UvError(EOF)));
}

#[test]
fn close_accept_wakes_parked_acceptor_with_eof() {
    let mut el = event_loop(1);
    let (mut acceptor, _) = TcpListener::bind_on(&mut el, raw::Tcp::from_raw(50)).listen();
    assert!(acceptor.accept(0).is_none());
    acceptor.access().park(BlockedTask::new(8));
    assert_eq!(acceptor.close_accept().unwrap().reawaken(), 8);
    assert_eq!(acceptor.access().accept_woken().err(), Some(UvError(EOF)));
}

#[test]
fn accept_then_read_one_byte() {
    let mut el = event_loop(1);
    let (mut acceptor, _) = TcpListener::bind_on(&mut el, raw::Tcp::from_raw(50)).listen();
    let _ = acceptor.listen_cb(0, Some(Ok(tcp(80))));
    let mut server = acceptor.accept(0).unwrap().unwrap();
    let buf = [0u8; 16];
    let g = read_grant(&mut server, 0);
    assert_eq!(server.uv_read(&homed(), &g, slice_to_uv_buf(&buf)), Ok(()));
    server.stream().park_reader(BlockedTask::new(1));
    assert_eq!(server.stream().alloc_cb(), UvBuf { len: 16 });
    // the client wrote the byte 99
    assert_eq!(server.stream().read_cb(1).reawaken(), 1);
    assert_eq!(server.stream().read_finish(), Ok(1));
    assert!(server.read_access().release(0, g).is_none());
}

#[test]
fn read_after_peer_close_is_eof_twice() {
    let mut p = Duplex::new(raw::Pipe::from_raw(3), HomeHandle::new(1, 1001));
    let buf = [0u8; 4];
    let g = read_grant(&mut p, 0);
    assert_eq!(p.uv_read(&homed(), &g, slice_to_uv_buf(&buf)), Ok(()));
    p.stream().park_reader(BlockedTask::new(1));
    let _ = p.stream().read_cb(1);
    assert_eq!(p.stream().read_finish(), Ok(1));
    for _ in 0..2 {
        assert_eq!(p.uv_read(&homed(), &g, slice_to_uv_buf(&buf)), Ok(()));
        p.stream().park_reader(BlockedTask::new(1));
        let _ = p.stream().read_cb(EOF as isize);
        assert_eq!(p.stream().read_finish(), Err(UvError(EOF)));
    }
}

#[test]
fn close_read_cancels_parked_reader() {
    let mut c = tcp(90);
    let buf = [0u8; 8];
    let second = c.clone_handle();
    // the first clone is parked in a read
    let g = read_grant(&mut c, 0);
    assert_eq!(c.uv_read(&homed(), &g, slice_to_uv_buf(&buf)), Ok(()));
    c.stream().park_reader(BlockedTask::new(5));
    // the second clone closes the read half
    assert_eq!(c.close_read(&homed()).unwrap().reawaken(), 5);
    assert_eq!(c.stream().read_finish(), Err(UvError(EOF)));
    assert_eq!(c.uv_read(&homed(), &g, slice_to_uv_buf(&buf)), Err(UvError(EOF)));
    assert!(c.read_access().release(0, g).is_none());
    // later reads on the second clone end the same way
    let g = read_grant(&mut c, second);
    assert_eq!(c.uv_read(&homed(), &g, slice_to_uv_buf(&buf)), Err(UvError(EOF)));
    assert!(c.close_read(&homed()).is_none());
}

#[test]
fn read_timeout_cancels_read() {
    let mut c = tcp(91);
    assert!(matches!(c.set_read_timeout(0, Some(5), 91), TimerCommand::Start { ms: 5, create: true }));
    let buf = [0u8; 8];
    let g = read_grant(&mut c, 0);
    assert!(g.can_timeout());
    assert_eq!(c.uv_read(&homed(), &g, slice_to_uv_buf(&buf)), Ok(()));
    c.stream().park_reader(BlockedTask::new(6));
    match c.read_access().on_timeout(0) {
        TimeoutAction::Unblock(p) => assert_eq!(p, 91),
        _ => panic!("the pending read is canceled"),
    }
    assert_eq!(c.cancel_read().unwrap().reawaken(), 6);
    assert_eq!(c.stream().read_finish(), Err(UvError(ECANCELED)));
}

#[test]
fn close_write_then_read_to_end() {
    let mut c = tcp(92);
    c.close_write();
    c.park_shutdown(BlockedTask::new(1));
    assert_eq!(c.shutdown_cb(0).reawaken(), 1);
    assert_eq!(c.shutdown_finish(), Ok(()));
    // the peer saw our EOF and sent [1]
    let buf = [0u8; 8];
    let g = read_grant(&mut c, 0);
    assert_eq!(c.uv_read(&homed(), &g, slice_to_uv_buf(&buf)), Ok(()));
    c.stream().park_reader(BlockedTask::new(1));
    let _ = c.stream().read_cb(1);
    assert_eq!(c.stream().read_finish(), Ok(1));
    assert_eq!(c.uv_read(&homed(), &g, slice_to_uv_buf(&buf)), Ok(()));
    c.stream().park_reader(BlockedTask::new(1));
    let _ = c.stream().read_cb(EOF as isize);
    assert_eq!(c.stream().read_finish(), Err(UvError(EOF)));
}

#[test]
fn shutdown_error_status() {
    let mut c = tcp(93);
    c.close_write();
    c.park_shutdown(BlockedTask::new(1));
    let _ = c.shutdown_cb(EPIPE);
    assert_eq!(c.shutdown_finish(), Err(UvError(EPIPE)));
}

#[test]
fn stream_write_reuses_request() {
    let mut c = tcp(94);
    assert!(c.write_access().grant(1));
    assert!(c.uv_write(&homed(), 1).is_none());
    c.stream().park_writer(raw::Write::from_raw(300), BlockedTask::new(1));
    assert_eq!(c.stream().write_cb(0).reawaken(), 1);
    assert_eq!(c.stream().write_finish(), Ok(()));
    let req = c.uv_write(&homed(), 1).unwrap();
    assert_eq!(req.raw(), 300);
    c.stream().park_writer(req, BlockedTask::new(2));
    let _ = c.stream().write_cb(EPIPE);
    assert_eq!(c.stream().write_finish(), Err(UvError(EPIPE)));
}

fn v4(a: u8, b: u8, c: u8, d: u8, port: u16) -> SocketAddr {
    SocketAddr { ip: IpAddr::Ipv4Addr(a, b, c, d), port }
}

#[test]
fn udp_empty_callback_is_retried() {
    let mut el = event_loop(1);
    let mut u = Udp::bind_on(&mut el, raw::Udp::from_raw(40));
    let buf = [0u8; 32];
    let g = match u.read_access().grant(0) {
        Ok(Grant::Granted(g)) => g,
        _ => panic!("free access"),
    };
    u.recv_from(&g, slice_to_uv_buf(&buf));
    u.park_receiver(BlockedTask::new(3));
    assert_eq!(u.alloc_cb(), UvBuf { len: 32 });
    // nothing was there: the callback is ignored and the buffer offered again
    assert!(u.recv_cb(0, None).is_none());
    assert_eq!(u.alloc_cb(), UvBuf { len: 32 });
    let from = v4(127, 0, 0, 1, 9000);
    assert_eq!(u.recv_cb(5, Some(from)).unwrap().reawaken(), 3);
    assert_eq!(u.recv_finish(), Ok((5, from)));
}

#[test]
fn udp_recv_timeout_and_send() {
    let mut el = event_loop(1);
    let mut u = Udp::bind_on(&mut el, raw::Udp::from_raw(40));
    assert!(matches!(u.set_read_timeout(0, Some(1)), TimerCommand::Start { ms: 1, create: true }));
    let buf = [0u8; 32];
    let g = match u.read_access().grant(0) {
        Ok(Grant::Granted(g)) => g,
        _ => panic!("free access"),
    };
    u.recv_from(&g, slice_to_uv_buf(&buf));
    u.park_receiver(BlockedTask::new(3));
    assert_eq!(u.cancel_read().unwrap().reawaken(), 3);
    assert_eq!(u.recv_finish(), Err(UvError(ECANCELED)));

    assert!(u.write_access().grant(2));
    u.send_to(2);
    u.park_sender(BlockedTask::new(4));
    assert_eq!(u.send_cb(0).reawaken(), 4);
    assert_eq!(u.send_finish(), Ok(()));
    u.send_to(2);
    u.park_sender(BlockedTask::new(4));
    let _ = u.send_cb(EINVAL);
    assert_eq!(u.send_finish(), Err(UvError(EINVAL)));
}

#[test]
fn request_ctx_status() {
    let mut cx = RequestCtx::new(0);
    cx.park(BlockedTask::new(1));
    assert_eq!(cx.complete(-2).reawaken(), 1);
    assert_eq!(cx.finish(), Err(UvError(ENOENT)));
    let cx = RequestCtx::new(3);
    assert_eq!(cx.finish(), Ok(()));
}

#[test]
fn sockaddr_v4_round_trip() {
    let a = v4(192, 168, 1, 20, 8080);
    let mut st = SockaddrStorage { family: 0, data: Vec::new() };
    let len = rustuv::net::addr_to_sockaddr(a, &mut st);
    assert_eq!(len, 16);
    assert_eq!(st.family, AF_INET);
    assert_eq!(&st.data[0..6], &[0x1f, 0x90, 192, 168, 1, 20]);
    assert_eq!(rustuv::net::sockaddr_to_addr(&st, len), a);
}

#[test]
fn sockaddr_v6_round_trip() {
    let a = SocketAddr { ip: IpAddr::Ipv6Addr(0x2001, 0xdb8, 0, 0, 0, 0, 0, 1), port: 443 };
    let mut st = SockaddrStorage { family: 0, data: Vec::new() };
    let len = rustuv::net::addr_to_sockaddr(a, &mut st);
    assert_eq!(len, 28);
    assert_eq!(st.family, AF_INET6);
    assert_eq!(&st.data[0..2], &[0x01, 0xbb]);
    assert_eq!(&st.data[6..10], &[0x20, 0x01, 0x0d, 0xb8]);
    assert_eq!(rustuv::net::sockaddr_to_addr(&st, len), a);
}

#[test]
fn host_addresses_include_loopback() {
    let mut lo = SockaddrStorage { family: 0, data: Vec::new() };
    let _ = rustuv::net::addr_to_sockaddr(v4(127, 0, 0, 1, 0), &mut lo);
    let mut lo6 = SockaddrStorage { family: 0, data: Vec::new() };
    let _ = rustuv::net::addr_to_sockaddr(
        SocketAddr { ip: IpAddr::Ipv6Addr(0, 0, 0, 0, 0, 0, 0, 1), port: 0 }, &mut lo6);
    let answer = vec![(lo6, 28), (lo, 16)];
    let ips = rustuv::net::get_host_addresses_on(0, &answer).unwrap();
    assert_eq!(ips.len(), 2);
    assert!(ips.contains(&IpAddr::Ipv4Addr(127, 0, 0, 1)));
    assert_eq!(rustuv::net::get_host_addresses_on(-3008, &answer), Err(UvError(-3008)));
}

#[test]
fn tty_guess_must_be_terminal() {
    let mut el = event_loop(1);
    assert!(rustuv::tty::Tty::new_on(&mut el, rustuv::tty::UV_TTY, raw::Tty::from_raw(2)).is_ok());
    assert_eq!(rustuv::tty::Tty::new_on(&mut el, 7, raw::Tty::from_raw(3)).err(), Some(UvError(EBADF)));
}

#[test]
fn timer_drop_frees_after_close_callback() {
    let mut el = event_loop(1);
    let mut t = Timer::new_on(&mut el, raw::Timer::from_raw(11));
    let _ = t.periodic(5, Callback::new(7));
    let (cb, id) = match t.timer_cb() {
        Action::CallMany(cb, id) => (cb, id),
        _ => panic!("periodic"),
    };
    // the callback is running when the timer is dropped
    assert!(t.close().is_none());
    assert!(!t.is_freed());
    // the stale periodic callback is not put back
    assert_eq!(t.restore(cb, id).unwrap().id(), 7);
    t.close_cb();
    assert!(t.is_freed());
}

#[test]
fn event_loop_teardown_order() {
    let mut el = event_loop(5);
    let mut slot: Option<BlockedTask> = None;
    block(el.uv_loop(), BlockedTask::new(1), &mut slot);
    let mut td = Teardown::new();
    let (step, pool) = el.teardown_step(&mut td);
    assert_eq!(step, Ok(TeardownStep::DropPool));
    assert_eq!(pool.unwrap().handle(), 1005);
    assert_eq!(el.teardown_step(&mut td).0, Ok(TeardownStep::RunOnce));
    // a parked task keeps the loop open
    assert_eq!(el.teardown_step(&mut td).0, Err(UvError(EBUSY)));
    let _ = wakeup(&mut slot);
    unblock(el.uv_loop());
    assert_eq!(el.teardown_step(&mut td).0, Ok(TeardownStep::CloseLoop));
    assert_eq!(el.teardown_step(&mut td).0, Ok(TeardownStep::FreeWakeupHandle));
    assert_eq!(el.teardown_step(&mut td).0, Ok(TeardownStep::FreeLoop));
    assert!(td.is_finished());
}

#[test]
fn run_twice_is_unknown() {
    let mut tls = LocalLoop::new();
    let el = event_loop(9);
    assert_eq!(el.run(&mut tls), Ok(()));
    assert_eq!(event_loop(10).run(&mut tls), Err(UvError(UNKNOWN)));
}
