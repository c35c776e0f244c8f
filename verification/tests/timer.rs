use std::future::Future;
use std::pin::Pin;
use std::task::Context;
use std::task::Poll;
use std::time::Duration;
use std::time::Instant;
use std::time::SystemTime;

use sint::Backend;
use sint::Moment;
use sint::Span;
use sint::Timeout;

/// Drives the backend a `Timeout` owns through the standard polling
/// protocol. Only the native backend can run on this host.
struct Driver {
    native: Pin<Box<tokio::time::Sleep>>,
}

fn drive(t: Timeout) -> Driver {
    match t.into_backend() {
        Backend::Native(s) => Driver { native: Box::pin(s) },
        Backend::Hosted(_) => panic!("hosted backend cannot run on a native host"),
    }
}

impl Future for Driver {
    type Output = ();

    fn poll(mut self: Pin<&mut Self>, cx: &mut Context<'_>) -> Poll<()> {
        self.native.as_mut().poll(cx)
    }
}

/// Awaits the driver and reports how many polls it took to become ready.
struct CountPolls {
    inner: Driver,
    polls: u32,
}

impl Future for CountPolls {
    type Output = u32;

    fn poll(mut self: Pin<&mut Self>, cx: &mut Context<'_>) -> Poll<u32> {
        let me = self.get_mut();
        me.polls += 1;
        match Pin::new(&mut me.inner).poll(cx) {
            Poll::Ready(()) => Poll::Ready(me.polls),
            Poll::Pending => Poll::Pending,
        }
    }
}

/// Polls the driver exactly once and reports whether it was already ready.
struct ProbeOnce {
    inner: Driver,
}

impl Future for ProbeOnce {
    type Output = bool;

    fn poll(mut self: Pin<&mut Self>, cx: &mut Context<'_>) -> Poll<bool> {
        let me = self.get_mut();
        match Pin::new(&mut me.inner).poll(cx) {
            Poll::Ready(()) => Poll::Ready(true),
            Poll::Pending => Poll::Ready(false),
        }
    }
}

/// The present moment, read from the system clock.
fn moment_now() -> Moment {
    let since_origin = SystemTime::now()
        .duration_since(SystemTime::UNIX_EPOCH)
        .unwrap_or(Duration::ZERO);
    Moment::from_span(Span::from_parts(since_origin.as_secs(), since_origin.subsec_nanos()))
}

fn runtime() -> tokio::runtime::Runtime {
    tokio::runtime::Runtime::new().expect("runtime")
}

#[test]
fn constructors_pick_the_native_backend() {
    let rt = runtime();
    rt.block_on(async {
        assert!(matches!(Timeout::new(Span::from_millis(1)).into_backend(), Backend::Native(_)));
        assert!(matches!(
            Timeout::until(moment_now()).into_backend(),
            Backend::Native(_)
        ));
        assert!(matches!(sint::sleep(Span::from_millis(1)).into_backend(), Backend::Native(_)));
        assert!(matches!(
            sint::sleep_until(moment_now()).into_backend(),
            Backend::Native(_)
        ));
    });
}

#[test]
fn sleep_completes_after_its_delay() {
    let rt = runtime();
    rt.block_on(async {
        let start = Instant::now();
        drive(sint::sleep(Span::from_millis(500))).await;
        let elapsed = start.elapsed();
        assert!(elapsed >= Duration::from_millis(500), "woke early: {elapsed:?}");
        assert!(elapsed < Duration::from_millis(1500), "woke late: {elapsed:?}");
    });
}

#[test]
fn pending_before_the_deadline() {
    let rt = runtime();
    rt.block_on(async {
        let first = ProbeOnce { inner: drive(sint::sleep(Span::from_millis(300))) }.await;
        assert!(!first, "a fresh long timer reported ready");
    });
}

#[test]
fn sleep_until_and_sleep_agree_on_the_deadline() {
    let rt = runtime();
    rt.block_on(async {
        let deadline = moment_now().checked_add_span(&Span::from_secs(1)).unwrap();
        let start = Instant::now();
        let absolute = tokio::spawn(async move {
            drive(sint::sleep_until(deadline)).await;
            start.elapsed()
        });
        let relative = tokio::spawn(async move {
            drive(sint::sleep(Span::from_secs(1))).await;
            start.elapsed()
        });
        let absolute = absolute.await.unwrap();
        let relative = relative.await.unwrap();
        assert!(relative >= Duration::from_secs(1), "relative woke early: {relative:?}");
        assert!(absolute >= Duration::from_millis(900), "absolute woke early: {absolute:?}");
        assert!(absolute < Duration::from_secs(2), "absolute woke late: {absolute:?}");
        assert!(relative < Duration::from_secs(2), "relative woke late: {relative:?}");
        let gap = if absolute > relative { absolute - relative } else { relative - absolute };
        assert!(gap < Duration::from_millis(200), "deadlines drifted apart: {gap:?}");
    });
}

#[test]
fn past_deadline_is_immediately_ready() {
    let rt = runtime();
    rt.block_on(async {
        let long_ago = moment_now()
            .span_from_origin()
            .saturating_sub(&Span::from_secs(10));
        let start = Instant::now();
        let t = sint::sleep_until(Moment::from_span(long_ago));
        let polls = CountPolls { inner: drive(t), polls: 0 }.await;
        assert!(polls <= 2, "past-deadline timer took {polls} polls");
        assert!(start.elapsed() < Duration::from_millis(100), "past-deadline timer waited");
    });
}

#[test]
fn epoch_deadline_is_immediately_ready() {
    let rt = runtime();
    rt.block_on(async {
        let start = Instant::now();
        let t = Timeout::until(Moment::from_span(Span::zero()));
        let polls = CountPolls { inner: drive(t), polls: 0 }.await;
        assert!(polls <= 2, "epoch-deadline timer took {polls} polls");
        assert!(start.elapsed() < Duration::from_millis(100), "epoch-deadline timer waited");
    });
}

#[test]
fn zero_delay_is_ready_within_two_polls() {
    let rt = runtime();
    rt.block_on(async {
        let polls = CountPolls { inner: drive(Timeout::new(Span::zero())), polls: 0 }.await;
        assert!(polls <= 2, "zero-delay timer took {polls} polls");
    });
}

#[test]
fn dropping_pending_timers_releases_them() {
    let rt = runtime();
    rt.block_on(async {
        for _ in 0..10_000 {
            let t = Timeout::new(Span::from_secs(3_600));
            drop(t);
        }
        let start = Instant::now();
        drive(sint::sleep(Span::from_millis(20))).await;
        assert!(start.elapsed() >= Duration::from_millis(20));
    });
}

#[test]
fn a_thousand_concurrent_timers_all_finish_promptly() {
    let rt = runtime();
    let start = Instant::now();
    rt.block_on(async {
        let mut handles = Vec::new();
        for _ in 0..1_000 {
            handles.push(tokio::spawn(async {
                drive(sint::sleep(Span::from_millis(10))).await;
            }));
        }
        for h in handles {
            h.await.unwrap();
        }
    });
    let elapsed = start.elapsed();
    assert!(elapsed >= Duration::from_millis(10), "finished early: {elapsed:?}");
    assert!(elapsed < Duration::from_secs(2), "finished late: {elapsed:?}");
}
