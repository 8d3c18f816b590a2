use std::future::Future;
use std::pin::Pin;
use std::task::{Context, Poll, Waker};
use std::time::{Duration, Instant};

use futures_core::Stream;

use stop_token::deadline::{Deadline, TimedOutError};
use stop_token::future::{FutureExt, RaceState, Stop, Turn};
use stop_token::stream::{finish_poll_next, StreamExt, TimeoutAt};
use stop_token::StopSource;

/// Drives one request of a `TimeoutAt` the way an executor-facing stream does.
fn poll_request<S: Stream + Unpin>(
    t: &mut TimeoutAt<S>,
    cx: &mut Context<'_>,
) -> Poll<Option<Result<S::Item, TimedOutError>>> {
    if t.begin_poll_next(cx) {
        return Poll::Ready(finish_poll_next(true, None));
    }
    match Pin::new(t.stream_mut()).poll_next(cx) {
        Poll::Pending => Poll::Pending,
        Poll::Ready(item) => Poll::Ready(finish_poll_next(false, item)),
    }
}

async fn next_item<S: Stream + Unpin>(t: &mut TimeoutAt<S>) -> Option<Result<S::Item, TimedOutError>> {
    std::future::poll_fn(|cx| poll_request(t, cx)).await
}

/// Drives one resume of a `Stop` the way an executor-facing future does.
fn poll_race<F: Future + Unpin>(s: &mut Stop<F>, cx: &mut Context<'_>) -> Poll<Result<F::Output, TimedOutError>> {
    match s.begin_poll(cx) {
        Turn::TimedOut => Poll::Ready(Err(TimedOutError::new())),
        Turn::Finished => panic!("race polled after completion"),
        Turn::PollInner => {
            let out = match Pin::new(s.future_mut()).poll(cx) {
                Poll::Ready(v) => Some(v),
                Poll::Pending => None,
            };
            match s.finish_poll(out) {
                Some(r) => Poll::Ready(r),
                None => Poll::Pending,
            }
        }
    }
}

async fn run_race<F: Future + Unpin>(s: &mut Stop<F>) -> Result<F::Output, TimedOutError> {
    std::future::poll_fn(|cx| poll_race(s, cx)).await
}

/// Polls two futures side by side until both are done.
async fn join<A: Future, B: Future>(a: A, b: B) -> (A::Output, B::Output) {
    let mut a = Box::pin(a);
    let mut b = Box::pin(b);
    let mut ra = None;
    let mut rb = None;
    std::future::poll_fn(|cx| {
        if ra.is_none() {
            if let Poll::Ready(v) = a.as_mut().poll(cx) {
                ra = Some(v);
            }
        }
        if rb.is_none() {
            if let Poll::Ready(v) = b.as_mut().poll(cx) {
                rb = Some(v);
            }
        }
        if ra.is_some() && rb.is_some() {
            Poll::Ready(())
        } else {
            Poll::Pending
        }
    })
    .await;
    (ra.unwrap(), rb.unwrap())
}

async fn collect_until_stop<S: Stream + Unpin>(mut stream: TimeoutAt<S>) -> Vec<S::Item> {
    let mut xs = Vec::new();
    while let Some(Ok(x)) = next_item(&mut stream).await {
        xs.push(x)
    }
    xs
}

async fn sleep(ms: u64) {
    async_io::Timer::after(Duration::from_millis(ms)).await;
}

#[test]
fn smoke() {
    async_io::block_on(async {
        let (sender, receiver) = async_channel::bounded::<i32>(10);
        let source = StopSource::new();
        let consumer = collect_until_stop(receiver.clone().timeout_at(source.token().into_deadline()));
        let producer = async move {
            sender.send(1).await.unwrap();
            sender.send(2).await.unwrap();
            sender.send(3).await.unwrap();

            sleep(250).await;
            drop(source);
            sleep(250).await;

            sender.send(4).await.unwrap();
            sender.send(5).await.unwrap();
            sender.send(6).await.unwrap();
        };
        let (xs, ()) = join(consumer, producer).await;
        assert_eq!(xs, vec![1, 2, 3]);
    })
}

#[test]
fn async_io_time() {
    async_io::block_on(async {
        let (sender, receiver) = async_channel::bounded::<i32>(10);
        let consumer =
            collect_until_stop(receiver.clone().timeout_at(Deadline::after(Duration::from_millis(200))));
        let producer = async move {
            sender.send(1).await.unwrap();
            sender.send(2).await.unwrap();
            sender.send(3).await.unwrap();

            sleep(250).await;

            sender.send(4).await.unwrap();
            sender.send(5).await.unwrap();
            sender.send(6).await.unwrap();
        };
        let (xs, ()) = join(consumer, producer).await;
        assert_eq!(xs, vec![1, 2, 3]);
    })
}

#[test]
fn instant_deadline_stream() {
    async_io::block_on(async {
        let (sender, receiver) = async_channel::bounded::<i32>(10);
        let at = Instant::now() + Duration::from_millis(200);
        let consumer = collect_until_stop(receiver.clone().timeout_at(Deadline::at(at)));
        let producer = async move {
            sender.send(1).await.unwrap();
            sender.send(2).await.unwrap();
            sender.send(3).await.unwrap();

            sleep(250).await;

            sender.send(4).await.unwrap();
            sender.send(5).await.unwrap();
            sender.send(6).await.unwrap();
        };
        let (xs, ()) = join(consumer, producer).await;
        assert_eq!(xs, vec![1, 2, 3]);
    })
}

#[test]
fn two_tokens_see_one_stop() {
    async_io::block_on(async {
        let (s1, r1) = async_channel::bounded::<i32>(10);
        let (s2, r2) = async_channel::bounded::<i32>(10);
        let source = StopSource::new();
        let c1 = collect_until_stop(r1.clone().timeout_at(source.token().into_deadline()));
        let c2 = collect_until_stop(r2.clone().timeout_at(source.token().into_deadline()));
        let producer = async move {
            s1.send(10).await.unwrap();
            s2.send(20).await.unwrap();
            s2.send(21).await.unwrap();
            sleep(100).await;
            drop(source);
            sleep(100).await;
            s1.send(11).await.unwrap();
            s2.send(22).await.unwrap();
        };
        let ((xs, ys), ()) = join(join(c1, c2), producer).await;
        assert_eq!(xs, vec![10]);
        assert_eq!(ys, vec![20, 21]);
    })
}

#[test]
fn pending_future_times_out_after_deadline() {
    async_io::block_on(async {
        let start = Instant::now();
        let mut race = std::future::pending::<()>().until(Deadline::after(Duration::from_millis(200)));
        let r = run_race(&mut race).await;
        let waited = start.elapsed();
        assert_eq!(r, Err(TimedOutError::new()));
        assert!(waited >= Duration::from_millis(200));
        assert!(waited < Duration::from_millis(2000));
        assert_eq!(race.state_now(), RaceState::TimedOut);
    })
}

#[test]
fn ready_future_completes_before_deadline() {
    async_io::block_on(async {
        let source = StopSource::new();
        let mut race = std::future::ready(7).until(source.token().into_deadline());
        assert_eq!(run_race(&mut race).await, Ok(7));
        assert_eq!(race.state_now(), RaceState::Completed);
        drop(source);
        let mut cx = Context::from_waker(Waker::noop());
        assert_eq!(race.begin_poll(&mut cx), Turn::Finished);
        assert_eq!(race.state_now(), RaceState::Completed);
    })
}

#[test]
fn stopped_token_wins_over_ready_future() {
    let source = StopSource::new();
    let token = source.token();
    drop(source);
    let mut race = std::future::ready(7).until(token.into_deadline());
    let mut cx = Context::from_waker(Waker::noop());
    assert_eq!(poll_race(&mut race, &mut cx), Poll::Ready(Err(TimedOutError::new())));
    assert_eq!(race.state_now(), RaceState::TimedOut);
    assert_eq!(race.begin_poll(&mut cx), Turn::TimedOut);
    assert_eq!(race.finish_poll(Some(8)), None);
    assert_eq!(race.state_now(), RaceState::TimedOut);
}

#[test]
fn race_reports_pending_while_inner_pending() {
    let source = StopSource::new();
    let mut race = Stop::new(std::future::pending::<u8>(), source.token().into_deadline());
    let mut cx = Context::from_waker(Waker::noop());
    assert_eq!(race.begin_poll(&mut cx), Turn::PollInner);
    assert_eq!(race.finish_poll::<u8>(None), None);
    assert_eq!(race.state_now(), RaceState::Running);
    assert_eq!(race.finish_poll(Some(3u8)), Some(Ok(3u8)));
    assert_eq!(race.state_now(), RaceState::Completed);
    let _inner = race.into_inner();
}

#[test]
fn token_sees_drop_of_source() {
    let source = StopSource::new();
    let mut token = source.token();
    let mut other = token.clone();
    let mut cx = Context::from_waker(Waker::noop());
    assert!(!token.is_stopped());
    assert!(!token.poll_stop(&mut cx));
    drop(source);
    assert!(token.poll_stop(&mut cx));
    assert!(token.poll_stop(&mut cx));
    assert!(token.is_stopped());
    assert!(other.is_stopped());
    let mut late = token.clone();
    assert!(late.poll_stop(&mut cx));
}

#[test]
fn default_source_is_live() {
    let source = StopSource::default();
    let mut token = source.token();
    assert!(!token.is_stopped());
    drop(source);
    assert!(token.is_stopped());
}

#[test]
fn sequence_race_marks_timeout_and_passes_items() {
    assert_eq!(finish_poll_next(false, Some(5)), Some(Ok(5)));
    assert_eq!(finish_poll_next::<i32>(false, None), None);
    assert_eq!(finish_poll_next(true, Some(5)), Some(Err(TimedOutError::new())));
    assert_eq!(finish_poll_next::<i32>(true, None), Some(Err(TimedOutError::new())));
}

#[test]
fn stopped_stream_keeps_buffered_items_unrequested() {
    let (sender, receiver) = async_channel::bounded::<i32>(10);
    let source = StopSource::new();
    let mut stream = receiver.clone().timeout_at(source.token().into_deadline());
    let mut cx = Context::from_waker(Waker::noop());
    sender.try_send(1).unwrap();
    sender.try_send(2).unwrap();
    assert_eq!(poll_request(&mut stream, &mut cx), Poll::Ready(Some(Ok(1))));
    drop(source);
    assert_eq!(poll_request(&mut stream, &mut cx), Poll::Ready(Some(Err(TimedOutError::new()))));
    assert_eq!(poll_request(&mut stream, &mut cx), Poll::Ready(Some(Err(TimedOutError::new()))));
    let inner = stream.into_inner();
    assert_eq!(inner.try_recv(), Ok(2));
}

#[test]
fn stream_end_passes_through() {
    let (sender, receiver) = async_channel::bounded::<i32>(10);
    let source = StopSource::new();
    let mut stream = receiver.timeout_at(source.token().into_deadline());
    let mut cx = Context::from_waker(Waker::noop());
    sender.try_send(9).unwrap();
    drop(sender);
    assert_eq!(poll_request(&mut stream, &mut cx), Poll::Ready(Some(Ok(9))));
    assert_eq!(poll_request(&mut stream, &mut cx), Poll::Ready(None));
}

#[test]
fn timed_out_error_message() {
    assert_eq!(TimedOutError::new().message(), "Future has timed out");
    assert_eq!(TimedOutError::new(), TimedOutError::new());
}

#[test]
fn reached_instant_deadline_stays_reached_on_clone() {
    let mut d = Deadline::at(Instant::now());
    let mut cx = Context::from_waker(Waker::noop());
    assert!(d.poll_elapsed(&mut cx));
    assert!(d.poll_elapsed(&mut cx));
    let mut c = d.clone();
    assert!(c.poll_elapsed(&mut cx));
}

#[test]
fn duration_deadline_is_anchored_anew_on_clone() {
    let mut d = Deadline::after(Duration::from_millis(0));
    let mut cx = Context::from_waker(Waker::noop());
    assert!(d.poll_elapsed(&mut cx));
    let mut long = Deadline::after(Duration::from_secs(3600));
    assert!(!long.poll_elapsed(&mut cx));
    let mut c = long.clone();
    assert!(!c.poll_elapsed(&mut cx));
}

#[test]
fn token_deadline_clone_shares_signal() {
    let source = StopSource::new();
    let d = source.token().into_deadline();
    let mut c = d.clone();
    let mut cx = Context::from_waker(Waker::noop());
    assert!(!c.poll_elapsed(&mut cx));
    drop(source);
    assert!(c.poll_elapsed(&mut cx));
}
