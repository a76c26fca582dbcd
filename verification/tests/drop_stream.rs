use std::pin::Pin;
use std::task::{Context, Poll};

use drop_stream::{DropStream, DropStreamExt};
use futures::{stream::repeat, Stream};

/// Holds a wrapper the way an owner does: it is a stream that pulls through
/// the wrapper, and it tears the wrapper down when it is dropped.
struct Held<S: Stream + Unpin, U: FnOnce() + Unpin>(DropStream<S, U>);

impl<S: Stream + Unpin, U: FnOnce() + Unpin> Stream for Held<S, U> {
    type Item = S::Item;

    fn poll_next(self: Pin<&mut Self>, cx: &mut Context<'_>) -> Poll<Option<S::Item>> {
        self.get_mut().0.poll_next(cx)
    }
}

impl<S: Stream + Unpin, U: FnOnce() + Unpin> Drop for Held<S, U> {
    fn drop(&mut self) {
        self.0.teardown()
    }
}

#[test]
fn dropper_runs_on_drop() {
    let test_stream = repeat(true);

    let mut has_run = false;

    {
        let has_run_ref = &mut has_run;
        let _drop_stream = Held(DropStream::new(test_stream, move || {
            *has_run_ref = true;
        }));
    }

    assert!(has_run)
}

#[test]
fn stream_passes_through_result() {
    let test_stream = repeat(true);

    let drop_stream = Held(DropStream::new(test_stream, || {}));

    let mut drop_stream = Box::pin(drop_stream);

    let waker = futures::task::noop_waker();
    let mut context = futures::task::Context::from_waker(&waker);
    assert_eq!(
        drop_stream.as_mut().poll_next(&mut context),
        Poll::Ready(Some(true))
    );
}

#[test]
fn dropper_runs_on_drop_after_passing_result() {
    let test_stream = repeat(true);

    let mut has_run = false;

    {
        let has_run_ref = &mut has_run;
        let drop_stream = Held(DropStream::new(test_stream, move || {
            *has_run_ref = true;
        }));

        let mut drop_stream = Box::pin(drop_stream);

        let waker = futures::task::noop_waker();
        let mut context = futures::task::Context::from_waker(&waker);
        assert_eq!(
            drop_stream.as_mut().poll_next(&mut context),
            Poll::Ready(Some(true))
        );
    }

    assert!(has_run)
}

#[test]
fn stream_trait_is_implemented() {
    let test_stream = repeat(true);

    let mut has_run = false;

    {
        let has_run_ref = &mut has_run;
        let drop_stream = Held(test_stream.on_drop(move || {
            *has_run_ref = true;
        }));

        let mut drop_stream = Box::pin(drop_stream);

        let waker = futures::task::noop_waker();
        let mut context = futures::task::Context::from_waker(&waker);
        assert_eq!(
            drop_stream.as_mut().poll_next(&mut context),
            Poll::Ready(Some(true))
        );
    }

    assert!(has_run)
}
