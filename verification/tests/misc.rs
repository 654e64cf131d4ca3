use twitter_stream::service::{IntoService, Sealed};
use twitter_stream::timeout::{timeout_step, BodyPoll, Decision, StreamStep, TimerPoll};

#[test]
fn timeout_decisions() {
    assert_eq!(
        timeout_step(BodyPoll::Item, Some(TimerPoll::Pending)),
        Decision { step: StreamStep::Yield, reset: true, cancel: false }
    );
    assert_eq!(
        timeout_step(BodyPoll::Item, None),
        Decision { step: StreamStep::Yield, reset: false, cancel: false }
    );
    assert_eq!(timeout_step(BodyPoll::End, Some(TimerPoll::Elapsed)).step, StreamStep::End);
    assert_eq!(timeout_step(BodyPoll::NotReady, Some(TimerPoll::Elapsed)).step, StreamStep::TimedOut);
    assert_eq!(
        timeout_step(BodyPoll::NotReady, Some(TimerPoll::Shutdown)),
        Decision { step: StreamStep::Wait, reset: false, cancel: true }
    );
    assert_eq!(
        timeout_step(BodyPoll::NotReady, Some(TimerPoll::Failed)),
        Decision { step: StreamStep::Wait, reset: false, cancel: false }
    );
    assert_eq!(timeout_step(BodyPoll::NotReady, None).step, StreamStep::Wait);
}

#[test]
fn into_service() {
    let s = IntoService(5u8);
    assert_eq!(*s.get_ref(), 5);
    let twice = <IntoService<u8> as Sealed<()>>::into_service(s);
    assert_eq!(twice.into_inner().into_inner(), 5);
}

#[test]
fn timeout_passes_body_errors_on() {
    assert_eq!(
        timeout_step(BodyPoll::Failed, Some(TimerPoll::Elapsed)),
        Decision { step: StreamStep::Fail, reset: false, cancel: false }
    );
    assert_eq!(timeout_step(BodyPoll::Failed, None).step, StreamStep::Fail);
}
