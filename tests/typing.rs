use autotype::keys::{KeyEvent, VK_SHIFT, VK_TAB};
use autotype::typing::{
    check_submission, type_input, TypingError, TypingSession, TypingStep, PACING_DELAY_MS,
};

/// Drives a session, answering each submission with the next count of
/// `accepted` (1 once they run out); returns the submitted events, the
/// number of pauses and the outcome.
fn drive(mut session: TypingSession, accepted: &[u32]) -> (Vec<KeyEvent>, usize, Result<(), TypingError>) {
    let mut sent = Vec::new();
    let mut pauses = 0;
    loop {
        match session.next_step() {
            TypingStep::Submit(e) => {
                let count = accepted.get(sent.len()).copied().unwrap_or(1);
                sent.push(e);
                session.record_submission(count);
            }
            TypingStep::Pause(ms) => {
                assert_eq!(ms, PACING_DELAY_MS);
                pauses += 1;
                session.record_pause();
            }
            TypingStep::Finished(r) => return (sent, pauses, r),
        }
    }
}

#[test]
fn empty_input_succeeds_without_events() {
    let (sent, pauses, r) = drive(type_input(Vec::new()), &[]);
    assert!(sent.is_empty());
    assert_eq!(pauses, 0);
    assert_eq!(r, Ok(()));
}

#[test]
fn shift_a_shift_scenario() {
    let (sent, pauses, r) = drive(type_input(vec![VK_SHIFT, 0x41, VK_SHIFT]), &[]);
    let shift_down = KeyEvent { virtual_key: 0x10, character: 0, flags: 0 };
    let shift_up = KeyEvent { virtual_key: 0x10, character: 0, flags: 0x0002 };
    let a_down = KeyEvent { virtual_key: 0, character: 0x41, flags: 0x0004 };
    let a_up = KeyEvent { virtual_key: 0, character: 0x41, flags: 0x0006 };
    assert_eq!(sent, vec![shift_down, shift_up, a_down, a_up, shift_down, shift_up]);
    assert_eq!(pauses, 6);
    assert_eq!(r, Ok(()));
}

#[test]
fn pause_follows_each_submission() {
    let mut s = type_input(vec![VK_TAB]);
    assert!(matches!(s.next_step(), TypingStep::Submit(_)));
    s.record_submission(1);
    assert!(matches!(s.next_step(), TypingStep::Pause(40)));
    s.record_pause();
    assert!(matches!(s.next_step(), TypingStep::Submit(e) if e.flags == 0x0002));
    s.record_submission(1);
    assert!(matches!(s.next_step(), TypingStep::Pause(40)));
    s.record_pause();
    assert!(matches!(s.next_step(), TypingStep::Finished(Ok(()))));
}

#[test]
fn rejection_stops_typing() {
    let (sent, pauses, r) = drive(type_input(vec![0x61, 0x62]), &[1, 1, 0]);
    assert_eq!(sent.len(), 3);
    assert_eq!(pauses, 2);
    assert_eq!(r, Err(TypingError::InjectionRejected));
}

#[test]
fn over_acceptance_is_partial() {
    let (sent, _, r) = drive(type_input(vec![0x61]), &[2]);
    assert_eq!(sent.len(), 1);
    assert_eq!(r, Err(TypingError::InjectionPartial));
}

#[test]
fn submission_verdicts() {
    assert_eq!(check_submission(4, 0), Err(TypingError::InjectionRejected));
    assert_eq!(check_submission(4, 3), Err(TypingError::InjectionPartial));
    assert_eq!(check_submission(4, 5), Err(TypingError::InjectionPartial));
    assert_eq!(check_submission(4, 4), Ok(()));
    assert_eq!(check_submission(0, 0), Err(TypingError::InjectionRejected));
}
