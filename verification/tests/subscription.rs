use opcua_client::status::{
    StatusCode, BAD_NO_SUBSCRIPTION, BAD_SESSION_CLOSED, BAD_SESSION_ID_INVALID, BAD_TIMEOUT,
    BAD_TOO_MANY_PUBLISH_REQUESTS,
};
use opcua_client::subscription::{
    ActivityOrNext, Decision, LoopEvent, Outcome, PublishState, SubscriptionActivity,
    SubscriptionCache, SubscriptionEventLoopState,
};
use opcua_client::transport::pending::Instant;
use std::cell::RefCell;
use std::rc::Rc;

struct Schedule {
    next: Option<Instant>,
    asked: Rc<RefCell<Vec<bool>>>,
}

impl SubscriptionCache for Schedule {
    fn next_publish_time(&mut self, set_last_publish: bool) -> Option<Instant> {
        self.asked.borrow_mut().push(set_last_publish);
        if set_last_publish {
            self.next = self.next.map(|t| t + 100);
        }
        self.next
    }
}

fn new_loop(next: Option<Instant>) -> (SubscriptionEventLoopState<Schedule>, Rc<RefCell<Vec<bool>>>) {
    let asked = Rc::new(RefCell::new(Vec::new()));
    let cache = Schedule { next, asked: asked.clone() };
    (SubscriptionEventLoopState::new(7, 50, cache), asked)
}

fn step(
    state: &mut SubscriptionEventLoopState<Schedule>,
    event: LoopEvent,
    next_publish: Option<Instant>,
) -> (bool, ActivityOrNext) {
    let decision = state.tick(event);
    (decision.publish, state.go_on(decision, next_publish))
}

fn ok(more: bool, min: usize) -> LoopEvent {
    LoopEvent::Published { result: Ok(more), min_publish_requests: min }
}

fn failed(status: u32) -> LoopEvent {
    LoopEvent::Published { result: Err(StatusCode(status)), min_publish_requests: 2 }
}

fn time(next: ActivityOrNext) -> Option<Instant> {
    match next {
        ActivityOrNext::Next(at) => at,
        ActivityOrNext::Activity(activity) => panic!("unexpected activity {:?}", activity),
    }
}

fn activity(next: ActivityOrNext) -> SubscriptionActivity {
    match next {
        ActivityOrNext::Activity(activity) => activity,
        ActivityOrNext::Next(at) => panic!("no activity, next at {:?}", at),
    }
}

#[test]
fn a_new_loop_rests() {
    let (mut state, asked) = new_loop(Some(10));
    assert_eq!(state.session_id(), 7);
    assert_eq!(
        state.publish_state(),
        PublishState {
            last_external_trigger: 50,
            waiting_for_response: false,
            no_active_subscription: true,
            in_flight: 0,
        }
    );
    assert_eq!(state.start_iteration(), Some(10));
    assert_eq!(*asked.borrow(), vec![false]);
    assert_eq!(state.next_tick(Some(10)), Some(10));
    assert_eq!(state.next_tick(None), None);
}

#[test]
fn a_trigger_publishes_and_reschedules() {
    let (mut state, asked) = new_loop(Some(10));
    let (publish, next) = step(&mut state, LoopEvent::Triggered(Some(60)), Some(10));
    assert!(publish);
    assert_eq!(time(next), Some(110));
    assert_eq!(*asked.borrow(), vec![true]);
    assert_eq!(state.publish_state().last_external_trigger, 60);
    assert!(!state.publish_state().no_active_subscription);
    assert_eq!(state.publish_state().in_flight, 1);
}

#[test]
fn a_lost_trigger_only_resumes() {
    let (mut state, asked) = new_loop(Some(10));
    let (publish, next) = step(&mut state, LoopEvent::Triggered(None), Some(10));
    assert!(!publish);
    assert_eq!(time(next), Some(10));
    assert!(asked.borrow().is_empty());
    assert_eq!(state.publish_state().last_external_trigger, 50);
    assert!(!state.publish_state().no_active_subscription);
}

#[test]
fn a_tick_publishes_on_schedule() {
    let (mut state, asked) = new_loop(Some(10));
    let (publish, next) = step(&mut state, LoopEvent::Ticked, Some(10));
    assert!(!publish);
    assert_eq!(time(next), Some(110));
    step(&mut state, LoopEvent::Triggered(Some(60)), Some(110));
    let (publish, next) = step(&mut state, LoopEvent::Ticked, Some(210));
    assert!(publish);
    assert_eq!(time(next), Some(310));
    assert_eq!(state.publish_state().in_flight, 2);
    assert_eq!(*asked.borrow(), vec![true, true, true]);
}

#[test]
fn a_response_is_followed_by_a_publish_if_few_are_in_flight() {
    let (mut state, asked) = new_loop(Some(10));
    step(&mut state, LoopEvent::Triggered(Some(60)), Some(10));
    step(&mut state, LoopEvent::Triggered(Some(61)), Some(10));
    asked.borrow_mut().clear();
    let (publish, next) = step(&mut state, ok(false, 2), Some(10));
    assert!(publish);
    assert_eq!(activity(next), SubscriptionActivity::Publish);
    assert_eq!(state.publish_state().in_flight, 2);
    assert_eq!(*asked.borrow(), vec![true]);
    let (publish, next) = step(&mut state, ok(false, 1), Some(10));
    assert!(!publish);
    assert_eq!(activity(next), SubscriptionActivity::Publish);
    assert_eq!(state.publish_state().in_flight, 1);
    assert_eq!(*asked.borrow(), vec![true]);
}

#[test]
fn a_response_is_followed_by_a_publish_if_more_notifications_wait() {
    let (mut state, _) = new_loop(None);
    step(&mut state, LoopEvent::Triggered(Some(60)), None);
    let (publish, _) = step(&mut state, ok(true, 0), None);
    assert!(publish);
    assert_eq!(state.publish_state().in_flight, 1);
    let (publish, _) = step(&mut state, ok(false, 0), None);
    assert!(!publish);
    assert_eq!(state.publish_state().in_flight, 0);
}

#[test]
fn too_many_publish_requests_stop_publishing_until_a_response() {
    let (mut state, asked) = new_loop(Some(10));
    for at in 60..63 {
        step(&mut state, LoopEvent::Triggered(Some(at)), Some(10));
    }
    let (publish, next) = step(&mut state, failed(BAD_TOO_MANY_PUBLISH_REQUESTS), Some(10));
    assert!(!publish);
    assert_eq!(
        activity(next),
        SubscriptionActivity::PublishFailed(StatusCode(BAD_TOO_MANY_PUBLISH_REQUESTS))
    );
    assert!(state.publish_state().waiting_for_response);
    assert_eq!(state.next_tick(Some(10)), None);
    asked.borrow_mut().clear();
    let (publish, next) = step(&mut state, LoopEvent::Triggered(Some(70)), Some(10));
    assert!(!publish);
    assert_eq!(time(next), Some(10));
    assert!(asked.borrow().is_empty());
    assert_eq!(state.publish_state().last_external_trigger, 62);
    assert!(!step(&mut state, LoopEvent::Ticked, Some(10)).0);
    assert!(!step(&mut state, failed(BAD_TIMEOUT), Some(10)).0);
    let (publish, next) = step(&mut state, ok(true, 5), Some(10));
    assert!(!publish);
    assert_eq!(activity(next), SubscriptionActivity::Publish);
    assert!(!state.publish_state().waiting_for_response);
    assert_eq!(state.publish_state().in_flight, 0);
    assert!(step(&mut state, LoopEvent::Triggered(Some(70)), Some(10)).0);
}

#[test]
fn a_wait_for_no_response_keeps_ticking() {
    let (mut state, _) = new_loop(Some(10));
    step(&mut state, LoopEvent::Triggered(Some(60)), Some(10));
    step(&mut state, failed(BAD_TOO_MANY_PUBLISH_REQUESTS), Some(10));
    assert_eq!(state.publish_state().in_flight, 0);
    assert_eq!(state.next_tick(Some(10)), Some(10));
}

#[test]
fn no_subscriptions_stop_the_schedule() {
    let (mut state, _) = new_loop(Some(10));
    step(&mut state, LoopEvent::Triggered(Some(60)), Some(10));
    step(&mut state, LoopEvent::Triggered(Some(61)), Some(10));
    let (_, next) = step(&mut state, failed(BAD_NO_SUBSCRIPTION), Some(10));
    assert_eq!(
        activity(next),
        SubscriptionActivity::PublishFailed(StatusCode(BAD_NO_SUBSCRIPTION))
    );
    assert!(!step(&mut state, LoopEvent::Ticked, Some(10)).0);
    assert!(step(&mut state, LoopEvent::Triggered(Some(62)), Some(10)).0);
    assert!(step(&mut state, LoopEvent::Ticked, Some(10)).0);
    step(&mut state, failed(BAD_NO_SUBSCRIPTION), Some(10));
    assert!(state.publish_state().no_active_subscription);
    step(&mut state, ok(false, 0), Some(10));
    assert!(!state.publish_state().no_active_subscription);
}

#[test]
fn only_a_dead_session_is_fatal() {
    for status in [BAD_SESSION_CLOSED, BAD_SESSION_ID_INVALID] {
        let (mut state, _) = new_loop(None);
        step(&mut state, LoopEvent::Triggered(Some(60)), None);
        let (publish, next) = step(&mut state, failed(status), None);
        assert!(!publish);
        assert_eq!(activity(next), SubscriptionActivity::FatalFailure(StatusCode(status)));
    }
    let (mut state, _) = new_loop(None);
    step(&mut state, LoopEvent::Triggered(Some(60)), None);
    let (_, next) = step(&mut state, failed(BAD_TIMEOUT), None);
    assert_eq!(activity(next), SubscriptionActivity::PublishFailed(StatusCode(BAD_TIMEOUT)));
    assert!(!state.publish_state().waiting_for_response);
    assert!(!state.publish_state().no_active_subscription);
}

#[test]
fn a_decision_says_when_the_next_publish_is_due() {
    let mut state = PublishState {
        last_external_trigger: 1,
        waiting_for_response: false,
        no_active_subscription: false,
        in_flight: 1,
    };
    let decision = state.decide(LoopEvent::Ticked);
    assert_eq!(
        decision,
        Decision { publish: true, set_last_publish: true, outcome: Outcome::Reschedule }
    );
    assert_eq!(time(decision.next(Some(5), Some(9))), Some(9));
    let decision = state.decide(LoopEvent::Triggered(None));
    assert_eq!(
        decision,
        Decision { publish: false, set_last_publish: false, outcome: Outcome::Wait }
    );
    assert_eq!(time(decision.next(Some(5), Some(9))), Some(5));
    let decision = state.decide(ok(false, 0));
    assert_eq!(activity(decision.next(Some(5), Some(9))), SubscriptionActivity::Publish);
    assert_eq!(state.in_flight, 1);
}

#[test]
fn the_cache_is_asked_after_the_publish() {
    let (mut state, asked) = new_loop(Some(10));
    let decision = state.tick(LoopEvent::Triggered(Some(60)));
    assert_eq!(
        decision,
        Decision { publish: true, set_last_publish: true, outcome: Outcome::Reschedule }
    );
    assert_eq!(state.publish_state().in_flight, 1);
    assert!(asked.borrow().is_empty());
    assert_eq!(time(state.go_on(decision, Some(10))), Some(110));
    assert_eq!(*asked.borrow(), vec![true]);
    let decision = state.tick(LoopEvent::Triggered(None));
    assert_eq!(time(state.go_on(decision, Some(110))), Some(110));
    assert_eq!(*asked.borrow(), vec![true]);
}

#[test]
fn only_later_triggers_are_new() {
    let (mut state, _) = new_loop(None);
    assert!(!state.is_new_trigger(49));
    assert!(!state.is_new_trigger(50));
    assert!(state.is_new_trigger(51));
    state.tick(LoopEvent::Triggered(Some(51)));
    assert!(!state.is_new_trigger(51));
    assert!(state.is_new_trigger(52));
}
