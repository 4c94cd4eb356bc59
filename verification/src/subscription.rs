//! The loop that keeps publish requests in flight, so that the server can report what happened
//! to the subscriptions of a session.

use vstd::prelude::*;

use crate::status::{
    StatusCode, BAD_NO_SUBSCRIPTION, BAD_SESSION_CLOSED, BAD_SESSION_ID_INVALID,
    BAD_TOO_MANY_PUBLISH_REQUESTS,
};
use crate::transport::pending::Instant;

verus! {

/// A trait for managing subscription state in the event loop.
///
/// This is just a handle to something that tracks subscriptions,
/// letting us query when the next publish should be sent.
pub trait SubscriptionCache {
    /// Get and update the time for the next publish. If `set_last_publish` is true,
    /// the last publish time is updated to now, affecting future calls to this method.
    fn next_publish_time(&mut self, set_last_publish: bool) -> Option<Instant>;
}

/// An activity of the subscription event loop.
#[derive(Clone, Copy, Debug, PartialEq, Eq, Structural)]
pub enum SubscriptionActivity {
    /// A publish request received a successful response.
    Publish,
    /// A publish request failed, either due to a timeout or an error.
    PublishFailed(StatusCode),
    /// A publish request failed because the session is dead.
    FatalFailure(StatusCode),
}

/// What happened in the loop.
#[derive(Clone, Copy, Debug)]
pub enum LoopEvent {
    /// A publish was asked for at this time, later than at any time before. `None` if nobody is
    /// left to ask for one.
    Triggered(Option<Instant>),
    /// The time for the next publish has come.
    Ticked,
    /// A publish request was answered.
    Published {
        /// Whether more notifications wait at the server, or why the request failed.
        result: Result<bool, StatusCode>,
        /// The number of publish requests to keep in flight.
        min_publish_requests: usize,
    },
}

/// The state that decides when to publish.
#[derive(Clone, Copy, Debug, PartialEq, Eq, Structural)]
pub struct PublishState {
    /// When a publish was last asked for and sent.
    pub last_external_trigger: Instant,
    /// This is true if the client has received `BAD_TOO_MANY_PUBLISH_REQUESTS`
    /// and is waiting for a response before making further requests.
    pub waiting_for_response: bool,
    /// This is true if the client has received a no subscriptions response,
    /// and is waiting for a manual trigger or successful response before resuming publishing.
    pub no_active_subscription: bool,
    /// The number of publish requests that have not been answered.
    pub in_flight: usize,
}

/// How the loop goes on.
#[derive(Clone, Copy, Debug, PartialEq, Eq, Structural)]
pub enum Outcome {
    /// The iteration of the loop is over.
    Activity(SubscriptionActivity),
    /// Wait on, for the next publish at the time that was set before.
    Wait,
    /// Wait on, for the next publish at a new time.
    Reschedule,
}

/// What to do about an event.
#[derive(Clone, Copy, Debug, PartialEq, Eq, Structural)]
pub struct Decision {
    /// Send a publish request.
    pub publish: bool,
    /// Note in the subscription cache that a publish was due.
    pub set_last_publish: bool,
    /// How the loop goes on.
    pub outcome: Outcome,
}

impl PublishState {
    /// No publish request has been sent, and none will be before the first trigger.
    pub open spec fn initial(last_external_trigger: Instant) -> PublishState {
        PublishState {
            last_external_trigger,
            waiting_for_response: false,
            no_active_subscription: true,
            in_flight: 0,
        }
    }

    /// The event can happen: only a request that is in flight is answered.
    pub open spec fn can_see(self, event: LoopEvent) -> bool {
        event is Published ==> self.in_flight > 0
    }

    /// Whether to send a publish request.
    ///
    /// Nothing is sent while waiting for a response. Otherwise a publish that is asked for is
    /// always sent. One that is due is sent if there are subscriptions. One follows a response
    /// if more notifications wait or too few requests are in flight.
    pub open spec fn publishes(self, event: LoopEvent) -> bool {
        !self.waiting_for_response && match event {
            LoopEvent::Triggered(at) => at is Some,
            LoopEvent::Ticked => !self.no_active_subscription,
            LoopEvent::Published { result: Ok(more), min_publish_requests } => more
                || self.in_flight - 1 < min_publish_requests,
            LoopEvent::Published { result: Err(_), .. } => false,
        }
    }

    /// The state after an event.
    pub open spec fn after(self, event: LoopEvent) -> PublishState {
        let sent: int = if self.publishes(event) {
            1
        } else {
            0
        };
        let answered: int = if event is Published {
            1
        } else {
            0
        };
        PublishState {
            last_external_trigger: match event {
                LoopEvent::Triggered(Some(at)) if !self.waiting_for_response => at,
                _ => self.last_external_trigger,
            },
            waiting_for_response: match event {
                LoopEvent::Published { result: Ok(_), .. } => false,
                LoopEvent::Published { result: Err(status), .. } => self.waiting_for_response
                    || status == StatusCode(BAD_TOO_MANY_PUBLISH_REQUESTS),
                _ => self.waiting_for_response,
            },
            no_active_subscription: match event {
                LoopEvent::Triggered(_) => false,
                LoopEvent::Published { result: Ok(_), .. } => false,
                LoopEvent::Published { result: Err(status), .. } => self.no_active_subscription
                    || status == StatusCode(BAD_NO_SUBSCRIPTION),
                LoopEvent::Ticked => self.no_active_subscription,
            },
            in_flight: (self.in_flight + sent - answered) as usize,
        }
    }

    /// How the loop goes on after an event.
    pub open spec fn outcome(self, event: LoopEvent) -> Outcome {
        match event {
            LoopEvent::Triggered(_) => if self.publishes(event) {
                Outcome::Reschedule
            } else {
                Outcome::Wait
            },
            LoopEvent::Ticked => Outcome::Reschedule,
            LoopEvent::Published { result: Ok(_), .. } => Outcome::Activity(
                SubscriptionActivity::Publish,
            ),
            LoopEvent::Published { result: Err(status), .. } => Outcome::Activity(
                if status == StatusCode(BAD_SESSION_CLOSED) || status == StatusCode(
                    BAD_SESSION_ID_INVALID,
                ) {
                    SubscriptionActivity::FatalFailure(status)
                } else {
                    SubscriptionActivity::PublishFailed(status)
                },
            ),
        }
    }

    /// What to do about an event.
    pub open spec fn decision(self, event: LoopEvent) -> Decision {
        Decision {
            publish: self.publishes(event),
            set_last_publish: self.publishes(event) || event is Ticked,
            outcome: self.outcome(event),
        }
    }

    /// Decide what to do about an event.
    pub fn decide(&mut self, event: LoopEvent) -> (res: Decision)
        requires
            old(self).can_see(event),
            old(self).in_flight < usize::MAX,
        ensures
            *final(self) == old(self).after(event),
            res == old(self).decision(event),
    {
        match event {
            LoopEvent::Triggered(at) => {
                let mut publish = false;
                if let Some(at) = at {
                    if !self.waiting_for_response {
                        publish = true;
                        self.in_flight = self.in_flight + 1;
                        self.last_external_trigger = at;
                    }
                }
                self.no_active_subscription = false;
                Decision {
                    publish,
                    set_last_publish: publish,
                    outcome: if publish {
                        Outcome::Reschedule
                    } else {
                        Outcome::Wait
                    },
                }
            },
            LoopEvent::Ticked => {
                let publish = !self.waiting_for_response && !self.no_active_subscription;
                if publish {
                    self.in_flight = self.in_flight + 1;
                }
                Decision { publish, set_last_publish: true, outcome: Outcome::Reschedule }
            },
            LoopEvent::Published { result, min_publish_requests } => {
                self.in_flight = self.in_flight - 1;
                match result {
                    Ok(more_notifications) => {
                        let publish = (more_notifications || self.in_flight < min_publish_requests)
                            && !self.waiting_for_response;
                        if publish {
                            self.in_flight = self.in_flight + 1;
                        }
                        self.waiting_for_response = false;
                        self.no_active_subscription = false;
                        Decision {
                            publish,
                            set_last_publish: publish,
                            outcome: Outcome::Activity(SubscriptionActivity::Publish),
                        }
                    },
                    Err(status) => Decision {
                        publish: false,
                        set_last_publish: false,
                        outcome: Outcome::Activity(self.publish_failed(status)),
                    },
                }
            },
        }
    }

    /// Note that a publish request failed.
    fn publish_failed(&mut self, status: StatusCode) -> (res: SubscriptionActivity)
        ensures
            *final(self) == (PublishState {
                waiting_for_response: old(self).waiting_for_response || status == StatusCode(
                    BAD_TOO_MANY_PUBLISH_REQUESTS,
                ),
                no_active_subscription: old(self).no_active_subscription || status == StatusCode(
                    BAD_NO_SUBSCRIPTION,
                ),
                ..*old(self)
            }),
            res == if status == StatusCode(BAD_SESSION_CLOSED) || status == StatusCode(
                BAD_SESSION_ID_INVALID,
            ) {
                SubscriptionActivity::FatalFailure(status)
            } else {
                SubscriptionActivity::PublishFailed(status)
            },
    {
        if status.0 == BAD_TOO_MANY_PUBLISH_REQUESTS {
            self.waiting_for_response = true;
        } else if status.0 == BAD_SESSION_CLOSED || status.0 == BAD_SESSION_ID_INVALID {
            return SubscriptionActivity::FatalFailure(status);
        } else if status.0 == BAD_NO_SUBSCRIPTION {
            self.no_active_subscription = true;
        }
        SubscriptionActivity::PublishFailed(status)
    }
}

/// How an iteration of the loop goes on.
#[derive(Debug)]
pub enum ActivityOrNext {
    /// It is over.
    Activity(SubscriptionActivity),
    /// It goes on, with the next publish at this time, if there is one to come.
    Next(Option<Instant>),
}

impl Decision {
    /// How the iteration goes on, where the next publish was due at `next_publish`, and would
    /// be due at `rescheduled` if it is scheduled anew.
    pub open spec fn following(
        self,
        next_publish: Option<Instant>,
        rescheduled: Option<Instant>,
    ) -> ActivityOrNext {
        match self.outcome {
            Outcome::Activity(activity) => ActivityOrNext::Activity(activity),
            Outcome::Wait => ActivityOrNext::Next(next_publish),
            Outcome::Reschedule => ActivityOrNext::Next(rescheduled),
        }
    }

    /// Find out how the iteration goes on.
    pub fn next(&self, next_publish: Option<Instant>, rescheduled: Option<Instant>) -> (res:
        ActivityOrNext)
        ensures
            res == self.following(next_publish, rescheduled),
    {
        match self.outcome {
            Outcome::Activity(activity) => ActivityOrNext::Activity(activity),
            Outcome::Wait => ActivityOrNext::Next(next_publish),
            Outcome::Reschedule => ActivityOrNext::Next(rescheduled),
        }
    }
}

/// The state machine for the subscription event loop.
///
/// It depends on no session, so that users can implement their own event loop, for example with
/// a publish that waits for the consumer to be ready, or with a subscription cache of their own.
pub struct SubscriptionEventLoopState<S> {
    state: PublishState,
    subscription_cache: S,
    session_id: u32,
}

/// The mathematical content of a [`SubscriptionEventLoopState`].
pub struct SubscriptionEventLoopView<S> {
    pub state: PublishState,
    pub subscription_cache: S,
    pub session_id: u32,
}

impl<S> View for SubscriptionEventLoopState<S> {
    type V = SubscriptionEventLoopView<S>;

    closed spec fn view(&self) -> SubscriptionEventLoopView<S> {
        SubscriptionEventLoopView {
            state: self.state,
            subscription_cache: self.subscription_cache,
            session_id: self.session_id,
        }
    }
}

/// When the next publish is due: not while the response to a request is awaited that is in
/// flight.
pub open spec fn next_tick(state: PublishState, next_publish: Option<Instant>) -> Option<Instant> {
    if state.waiting_for_response && state.in_flight > 0 {
        None
    } else {
        next_publish
    }
}

impl<S: SubscriptionCache> SubscriptionEventLoopState<S> {
    /// Construct a new event loop state.
    ///
    /// `session_id` is for logging purposes. Triggers up to `last_external_trigger` count as
    /// dealt with.
    pub fn new(session_id: u32, last_external_trigger: Instant, subscription_cache: S) -> (res: Self)
        ensures
            res@ == (SubscriptionEventLoopView {
                state: PublishState::initial(last_external_trigger),
                subscription_cache,
                session_id,
            }),
    {
        SubscriptionEventLoopState {
            state: PublishState {
                last_external_trigger,
                waiting_for_response: false,
                no_active_subscription: true,
                in_flight: 0,
            },
            subscription_cache,
            session_id,
        }
    }

    /// The session id.
    pub fn session_id(&self) -> (res: u32)
        ensures
            res == self@.session_id,
    {
        self.session_id
    }

    /// The state that decides when to publish.
    pub fn publish_state(&self) -> (res: PublishState)
        ensures
            res == self@.state,
    {
        self.state
    }

    /// Start an iteration of the loop: find out when the next publish is due. The subscription
    /// cache is asked, without noting a publish.
    pub fn start_iteration(&mut self) -> (res: Option<Instant>)
        ensures
            final(self)@ == (SubscriptionEventLoopView {
                subscription_cache: final(self)@.subscription_cache,
                ..old(self)@
            }),
            (exists|cache: &mut S|
                {
                    &&& #[trigger] call_ensures(S::next_publish_time, (cache, false), res)
                    &&& *cache == old(self)@.subscription_cache
                    &&& *final(cache) == final(self)@.subscription_cache
                }),
    {
        self.subscription_cache.next_publish_time(false)
    }

    /// When to report that the next publish is due, if at all.
    pub fn next_tick(&self, next_publish: Option<Instant>) -> (res: Option<Instant>)
        ensures
            res == next_tick(self@.state, next_publish),
    {
        if self.state.waiting_for_response && self.state.in_flight > 0 {
            None
        } else {
            next_publish
        }
    }

    /// Whether a publish was asked for later than the last time that is dealt with.
    pub fn is_new_trigger(&self, at: Instant) -> (res: bool)
        ensures
            res == (at > self@.state.last_external_trigger),
    {
        at > self.state.last_external_trigger
    }

    /// Decide what to do about an event. If the decision is to send a publish request, it is to
    /// be sent before going on with [`SubscriptionEventLoopState::go_on`].
    pub fn tick(&mut self, event: LoopEvent) -> (res: Decision)
        requires
            old(self)@.state.can_see(event),
            old(self)@.state.in_flight < usize::MAX,
        ensures
            final(self)@ == (SubscriptionEventLoopView {
                state: old(self)@.state.after(event),
                ..old(self)@
            }),
            res == old(self)@.state.decision(event),
    {
        self.state.decide(event)
    }

    /// Go on after a decision, where the next publish was due at `next_publish`. If a publish was
    /// due, the subscription cache notes it and says when the next one is.
    pub fn go_on(&mut self, decision: Decision, next_publish: Option<Instant>) -> (res:
        ActivityOrNext)
        ensures
            final(self)@ == (SubscriptionEventLoopView {
                subscription_cache: final(self)@.subscription_cache,
                ..old(self)@
            }),
            !decision.set_last_publish ==> final(self)@.subscription_cache
                == old(self)@.subscription_cache && res == decision.following(
                next_publish,
                next_publish,
            ),
            decision.set_last_publish ==> (exists|cache: &mut S, due: Option<Instant>|
                {
                    &&& #[trigger] call_ensures(S::next_publish_time, (cache, true), due)
                    &&& *cache == old(self)@.subscription_cache
                    &&& *final(cache) == final(self)@.subscription_cache
                    &&& res == decision.following(next_publish, due)
                }),
    {
        let rescheduled = if decision.set_last_publish {
            self.subscription_cache.next_publish_time(true)
        } else {
            next_publish
        };
        decision.next(next_publish, rescheduled)
    }
}

/// The state after a series of events.
pub open spec fn after_all(state: PublishState, events: Seq<LoopEvent>) -> PublishState
    decreases events.len(),
{
    if events.len() == 0 {
        state
    } else {
        after_all(state, events.drop_last()).after(events.last())
    }
}

/// Whether some event of a series leads to a publish request.
pub open spec fn publishes_in(state: PublishState, events: Seq<LoopEvent>) -> bool
    decreases events.len(),
{
    events.len() > 0 && (publishes_in(state, events.drop_last()) || after_all(
        state,
        events.drop_last(),
    ).publishes(events.last()))
}

/// The response to a publish request was good.
pub open spec fn is_success(event: LoopEvent) -> bool {
    event matches LoopEvent::Published { result: Ok(_), .. }
}

/// After too many publish requests none is sent, whatever happens, until a request succeeds.
pub proof fn law_backs_off_until_a_response(state: PublishState, events: Seq<LoopEvent>)
    requires
        state.waiting_for_response,
        forall|i: int| 0 <= i < events.len() ==> !is_success(#[trigger] events[i]),
    ensures
        !publishes_in(state, events),
        after_all(state, events).waiting_for_response,
    decreases events.len(),
{
    if events.len() > 0 {
        law_backs_off_until_a_response(state, events.drop_last());
    }
}

/// Without subscriptions no publish is sent on schedule, nor after a failure, until a publish
/// is asked for or a request succeeds.
pub proof fn law_rests_without_subscriptions(state: PublishState, events: Seq<LoopEvent>)
    requires
        state.no_active_subscription,
        forall|i: int|
            0 <= i < events.len() ==> !is_success(#[trigger] events[i]) && !(
            events[i] is Triggered),
    ensures
        !publishes_in(state, events),
        after_all(state, events).no_active_subscription,
    decreases events.len(),
{
    if events.len() > 0 {
        law_rests_without_subscriptions(state, events.drop_last());
    }
}

/// A publish that is asked for is sent at once, unless a response is awaited first. It also
/// ends the time without subscriptions.
pub proof fn law_trigger_publishes(state: PublishState, at: Instant)
    ensures
        state.publishes(LoopEvent::Triggered(Some(at))) == !state.waiting_for_response,
        !state.after(LoopEvent::Triggered(Some(at))).no_active_subscription,
        !state.waiting_for_response ==> state.after(
            LoopEvent::Triggered(Some(at)),
        ).last_external_trigger == at,
{
}

/// The requests in flight are those that were sent and not answered.
pub proof fn law_requests_in_flight_are_counted(state: PublishState, event: LoopEvent)
    requires
        state.can_see(event),
        state.in_flight < usize::MAX,
    ensures
        state.after(event).in_flight == state.in_flight + (if state.publishes(event) {
            1int
        } else {
            0
        }) - (if event is Published {
            1int
        } else {
            0
        }),
{
}

/// As long as requests succeed and no backing off is called for, the number of requests in
/// flight does not fall below the number to keep in flight, and does not fall at all while more
/// notifications wait.
pub proof fn law_enough_requests_stay_in_flight(
    state: PublishState,
    more: bool,
    min_publish_requests: usize,
)
    requires
        state.in_flight > 0,
        !state.waiting_for_response,
    ensures
        ({
            let after = state.after(
                LoopEvent::Published { result: Ok(more), min_publish_requests },
            );
            &&& state.in_flight >= min_publish_requests ==> after.in_flight >= min_publish_requests
            &&& state.in_flight < min_publish_requests ==> after.in_flight == state.in_flight
            &&& more ==> after.in_flight == state.in_flight
        }),
{
}

/// A publish is rescheduled only where the subscription cache is asked for the new time, and it
/// is asked wherever a publish is sent.
pub proof fn law_cache_knows_of_every_publish(state: PublishState, event: LoopEvent)
    ensures
        state.decision(event).publish ==> state.decision(event).set_last_publish,
        state.decision(event).outcome == Outcome::Reschedule
            ==> state.decision(event).set_last_publish,
{
}

/// Only the end of the session is fatal.
pub proof fn law_only_a_dead_session_is_fatal(state: PublishState, event: LoopEvent)
    ensures
        (state.outcome(event) matches Outcome::Activity(activity) && activity is FatalFailure)
            <==> (event matches LoopEvent::Published { result: Err(status), .. } && (status
            == StatusCode(BAD_SESSION_CLOSED) || status == StatusCode(BAD_SESSION_ID_INVALID))),
{
}

/// The activity that is reported tells success from failure: a publish is reported exactly for a
/// request that succeeded. A failure is reported with its own status, as fatal exactly if it
/// says that the session is dead. Nothing else ends an iteration.
pub proof fn law_activity_tells_success_from_failure(state: PublishState, event: LoopEvent)
    ensures
        ({
            let outcome = state.decision(event).outcome;
            &&& outcome == Outcome::Activity(SubscriptionActivity::Publish) <==> (
            event matches LoopEvent::Published { result: Ok(_), .. })
            &&& event matches LoopEvent::Published { result: Err(status), .. } ==> {
                let is_dead = status.0 == BAD_SESSION_CLOSED || status.0 == BAD_SESSION_ID_INVALID;
                &&& is_dead ==> outcome == Outcome::Activity(
                    SubscriptionActivity::FatalFailure(status),
                )
                &&& !is_dead ==> outcome == Outcome::Activity(
                    SubscriptionActivity::PublishFailed(status),
                )
            }
            &&& !(event is Published) ==> !(outcome is Activity)
        }),
{
}

/// A publish that is asked for is sent, scheduled anew and remembered, unless a response is
/// awaited first. Then, and if nobody is left to ask, nothing is sent and the schedule stays. In
/// each case publishing on schedule resumes.
pub proof fn law_triggers_are_dealt_with(state: PublishState, at: Option<Instant>)
    requires
        state.in_flight < usize::MAX,
    ensures
        ({
            let event = LoopEvent::Triggered(at);
            let decision = state.decision(event);
            let after = state.after(event);
            &&& !after.no_active_subscription
            &&& after.waiting_for_response == state.waiting_for_response
            &&& if at is Some && !state.waiting_for_response {
                &&& decision.publish
                &&& decision.set_last_publish
                &&& decision.outcome == Outcome::Reschedule
                &&& after.last_external_trigger == at->0
                &&& after.in_flight == state.in_flight + 1
            } else {
                &&& !decision.publish
                &&& !decision.set_last_publish
                &&& decision.outcome == Outcome::Wait
                &&& after.last_external_trigger == state.last_external_trigger
                &&& after.in_flight == state.in_flight
            }
        }),
{
}

/// When the next publish is due, it is scheduled anew in any case, and it is sent exactly if there
/// are subscriptions and no response is awaited. Nothing else changes.
pub proof fn law_schedule_is_kept(state: PublishState)
    requires
        state.in_flight < usize::MAX,
    ensures
        ({
            let decision = state.decision(LoopEvent::Ticked);
            let after = state.after(LoopEvent::Ticked);
            let sends = !state.waiting_for_response && !state.no_active_subscription;
            &&& decision.publish == sends
            &&& decision.set_last_publish
            &&& decision.outcome == Outcome::Reschedule
            &&& after.in_flight == if sends {
                state.in_flight + 1
            } else {
                state.in_flight as int
            }
            &&& after.waiting_for_response == state.waiting_for_response
            &&& after.no_active_subscription == state.no_active_subscription
            &&& after.last_external_trigger == state.last_external_trigger
        }),
{
}

/// A request that succeeds is followed by another exactly if more notifications wait or fewer
/// requests than wanted are left in flight, and if the client was not backing off. Backing off
/// and the time without subscriptions are over.
pub proof fn law_success_resumes_publishing(
    state: PublishState,
    more: bool,
    min_publish_requests: usize,
)
    requires
        0 < state.in_flight < usize::MAX,
    ensures
        ({
            let event = LoopEvent::Published { result: Ok(more), min_publish_requests };
            let decision = state.decision(event);
            let after = state.after(event);
            let sends = !state.waiting_for_response && (more || state.in_flight
                <= min_publish_requests);
            &&& decision.publish == sends
            &&& decision.set_last_publish == sends
            &&& after.in_flight == if sends {
                state.in_flight as int
            } else {
                state.in_flight - 1
            }
            &&& !after.waiting_for_response
            &&& !after.no_active_subscription
            &&& after.last_external_trigger == state.last_external_trigger
        }),
{
}

/// A request that fails is followed by no other, and the schedule stays. The client backs off
/// exactly if it did or if the server has too many requests, and rests exactly if it did or if
/// the server knows of no subscription.
pub proof fn law_failure_sends_nothing(
    state: PublishState,
    status: StatusCode,
    min_publish_requests: usize,
)
    requires
        0 < state.in_flight < usize::MAX,
    ensures
        ({
            let event = LoopEvent::Published { result: Err(status), min_publish_requests };
            let decision = state.decision(event);
            let after = state.after(event);
            &&& !decision.publish
            &&& !decision.set_last_publish
            &&& after.in_flight == state.in_flight - 1
            &&& after.waiting_for_response <==> state.waiting_for_response || status.0
                == BAD_TOO_MANY_PUBLISH_REQUESTS
            &&& after.no_active_subscription <==> state.no_active_subscription || status.0
                == BAD_NO_SUBSCRIPTION
            &&& after.last_external_trigger == state.last_external_trigger
        }),
{
}

/// An iteration ends exactly with the activity that was decided on, and otherwise goes on with
/// the publish that was due before, or, where it is scheduled anew, with the one that is due then.
pub proof fn law_iteration_goes_on_as_decided(
    decision: Decision,
    next_publish: Option<Instant>,
    rescheduled: Option<Instant>,
    res: ActivityOrNext,
)
    requires
        res == decision.following(next_publish, rescheduled),
    ensures
        decision.outcome matches Outcome::Activity(a) ==> (res matches ActivityOrNext::Activity(b)
            && a == b),
        decision.outcome is Wait ==> (res matches ActivityOrNext::Next(at) && at == next_publish),
        decision.outcome is Reschedule ==> (res matches ActivityOrNext::Next(at) && at
            == rescheduled),
{
}

/// The next publish is reported as due when it is, except while backing off with a request in
/// flight: then it is not.
pub proof fn law_backing_off_stops_the_clock(state: PublishState, next_publish: Option<Instant>)
    ensures
        state.waiting_for_response && state.in_flight > 0 ==> next_tick(state, next_publish) is None,
        !state.waiting_for_response || state.in_flight == 0 ==> next_tick(state, next_publish)
            == next_publish,
{
}

/// A new loop has sent nothing and rests until a publish is asked for, later than the one that
/// counts as dealt with.
pub proof fn law_new_loop_waits_for_a_trigger(last_external_trigger: Instant)
    ensures
        ({
            let state = PublishState::initial(last_external_trigger);
            &&& state.in_flight == 0
            &&& !state.waiting_for_response
            &&& state.no_active_subscription
            &&& state.last_external_trigger == last_external_trigger
            &&& !state.decision(LoopEvent::Ticked).publish
        }),
{
}

/// An event can be seen unless it answers a request while none is in flight.
pub proof fn law_only_sent_requests_are_answered(state: PublishState, event: LoopEvent)
    ensures
        state.can_see(event) <==> !(event is Published && state.in_flight == 0),
{
}

/// Deciding on an event, in the state or through the loop, gives the decision for that event and
/// moves the state on by it. The subscription cache is not asked yet, and the session stays.
pub proof fn law_events_are_decided_on<S: SubscriptionCache>()
    ensures
        forall|state: &mut PublishState, event: LoopEvent, res: Decision| #[trigger]
            call_ensures(PublishState::decide, (state, event), res) ==> res == state.decision(event)
                && *final(state) == state.after(event),
        forall|state: &mut SubscriptionEventLoopState<S>, event: LoopEvent, res: Decision|
            #[trigger] call_ensures(
                SubscriptionEventLoopState::<S>::tick,
                (state, event),
                res,
            ) ==> {
                &&& res == state@.state.decision(event)
                &&& final(state)@.state == state@.state.after(event)
                &&& final(state)@.subscription_cache == state@.subscription_cache
                &&& final(state)@.session_id == state@.session_id
            },
{
}

/// Every failed publish is reported as one, by deciding itself: with its own status, as fatal
/// exactly if the session is dead. Every publish that succeeded is reported as a success.
pub proof fn law_deciding_reports_what_became_of_a_publish()
    ensures
        forall|state: &mut PublishState, status: StatusCode, min: usize, res: Decision| #[trigger]
            call_ensures(
                PublishState::decide,
                (state, LoopEvent::Published { result: Err(status), min_publish_requests: min }),
                res,
            ) ==> (res.outcome matches Outcome::Activity(activity) && if status.0
                == BAD_SESSION_CLOSED || status.0 == BAD_SESSION_ID_INVALID {
                activity matches SubscriptionActivity::FatalFailure(s) && s == status
            } else {
                activity matches SubscriptionActivity::PublishFailed(s) && s == status
            }),
        forall|state: &mut PublishState, more: bool, min: usize, res: Decision| #[trigger]
            call_ensures(
                PublishState::decide,
                (state, LoopEvent::Published { result: Ok(more), min_publish_requests: min }),
                res,
            ) ==> (res.outcome matches Outcome::Activity(activity) && activity is Publish),
{
}

/// Going on after a decision asks the subscription cache exactly if a publish was due, and then
/// goes on as decided: with the activity, with the publish that was due before, or with the one
/// that the cache says is due next. The state and the session stay.
pub proof fn law_loop_goes_on_as_decided<S: SubscriptionCache>()
    ensures
        forall|
            state: &mut SubscriptionEventLoopState<S>,
            decision: Decision,
            next_publish: Option<Instant>,
            res: ActivityOrNext,
        | #[trigger]
            call_ensures(
                SubscriptionEventLoopState::<S>::go_on,
                (state, decision, next_publish),
                res,
            ) ==> {
                &&& final(state)@.state == state@.state
                &&& final(state)@.session_id == state@.session_id
                &&& decision.outcome matches Outcome::Activity(a) ==> (
                res matches ActivityOrNext::Activity(b) && b == a)
                &&& decision.outcome is Wait ==> (res matches ActivityOrNext::Next(at) && at
                    == next_publish)
                &&& decision.outcome is Reschedule ==> res is Next
                &&& !decision.set_last_publish ==> final(state)@.subscription_cache
                    == state@.subscription_cache
                &&& decision.set_last_publish ==> exists|cache: &mut S, due: Option<Instant>|
                    {
                        &&& #[trigger] call_ensures(S::next_publish_time, (cache, true), due)
                        &&& *cache == state@.subscription_cache
                        &&& *final(cache) == final(state)@.subscription_cache
                        &&& decision.outcome is Reschedule ==> (res matches ActivityOrNext::Next(at)
                            && at == due)
                    }
            },
{
}

/// What is asked of a loop is answered as it is, and a new loop is made as it is asked for.
pub proof fn law_answers_of_loops_are_right<S: SubscriptionCache>(
    session_id: u32,
    last_external_trigger: Instant,
    cache: S,
    made: SubscriptionEventLoopState<S>,
    state: SubscriptionEventLoopState<S>,
    id: u32,
    next_publish: Option<Instant>,
    tick: Option<Instant>,
    at: Instant,
    is_new: bool,
    inner: PublishState,
)
    requires
        call_ensures(
            SubscriptionEventLoopState::<S>::new,
            (session_id, last_external_trigger, cache),
            made,
        ),
        call_ensures(SubscriptionEventLoopState::<S>::session_id, (&state,), id),
        call_ensures(SubscriptionEventLoopState::<S>::next_tick, (&state, next_publish), tick),
        call_ensures(SubscriptionEventLoopState::<S>::is_new_trigger, (&state, at), is_new),
        call_ensures(SubscriptionEventLoopState::<S>::publish_state, (&state,), inner),
    ensures
        made@.session_id == session_id,
        made@.subscription_cache == cache,
        made@.state.last_external_trigger == last_external_trigger,
        made@.state.in_flight == 0,
        !made@.state.waiting_for_response,
        made@.state.no_active_subscription,
        id == state@.session_id,
        inner == state@.state,
        is_new <==> at > state@.state.last_external_trigger,
        state@.state.waiting_for_response && state@.state.in_flight > 0 ==> tick is None,
        !state@.state.waiting_for_response || state@.state.in_flight == 0 ==> tick == next_publish,
{
}

/// An iteration starts with what the subscription cache says is due next, without noting a
/// publish. Nothing else changes.
pub proof fn law_iteration_starts_with_the_schedule<S: SubscriptionCache>()
    ensures
        forall|state: &mut SubscriptionEventLoopState<S>, res: Option<Instant>| #[trigger]
            call_ensures(SubscriptionEventLoopState::<S>::start_iteration, (state,), res) ==> {
                &&& final(state)@.state == state@.state
                &&& final(state)@.session_id == state@.session_id
                &&& exists|cache: &mut S|
                    {
                        &&& #[trigger] call_ensures(S::next_publish_time, (cache, false), res)
                        &&& *cache == state@.subscription_cache
                        &&& *final(cache) == final(state)@.subscription_cache
                    }
            },
{
}

} // verus!
