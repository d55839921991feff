//! The panic hook of a client, step by step. The hook is told what
//! happened and answers with what to do next; calling the callback, sending
//! the request and calling the hook that was installed before are left to
//! whoever runs it.

use crate::client::options::ClientOptionsView;
use crate::client::synthetic::{exception_from_panic_message, panic_debug, panic_display};
use crate::client::{post, sent_as, Client, Delivery, Request, RequestView};
use crate::event::envelope::is_wire_of;
use crate::event::exception::{as_event, exception_properties, Exception, ExceptionView};
use vstd::prelude::*;

verus! {

/// Where the hook stands while it deals with one panic.
#[derive(Clone, Copy, Debug, PartialEq, Eq, Structural)]
pub enum HookState {
    /// A panic has not been seen yet.
    Idle,
    /// The callback has the exception.
    Enriching,
    /// The request is with the transport.
    Reporting,
    /// The hook has done its part.
    Done,
}

/// What the hook is told.
#[derive(Debug, PartialEq, Eq)]
pub enum HookEvent {
    /// The program panicked with the message.
    Panicked(String),
    /// The callback has had the exception and hands it back.
    Enriched(Exception),
    /// The attempt to send came to this.
    Attempted(Delivery),
}

/// What the hook asks for.
#[derive(Debug, PartialEq, Eq)]
pub enum HookAction {
    /// Let the callback change the exception.
    Enrich(Exception),
    /// Send the request, once.
    Report(Request),
    /// Call the hook that was installed before this one.
    Resume,
}

impl HookState {
    /// How many more steps the hook can take at most.
    pub open spec fn steps_left(self) -> nat {
        match self {
            HookState::Idle => 3,
            HookState::Enriching => 2,
            HookState::Reporting => 1,
            HookState::Done => 0,
        }
    }
}

/// Whether the exception is the one that reports a panic with the message
/// for the distinct id, on the host that the exception names.
pub open spec fn reports_panic(
    exception: ExceptionView,
    message: Seq<char>,
    distinct_id: Seq<char>,
) -> bool {
    exception == (ExceptionView {
        properties: exception_properties(
            panic_debug(message),
            panic_display(message),
            distinct_id,
            exception.properties.os,
            exception.properties.os_version,
        ),
        timestamp: None,
    })
}

/// Whether the request is the one by which a client with the options
/// captures the exception.
pub open spec fn captures(
    options: ClientOptionsView,
    request: RequestView,
    exception: ExceptionView,
) -> bool {
    request == post(options, request.body) && is_wire_of(
        request.body,
        sent_as(options, as_event(exception)),
    )
}

/// Whether the hook of a client with the options, in the state and told of
/// the event, goes to the next state and asks for the action.
///
/// A panic is made into an exception for the client's default distinct id.
/// With a callback the exception goes to the callback first, and what comes
/// back is reported; without one it is reported as it is. Whatever the
/// attempt to send comes to, the hook then lets the earlier hook run. Told
/// of anything that it does not wait for, the hook lets the earlier hook
/// run at once.
pub open spec fn hook_step(
    options: ClientOptionsView,
    enrich: bool,
    state: HookState,
    event: HookEvent,
    next: HookState,
    action: HookAction,
) -> bool {
    match (state, event) {
        (HookState::Idle, HookEvent::Panicked(message)) => if enrich {
            &&& next == HookState::Enriching
            &&& action matches HookAction::Enrich(exception)
            &&& reports_panic(exception@, message@, options.default_distinct_id)
        } else {
            &&& next == HookState::Reporting
            &&& action matches HookAction::Report(request)
            &&& exists|exception: ExceptionView|
                #![trigger captures(options, request@, exception)]
                reports_panic(exception, message@, options.default_distinct_id) && captures(
                    options,
                    request@,
                    exception,
                )
        },
        (HookState::Enriching, HookEvent::Enriched(exception)) => {
            &&& next == HookState::Reporting
            &&& action matches HookAction::Report(request)
            &&& captures(options, request@, exception@)
        },
        _ => next == HookState::Done && action is Resume,
    }
}

impl Client {
    /// One step of the client's panic hook: from the state and the event to
    /// the next state and the action. `enrich` says whether a callback is
    /// configured.
    pub fn on_panic(&self, enrich: bool, state: HookState, event: HookEvent) -> (step: (
        HookState,
        HookAction,
    ))
        ensures
            hook_step(self@, enrich, state, event, step.0, step.1),
    {
        match state {
            HookState::Idle => match event {
                HookEvent::Panicked(message) => {
                    let exception = exception_from_panic_message(
                        message.as_str(),
                        self.options().default_distinct_id().as_str(),
                    );
                    if enrich {
                        (HookState::Enriching, HookAction::Enrich(exception))
                    } else {
                        let ghost reported = exception@;
                        let request = self.capture_exception(exception);
                        assert(captures(self@, request@, reported));
                        (HookState::Reporting, HookAction::Report(request))
                    }
                },
                _ => (HookState::Done, HookAction::Resume),
            },
            HookState::Enriching => match event {
                HookEvent::Enriched(exception) => {
                    let request = self.capture_exception(exception);
                    (HookState::Reporting, HookAction::Report(request))
                },
                _ => (HookState::Done, HookAction::Resume),
            },
            _ => (HookState::Done, HookAction::Resume),
        }
    }
}

/// The order of the hook's steps. The callback is asked only where one is
/// configured, and only for the exception of a panic just seen. A request
/// is sent only for a panic just seen or for what the callback handed back.
/// A panic is never passed on to the earlier hook before a report was
/// asked for. Once the request has been tried the earlier hook runs,
/// whatever the attempt came to. Every step that does not end the hook
/// brings it nearer to its end.
pub proof fn lemma_hook_order(
    options: ClientOptionsView,
    enrich: bool,
    state: HookState,
    event: HookEvent,
    next: HookState,
    action: HookAction,
)
    requires
        hook_step(options, enrich, state, event, next, action),
    ensures
        action is Enrich ==> enrich && state == HookState::Idle && event is Panicked,
        action is Report ==> (state == HookState::Idle && !enrich && event is Panicked) || (state
            == HookState::Enriching && event is Enriched),
        state == HookState::Idle && event is Panicked ==> !(action is Resume),
        state == HookState::Reporting ==> action is Resume,
        action is Resume ==> next == HookState::Done,
        !(action is Resume) ==> next.steps_left() < state.steps_left(),
{
}

} // verus!
