//! The realtime connection: the state it keeps for one logical session and
//! the decision its background loop takes for every frame it observes.
//!
//! The loop itself performs outside work (reading the stream, sending the
//! registration POST, sleeping), so a host runs it and feeds each observation
//! to [`PocketBaseRealtime::step`], which updates the connection state and
//! says what to do next. A handshake frame (`PB_CONNECT` with a non-empty id)
//! stores the session's connection id and asks for a registration submission
//! with the current topic snapshot; every other event frame is dispatched to
//! the registered handlers; comments are only logged.
//!
//! Dispatch does not filter by topic: every handler receives every
//! non-handshake event on the shared connection, the server being the one
//! that filters by the registered subscription set.

use vstd::prelude::*;

use crate::strutil::str_eq;
use crate::wire::{registration_body, spec_registration_body};

verus! {

/// One server-pushed event from the stream.
#[derive(Debug, Clone)]
pub struct Event {
    pub event_type: String,
    pub id: Option<String>,
    pub data: String,
}

/// One parsed frame of the event stream: a named event or a comment.
#[derive(Debug, Clone)]
pub enum SseFrame {
    Event(Event),
    Comment(String),
}

/// What the background loop observed in one iteration: the next frame
/// arrived, or the shutdown signal fired.
pub enum LoopInput {
    Frame(SseFrame),
    Shutdown,
}

/// What the background loop must do after one step.
pub enum LoopAction {
    /// POST `body` to the realtime endpoint, authenticated with the
    /// connection's token. Best-effort: a failure is logged, not surfaced.
    SubmitRegistration { client_id: String, body: String },
    /// Hand the event to every currently registered handler.
    Dispatch(Event),
    /// Log the comment and move on.
    LogComment(String),
    /// Leave the loop without dispatching further frames.
    Exit,
}

/// Whether an event is the connect handshake: its type is `PB_CONNECT` and it
/// carries a non-empty id.
pub open spec fn spec_is_handshake(e: Event) -> bool {
    e.event_type@ == "PB_CONNECT"@ && e.id is Some && e.id->Some_0@.len() > 0
}

/// The state of one realtime connection. A connection belongs to one logical
/// session: it is created, started once, and shut down; it is not reusable
/// after shutdown.
pub struct PocketBaseRealtime {
    /// The session's connection id: empty until a handshake stores it.
    pub id: String,
    /// The bearer token sent with registration submissions.
    pub token: String,
    /// The realtime endpoint the stream is opened against.
    pub endpont: url::Url,
    /// Whether the background loop has been started.
    pub started: bool,
    /// Whether shutdown has been signalled.
    pub shutdown_requested: bool,
}

/// A parsed URL of the url crate, opaque to the rest of the crate; it is
/// carried through to whoever opens the stream.
#[verifier::external_type_specification]
#[verifier::external_body]
pub struct ExUrl(url::Url);

/// The outcome of one polling iteration of the wait for a handshake.
pub enum PollOutcome {
    /// The handshake has completed; here is the connection id.
    Ready(String),
    /// No handshake yet and time remains: poll again after a short sleep.
    Wait,
    /// The wait ran out; the connection has been shut down.
    TimedOut,
}

impl PocketBaseRealtime {
    /// A fresh, unstarted connection against `endpont`, authenticated by
    /// `token`, with no handshake yet.
    pub fn new(endpont: url::Url, token: String) -> (r: Self)
        ensures
            r.id@ == Seq::<char>::empty(),
            r.token == token,
            r.endpont == endpont,
            !r.started,
            !r.shutdown_requested,
    {
        PocketBaseRealtime { id: String::new(), token, endpont, started: false, shutdown_requested: false }
    }

    /// The current connection id: empty until a handshake has completed.
    pub fn get_conenction_id(&self) -> (r: String)
        ensures
            r@ == self.id@,
    {
        self.id.clone()
    }

    /// Mark the background loop as started. The host spawns the loop that
    /// reads the stream and feeds [`Self::step`].
    pub fn start_connection(&mut self)
        ensures
            *final(self) == (PocketBaseRealtime { started: true, ..*old(self) }),
    {
        self.started = true;
    }

    /// Signal the background loop to terminate. Idempotent, and it does not
    /// wait for the loop to finish.
    pub fn shutdown(&mut self)
        ensures
            *final(self) == (PocketBaseRealtime { shutdown_requested: true, ..*old(self) }),
    {
        self.shutdown_requested = true;
    }

    /// Decide what one observation of the background loop means. `topics` is
    /// the registry snapshot taken for this step; it is only read when the
    /// frame is a handshake. Once shutdown has been signalled every step
    /// exits, so a frame already read when the signal lands is not acted on.
    pub fn step(&mut self, input: LoopInput, topics: &Vec<String>) -> (act: LoopAction)
        ensures
            old(self).shutdown_requested ==> act is Exit && *final(self) == *old(self),
            !old(self).shutdown_requested ==> match input {
                LoopInput::Shutdown => act is Exit && *final(self) == *old(self),
                LoopInput::Frame(SseFrame::Comment(c)) => act == LoopAction::LogComment(c)
                    && *final(self) == *old(self),
                LoopInput::Frame(SseFrame::Event(e)) => {
                    if spec_is_handshake(e) {
                        &&& final(self).id == e.id->Some_0
                        &&& *final(self) == (PocketBaseRealtime { id: final(self).id, ..*old(self) })
                        &&& act matches LoopAction::SubmitRegistration { client_id, body }
                            && client_id == e.id->Some_0 && body@ == spec_registration_body(
                            e.id->Some_0@,
                            topics.deep_view(),
                        )
                    } else {
                        act == LoopAction::Dispatch(e) && *final(self) == *old(self)
                    }
                },
            },
    {
        if self.shutdown_requested {
            return LoopAction::Exit;
        }
        match input {
            LoopInput::Shutdown => LoopAction::Exit,
            LoopInput::Frame(SseFrame::Comment(c)) => LoopAction::LogComment(c),
            LoopInput::Frame(SseFrame::Event(e)) => {
                let mut handshake_id: Option<String> = None;
                if str_eq(e.event_type.as_str(), "PB_CONNECT") {
                    if let Some(eid) = &e.id {
                        if !eid.as_str().is_empty() {
                            handshake_id = Some(eid.clone());
                        }
                    }
                }
                match handshake_id {
                    Some(new_id) => {
                        let body = registration_body(new_id.as_str(), topics);
                        self.id = new_id.clone();
                        LoopAction::SubmitRegistration { client_id: new_id, body }
                    },
                    None => LoopAction::Dispatch(e),
                }
            },
        }
    }

    /// One iteration of the bounded wait for the handshake. The host calls
    /// this every short interval with the elapsed time; once `timeout_ms` has
    /// passed, the connection is shut down and the wait fails, so no further
    /// registration submission can follow.
    pub fn ensure_connected_poll(&mut self, elapsed_ms: u64, timeout_ms: u64) -> (r: PollOutcome)
        ensures
            elapsed_ms < timeout_ms && old(self).id@.len() > 0 ==> (r matches PollOutcome::Ready(
                id,
            ) && id@ == old(self).id@) && *final(self) == *old(self),
            elapsed_ms < timeout_ms && old(self).id@.len() == 0 ==> r is Wait && *final(self)
                == *old(self),
            elapsed_ms >= timeout_ms ==> r is TimedOut && *final(self) == (PocketBaseRealtime {
                shutdown_requested: true,
                ..*old(self)
            }),
    {
        if elapsed_ms < timeout_ms {
            if !self.id.as_str().is_empty() {
                PollOutcome::Ready(self.id.clone())
            } else {
                PollOutcome::Wait
            }
        } else {
            self.shutdown();
            PollOutcome::TimedOut
        }
    }
}

} // verus!
