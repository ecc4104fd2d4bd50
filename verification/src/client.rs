//! The client facade: the subscribe/unsubscribe surface end users call.
//!
//! The facade owns the subscription registry and at most one realtime
//! connection per logical session. Subscribing upserts the topic's handler;
//! with no connection yet it creates one for the host to start, and with an
//! established connection it prepares a registration update for the host to
//! send. Unsubscribing removes one topic — or every topic, when the resolved
//! topic string is empty — and always prepares a registration update.
//!
//! `H` is the handler capability type stored in the registry; the facade
//! never invokes a handler.

use vstd::prelude::*;

use crate::errors::Error;
use crate::realtime::PocketBaseRealtime;
use crate::registry::{spec_index_of, SubscriptionRegistry};
use crate::strutil::{push_char, str_eq};
use crate::user::User;
use crate::wire::{registration_body, spec_registration_body};

verus! {

/// What url's parser yields for a text: the parsed URL, or nothing when the
/// text is not an absolute URL it accepts.
pub uninterp spec fn spec_url_parse(s: Seq<char>) -> Option<url::Url>;

/// Relies on `url::Url::parse`: parses an absolute URL, or the parse error's
/// text when the input is not one.
#[verifier::external_body]
fn url_parse(s: &str) -> (r: Result<url::Url, String>)
    ensures
        r matches Ok(u) ==> spec_url_parse(s@) == Some(u),
        r is Err <==> spec_url_parse(s@) is None,
{
    url::Url::parse(s).map_err(|e| e.to_string())
}

/// What resolving a path against a base URL yields: the joined URL, or
/// nothing when the base cannot carry a path.
pub uninterp spec fn spec_url_join(base: url::Url, path: Seq<char>) -> Option<url::Url>;

/// Relies on `url::Url::join`: resolves a path against a base URL, `None`
/// when the base cannot carry a path.
#[verifier::external_body]
fn url_join(base: &url::Url, path: &str) -> (r: Option<url::Url>)
    ensures
        r == spec_url_join(*base, path@),
{
    base.join(path).ok()
}

/// The topic a `(collection, record id)` pair names: the collection alone
/// when the record id is empty or the wildcard `*`, else
/// `collection/record_id`.
pub open spec fn spec_resolve_topic(collection: Seq<char>, record_id: Seq<char>) -> Seq<char> {
    if record_id.len() == 0 || record_id == "*"@ {
        collection
    } else {
        collection + seq!['/'] + record_id
    }
}

/// What a successful `subscribe` asks its host to do next.
pub enum SubscribeStep {
    /// A connection was just created: start its background loop and wait for
    /// the handshake, up to `timeout_ms` milliseconds.
    Connect { timeout_ms: u64 },
    /// A connection exists but its handshake has not completed; the pending
    /// handshake registration will carry the new topic set, so there is
    /// nothing to send now.
    Pending,
    /// The connection is established: POST this body to the realtime
    /// endpoint so the server's subscription table stays current.
    SubmitUpdate { body: String },
}

/// A PocketBase client: the base URL, the authenticated user, the
/// subscription registry and the realtime connection of the current session,
/// if one exists.
pub struct PocketBase<H> {
    pub base_url: url::Url,
    pub user: Option<User>,
    pub subscription: SubscriptionRegistry<H>,
    pub realtime: Option<PocketBaseRealtime>,
}

impl<H> PocketBase<H> {
    /// The registry never holds a topic twice.
    pub open spec fn wf(&self) -> bool {
        self.subscription.wf()
    }

    /// A client against `raw_url`, unauthenticated and with no subscriptions,
    /// or `InvalidParameter` exactly when the URL does not parse.
    pub fn new(raw_url: &str) -> (r: Result<Self, Error>)
        ensures
            r is Ok <==> spec_url_parse(raw_url@) is Some,
            match r {
                Ok(pb) => spec_url_parse(raw_url@) == Some(pb.base_url) && pb.wf() && pb.user
                    is None && pb.realtime is None && pb.subscription@ == Map::<
                    Seq<char>,
                    H,
                >::empty() && pb.subscription.topics_seq() == Seq::<Seq<char>>::empty(),
                Err(e) => e is InvalidParameter,
            },
    {
        match url_parse(raw_url) {
            Ok(url) => Ok(
                PocketBase {
                    base_url: url,
                    user: None,
                    subscription: SubscriptionRegistry::new(),
                    realtime: None,
                },
            ),
            Err(msg) => Err(Error::InvalidParameter(msg)),
        }
    }

    /// The topic a `(collection, record id)` pair names, as
    /// [`spec_resolve_topic`] describes.
    pub fn resolve_subscribe_to(collection: &str, record_id: &str) -> (r: String)
        ensures
            r@ == spec_resolve_topic(collection@, record_id@),
    {
        if record_id.is_empty() || str_eq(record_id, "*") {
            String::from_str(collection)
        } else {
            let mut r = String::from_str(collection);
            push_char(&mut r, '/');
            r.append(record_id);
            proof {
                assert(r@ =~= collection@ + seq!['/'] + record_id@);
            }
            r
        }
    }

    /// The current connection id, or `SSEClientNotExist` when no realtime
    /// connection exists.
    pub fn get_sse_id(&self) -> (r: Result<String, Error>)
        ensures
            match self.realtime {
                Some(rt) => r matches Ok(id) && id@ == rt.id@,
                None => r matches Err(e) && e is SSEClientNotExist,
            },
    {
        match &self.realtime {
            Some(rt) => Ok(rt.get_conenction_id()),
            None => Err(Error::SSEClientNotExist),
        }
    }

    /// The registration-update body for the current topic set, for the host
    /// to POST to the realtime endpoint. Fails with `SSEClientNotExist`
    /// until a connection exists and its handshake has supplied a client id.
    pub fn prepare_submit_subscriptions(&self) -> (r: Result<String, Error>)
        ensures
            match self.realtime {
                Some(rt) => {
                    if rt.id@.len() > 0 {
                        r matches Ok(body) && body@ == spec_registration_body(
                            rt.id@,
                            self.subscription.topics_seq(),
                        )
                    } else {
                        r matches Err(e) && e is SSEClientNotExist
                    }
                },
                None => r matches Err(e) && e is SSEClientNotExist,
            },
    {
        let id = match self.get_sse_id() {
            Ok(id) => id,
            Err(e) => {
                return Err(e);
            },
        };
        if id.as_str().is_empty() {
            return Err(Error::SSEClientNotExist);
        }
        let topics = self.subscription.snapshot_topics();
        Ok(registration_body(id.as_str(), &topics))
    }

    /// Register `callback` for the resolved topic, replacing any previous
    /// handler for it. With no realtime connection yet, one is created
    /// against the base URL's realtime path and handed to the host to start
    /// and await (the subscription stays registered even if that wait later
    /// fails); this fails exactly when the realtime path does not resolve
    /// against the base URL. With an established connection, the full
    /// current topic set is prepared as a registration update instead.
    pub fn subscribe(&mut self, collection: &str, record_id: &str, callback: H) -> (r: Result<
        SubscribeStep,
        Error,
    >)
        requires
            old(self).wf(),
            old(self).realtime is None ==> old(self).user is Some,
        ensures
            final(self).wf(),
            final(self).subscription@ == old(self).subscription@.insert(
                spec_resolve_topic(collection@, record_id@),
                callback,
            ),
            ({
                let t = spec_resolve_topic(collection@, record_id@);
                let i = spec_index_of(old(self).subscription.topics_seq(), t);
                if i == -1 {
                    final(self).subscription.topics_seq()
                        == old(self).subscription.topics_seq().push(t)
                } else {
                    final(self).subscription.topics_seq()
                        == old(self).subscription.topics_seq().remove(i).push(t)
                }
            }),
            final(self).base_url == old(self).base_url,
            final(self).user == old(self).user,
            match old(self).realtime {
                None => match spec_url_join(old(self).base_url, "/api/realtime"@) {
                    Some(endpoint) => r matches Ok(step) && step matches SubscribeStep::Connect {
                        timeout_ms,
                    } && timeout_ms == 3000 && (final(self).realtime matches Some(rt) && rt.id@
                        == Seq::<char>::empty() && rt.token == old(self).user->Some_0.token
                        && rt.endpont == endpoint && !rt.started && !rt.shutdown_requested),
                    None => r matches Err(e) && e is ShouldNot && final(self).realtime is None,
                },
                Some(rt) => final(self).realtime == old(self).realtime && (if rt.id@.len() == 0 {
                    r matches Ok(step) && step is Pending
                } else {
                    r matches Ok(step) && step matches SubscribeStep::SubmitUpdate { body }
                        && body@ == spec_registration_body(
                        rt.id@,
                        final(self).subscription.topics_seq(),
                    )
                }),
            },
    {
        let topic = Self::resolve_subscribe_to(collection, record_id);
        self.subscription.put(topic, callback);
        match &self.realtime {
            None => {
                let token = self.user.as_ref().unwrap().token.clone();
                let endpoint = match url_join(&self.base_url, "/api/realtime") {
                    Some(u) => u,
                    None => {
                        return Err(
                            Error::ShouldNot(
                                String::from_str(
                                    "the realtime path does not resolve against the base URL",
                                ),
                            ),
                        );
                    },
                };
                self.realtime = Some(PocketBaseRealtime::new(endpoint, token));
                Ok(SubscribeStep::Connect { timeout_ms: 3000 })
            },
            Some(rt) => {
                if rt.id.as_str().is_empty() {
                    Ok(SubscribeStep::Pending)
                } else {
                    let topics = self.subscription.snapshot_topics();
                    let body = registration_body(rt.id.as_str(), &topics);
                    Ok(SubscribeStep::SubmitUpdate { body })
                }
            },
        }
    }

    /// Remove the resolved topic's handler — or, when the resolved topic is
    /// empty, every subscription — and prepare the registration update that
    /// tells the server. Fails with `SSEClientNotExist` until a connection
    /// exists and its handshake has supplied a client id; the registry is
    /// updated regardless.
    pub fn unsubscribe(&mut self, collection: &str, record_id: &str) -> (r: Result<String, Error>)
        requires
            old(self).wf(),
        ensures
            final(self).wf(),
            final(self).base_url == old(self).base_url,
            final(self).user == old(self).user,
            final(self).realtime == old(self).realtime,
            ({
                let t = spec_resolve_topic(collection@, record_id@);
                if t.len() == 0 {
                    final(self).subscription@ == Map::<Seq<char>, H>::empty()
                        && final(self).subscription.topics_seq() == Seq::<Seq<char>>::empty()
                } else {
                    final(self).subscription@ == old(self).subscription@.remove(t) && ({
                        let i = spec_index_of(old(self).subscription.topics_seq(), t);
                        if i == -1 {
                            final(self).subscription.topics_seq()
                                == old(self).subscription.topics_seq()
                        } else {
                            final(self).subscription.topics_seq()
                                == old(self).subscription.topics_seq().remove(i)
                        }
                    })
                }
            }),
            match old(self).realtime {
                Some(rt) => {
                    if rt.id@.len() > 0 {
                        r matches Ok(body) && body@ == spec_registration_body(
                            rt.id@,
                            final(self).subscription.topics_seq(),
                        )
                    } else {
                        r matches Err(e) && e is SSEClientNotExist
                    }
                },
                None => r matches Err(e) && e is SSEClientNotExist,
            },
    {
        let topic = Self::resolve_subscribe_to(collection, record_id);
        if topic.as_str().is_empty() {
            self.subscription.clear();
        } else {
            self.subscription.remove(&topic);
        }
        self.prepare_submit_subscriptions()
    }

    /// Whether the stored user's token is still valid. False when no user is
    /// authenticated; otherwise the token's expiry is compared against the
    /// clock, as [`User::is_valid`] describes.
    pub fn is_auth_store_valid(&self) -> (r: bool)
        ensures
            self.user is None ==> !r,
            r ==> self.user is Some && self.user->Some_0.token@.len() > 0,
    {
        match &self.user {
            Some(user) => user.is_valid(),
            None => false,
        }
    }
}

} // verus!
