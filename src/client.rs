use vstd::prelude::*;
use std::sync::Arc;
use crate::options::{ClientOptions, is_default_options};
use crate::prepare::{defaults_filled, exceptions_prepared, prepare_event, scope_fields_merged};
use crate::protocol::{DebugImage, Event, Scope};

verus! {

/// How long, in milliseconds, the guard of `init` waits for the queue to
/// drain when it is released.
pub const RELEASE_DRAIN_TIMEOUT_MS: u64 = 2000;

/// The address of the service that events are delivered to.
#[derive(Clone, Debug)]
pub struct Dsn {
    pub url: String,
}

impl Dsn {
    pub fn new(url: String) -> (r: Dsn)
        ensures
            r.url == url,
    {
        Dsn { url }
    }

    pub fn duplicate(&self) -> (r: Dsn)
        ensures
            r == *self,
    {
        Dsn { url: self.url.clone() }
    }
}

/// What a drain does next, given the state of the delivery queue.
#[derive(PartialEq, Eq, Structural, Clone, Copy, Debug)]
pub enum DrainStep {
    /// Stop waiting; `true` when the queue is empty.
    Done(bool),
    /// Wait for the queue to shrink, then ask again.
    Wait,
}

/// The decision of a drain: an absent channel or an empty queue is drained;
/// a queue that still holds events once the timeout has passed is not; else
/// the drain waits.
pub open spec fn drain_step_spec(
    enabled: bool,
    pending: nat,
    elapsed_ms: nat,
    timeout_ms: Option<u64>,
) -> DrainStep {
    if !enabled || pending == 0 {
        DrainStep::Done(true)
    } else if timeout_ms is Some && elapsed_ms >= timeout_ms->0 {
        DrainStep::Done(false)
    } else {
        DrainStep::Wait
    }
}

/// The client: its options, and the address of its delivery channel unless
/// it is disabled.
#[derive(Clone, Debug)]
pub struct Client {
    pub options: ClientOptions,
    pub dsn: Option<Dsn>,
    pub debug_images: Vec<DebugImage>,
}

impl Client {
    /// Whether the client has a delivery channel.
    pub open spec fn is_enabled_spec(&self) -> bool {
        self.dsn is Some
    }

    /// A client from an optional address and optional options: none without
    /// an address, default options where none are given.
    pub fn from_parts(dsn: Option<Dsn>, options: Option<ClientOptions>) -> (r: Option<Client>)
        ensures
            r is Some <==> dsn is Some,
            r matches Some(c) ==> c.dsn == dsn && c.debug_images@.len() == 0 && match options {
                Some(o) => c.options == o,
                None => is_default_options(c.options),
            },
    {
        match dsn {
            Some(d) => match options {
                Some(o) => Some(Client::with_dsn_and_options(d, o)),
                None => Some(Client::with_dsn(d)),
            },
            None => None,
        }
    }

    /// Creates a new client from a configuration, or none where it holds no
    /// address.
    pub fn from_config<C: IntoClientConfig>(cfg: C) -> (r: Option<Client>)
        ensures
            r is Some <==> cfg.config_dsn() is Some,
            r matches Some(c) ==> dsn_view(c.dsn) == cfg.config_dsn() && c.debug_images@.len() == 0
                && match cfg.config_options() {
                Some(o) => c.options == o,
                None => is_default_options(c.options),
            },
    {
        let (dsn, options) = cfg.into_client_config();
        Client::from_parts(dsn, options)
    }

    /// Creates a new client for the given address, with default options.
    /// These name no environment: the build mode is known only where the
    /// caller is compiled.
    pub fn with_dsn(dsn: Dsn) -> (r: Client)
        ensures
            r.dsn == Some(dsn),
            is_default_options(r.options),
            r.debug_images@.len() == 0,
    {
        Client::with_dsn_and_options(dsn, ClientOptions::default())
    }

    /// Creates a new client for the given address and options.
    pub fn with_dsn_and_options(dsn: Dsn, options: ClientOptions) -> (r: Client)
        ensures
            r.dsn == Some(dsn),
            r.options == options,
            r.debug_images@.len() == 0,
    {
        Client { options, dsn: Some(dsn), debug_images: Vec::new() }
    }

    /// Creates a client that delivers nothing, with default options (which
    /// name no environment, as for `with_dsn`).
    pub fn disabled() -> (r: Client)
        ensures
            r.dsn is None,
            is_default_options(r.options),
            r.debug_images@.len() == 0,
    {
        Client::disabled_with_options(ClientOptions::default())
    }

    /// Creates a client that delivers nothing, with the given options.
    pub fn disabled_with_options(options: ClientOptions) -> (r: Client)
        ensures
            r.dsn is None,
            r.options == options,
            r.debug_images@.len() == 0,
    {
        Client { options, dsn: None, debug_images: Vec::new() }
    }

    /// The same client, with the debug images that events lacking their own
    /// are given.
    pub fn with_debug_images(self, images: Vec<DebugImage>) -> (r: Client)
        ensures
            r.options == self.options,
            r.dsn == self.dsn,
            r.debug_images@ == images@,
    {
        Client { options: self.options, dsn: self.dsn, debug_images: images }
    }

    /// The options of this client.
    pub fn options(&self) -> (r: &ClientOptions)
        ensures
            *r == self.options,
    {
        &self.options
    }

    /// The address of the delivery channel; none for a disabled client.
    pub fn dsn(&self) -> (r: Option<&Dsn>)
        ensures
            r == match self.dsn {
                Some(d) => Some(&d),
                None => None::<&Dsn>,
            },
    {
        match &self.dsn {
            Some(d) => Some(d),
            None => None,
        }
    }

    /// Whether the client has a delivery channel.
    pub fn is_enabled(&self) -> (r: bool)
        ensures
            r == self.is_enabled_spec(),
    {
        self.dsn.is_some()
    }

    /// Prepares `event` for delivery.  A disabled client prepares nothing and
    /// hands nothing to a channel: its caller reports the null identifier.
    pub fn capture_event(&self, event: Event, scope: Option<&Scope>) -> (r: Option<Event>)
        ensures
            r is Some <==> self.is_enabled_spec(),
            r matches Some(e) ==> {
                &&& scope_fields_merged(event, scope, e)
                &&& defaults_filled(self.options, self.debug_images@, event, e)
                &&& exceptions_prepared(self.options, event.exceptions@, e.exceptions@)
            },
    {
        if self.dsn.is_some() {
            let mut event = event;
            prepare_event(&mut event, scope, &self.options, &self.debug_images);
            Some(event)
        } else {
            None
        }
    }

    /// Decides the next step of a drain, with `pending` events in the
    /// channel's queue, `elapsed_ms` after it began and an optional timeout.
    pub fn drain_events(&self, pending: usize, elapsed_ms: u64, timeout_ms: Option<u64>) -> (r: DrainStep)
        ensures
            r == drain_step_spec(self.is_enabled_spec(), pending as nat, elapsed_ms as nat, timeout_ms),
    {
        if self.dsn.is_none() || pending == 0 {
            DrainStep::Done(true)
        } else {
            match timeout_ms {
                Some(t) => if elapsed_ms >= t {
                    DrainStep::Done(false)
                } else {
                    DrainStep::Wait
                },
                None => DrainStep::Wait,
            }
        }
    }
}

/// The view of an optional address: its text.
pub open spec fn dsn_view(d: Option<Dsn>) -> Option<Seq<char>> {
    match d {
        Some(d) => Some(d.url@),
        None => None,
    }
}

/// Converts a value into an optional address and optional options.
pub trait IntoClientConfig: Sized {
    /// The text of the address that the value holds, if any.
    spec fn config_dsn(&self) -> Option<Seq<char>>;

    /// The options that the value holds, if any.
    spec fn config_options(&self) -> Option<ClientOptions>;

    fn into_client_config(self) -> (r: (Option<Dsn>, Option<ClientOptions>))
        ensures
            dsn_view(r.0) == self.config_dsn(),
            r.1 == self.config_options(),
    ;
}

impl IntoClientConfig for () {
    open spec fn config_dsn(&self) -> Option<Seq<char>> {
        None
    }

    open spec fn config_options(&self) -> Option<ClientOptions> {
        None
    }

    fn into_client_config(self) -> (r: (Option<Dsn>, Option<ClientOptions>)) {
        (None, None)
    }
}

impl<C: IntoClientConfig> IntoClientConfig for Option<C> {
    open spec fn config_dsn(&self) -> Option<Seq<char>> {
        match self {
            Some(c) => c.config_dsn(),
            None => None,
        }
    }

    open spec fn config_options(&self) -> Option<ClientOptions> {
        match self {
            Some(c) => c.config_options(),
            None => None,
        }
    }

    fn into_client_config(self) -> (r: (Option<Dsn>, Option<ClientOptions>)) {
        match self {
            Some(c) => c.into_client_config(),
            None => (None, None),
        }
    }
}

impl<'a> IntoClientConfig for &'a str {
    /// An empty string holds no address.
    open spec fn config_dsn(&self) -> Option<Seq<char>> {
        if self@.len() == 0 {
            None
        } else {
            Some(self@)
        }
    }

    open spec fn config_options(&self) -> Option<ClientOptions> {
        None
    }

    fn into_client_config(self) -> (r: (Option<Dsn>, Option<ClientOptions>)) {
        if self.is_empty() {
            (None, None)
        } else {
            (Some(Dsn::new(self.to_owned())), None)
        }
    }
}

impl IntoClientConfig for String {
    /// An empty string holds no address.
    open spec fn config_dsn(&self) -> Option<Seq<char>> {
        if self@.len() == 0 {
            None
        } else {
            Some(self@)
        }
    }

    open spec fn config_options(&self) -> Option<ClientOptions> {
        None
    }

    fn into_client_config(self) -> (r: (Option<Dsn>, Option<ClientOptions>)) {
        if self.as_str().is_empty() {
            (None, None)
        } else {
            (Some(Dsn::new(self)), None)
        }
    }
}

impl<'a> IntoClientConfig for &'a Dsn {
    open spec fn config_dsn(&self) -> Option<Seq<char>> {
        Some(self.url@)
    }

    open spec fn config_options(&self) -> Option<ClientOptions> {
        None
    }

    fn into_client_config(self) -> (r: (Option<Dsn>, Option<ClientOptions>)) {
        (Some(self.duplicate()), None)
    }
}

impl IntoClientConfig for Dsn {
    open spec fn config_dsn(&self) -> Option<Seq<char>> {
        Some(self.url@)
    }

    open spec fn config_options(&self) -> Option<ClientOptions> {
        None
    }

    fn into_client_config(self) -> (r: (Option<Dsn>, Option<ClientOptions>)) {
        (Some(self), None)
    }
}

impl<C: IntoClientConfig> IntoClientConfig for (C, ClientOptions) {
    /// The address comes from the first part; the options are the second.
    open spec fn config_dsn(&self) -> Option<Seq<char>> {
        self.0.config_dsn()
    }

    open spec fn config_options(&self) -> Option<ClientOptions> {
        Some(self.1)
    }

    fn into_client_config(self) -> (r: (Option<Dsn>, Option<ClientOptions>)) {
        let (dsn, _) = self.0.into_client_config();
        (dsn, Some(self.1))
    }
}

/// Relies on `Arc::clone`: the new handle points to the same value.
#[verifier::external_body]
fn share_client(a: &Arc<Client>) -> (r: Arc<Client>)
    ensures
        *r == **a,
{
    Arc::clone(a)
}

/// Returned by `init`: holds the client it created, if any, whose queue is
/// drained for a bounded time when the guard is released.
pub struct ClientInitGuard {
    client: Option<Arc<Client>>,
}

impl ClientInitGuard {
    /// The client that the guard holds.
    pub closed spec fn held(&self) -> Option<Client> {
        match self.client {
            Some(a) => Some(*a),
            None => None,
        }
    }

    pub fn new(client: Option<Arc<Client>>) -> (r: ClientInitGuard)
        ensures
            r.held() == match client {
                Some(a) => Some(*a),
                None => None::<Client>,
            },
    {
        ClientInitGuard { client }
    }

    /// Whether a client was created.
    pub fn is_enabled(&self) -> (r: bool)
        ensures
            r == self.held() is Some,
    {
        self.client.is_some()
    }

    /// The client created by `init`: a handle to the one the guard holds.
    pub fn client(&self) -> (r: Option<Arc<Client>>)
        ensures
            match r {
                Some(a) => self.held() == Some(*a),
                None => self.held() is None,
            },
    {
        match &self.client {
            Some(c) => Some(share_client(c)),
            None => None,
        }
    }

    /// How long a release of the guard waits for the queue to drain: the
    /// fixed bound where a client was created, no wait otherwise.
    pub fn release_drain_timeout_ms(&self) -> (r: Option<u64>)
        ensures
            r == (if self.held() is Some {
                Some(RELEASE_DRAIN_TIMEOUT_MS)
            } else {
                None
            }),
    {
        if self.client.is_some() {
            Some(RELEASE_DRAIN_TIMEOUT_MS)
        } else {
            None
        }
    }
}

/// Creates the client for a configuration and a guard that holds it: the
/// client that `Client::from_config` builds, with the configuration's
/// address and options.
pub fn init<C: IntoClientConfig>(cfg: C) -> (r: ClientInitGuard)
    ensures
        r.held() is Some <==> cfg.config_dsn() is Some,
        r.held() matches Some(c) ==> dsn_view(c.dsn) == cfg.config_dsn() && c.debug_images@.len()
            == 0 && match cfg.config_options() {
            Some(o) => c.options == o,
            None => is_default_options(c.options),
        },
{
    let client = match Client::from_config(cfg) {
        Some(c) => Some(Arc::new(c)),
        None => None,
    };
    ClientInitGuard::new(client)
}

/// A disabled client is always drained at once, whatever its queue and
/// timeout; it has no channel to hand events to.
pub proof fn disabled_client_is_drained(c: Client, pending: nat, elapsed_ms: nat, timeout_ms: Option<u64>)
    requires
        !c.is_enabled_spec(),
    ensures
        drain_step_spec(c.is_enabled_spec(), pending, elapsed_ms, timeout_ms) == DrainStep::Done(true),
{
}

/// Once the channel's queue is empty a drain reports that it is drained,
/// whatever the time passed and the timeout; while events remain and the
/// timeout has not passed, it waits rather than giving up.
pub proof fn empty_queue_is_drained(enabled: bool, pending: nat, elapsed_ms: nat, timeout_ms: Option<u64>)
    ensures
        drain_step_spec(enabled, 0, elapsed_ms, timeout_ms) == DrainStep::Done(true),
        enabled && pending > 0 && (timeout_ms is None || elapsed_ms < timeout_ms->0)
            ==> drain_step_spec(enabled, pending, elapsed_ms, timeout_ms) == DrainStep::Wait,
{
}

} // verus!
