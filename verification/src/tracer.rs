//! The write-once tracer lifecycle and the send decision.
//!
//! The tracer context bundles the two write-once slots of the system: the
//! configuration (destination host and port, watched-file identity) and the
//! sender. The context is built once at startup and shared; each slot can be
//! filled exactly once, and a second attempt is a reported error, never a
//! silent overwrite and never an abort. The socket itself lives with the
//! caller that owns the I/O; the library tracks its existence and decides,
//! for each send request, either the exact datagram to emit or the exact
//! error to report.

use vstd::prelude::*;
use crate::errors::TraceError;

verus! {

/// Destination host and port, and the identity of the single watched file.
/// Set exactly once per tracer; immutable afterwards.
#[derive(Debug)]
pub struct Config {
    pub host: String,
    pub port: u16,
    pub watched_identity: String,
}

/// The mathematical value of a `Config`.
pub struct ConfigModel {
    pub host: Seq<char>,
    pub port: u16,
    pub watched_identity: Seq<char>,
}

impl View for Config {
    type V = ConfigModel;

    open spec fn view(&self) -> ConfigModel {
        ConfigModel {
            host: self.host@,
            port: self.port,
            watched_identity: self.watched_identity@,
        }
    }
}

/// One outbound UDP datagram: the destination and the exact payload. The
/// library produces these; the caller that owns the socket emits them,
/// fire-and-forget.
#[derive(Debug)]
pub struct Datagram {
    pub host: String,
    pub port: u16,
    pub payload: String,
}

/// The mathematical value of a `Datagram`.
pub struct DatagramModel {
    pub host: Seq<char>,
    pub port: u16,
    pub payload: Seq<char>,
}

impl View for Datagram {
    type V = DatagramModel;

    open spec fn view(&self) -> DatagramModel {
        DatagramModel { host: self.host@, port: self.port, payload: self.payload@ }
    }
}

/// The abstract state of a tracer: the configuration slot and whether the
/// sender slot has been filled.
pub struct TracerModel {
    pub config: Option<ConfigModel>,
    pub sender_created: bool,
}

/// `init` may fill the configuration slot only while it is empty.
pub open spec fn init_allowed(m: TracerModel) -> bool {
    m.config is None
}

/// The state after a successful `init`: the configuration holds exactly the
/// three given values; the sender slot is untouched.
pub open spec fn init_next(m: TracerModel, host: Seq<char>, port: u16, watched: Seq<char>) -> TracerModel {
    TracerModel {
        config: Some(ConfigModel { host, port, watched_identity: watched }),
        sender_created: m.sender_created,
    }
}

/// `create_udp_sender` may fill the sender slot only while it is empty.
pub open spec fn create_sender_allowed(m: TracerModel) -> bool {
    !m.sender_created
}

/// The state after a successful `create_udp_sender`: the sender slot is
/// filled; the configuration is untouched.
pub open spec fn create_sender_next(m: TracerModel) -> TracerModel {
    TracerModel { config: m.config, sender_created: true }
}

/// The outcome of a send request in state `m`: the sender slot is checked
/// first, then the configuration; with both present the result is one
/// datagram carrying `message` to the configured destination.
pub open spec fn send_result(m: TracerModel, message: Seq<char>) -> Result<DatagramModel, TraceError> {
    if !m.sender_created {
        Err(TraceError::SenderNotInitialized)
    } else if m.config is None {
        Err(TraceError::NotInitialized)
    } else {
        Ok(DatagramModel {
            host: m.config->0.host,
            port: m.config->0.port,
            payload: message,
        })
    }
}

/// The tracer context: both write-once slots, bundled so that one shared,
/// read-only reference serves every entry point after startup.
pub struct Tracer {
    config: Option<Config>,
    sender_created: bool,
}

impl View for Tracer {
    type V = TracerModel;

    closed spec fn view(&self) -> TracerModel {
        TracerModel {
            config: match self.config {
                Some(c) => Some(c@),
                None => None,
            },
            sender_created: self.sender_created,
        }
    }
}

impl Tracer {
    /// A fresh tracer: no configuration, no sender.
    pub fn new() -> (t: Tracer)
        ensures
            t@ == (TracerModel { config: None::<ConfigModel>, sender_created: false }),
    {
        Tracer { config: None, sender_created: false }
    }

    /// Stores destination host and port and the watched-file identity,
    /// exactly once. A second call fails with a double-initialization error
    /// and changes nothing.
    pub fn init(&mut self, host: String, port: u16, name: String) -> (r: Result<(), TraceError>)
        ensures
            r is Ok <==> init_allowed(old(self)@),
            init_allowed(old(self)@) ==> final(self)@ == init_next(old(self)@, host@, port, name@),
            !init_allowed(old(self)@) ==> final(self)@ == old(self)@
                && r == Err::<(), TraceError>(TraceError::AlreadyInitialized),
    {
        if self.config.is_some() {
            return Err(TraceError::AlreadyInitialized);
        }
        self.config = Some(Config { host, port, watched_identity: name });
        Ok(())
    }

    /// Marks the sender slot as filled, exactly once. The caller binds the
    /// socket before this call and keeps it only when this call succeeds; a
    /// second call fails with a double-initialization error and changes
    /// nothing, so the first sender remains in place.
    pub fn create_udp_sender(&mut self) -> (r: Result<(), TraceError>)
        ensures
            r is Ok <==> create_sender_allowed(old(self)@),
            create_sender_allowed(old(self)@) ==> final(self)@ == create_sender_next(old(self)@),
            !create_sender_allowed(old(self)@) ==> final(self)@ == old(self)@
                && r == Err::<(), TraceError>(TraceError::SenderAlreadyInitialized),
    {
        if self.sender_created {
            return Err(TraceError::SenderAlreadyInitialized);
        }
        self.sender_created = true;
        Ok(())
    }

    /// Decides a send request: with sender and configuration present, the
    /// single datagram that carries `message` to the configured destination;
    /// otherwise the error naming the missing slot, the sender checked
    /// first.
    pub fn send_udp_message(&self, message: &str) -> (r: Result<Datagram, TraceError>)
        ensures
            r is Ok <==> send_result(self@, message@) is Ok,
            r matches Ok(d) ==> send_result(self@, message@)
                == Ok::<DatagramModel, TraceError>(d@),
            r matches Err(e) ==> send_result(self@, message@)
                == Err::<DatagramModel, TraceError>(e),
    {
        if !self.sender_created {
            return Err(TraceError::SenderNotInitialized);
        }
        match &self.config {
            None => Err(TraceError::NotInitialized),
            Some(c) => Ok(Datagram {
                host: c.host.clone(),
                port: c.port,
                payload: message.to_owned(),
            }),
        }
    }

    /// The configuration slot, for readers of the watched identity.
    pub fn config_ref(&self) -> (r: Option<&Config>)
        ensures
            match r {
                Some(c) => self@.config == Some(c@),
                None => self@.config is None,
            },
    {
        match &self.config {
            Some(c) => Some(c),
            None => None,
        }
    }
}

/// Law: initialization is write-once. From any state where `init` is
/// allowed, one success occupies the configuration slot, so a second `init`
/// is no longer allowed and must fail.
pub proof fn lemma_init_write_once(
    m: TracerModel,
    host: Seq<char>,
    port: u16,
    watched: Seq<char>,
)
    requires
        init_allowed(m),
    ensures
        !init_allowed(init_next(m, host, port, watched)),
{
}

/// Law: a send before the sender exists fails with the error naming the
/// sender; a send with a sender but before initialization fails with the
/// error naming the missing configuration.
pub proof fn lemma_send_needs_lifecycle(m: TracerModel, message: Seq<char>)
    ensures
        !m.sender_created ==> send_result(m, message)
            == Err::<DatagramModel, TraceError>(TraceError::SenderNotInitialized),
        m.sender_created && m.config is None ==> send_result(m, message)
            == Err::<DatagramModel, TraceError>(TraceError::NotInitialized),
{
}

/// Law: sender creation is write-once. One success occupies the sender
/// slot, so a second attempt must fail; the slot stays occupied and the
/// configuration untouched, so the first sender remains usable — once a
/// configuration exists, every send from the new state succeeds.
pub proof fn lemma_create_sender_write_once(m: TracerModel, message: Seq<char>)
    requires
        create_sender_allowed(m),
    ensures
        !create_sender_allowed(create_sender_next(m)),
        create_sender_next(m).sender_created,
        create_sender_next(m).config == m.config,
        m.config is Some ==> send_result(create_sender_next(m), message) is Ok,
{
}

} // verus!
