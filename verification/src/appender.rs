//! The appender facade: what callers see.
//!
//! Callers on arbitrary threads encode a record and hand the bytes to the
//! appender, which queues them for the worker; releasing the appender
//! queues the terminate signal behind everything already submitted, so the
//! worker stops after it and nothing is written afterwards. The queue
//! itself — its order and its contents — is modelled here; the channel and
//! the thread that carry it at run time live with the caller of this
//! library, which feeds the queued events to `worker::run_worker` order
//! unchanged.
//!
//! Construction goes through one builder per destination kind. A builder
//! holds configuration only; opening the file or connecting the socket is
//! the caller's fallible step, taken with the finished configuration.

use vstd::prelude::*;

use crate::event::AsyncEvent;

verus! {

/// The error `append` reports when the queue no longer accepts events
/// because the appender has been torn down.
#[derive(Clone, Copy, PartialEq, Eq, Structural, Debug)]
pub struct SubmitError;

/// The appender's queue of events, in submission order, and whether the
/// terminate signal has been sent.
pub struct AsyncAppender {
    queue: Vec<AsyncEvent>,
    closed: bool,
}

impl AsyncAppender {
    /// The events submitted so far, in order.
    pub closed spec fn events(self) -> Seq<AsyncEvent> {
        self.queue@
    }

    /// True once the terminate signal has been queued.
    pub closed spec fn is_closed(self) -> bool {
        self.closed
    }

    /// A fresh appender: nothing queued, accepting records.
    pub fn new() -> (r: AsyncAppender)
        ensures
            r.events() == Seq::<AsyncEvent>::empty(),
            !r.is_closed(),
    {
        AsyncAppender { queue: Vec::new(), closed: false }
    }

    /// Submits one encoded record: queued behind everything already
    /// submitted, unless teardown has begun, in which case the record is
    /// rejected and the caller is told.
    pub fn append(&mut self, encoded: Vec<u8>) -> (r: Result<(), SubmitError>)
        ensures
            !old(self).is_closed() ==> r is Ok && final(self).events() == old(self).events().push(
                AsyncEvent::Log(encoded),
            ) && !final(self).is_closed(),
            old(self).is_closed() ==> r is Err && final(self).events() == old(self).events()
                && final(self).is_closed(),
    {
        if self.closed {
            Err(SubmitError)
        } else {
            self.queue.push(AsyncEvent::Log(encoded));
            Ok(())
        }
    }

    /// Begins teardown: queues the terminate signal behind every record
    /// submitted so far and stops accepting new ones.
    pub fn teardown(&mut self)
        ensures
            final(self).events() == old(self).events().push(AsyncEvent::Terminate),
            final(self).is_closed(),
    {
        self.queue.push(AsyncEvent::Terminate);
        self.closed = true;
    }

    /// Hands the queued events over, in submission order, for the worker
    /// to consume.
    pub fn into_events(self) -> (r: Vec<AsyncEvent>)
        ensures
            r@ == self.events(),
    {
        self.queue
    }
}

/// A console destination needs no settings.
#[derive(Clone, Copy, PartialEq, Eq, Structural, Debug)]
pub struct ConsoleConfig;

/// Settings for a file destination.
pub struct FileConfig {
    /// The file to open.
    pub path: String,
    /// Append to what the file holds, rather than truncating it.
    pub append: bool,
}

/// Settings for a stream-socket destination.
pub struct ServerConfig {
    /// The server's address.
    pub addr: String,
    /// Transmit each write immediately rather than buffering it.
    pub no_delay: bool,
}

/// Settings for a message-oriented connection destination.
pub struct WebSockConfig {
    /// The server's URL.
    pub url: String,
}

/// The console appender's entry point.
pub struct AsyncConsoleAppender;

/// Configuration for a console appender.
pub struct AsyncConsoleAppenderBuilder;

impl AsyncConsoleAppender {
    /// Starts configuring a console appender.
    pub fn builder() -> AsyncConsoleAppenderBuilder {
        AsyncConsoleAppenderBuilder
    }
}

impl AsyncConsoleAppenderBuilder {
    /// Finishes the configuration; the console needs no settings.
    pub fn build(self) -> (r: ConsoleConfig)
        ensures
            r == ConsoleConfig,
    {
        ConsoleConfig
    }
}

/// The file appender's entry point.
pub struct AsyncFileAppender;

/// Configuration for a file appender.
pub struct AsyncFileAppenderBuilder {
    /// The file to open.
    pub path: String,
    /// Append to what the file holds, rather than truncating it.
    pub append: bool,
}

impl AsyncFileAppender {
    /// Starts configuring a file appender on `path`; appending is the
    /// default.
    pub fn builder(path: String) -> (r: AsyncFileAppenderBuilder)
        ensures
            r.path@ == path@,
            r.append,
    {
        AsyncFileAppenderBuilder { path, append: true }
    }
}

impl AsyncFileAppenderBuilder {
    /// Chooses between appending and truncating.
    pub fn append(self, append: bool) -> (r: AsyncFileAppenderBuilder)
        ensures
            r.path@ == self.path@,
            r.append == append,
    {
        AsyncFileAppenderBuilder { path: self.path, append }
    }

    /// Finishes the configuration; opening the file is the caller's
    /// fallible step.
    pub fn build(self) -> (r: FileConfig)
        ensures
            r.path@ == self.path@,
            r.append == self.append,
    {
        FileConfig { path: self.path, append: self.append }
    }
}

/// The stream-socket appender's entry point.
pub struct AsyncServerAppender;

/// Configuration for a stream-socket appender.
pub struct AsyncServerAppenderBuilder {
    /// The server's address.
    pub addr: String,
    /// Transmit each write immediately rather than buffering it.
    pub no_delay: bool,
}

impl AsyncServerAppender {
    /// Starts configuring a socket appender on `server_addr`; immediate
    /// transmission is the default.
    pub fn builder(server_addr: String) -> (r: AsyncServerAppenderBuilder)
        ensures
            r.addr@ == server_addr@,
            r.no_delay,
    {
        AsyncServerAppenderBuilder { addr: server_addr, no_delay: true }
    }
}

impl AsyncServerAppenderBuilder {
    /// Chooses between immediate and buffered transmission.
    pub fn no_delay(self, no_delay: bool) -> (r: AsyncServerAppenderBuilder)
        ensures
            r.addr@ == self.addr@,
            r.no_delay == no_delay,
    {
        AsyncServerAppenderBuilder { addr: self.addr, no_delay }
    }

    /// Finishes the configuration; connecting is the caller's fallible
    /// step.
    pub fn build(self) -> (r: ServerConfig)
        ensures
            r.addr@ == self.addr@,
            r.no_delay == self.no_delay,
    {
        ServerConfig { addr: self.addr, no_delay: self.no_delay }
    }
}

/// The message-connection appender's entry point.
pub struct AsyncWebSockAppender;

/// Configuration for a message-connection appender.
pub struct AsyncWebSockAppenderBuilder {
    /// The server's URL.
    pub url: String,
}

impl AsyncWebSockAppender {
    /// Starts configuring a message-connection appender on `server_url`.
    pub fn builder(server_url: String) -> (r: AsyncWebSockAppenderBuilder)
        ensures
            r.url@ == server_url@,
    {
        AsyncWebSockAppenderBuilder { url: server_url }
    }
}

impl AsyncWebSockAppenderBuilder {
    /// Finishes the configuration; connecting is the caller's fallible
    /// step.
    pub fn build(self) -> (r: WebSockConfig)
        ensures
            r.url@ == self.url@,
    {
        WebSockConfig { url: self.url }
    }
}

} // verus!
