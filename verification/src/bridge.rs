//! The source provider bridge: the two operations the transformation engine
//! needs from its environment — resolve a module specifier to a path, read
//! the text behind a path — each with a host-backed path through the call
//! gateway and a pure fallback when no host callback is registered.

use crate::awaiter::{settle_spec, Reply, Settlement};
use crate::cache::SourceCache;
use crate::channel::Gateway;
use crate::paths::{fallback_resolve, joined_path};
use crate::rendezvous::Rendezvous;
use vstd::prelude::*;

verus! {

/// A resolve call's arguments together with the sending half of the calling
/// worker's rendezvous channel; exactly one reply is sent through it.
pub struct ResolveRequest {
    pub specifier: String,
    pub originating_file: String,
    pub reply_to: crossbeam_channel::Sender<Reply>,
}

/// A read call's arguments together with the reply half, like
/// `ResolveRequest`.
pub struct ReadRequest {
    pub path: String,
    pub reply_to: crossbeam_channel::Sender<Reply>,
}

/// A failed bridge call, tagged with the arguments of the call it failed.
#[derive(Debug)]
pub enum BridgeError {
    ResolveFailed { specifier: String, originating_file: String, reason: String },
    ReadFailed { path: String, reason: String },
}

impl BridgeError {
    /// The failure's reason, for diagnostics.
    pub fn reason(&self) -> (r: &String)
        ensures
            self matches BridgeError::ResolveFailed { reason, .. } ==> r == reason,
            self matches BridgeError::ReadFailed { reason, .. } ==> r == reason,
    {
        match self {
            BridgeError::ResolveFailed { reason, .. } => reason,
            BridgeError::ReadFailed { reason, .. } => reason,
        }
    }
}

/// How a resolve call's result relates to the reply that came back for it:
/// the host's text passes through unchanged, and a failure is tagged with
/// the same specifier and originating file that were passed in.
pub open spec fn is_resolve_outcome(
    specifier: Seq<char>,
    originating_file: Seq<char>,
    reply: Reply,
    r: Result<String, BridgeError>,
) -> bool {
    match reply {
        Reply::Value(p) => r == Ok::<String, BridgeError>(p),
        Reply::Failure(reason) => match r {
            Result::Err(
                BridgeError::ResolveFailed { specifier: s, originating_file: o, reason: m },
            ) => s@ == specifier && o@ == originating_file && m@ == reason@,
            _ => false,
        },
    }
}

/// How a read call's result relates to its reply, with the failure tagged by
/// the path.
pub open spec fn is_read_outcome(
    path: Seq<char>,
    reply: Reply,
    r: Result<String, BridgeError>,
) -> bool {
    match reply {
        Reply::Value(text) => r == Ok::<String, BridgeError>(text),
        Reply::Failure(reason) => match r {
            Result::Err(BridgeError::ReadFailed { path: p, reason: m }) => p@ == path && m@
                == reason@,
            _ => false,
        },
    }
}

/// Turns the reply of a host-backed resolve call into the call's result.
/// Verified for every reply the channel could hand back.
pub fn finish_resolve(specifier: &str, originating_file: &str, reply: Reply) -> (r: Result<
    String,
    BridgeError,
>)
    ensures
        is_resolve_outcome(specifier@, originating_file@, reply, r),
{
    match reply {
        Reply::Value(p) => Ok(p),
        Reply::Failure(reason) => Err(
            BridgeError::ResolveFailed {
                specifier: specifier.to_owned(),
                originating_file: originating_file.to_owned(),
                reason,
            },
        ),
    }
}

/// Turns the reply of a host-backed read call into the call's result.
pub fn finish_read(path: &str, reply: Reply) -> (r: Result<String, BridgeError>)
    ensures
        is_read_outcome(path@, reply, r),
{
    match reply {
        Reply::Value(text) => Ok(text),
        Reply::Failure(reason) => Err(
            BridgeError::ReadFailed { path: path.to_owned(), reason },
        ),
    }
}

/// One host-backed resolve round trip: embeds the worker's reply half in the
/// message, schedules it through the gateway, parks on the rendezvous
/// channel, and turns whatever reply arrives into the call's result. May be
/// called from any number of workers at once; each brings its own
/// rendezvous channel.
pub fn fetch_resolve(
    gateway: &Gateway<ResolveRequest>,
    ch: &Rendezvous,
    specifier: &str,
    originating_file: &str,
) -> (r: Result<String, BridgeError>)
    ensures
        r matches Err(e) ==> (e matches BridgeError::ResolveFailed {
            specifier: s,
            originating_file: o,
            ..
        } && s@ == specifier@ && o@ == originating_file@),
{
    let message = ResolveRequest {
        specifier: specifier.to_owned(),
        originating_file: originating_file.to_owned(),
        reply_to: ch.reply_sender(),
    };
    if gateway.call(message) {
        match ch.wait() {
            Some(reply) => finish_resolve(specifier, originating_file, reply),
            None => Err(
                BridgeError::ResolveFailed {
                    specifier: specifier.to_owned(),
                    originating_file: originating_file.to_owned(),
                    reason: String::from_str("the reply channel closed before a reply arrived"),
                },
            ),
        }
    } else {
        Err(
            BridgeError::ResolveFailed {
                specifier: specifier.to_owned(),
                originating_file: originating_file.to_owned(),
                reason: String::from_str("the host gateway is closed"),
            },
        )
    }
}

/// One host-backed read round trip, like `fetch_resolve`.
pub fn fetch_read(gateway: &Gateway<ReadRequest>, ch: &Rendezvous, path: &str) -> (r: Result<
    String,
    BridgeError,
>)
    ensures
        r matches Err(e) ==> (e matches BridgeError::ReadFailed { path: p, .. } && p@ == path@),
{
    let message = ReadRequest { path: path.to_owned(), reply_to: ch.reply_sender() };
    if gateway.call(message) {
        match ch.wait() {
            Some(reply) => finish_read(path, reply),
            None => Err(
                BridgeError::ReadFailed {
                    path: path.to_owned(),
                    reason: String::from_str("the reply channel closed before a reply arrived"),
                },
            ),
        }
    } else {
        Err(
            BridgeError::ReadFailed {
                path: path.to_owned(),
                reason: String::from_str("the host gateway is closed"),
            },
        )
    }
}

/// The bridge itself: an optional gateway per host callback, and the
/// append-only cache that keeps every text a read brought in alive for the
/// engine's whole run.
pub struct SourceBridge {
    resolver: Option<Gateway<ResolveRequest>>,
    reader: Option<Gateway<ReadRequest>>,
    cache: SourceCache,
}

impl SourceBridge {
    /// Whether a host resolver is registered.
    pub closed spec fn resolver_registered(&self) -> bool {
        self.resolver is Some
    }

    /// Whether a host reader is registered.
    pub closed spec fn reader_registered(&self) -> bool {
        self.reader is Some
    }

    /// The texts brought in so far, in insertion order.
    pub closed spec fn cached(&self) -> Seq<Seq<char>> {
        self.cache@
    }

    /// A bridge over whichever callbacks the host registered; registering
    /// neither is a valid configuration, not an error.
    pub fn new(resolver: Option<Gateway<ResolveRequest>>, reader: Option<Gateway<ReadRequest>>) -> (b:
        SourceBridge)
        ensures
            b.resolver_registered() == resolver is Some,
            b.reader_registered() == reader is Some,
            b.cached() == Seq::<Seq<char>>::empty(),
    {
        SourceBridge { resolver, reader, cache: SourceCache::new() }
    }

    pub fn has_resolver(&self) -> (b: bool)
        ensures
            b == self.resolver_registered(),
    {
        self.resolver.is_some()
    }

    pub fn has_reader(&self) -> (b: bool)
        ensures
            b == self.reader_registered(),
    {
        self.reader.is_some()
    }

    /// Resolves `specifier` against `originating_file`. With no host
    /// resolver registered this is the pure concatenation rule and never
    /// fails; with one registered, the call round-trips through the gateway
    /// and the worker's rendezvous channel, and any failure is tagged with
    /// the same specifier and originating file that were passed in.
    pub fn resolve(&self, ch: &Rendezvous, specifier: &str, originating_file: &str) -> (r: Result<
        String,
        BridgeError,
    >)
        ensures
            !self.resolver_registered() ==> (r matches Ok(p) && p@ == joined_path(
                originating_file@,
                specifier@,
            )),
            r matches Err(e) ==> (e matches BridgeError::ResolveFailed {
                specifier: s,
                originating_file: o,
                ..
            } && s@ == specifier@ && o@ == originating_file@),
    {
        match &self.resolver {
            None => Ok(fallback_resolve(specifier, originating_file)),
            Some(gateway) => fetch_resolve(gateway, ch, specifier, originating_file),
        }
    }

    /// Reads the text behind `path` through the registered host reader,
    /// caches it, and returns its handle. The filesystem fallback for a
    /// bridge without a reader stays with the caller that owns I/O; it hands
    /// the text in through `store_local` instead.
    pub fn read(&mut self, ch: &Rendezvous, path: &str) -> (r: Result<usize, BridgeError>)
        requires
            old(self).reader_registered(),
        ensures
            final(self).resolver_registered() == old(self).resolver_registered(),
            final(self).reader_registered() == old(self).reader_registered(),
            r matches Ok(i) ==> i == old(self).cached().len() && final(self).cached().len() == old(
                self,
            ).cached().len() + 1 && old(self).cached().is_prefix_of(final(self).cached()),
            r is Err ==> final(self).cached() == old(self).cached(),
            r matches Err(e) ==> (e matches BridgeError::ReadFailed { path: p, .. } && p@
                == path@),
    {
        let outcome = match &self.reader {
            Some(gateway) => fetch_read(gateway, ch, path),
            None => unreached(),
        };
        match outcome {
            Ok(text) => Ok(self.cache.insert(text)),
            Err(e) => Err(e),
        }
    }

    /// Caches a text the caller brought in itself — the read fallback for a
    /// bridge without a host reader — and returns its handle.
    pub fn store_local(&mut self, content: String) -> (i: usize)
        ensures
            final(self).resolver_registered() == old(self).resolver_registered(),
            final(self).reader_registered() == old(self).reader_registered(),
            i == old(self).cached().len(),
            final(self).cached() == old(self).cached().push(content@),
            old(self).cached().is_prefix_of(final(self).cached()),
    {
        self.cache.insert(content)
    }

    /// How many texts the cache holds.
    pub fn cache_len(&self) -> (n: usize)
        ensures
            n == self.cached().len(),
    {
        self.cache.len()
    }

    /// Reads a cached text by its handle. The text is the one that was
    /// cached when the handle was handed out, whatever was cached since.
    pub fn contents(&self, i: usize) -> (r: &String)
        requires
            i < self.cached().len(),
        ensures
            r@ == self.cached()[i as int],
    {
        self.cache.contents(i)
    }
}

/// A host resolver that resolves immediately: the reply carries the host's
/// text, and the call returns exactly that text.
pub proof fn lemma_immediate_resolve(
    specifier: Seq<char>,
    originating_file: Seq<char>,
    v: String,
    r: Result<String, BridgeError>,
)
    requires
        is_resolve_outcome(specifier, originating_file, Reply::Value(v), r),
    ensures
        r == Ok::<String, BridgeError>(v),
{
}

/// A deferred host value that eventually resolves is transparent to the
/// caller: the call returns the eventual text itself.
pub proof fn lemma_deferred_resolve_transparent(
    specifier: Seq<char>,
    originating_file: Seq<char>,
    v: String,
    r: Result<String, BridgeError>,
)
    requires
        is_resolve_outcome(specifier, originating_file, settle_spec(Settlement::Resolved(v)), r),
    ensures
        r == Ok::<String, BridgeError>(v),
{
}

/// A deferred host value that rejects fails the call with a resolution
/// error naming the same specifier and originating file that were passed
/// in, and carrying the rejection's own reason.
pub proof fn lemma_deferred_rejection_tagged(
    specifier: Seq<char>,
    originating_file: Seq<char>,
    reason: String,
    r: Result<String, BridgeError>,
)
    requires
        is_resolve_outcome(
            specifier,
            originating_file,
            settle_spec(Settlement::Rejected(reason)),
            r,
        ),
    ensures
        r matches Err(e) && e matches BridgeError::ResolveFailed {
            specifier: s,
            originating_file: o,
            reason: m,
        } && s@ == specifier && o@ == originating_file && m@ == reason@,
{
}

} // verus!
