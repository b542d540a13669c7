//! The image watcher: the last modification time seen and the bytes that were
//! loaded with it.

use vstd::prelude::*;

verus! {

/// A file modification time, as nanoseconds from the Unix epoch (negative
/// before it).
#[derive(Clone, Copy, Debug, PartialEq, Eq, Structural)]
pub struct Timestamp {
    pub nanos: i128,
}

impl Timestamp {
    /// The Unix epoch. A watcher that has loaded nothing holds it in place
    /// of a modification time, and it means nothing there.
    pub open spec fn epoch() -> Timestamp {
        Timestamp { nanos: 0 }
    }

    /// The Unix epoch.
    pub fn unix_epoch() -> (t: Timestamp)
        ensures
            t == Timestamp::epoch(),
    {
        Timestamp { nanos: 0 }
    }

    /// The instant that lies `secs` seconds and `subsec_nanos` nanoseconds
    /// after the Unix epoch.
    pub fn after_epoch(secs: u64, subsec_nanos: u32) -> (t: Timestamp)
        ensures
            t.nanos == secs * 1_000_000_000 + subsec_nanos,
    {
        Timestamp { nanos: (secs as i128) * 1_000_000_000 + (subsec_nanos as i128) }
    }

    /// The instant that lies `secs` seconds and `subsec_nanos` nanoseconds
    /// before the Unix epoch.
    pub fn before_epoch(secs: u64, subsec_nanos: u32) -> (t: Timestamp)
        ensures
            t.nanos == -(secs * 1_000_000_000 + subsec_nanos),
    {
        Timestamp { nanos: -((secs as i128) * 1_000_000_000 + (subsec_nanos as i128)) }
    }

    /// Whether two timestamps are the same instant.
    pub fn same(&self, other: &Timestamp) -> (eq: bool)
        ensures
            eq == (*self == *other),
    {
        self.nanos == other.nanos
    }
}

/// What a watcher knows: the modification time it last accepted and the file
/// content that came with it.
pub struct ImageState {
    pub last_modified: Timestamp,
    pub cached: Seq<u8>,
}

impl ImageState {
    /// The state before anything was loaded.
    pub open spec fn fresh() -> ImageState {
        ImageState { last_modified: Timestamp::epoch(), cached: Seq::empty() }
    }

    /// Whether an image has been loaded.
    pub open spec fn has_image(self) -> bool {
        self.cached.len() > 0
    }

    /// Whether a file observed with modification time `observed` must be
    /// read: always while nothing is loaded, whatever the time, and after
    /// that whenever the time differs from the one that the cache was
    /// loaded with.
    pub open spec fn is_stale(self, observed: Timestamp) -> bool {
        !self.has_image() || observed != self.last_modified
    }

    /// The state after a read that returned `bytes` for a file observed at
    /// `observed`. Content replaces time and cache together. An empty read
    /// holds no image (a file caught between truncation and rewrite) and
    /// counts as a failed one: it changes nothing.
    pub open spec fn reload(self, observed: Timestamp, bytes: Seq<u8>) -> ImageState {
        if bytes.len() > 0 {
            ImageState { last_modified: observed, cached: bytes }
        } else {
            self
        }
    }
}

/// Remembers the last modification time seen and caches the bytes loaded
/// with it. The cache is the single source of what is sent.
pub struct ImageWatcher {
    last_modified: Timestamp,
    cached: Vec<u8>,
}

impl View for ImageWatcher {
    type V = ImageState;

    closed spec fn view(&self) -> ImageState {
        ImageState { last_modified: self.last_modified, cached: self.cached@ }
    }
}

impl ImageWatcher {
    /// A watcher that has loaded nothing yet.
    pub fn new() -> (watcher: ImageWatcher)
        ensures
            watcher@ == ImageState::fresh(),
    {
        ImageWatcher { last_modified: Timestamp::unix_epoch(), cached: Vec::new() }
    }

    /// The modification time of the content in the cache.
    pub fn last_modified(&self) -> (t: Timestamp)
        ensures
            t == self@.last_modified,
    {
        self.last_modified
    }

    /// Whether an image has been loaded.
    pub fn has_image(&self) -> (loaded: bool)
        ensures
            loaded == self@.has_image(),
    {
        self.cached.len() > 0
    }

    /// The cached bytes: the frame to send.
    pub fn frame(&self) -> (bytes: &Vec<u8>)
        ensures
            bytes@ == self@.cached,
    {
        &self.cached
    }

    /// Whether the file must be read, given the modification time just
    /// observed: always while nothing is loaded, and after that exactly when
    /// the time differs from the last one accepted.
    pub fn is_stale(&self, observed: Timestamp) -> (stale: bool)
        ensures
            stale == self@.is_stale(observed),
    {
        !self.has_image() || !observed.same(&self.last_modified)
    }

    /// Takes in the bytes read from a file observed at `observed`. Returns
    /// whether they were accepted; an empty read is not, and changes nothing.
    pub fn reload(&mut self, observed: Timestamp, bytes: Vec<u8>) -> (accepted: bool)
        ensures
            accepted == (bytes@.len() > 0),
            final(self)@ == old(self)@.reload(observed, bytes@),
    {
        if bytes.len() > 0 {
            self.last_modified = observed;
            self.cached = bytes;
            true
        } else {
            false
        }
    }
}

/// An accepted reload replaces time and cache together; a refused one leaves
/// both as they were. The cache, once filled, is never emptied.
pub proof fn lemma_reload_is_whole(state: ImageState, observed: Timestamp, bytes: Seq<u8>)
    ensures
        state.reload(observed, bytes) == state || state.reload(observed, bytes) == (ImageState {
            last_modified: observed,
            cached: bytes,
        }),
        state.has_image() ==> state.reload(observed, bytes).has_image(),
        bytes.len() > 0 ==> !state.reload(observed, bytes).is_stale(observed),
{
}

} // verus!
