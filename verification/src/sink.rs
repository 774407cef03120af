//! The metric sink: the fixed collection of named gauges.
//!
//! Gauges are registered once at startup, one per exportable catalog
//! entry, and set by overwrite thereafter. `set` only ever touches a key
//! that is already registered, so untrusted meter data can never grow
//! the collection.

use vstd::hash_map::StringHashMap;
use vstd::prelude::*;

verus! {

/// The collection of registered gauges, viewed as a map from metric key
/// to the gauge's current value.
///
/// The stored value is the extracted integer reading; rendering it as a
/// floating-point sample is left to the unverified scrape layer.
pub struct MetricSink {
    gauges: StringHashMap<i64>,
}

impl View for MetricSink {
    type V = Map<Seq<char>, i64>;

    closed spec fn view(&self) -> Map<Seq<char>, i64> {
        self.gauges@
    }
}

impl MetricSink {
    /// Creates a sink with no gauges.
    pub fn new() -> (s: Self)
        ensures
            s@ == Map::<Seq<char>, i64>::empty(),
    {
        MetricSink { gauges: StringHashMap::new() }
    }

    /// Registers a gauge under a fresh key, starting at zero.
    /// Startup-only: called once per exportable catalog entry, before
    /// any frame arrives.
    pub fn register(&mut self, key: &str)
        requires
            !old(self)@.dom().contains(key@),
        ensures
            final(self)@ == old(self)@.insert(key@, 0),
    {
        self.gauges.insert(key.to_owned(), 0);
    }

    /// Overwrites the gauge registered under `key`; a key that was never
    /// registered is left unregistered, so the sink's cardinality is
    /// fixed at startup.
    pub fn set(&mut self, key: &str, value: i64)
        ensures
            final(self)@ == if old(self)@.dom().contains(key@) {
                old(self)@.insert(key@, value)
            } else {
                old(self)@
            },
    {
        if self.gauges.contains_key(key) {
            self.gauges.insert(key.to_owned(), value);
        }
    }

    /// The current value of the gauge registered under `key`.
    pub fn get(&self, key: &str) -> (r: Option<i64>)
        ensures
            r == if self@.dom().contains(key@) {
                Some(self@[key@])
            } else {
                None::<i64>
            },
    {
        match self.gauges.get(key) {
            Some(v) => Some(*v),
            None => None,
        }
    }

    /// The number of registered gauges.
    pub fn len(&self) -> (n: usize)
        ensures
            n == self@.len(),
    {
        broadcast use vstd::hash_map::axiom_string_hash_map_spec_len;

        self.gauges.len()
    }
}

} // verus!
