//! The query server's two answers: the liveness check, and the snapshot of
//! an instance, which is served only while it is fresh.

use vstd::prelude::*;
use crate::cache::{age_at, read_at, CacheRead, CacheReadView, NANOS_PER_MILLI};
use crate::config::Config;
use crate::registry::{find, has_id, Instance, InstanceView, Instances};

verus! {

/// The status of an answer that carries what was asked for.
pub const STATUS_OK: u16 = 200;

/// The status of an answer to a query for which nothing is served.
pub const STATUS_NOT_FOUND: u16 = 404;

/// What the server works on: the resolved configuration and the instances.
#[derive(Debug)]
pub struct AppState {
    pub config: Config,
    pub instances: Instances,
}

/// What a query for the snapshot of an instance finds.
#[derive(Debug)]
pub enum Lookup {
    /// The cached bytes, which are younger than the instance's threshold.
    Served(Vec<u8>),
    /// The instance has cached bytes of the given age, in nanoseconds, which
    /// is at or over its threshold, in milliseconds.
    Stale { age: u64, stale_threshold: u64 },
    /// The instance has not been rendered yet.
    NeverWritten,
    /// No instance has the id.
    UnknownInstance,
}

/// What a `Lookup` says.
pub enum LookupView {
    Served(Seq<u8>),
    Stale { age: u64, stale_threshold: u64 },
    NeverWritten,
    UnknownInstance,
}

impl View for Lookup {
    type V = LookupView;

    open spec fn view(&self) -> LookupView {
        match self {
            Lookup::Served(bytes) => LookupView::Served(bytes@),
            Lookup::Stale { age, stale_threshold } => LookupView::Stale {
                age: *age,
                stale_threshold: *stale_threshold,
            },
            Lookup::NeverWritten => LookupView::NeverWritten,
            Lookup::UnknownInstance => LookupView::UnknownInstance,
        }
    }
}

/// An answer of the server.
#[derive(Debug)]
pub struct Reply {
    pub status: u16,
    pub body: Vec<u8>,
}

impl View for Reply {
    type V = (u16, Seq<u8>);

    open spec fn view(&self) -> (u16, Seq<u8>) {
        (self.status, self.body@)
    }
}

/// What a query at `now` finds for an instance with a resolved descriptor.
pub open spec fn instance_lookup(instance: InstanceView, now: u64) -> LookupView {
    let stale_threshold = instance.config.stale_threshold->Some_0;
    match read_at(instance.cache, stale_threshold, now) {
        CacheReadView::Fresh(bytes) => LookupView::Served(bytes),
        CacheReadView::Stale { age } => LookupView::Stale { age, stale_threshold },
        CacheReadView::Empty => LookupView::NeverWritten,
    }
}

/// What a query at `now` finds, given the instance that the id names, if
/// any.
pub open spec fn lookup_of(found: Option<InstanceView>, now: u64) -> LookupView {
    match found {
        Some(instance) => instance_lookup(instance, now),
        None => LookupView::UnknownInstance,
    }
}

/// The answer to a query: the bytes where they are served; elsewhere, and
/// for whatever reason, the same empty "not found".
pub open spec fn reply_of(lookup: LookupView) -> (u16, Seq<u8>) {
    match lookup {
        LookupView::Served(bytes) => (STATUS_OK, bytes),
        _ => (STATUS_NOT_FOUND, Seq::empty()),
    }
}

/// Looks up the snapshot of the instance that was found under an id, if one
/// was.
pub fn lookup(found: Option<&Instance>, now: u64) -> (result: Lookup)
    ensures
        result@ == lookup_of(
            match found {
                Some(instance) => Some(instance@),
                None => None,
            },
            now,
        ),
{
    match found {
        None => Lookup::UnknownInstance,
        Some(instance) => {
            let stale_threshold = instance.stale_threshold();
            match instance.read(now) {
                CacheRead::Fresh(bytes) => Lookup::Served(bytes),
                CacheRead::Stale { age } => Lookup::Stale { age, stale_threshold },
                CacheRead::Empty => Lookup::NeverWritten,
            }
        },
    }
}

impl Lookup {
    /// The answer that the server gives.
    pub fn into_reply(self) -> (reply: Reply)
        ensures
            reply@ == reply_of(self@),
    {
        match self {
            Lookup::Served(body) => Reply { status: STATUS_OK, body },
            _ => Reply { status: STATUS_NOT_FOUND, body: Vec::new() },
        }
    }
}

/// Answers the liveness check: always with success, whatever the state of
/// the instances.
pub fn health() -> (status: u16)
    ensures
        status == STATUS_OK,
{
    STATUS_OK
}

/// Answers a query at `now` for the snapshot of the instance named `id`.
pub fn stats(state: &AppState, id: &str, now: u64) -> (reply: Reply)
    ensures
        reply@ == reply_of(lookup_of(find(state.instances@, id@), now)),
{
    lookup(state.instances.get(id), now).into_reply()
}

/// A query for an id that names no instance is answered "not found",
/// whatever the cells of the instances hold.
pub proof fn unknown_id_is_not_found(instances: Seq<InstanceView>, id: Seq<char>, now: u64)
    requires
        !has_id(instances, id),
    ensures
        lookup_of(find(instances, id), now) == LookupView::UnknownInstance,
        reply_of(lookup_of(find(instances, id), now)) == (STATUS_NOT_FOUND, Seq::<u8>::empty()),
{
}

/// Stale bytes, a cell that was never written and an unknown id are all
/// answered alike: not found, with an empty body. Only bytes that are served
/// are answered with success, and they are the body.
pub proof fn every_miss_is_answered_alike(lookup: LookupView)
    ensures
        !(lookup is Served) ==> reply_of(lookup) == (STATUS_NOT_FOUND, Seq::<u8>::empty()),
        lookup matches LookupView::Served(bytes) ==> reply_of(lookup) == (STATUS_OK, bytes),
{
}

/// The bytes of a known instance are served exactly while their age is under
/// the instance's threshold.
pub proof fn snapshot_is_served_while_fresh(instance: InstanceView, now: u64)
    requires
        instance.config.is_resolved(),
    ensures
        instance_lookup(instance, now) is Served <==> instance.cache is Some && age_at(
            now,
            instance.cache->Some_0.0,
        ) < instance.config.stale_threshold->Some_0 * NANOS_PER_MILLI,
        instance_lookup(instance, now) matches LookupView::Served(bytes) ==> bytes
            == instance.cache->Some_0.1,
{
}

} // verus!
