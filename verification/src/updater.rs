//! The updater of one instance: what a poll cycle makes of the response it
//! fetched, and what follows each step of the cycle.

use vstd::prelude::*;
use crate::config::{InstanceConfig, InstanceConfigView};
use crate::registry::{Instance, InstanceView};
use crate::render::{render_stats, rendered};
use crate::stats::{
    decode_stats, entries_map, json_object, names_distinct, DecodeError, StatView, Stats, StatsView,
};

verus! {

/// Milliseconds after which a fetch that has not answered is given up.
pub const FETCH_TIMEOUT: u64 = 5000;

/// How a poll cycle ended.
#[derive(Clone, Copy, Debug, PartialEq, Eq, Structural)]
pub enum Outcome {
    /// The response was rendered.
    Updated,
    /// No response was fetched.
    FetchFailed,
    /// The response was not the text of a JSON object.
    DecodeFailed,
}

/// What a poll cycle has for the cache cell.
#[derive(Debug)]
pub enum Update {
    /// The rendering of the response.
    Rendered(Vec<u8>),
    /// Nothing, as no response was fetched.
    FetchFailed,
    /// Nothing, as the response was not the text of a JSON object.
    DecodeFailed(DecodeError),
}

impl Update {
    /// How the cycle ended.
    pub open spec fn outcome_of(self) -> Outcome {
        match self {
            Update::Rendered(_) => Outcome::Updated,
            Update::FetchFailed => Outcome::FetchFailed,
            Update::DecodeFailed(_) => Outcome::DecodeFailed,
        }
    }

    /// How the cycle ended.
    pub fn outcome(&self) -> (outcome: Outcome)
        ensures
            outcome == self.outcome_of(),
    {
        match self {
            Update::Rendered(_) => Outcome::Updated,
            Update::FetchFailed => Outcome::FetchFailed,
            Update::DecodeFailed(_) => Outcome::DecodeFailed,
        }
    }
}

/// What happened last in the life of an updater.
#[derive(Clone, Copy, Debug, PartialEq, Eq, Structural)]
pub enum Event {
    /// The updater was started.
    Started,
    /// A poll cycle ended.
    Polled(Outcome),
    /// The sleep between two cycles is over.
    Slept,
}

/// What an updater does next.
#[derive(Clone, Copy, Debug, PartialEq, Eq, Structural)]
pub enum Action {
    /// Run a poll cycle.
    Poll,
    /// Sleep for so many milliseconds.
    Sleep { millis: u64 },
}

/// What follows `event` for an updater with the given scrape interval: a
/// poll cycle at the start and after each sleep, and after each cycle,
/// however it ended, a sleep of the scrape interval.
pub open spec fn action_after(scrape_interval: u64, event: Event) -> Action {
    match event {
        Event::Started => Action::Poll,
        Event::Polled(_) => Action::Sleep { millis: scrape_interval },
        Event::Slept => Action::Poll,
    }
}

/// `bytes` is the exposition of what was reported, rendered in some order of
/// the entries.
pub open spec fn is_rendering_of(
    bytes: Seq<u8>,
    reported: Map<Seq<char>, StatView>,
    config: InstanceConfigView,
) -> bool {
    exists|entries: StatsView|
        names_distinct(entries) && #[trigger] entries_map(entries) == reported && bytes == rendered(
            entries,
            config,
        )
}

/// What a poll cycle has for the cache cell, given the body of the response,
/// if one was fetched.
pub open spec fn update_matches(
    update: Update,
    config: InstanceConfigView,
    body: Option<Seq<u8>>,
) -> bool {
    match body {
        None => update is FetchFailed,
        Some(bytes) => match json_object(bytes) {
            None => update is DecodeFailed,
            Some(reported) => update matches Update::Rendered(out) && is_rendering_of(
                out@,
                reported,
                config,
            ),
        },
    }
}

/// The body as a sequence of bytes.
pub open spec fn body_view(body: Option<&[u8]>) -> Option<Seq<u8>> {
    match body {
        Some(bytes) => Some(bytes@),
        None => None,
    }
}

/// What the updater does after `event`.
pub fn next_action(config: &InstanceConfig, event: Event) -> (action: Action)
    requires
        config@.is_resolved(),
    ensures
        action == action_after(config@.scrape_interval->Some_0, event),
{
    match event {
        Event::Started => Action::Poll,
        Event::Slept => Action::Poll,
        Event::Polled(_) => match config.scrape_interval {
            Some(millis) => Action::Sleep { millis },
            None => Action::Poll,
        },
    }
}

/// Decodes and renders the response of one poll cycle, where one was
/// fetched: `body` is `None` where the fetch failed.
pub fn prepare_update(config: &InstanceConfig, body: Option<&[u8]>) -> (update: Update)
    requires
        config@.is_resolved(),
    ensures
        update_matches(update, config@, body_view(body)),
{
    match body {
        None => Update::FetchFailed,
        Some(bytes) => match decode_stats(bytes) {
            Err(error) => Update::DecodeFailed(error),
            Ok(stats) => {
                proof {
                    use_type_invariant(&stats);
                }
                Update::Rendered(render_stats(&stats, config))
            },
        },
    }
}

/// Renders `stats` for `instance` and stores the rendering, written at
/// `now`, in its cache cell.
pub fn process_stats(stats: &Stats, instance: &mut Instance, now: u64)
    ensures
        final(instance)@ == (InstanceView {
            config: old(instance)@.config,
            cache: Some((now, rendered(stats@, old(instance)@.config))),
        }),
{
    let bytes = render_stats(stats, instance.config());
    instance.store(now, bytes);
}

/// The instance after a poll cycle that ended at `now`: with the rendering
/// of the response in its cell where there is one, and unchanged where the
/// fetch or the decoding failed.
pub open spec fn updated(
    before: InstanceView,
    after: InstanceView,
    body: Option<Seq<u8>>,
    now: u64,
) -> bool {
    match body {
        None => after == before,
        Some(bytes) => match json_object(bytes) {
            None => after == before,
            Some(reported) => {
                &&& after.config == before.config
                &&& after.cache matches Some(held)
                &&& held.0 == now
                &&& is_rendering_of(held.1, reported, before.config)
            },
        },
    }
}

/// How a poll cycle ends, given the body of the response, if one was
/// fetched.
pub open spec fn outcome_for(body: Option<Seq<u8>>) -> Outcome {
    match body {
        None => Outcome::FetchFailed,
        Some(bytes) => match json_object(bytes) {
            None => Outcome::DecodeFailed,
            Some(_) => Outcome::Updated,
        },
    }
}

/// Runs the part of a poll cycle that follows the fetch: `body` is the body
/// of the response, or `None` where the fetch failed. Where the body
/// decodes, its rendering is stored, written at `now`; where not, the cell
/// keeps what it held.
pub fn do_update(instance: &mut Instance, body: Option<&[u8]>, now: u64) -> (outcome: Outcome)
    ensures
        outcome == outcome_for(body_view(body)),
        updated(old(instance)@, final(instance)@, body_view(body), now),
{
    let update = prepare_update(instance.config(), body);
    match update {
        Update::Rendered(bytes) => {
            instance.store(now, bytes);
            Outcome::Updated
        },
        Update::FetchFailed => Outcome::FetchFailed,
        Update::DecodeFailed(_) => Outcome::DecodeFailed,
    }
}

} // verus!
