//! The instances: each a resolved descriptor with the cache cell it owns, and
//! the set of them, in which an id names at most one.

use vstd::prelude::*;
use crate::cache::{read_at, CacheCell, CacheRead, CellView};
use crate::config::{Config, InstanceConfig, InstanceConfigView};
use crate::text::str_eq;

verus! {

/// One monitored backend: its resolved descriptor and its cache cell.
#[derive(Debug)]
pub struct Instance {
    config: InstanceConfig,
    cache: CacheCell,
}

/// What an `Instance` says.
pub struct InstanceView {
    pub config: InstanceConfigView,
    pub cache: CellView,
}

impl View for Instance {
    type V = InstanceView;

    closed spec fn view(&self) -> InstanceView {
        InstanceView { config: self.config@, cache: self.cache@ }
    }
}

/// The instance of a descriptor before its first poll.
pub open spec fn unpolled(config: InstanceConfigView) -> InstanceView {
    InstanceView { config, cache: None }
}

impl Instance {
    /// The descriptor is resolved.
    #[verifier::type_invariant]
    pub open spec fn is_resolved(self) -> bool {
        self@.config.is_resolved()
    }

    /// The instance of `config`, with a cell that was never written.
    pub fn new(config: InstanceConfig) -> (instance: Instance)
        requires
            config@.is_resolved(),
        ensures
            instance@ == unpolled(config@),
    {
        Instance { config, cache: CacheCell::new() }
    }

    /// The descriptor.
    pub fn config(&self) -> (config: &InstanceConfig)
        ensures
            config@ == self@.config,
            config@.is_resolved(),
    {
        proof {
            use_type_invariant(self);
        }
        &self.config
    }

    /// The milliseconds after which the cached rendering is no longer served.
    pub fn stale_threshold(&self) -> (millis: u64)
        ensures
            self@.config.stale_threshold == Some(millis),
    {
        proof {
            use_type_invariant(self);
        }
        match self.config.stale_threshold {
            Some(millis) => millis,
            None => 0,
        }
    }

    /// The milliseconds between the end of one poll cycle and the start of
    /// the next.
    pub fn scrape_interval(&self) -> (millis: u64)
        ensures
            self@.config.scrape_interval == Some(millis),
    {
        proof {
            use_type_invariant(self);
        }
        match self.config.scrape_interval {
            Some(millis) => millis,
            None => 0,
        }
    }

    /// The cache cell.
    pub fn cache(&self) -> (cache: &CacheCell)
        ensures
            cache@ == self@.cache,
    {
        &self.cache
    }

    /// Replaces what the cell holds by `value`, written at `now`. The
    /// descriptor stays as it is.
    pub fn store(&mut self, now: u64, value: Vec<u8>)
        ensures
            final(self)@ == (InstanceView { config: old(self)@.config, cache: Some((now, value@)) }),
    {
        proof {
            use_type_invariant(&*self);
        }
        let mut cache = CacheCell::new();
        cache.store(now, value);
        self.cache = cache;
    }

    /// Reads the cell at `now` under the instance's stale threshold.
    pub fn read(&self, now: u64) -> (found: CacheRead)
        ensures
            self@.config.stale_threshold is Some,
            found@ == read_at(self@.cache, self@.config.stale_threshold->Some_0, now),
    {
        let stale_threshold = self.stale_threshold();
        self.cache.read(stale_threshold, now)
    }

    /// The descriptor and the cell, each by itself.
    pub fn into_parts(self) -> (parts: (InstanceConfig, CacheCell))
        ensures
            parts.0@ == self@.config,
            parts.1@ == self@.cache,
            parts.0@.is_resolved(),
    {
        proof {
            use_type_invariant(&self);
        }
        (self.config, self.cache)
    }
}

/// No id occurs twice among `instances`.
pub open spec fn ids_distinct(instances: Seq<InstanceView>) -> bool {
    forall|i: int, j: int|
        0 <= i < instances.len() && 0 <= j < instances.len() && i != j ==> (
        #[trigger] instances[i]).config.id != (#[trigger] instances[j]).config.id
}

/// Whether some instance has the id `id`.
pub open spec fn has_id(instances: Seq<InstanceView>, id: Seq<char>) -> bool {
    exists|i: int| 0 <= i < instances.len() && (#[trigger] instances[i]).config.id == id
}

/// The place of an instance with the id `id`, if there is one.
pub open spec fn place_of_id(instances: Seq<InstanceView>, id: Seq<char>) -> int {
    choose|i: int| 0 <= i < instances.len() && (#[trigger] instances[i]).config.id == id
}

/// The instance that `id` names, if any.
pub open spec fn find(instances: Seq<InstanceView>, id: Seq<char>) -> Option<InstanceView> {
    if has_id(instances, id) {
        Some(instances[place_of_id(instances, id)])
    } else {
        None
    }
}

/// The instances after `instance` was put among them: in place of the one
/// that had its id, or else as a new last one.
pub open spec fn put(instances: Seq<InstanceView>, instance: InstanceView) -> Seq<InstanceView> {
    if has_id(instances, instance.config.id) {
        instances.update(place_of_id(instances, instance.config.id), instance)
    } else {
        instances.push(instance)
    }
}

/// The instances of a list of descriptors, none polled yet. Where two
/// descriptors share an id, the later takes the place of the earlier.
pub open spec fn registry_of(configs: Seq<InstanceConfigView>) -> Seq<InstanceView>
    decreases configs.len(),
{
    if configs.len() == 0 {
        Seq::empty()
    } else {
        put(registry_of(configs.drop_last()), unpolled(configs.last()))
    }
}

/// Where no id occurs twice, each instance is the one that its id names.
pub proof fn find_finds_instance(instances: Seq<InstanceView>, i: int)
    requires
        ids_distinct(instances),
        0 <= i < instances.len(),
    ensures
        find(instances, instances[i].config.id) == Some(instances[i]),
        place_of_id(instances, instances[i].config.id) == i,
{
    let id = instances[i].config.id;
    assert(has_id(instances, id));
    let place = place_of_id(instances, id);
    assert(0 <= place < instances.len() && instances[place].config.id == id);
}

/// Putting an instance among instances with distinct ids leaves the ids
/// distinct.
pub proof fn put_keeps_ids_distinct(instances: Seq<InstanceView>, instance: InstanceView)
    requires
        ids_distinct(instances),
    ensures
        ids_distinct(put(instances, instance)),
{
    let after = put(instances, instance);
    let id = instance.config.id;
    if has_id(instances, id) {
        let place = place_of_id(instances, id);
        assert forall|a: int, b: int|
            0 <= a < after.len() && 0 <= b < after.len() && a != b implies (
        #[trigger] after[a]).config.id != (#[trigger] after[b]).config.id by {
            assert(after[a].config.id == instances[a].config.id);
            assert(after[b].config.id == instances[b].config.id);
        }
    } else {
        assert forall|a: int, b: int|
            0 <= a < after.len() && 0 <= b < after.len() && a != b implies (
        #[trigger] after[a]).config.id != (#[trigger] after[b]).config.id by {
            if a < instances.len() {
                assert(after[a] == instances[a]);
            }
            if b < instances.len() {
                assert(after[b] == instances[b]);
            }
        }
    }
}

/// The place of the last descriptor with the id `id`, or -1 where there is
/// none.
pub open spec fn last_with_id(configs: Seq<InstanceConfigView>, id: Seq<char>) -> int
    decreases configs.len(),
{
    if configs.len() == 0 {
        -1
    } else if configs.last().id == id {
        configs.len() - 1
    } else {
        last_with_id(configs.drop_last(), id)
    }
}

/// `last_with_id` finds the last descriptor with the id, and tells when
/// there is none.
pub proof fn last_with_id_is_last(configs: Seq<InstanceConfigView>, id: Seq<char>)
    ensures
        -1 <= last_with_id(configs, id) < configs.len(),
        last_with_id(configs, id) >= 0 ==> configs[last_with_id(configs, id)].id == id,
        forall|j: int| last_with_id(configs, id) < j < configs.len() ==> (#[trigger] configs[j]).id != id,
    decreases configs.len(),
{
    if configs.len() > 0 && configs.last().id != id {
        last_with_id_is_last(configs.drop_last(), id);
        assert forall|j: int| last_with_id(configs, id) < j < configs.len() implies (
        #[trigger] configs[j]).id != id by {
            if j < configs.len() - 1 {
                assert(configs.drop_last()[j] == configs[j]);
            }
        }
    }
}

/// Among the instances of a list of descriptors no id occurs twice, and an
/// id names the instance of the last descriptor that has it: a later
/// descriptor takes the place of an earlier one with the same id, and an id
/// that no descriptor has names no instance.
pub proof fn later_descriptor_takes_the_place(configs: Seq<InstanceConfigView>, id: Seq<char>)
    ensures
        ids_distinct(registry_of(configs)),
        last_with_id(configs, id) < 0 ==> find(registry_of(configs), id) is None,
        last_with_id(configs, id) >= 0 ==> find(registry_of(configs), id) == Some(
            unpolled(configs[last_with_id(configs, id)]),
        ),
    decreases configs.len(),
{
    if configs.len() > 0 {
        let earlier = registry_of(configs.drop_last());
        let added = unpolled(configs.last());
        later_descriptor_takes_the_place(configs.drop_last(), id);
        last_with_id_is_last(configs.drop_last(), id);
        put_keeps_ids_distinct(earlier, added);
        let all = put(earlier, added);
        let place = if has_id(earlier, added.config.id) {
            place_of_id(earlier, added.config.id)
        } else {
            earlier.len() as int
        };
        assert(all[place] == added);
        if configs.last().id == id {
            find_finds_instance(all, place);
        } else if has_id(earlier, id) {
            let at = place_of_id(earlier, id);
            assert(all[at] == earlier[at]);
            find_finds_instance(all, at);
            assert(configs.drop_last()[last_with_id(configs.drop_last(), id)] == configs[last_with_id(
                configs,
                id,
            )]);
        } else {
            if has_id(all, id) {
                let at = place_of_id(all, id);
                if at < earlier.len() && at != place {
                    assert(all[at] == earlier[at]);
                }
            }
        }
    }
}

/// The set of instances. An id names at most one of them.
#[derive(Debug)]
pub struct Instances {
    entries: Vec<Instance>,
}

impl View for Instances {
    type V = Seq<InstanceView>;

    closed spec fn view(&self) -> Seq<InstanceView> {
        self.entries@.map_values(|instance: Instance| instance@)
    }
}

impl Instances {
    /// No id occurs twice.
    #[verifier::type_invariant]
    pub open spec fn ids_occur_once(self) -> bool {
        ids_distinct(self@)
    }

    /// No instance.
    pub fn new() -> (instances: Instances)
        ensures
            instances@ == Seq::<InstanceView>::empty(),
    {
        let instances = Instances { entries: Vec::new() };
        assert(instances@ =~= Seq::<InstanceView>::empty());
        instances
    }

    /// The number of instances.
    pub fn len(&self) -> (len: usize)
        ensures
            len == self@.len(),
    {
        self.entries.len()
    }

    /// The instance at place `i`.
    pub fn entry(&self, i: usize) -> (instance: &Instance)
        requires
            i < self@.len(),
        ensures
            instance@ == self@[i as int],
    {
        &self.entries[i]
    }

    /// The place of the instance that `id` names, if any.
    pub fn position(&self, id: &str) -> (place: Option<usize>)
        ensures
            match place {
                Some(i) => i < self@.len() && self@[i as int].config.id == id@ && place_of_id(
                    self@,
                    id@,
                ) == i,
                None => !has_id(self@, id@),
            },
    {
        let mut i: usize = 0;
        while i < self.entries.len()
            invariant
                i <= self.entries.len(),
                forall|j: int| 0 <= j < i ==> (#[trigger] self@[j]).config.id != id@,
            decreases self.entries.len() - i,
        {
            if str_eq(self.entries[i].config.id.as_str(), id) {
                proof {
                    use_type_invariant(self);
                    find_finds_instance(self@, i as int);
                }
                return Some(i);
            }
            i += 1;
        }
        None
    }

    /// The instance that `id` names, if any.
    pub fn get(&self, id: &str) -> (found: Option<&Instance>)
        ensures
            match found {
                Some(instance) => find(self@, id@) == Some(instance@),
                None => find(self@, id@) is None,
            },
    {
        match self.position(id) {
            Some(i) => Some(&self.entries[i]),
            None => None,
        }
    }

    /// Puts `instance` among the instances: in place of the one that had its
    /// id, or else as a new last one.
    pub fn insert(&mut self, instance: Instance)
        ensures
            final(self)@ == put(old(self)@, instance@),
    {
        proof {
            use_type_invariant(&*self);
            put_keeps_ids_distinct(self@, instance@);
        }
        let ghost before = self@;
        let found = self.position(instance.config.id.as_str());
        let mut entries: Vec<Instance> = Vec::new();
        std::mem::swap(&mut entries, &mut self.entries);
        match found {
            Some(i) => {
                entries.set(i, instance);
            },
            None => {
                entries.push(instance);
            },
        }
        assert(entries@.map_values(|instance: Instance| instance@) =~= put(before, instance@));
        std::mem::swap(&mut entries, &mut self.entries);
    }

    /// Replaces what the cell of the instance named `id` holds by `value`,
    /// written at `now`. Says whether there is such an instance; where there
    /// is none, nothing changes.
    pub fn store(&mut self, id: &str, now: u64, value: Vec<u8>) -> (stored: bool)
        ensures
            stored == has_id(old(self)@, id@),
            stored ==> final(self)@ == old(self)@.update(
                place_of_id(old(self)@, id@),
                InstanceView {
                    config: old(self)@[place_of_id(old(self)@, id@)].config,
                    cache: Some((now, value@)),
                },
            ),
            !stored ==> final(self)@ == old(self)@,
    {
        proof {
            use_type_invariant(&*self);
        }
        let ghost before = self@;
        match self.position(id) {
            Some(i) => {
                let mut entries: Vec<Instance> = Vec::new();
                std::mem::swap(&mut entries, &mut self.entries);
                entries[i].store(now, value);
                proof {
                    let after = entries@.map_values(|instance: Instance| instance@);
                    assert(after =~= before.update(
                        i as int,
                        InstanceView { config: before[i as int].config, cache: Some((now, value@)) },
                    ));
                    assert forall|a: int, b: int|
                        0 <= a < after.len() && 0 <= b < after.len() && a != b implies (
                    #[trigger] after[a]).config.id != (#[trigger] after[b]).config.id by {
                        assert(after[a].config.id == before[a].config.id);
                        assert(after[b].config.id == before[b].config.id);
                    }
                }
                std::mem::swap(&mut entries, &mut self.entries);
                true
            },
            None => false,
        }
    }

    /// The instances, each by itself.
    pub fn into_entries(self) -> (entries: Vec<Instance>)
        ensures
            entries@.map_values(|instance: Instance| instance@) == self@,
            ids_distinct(self@),
    {
        proof {
            use_type_invariant(&self);
        }
        self.entries
    }
}

/// The instances of a resolved configuration, none polled yet. Where two
/// descriptors share an id, the later takes the place of the earlier.
pub fn make_endpoints(config: &Config) -> (instances: Instances)
    requires
        config@.is_resolved(),
    ensures
        instances@ == registry_of(config@.instances),
{
    let mut instances = Instances::new();
    let mut i: usize = 0;
    while i < config.instances.len()
        invariant
            i <= config.instances.len(),
            config@.is_resolved(),
            instances@ == registry_of(config@.instances.take(i as int)),
        decreases config.instances.len() - i,
    {
        proof {
            assert(config@.instances.take(i + 1).drop_last() =~= config@.instances.take(i as int));
            assert(config@.instances.take(i + 1).last() == config@.instances[i as int]);
            assert(config@.instances[i as int].is_resolved());
        }
        instances.insert(Instance::new(config.instances[i].clone()));
        i += 1;
    }
    assert(config@.instances.take(config.instances.len() as int) =~= config@.instances);
    instances
}

} // verus!
