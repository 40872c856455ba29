//! The renderer: from the statistics of one poll and an instance's
//! descriptor to the bytes of the exposition.

use vstd::prelude::*;
use crate::config::{metrics_view, ConfigView, InstanceConfig, InstanceConfigView};
use crate::stats::{has_name, lookup, StatValue, StatView, Stats, StatsView};
use crate::text::{append_bytes, append_decimal, append_str, decimal, str_eq, text_bytes};

verus! {

/// One gauge: a type line, a value line, and an empty line.
pub open spec fn gauge_block(prefix: Seq<char>, metric: Seq<char>, value: Seq<u8>) -> Seq<u8> {
    text_bytes("# TYPE "@) + text_bytes(prefix) + text_bytes(metric) + text_bytes(" gauge\n"@)
        + text_bytes(prefix) + text_bytes(metric) + text_bytes(" "@) + value + text_bytes("\n\n"@)
}

/// Whether the allow-list lets `name` through: every name passes where there
/// is no list.
pub open spec fn allowed(metrics: Option<Seq<Seq<char>>>, name: Seq<char>) -> bool {
    match metrics {
        Some(names) => names.contains(name),
        None => true,
    }
}

/// Whether an entry is rendered: its name passes the allow-list and its value
/// is a number.
pub open spec fn is_rendered(metrics: Option<Seq<Seq<char>>>, entry: (Seq<char>, StatView)) -> bool {
    allowed(metrics, entry.0) && entry.1 is Number
}

/// What one entry contributes: its gauge, or nothing.
pub open spec fn entry_block(
    prefix: Seq<char>,
    metrics: Option<Seq<Seq<char>>>,
    entry: (Seq<char>, StatView),
) -> Seq<u8> {
    match entry.1 {
        StatView::Number(text) => if allowed(metrics, entry.0) {
            gauge_block(prefix, entry.0, text_bytes(text))
        } else {
            Seq::empty()
        },
        _ => Seq::empty(),
    }
}

/// What the entries contribute, in their order.
pub open spec fn gauge_blocks(
    prefix: Seq<char>,
    metrics: Option<Seq<Seq<char>>>,
    entries: StatsView,
) -> Seq<u8>
    decreases entries.len(),
{
    if entries.len() == 0 {
        Seq::empty()
    } else {
        gauge_blocks(prefix, metrics, entries.drop_last()) + entry_block(
            prefix,
            metrics,
            entries.last(),
        )
    }
}

/// The gauge derived from `ring_members`: how many members the ring has,
/// where an array is reported under that name.
pub open spec fn ring_members_block(prefix: Seq<char>, entries: StatsView) -> Seq<u8> {
    match lookup(entries, "ring_members"@) {
        Some(StatView::Array(len)) => gauge_block(prefix, "ring_members_count"@, decimal(len)),
        _ => Seq::empty(),
    }
}

/// The gauges derived from `connected_nodes`, where an array is reported
/// under that name: how many nodes are connected, and how many are available,
/// which counts the reporting node too.
pub open spec fn connected_nodes_blocks(
    prefix: Seq<char>,
    entries: StatsView,
) -> Seq<u8> {
    match lookup(entries, "connected_nodes"@) {
        Some(StatView::Array(len)) => gauge_block(prefix, "connected_nodes_count"@, decimal(len))
            + gauge_block(prefix, "available_nodes_count"@, decimal(len + 1)),
        _ => Seq::empty(),
    }
}

/// The derived gauges.
pub open spec fn special_blocks(prefix: Seq<char>, entries: StatsView) -> Seq<u8> {
    ring_members_block(prefix, entries) + connected_nodes_blocks(prefix, entries)
}

/// The exposition of `entries` for a resolved descriptor: the gauges of the
/// entries, then the derived ones where they are enabled.
pub open spec fn rendered(entries: StatsView, config: InstanceConfigView) -> Seq<u8> {
    let prefix = config.prefix->Some_0;
    gauge_blocks(prefix, config.metrics, entries) + if config.special_metrics == Some(true) {
        special_blocks(prefix, entries)
    } else {
        Seq::empty()
    }
}

/// Appends one gauge to `buf`.
pub fn render_metric(buf: &mut Vec<u8>, metric: &str, value: &[u8], prefix: &str)
    ensures
        final(buf)@ == old(buf)@ + gauge_block(prefix@, metric@, value@),
{
    append_str(buf, "# TYPE ");
    append_str(buf, prefix);
    append_str(buf, metric);
    append_str(buf, " gauge\n");
    append_str(buf, prefix);
    append_str(buf, metric);
    append_str(buf, " ");
    append_bytes(buf, value);
    append_str(buf, "\n\n");
    assert(buf@ =~= old(buf)@ + gauge_block(prefix@, metric@, value@));
}

/// Appends the gauge of a count to `buf`.
pub fn render_count(buf: &mut Vec<u8>, metric: &str, count: u128, prefix: &str)
    ensures
        final(buf)@ == old(buf)@ + gauge_block(prefix@, metric@, decimal(count as nat)),
{
    let mut digits: Vec<u8> = Vec::new();
    append_decimal(&mut digits, count);
    assert(digits@ =~= decimal(count as nat));
    render_metric(buf, metric, digits.as_slice(), prefix);
}

/// Whether the allow-list lets `name` through.
pub fn allows(metrics: &Option<Vec<String>>, name: &str) -> (passes: bool)
    ensures
        passes == allowed(metrics_view(*metrics), name@),
{
    match metrics {
        None => true,
        Some(names) => {
            let ghost texts = metrics_view(*metrics)->Some_0;
            let mut i: usize = 0;
            while i < names.len()
                invariant
                    i <= names.len(),
                    texts == metrics_view(*metrics)->Some_0,
                    texts.len() == names@.len(),
                    forall|j: int| 0 <= j < names@.len() ==> texts[j] == (#[trigger] names@[j])@,
                    forall|j: int| 0 <= j < i ==> texts[j] != name@,
                decreases names.len() - i,
            {
                if str_eq(names[i].as_str(), name) {
                    assert(texts[i as int] == name@);
                    return true;
                }
                i += 1;
            }
            false
        },
    }
}

/// Appends the derived gauges to `buf`.
pub fn render_special_metrics(buf: &mut Vec<u8>, stats: &Stats, prefix: &str)
    ensures
        final(buf)@ == old(buf)@ + special_blocks(prefix@, stats@),
{
    if let Some(StatValue::Array(len)) = stats.get("ring_members") {
        render_count(buf, "ring_members_count", *len as u128, prefix);
    }
    let ghost ring = buf@;
    assert(ring =~= old(buf)@ + ring_members_block(prefix@, stats@));
    if let Some(StatValue::Array(len)) = stats.get("connected_nodes") {
        render_count(buf, "connected_nodes_count", *len as u128, prefix);
        render_count(buf, "available_nodes_count", *len as u128 + 1, prefix);
    }
    assert(buf@ =~= ring + connected_nodes_blocks(prefix@, stats@));
    assert(buf@ =~= old(buf)@ + special_blocks(prefix@, stats@));
}

/// Renders the statistics of one poll for an instance.
pub fn render_stats(stats: &Stats, config: &InstanceConfig) -> (bytes: Vec<u8>)
    requires
        config@.is_resolved(),
    ensures
        bytes@ == rendered(stats@, config@),
{
    let prefix: &str = match &config.prefix {
        Some(prefix) => prefix.as_str(),
        None => "",
    };
    let mut buf: Vec<u8> = Vec::new();
    let mut i: usize = 0;
    while i < stats.len()
        invariant
            i <= stats@.len(),
            prefix@ == config@.prefix->Some_0,
            buf@ == gauge_blocks(prefix@, config@.metrics, stats@.take(i as int)),
        decreases stats@.len() - i,
    {
        let entry = stats.entry(i);
        proof {
            assert(stats@.take(i + 1).drop_last() =~= stats@.take(i as int));
            assert(stats@.take(i + 1).last() == stats@[i as int]);
        }
        if allows(&config.metrics, entry.name.as_str()) {
            if let StatValue::Number(text) = &entry.value {
                render_metric(&mut buf, entry.name.as_str(), text.as_str().as_bytes(), prefix);
            }
        }
        i += 1;
    }
    assert(stats@.take(stats@.len() as int) =~= stats@);
    if let Some(true) = config.special_metrics {
        render_special_metrics(&mut buf, stats, prefix);
    }
    buf
}

/// The same statistics and the same descriptor always render as the same
/// bytes.
pub proof fn rendering_depends_on_its_inputs_alone(
    first: Stats,
    second: Stats,
    first_config: InstanceConfig,
    second_config: InstanceConfig,
)
    requires
        first@ == second@,
        first_config@ == second_config@,
    ensures
        rendered(first@, first_config@) == rendered(second@, second_config@),
{
}

/// An entry whose name the allow-list does not hold is not rendered.
pub proof fn unlisted_name_renders_nothing(
    prefix: Seq<char>,
    metrics: Option<Seq<Seq<char>>>,
    entry: (Seq<char>, StatView),
)
    requires
        !allowed(metrics, entry.0),
    ensures
        entry_block(prefix, metrics, entry) == Seq::<u8>::empty(),
{
}

/// An entry whose value is no number is not rendered.
pub proof fn non_number_renders_nothing(
    prefix: Seq<char>,
    metrics: Option<Seq<Seq<char>>>,
    entry: (Seq<char>, StatView),
)
    requires
        !(entry.1 is Number),
    ensures
        entry_block(prefix, metrics, entry) == Seq::<u8>::empty(),
{
}

/// The gauges of the entries are those of the entries that pass the
/// allow-list and hold a number, rendered without an allow-list: the other
/// entries leave no trace.
pub proof fn only_listed_numbers_are_rendered(
    prefix: Seq<char>,
    metrics: Option<Seq<Seq<char>>>,
    entries: StatsView,
)
    ensures
        gauge_blocks(prefix, metrics, entries) == gauge_blocks(
            prefix,
            None,
            entries.filter(|entry: (Seq<char>, StatView)| is_rendered(metrics, entry)),
        ),
    decreases entries.len(),
{
    let kept = |entry: (Seq<char>, StatView)| is_rendered(metrics, entry);
    reveal(Seq::filter);
    if entries.len() > 0 {
        only_listed_numbers_are_rendered(prefix, metrics, entries.drop_last());
        let rest = entries.drop_last().filter(kept);
        if kept(entries.last()) {
            assert(entries.filter(kept) == rest.push(entries.last()));
            assert(rest.push(entries.last()).drop_last() =~= rest);
            assert(entry_block(prefix, None, entries.last()) == entry_block(
                prefix,
                metrics,
                entries.last(),
            ));
        } else {
            assert(entries.filter(kept) == rest);
            assert(gauge_blocks(prefix, metrics, entries) =~= gauge_blocks(
                prefix,
                metrics,
                entries.drop_last(),
            ));
        }
    }
}

/// The gauges of entries that follow one another are the gauges of the
/// first, followed by the gauges of the second.
pub proof fn blocks_follow_the_entries(
    prefix: Seq<char>,
    metrics: Option<Seq<Seq<char>>>,
    first: StatsView,
    second: StatsView,
)
    ensures
        gauge_blocks(prefix, metrics, first + second) == gauge_blocks(prefix, metrics, first)
            + gauge_blocks(prefix, metrics, second),
    decreases second.len(),
{
    if second.len() == 0 {
        assert(first + second =~= first);
    } else {
        blocks_follow_the_entries(prefix, metrics, first, second.drop_last());
        assert((first + second).drop_last() =~= first + second.drop_last());
        assert((first + second).last() == second.last());
    }
}

/// Each entry has its place in the rendering: what it contributes stands
/// between the gauges of the entries before it and those of the entries
/// after it.
pub proof fn each_entry_has_its_place(
    prefix: Seq<char>,
    metrics: Option<Seq<Seq<char>>>,
    entries: StatsView,
    i: int,
)
    requires
        0 <= i < entries.len(),
    ensures
        gauge_blocks(prefix, metrics, entries) == gauge_blocks(prefix, metrics, entries.take(i))
            + entry_block(prefix, metrics, entries[i]) + gauge_blocks(
            prefix,
            metrics,
            entries.skip(i + 1),
        ),
{
    let upto = entries.take(i + 1);
    assert(upto.drop_last() =~= entries.take(i));
    assert(upto.last() == entries[i]);
    assert(entries =~= upto + entries.skip(i + 1));
    blocks_follow_the_entries(prefix, metrics, upto, entries.skip(i + 1));
}

/// Of the descriptor the rendering reads the prefix, the names that the
/// allow-list holds, whatever their order, and whether derived gauges are
/// enabled, and nothing else.
pub proof fn rendering_reads_prefix_names_and_flag(
    entries: StatsView,
    first: InstanceConfigView,
    second: InstanceConfigView,
)
    requires
        first.prefix == second.prefix,
        first.special_metrics == second.special_metrics,
        first.metrics is Some <==> second.metrics is Some,
        first.metrics is Some ==> first.metrics->Some_0.to_set() == second.metrics->Some_0.to_set(),
    ensures
        rendered(entries, first) == rendered(entries, second),
{
    same_names_render_the_same(first.prefix->Some_0, first.metrics, second.metrics, entries);
}

/// Two allow-lists that hold the same names let the same gauges through.
proof fn same_names_render_the_same(
    prefix: Seq<char>,
    first: Option<Seq<Seq<char>>>,
    second: Option<Seq<Seq<char>>>,
    entries: StatsView,
)
    requires
        first is Some <==> second is Some,
        first is Some ==> first->Some_0.to_set() == second->Some_0.to_set(),
    ensures
        gauge_blocks(prefix, first, entries) == gauge_blocks(prefix, second, entries),
    decreases entries.len(),
{
    if entries.len() > 0 {
        same_names_render_the_same(prefix, first, second, entries.drop_last());
        let name = entries.last().0;
        if first is Some {
            assert(first->Some_0.to_set().contains(name) == first->Some_0.contains(name));
            assert(second->Some_0.to_set().contains(name) == second->Some_0.contains(name));
        }
    }
}

/// Where neither `ring_members` nor `connected_nodes` is reported, there is
/// no derived gauge.
pub proof fn no_source_no_derived_gauge(prefix: Seq<char>, entries: StatsView)
    requires
        !has_name(entries, "ring_members"@),
        !has_name(entries, "connected_nodes"@),
    ensures
        special_blocks(prefix, entries) == Seq::<u8>::empty(),
{
}

/// An instance that names no prefix of its own is rendered, once resolved,
/// with the global prefix.
pub proof fn unset_prefix_renders_with_the_global_prefix(
    entries: StatsView,
    instance: InstanceConfigView,
    global: ConfigView,
)
    requires
        instance.prefix is None,
    ensures
        rendered(entries, instance.resolve(global)) == gauge_blocks(
            global.prefix,
            instance.resolve(global).metrics,
            entries,
        ) + if instance.resolve(global).special_metrics == Some(true) {
            special_blocks(global.prefix, entries)
        } else {
            Seq::empty()
        },
{
}

} // verus!
