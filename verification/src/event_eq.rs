//! Content equality of collection events: two events are equal when every field holds
//! the same value (texts compared by their characters, maps by their entries).

use crate::event::{
    analysis_key, lemma_same_analysis_key, opt_view, CollectionEvent, MetaValue, ProcessEvent,
    TriggerRequest,
};
use crate::strmap::StrMap;
use crate::text::str_eq;
use crate::trigger::opt_str_eq;
use vstd::prelude::*;

verus! {

/// The texts of a sequence of strings.
pub open spec fn string_seq_view(v: Seq<String>) -> Seq<Seq<char>> {
    v.map_values(|s: String| s@)
}

/// The content of a platform metadata value.
pub open spec fn meta_view(m: MetaValue) -> (int, Seq<char>, bool) {
    match m {
        MetaValue::Str(s) => (0, s@, false),
        MetaValue::Bool(b) => (1, Seq::empty(), b),
        MetaValue::Other(s) => (2, s@, false),
    }
}

/// The content of a platform metadata object.
pub open spec fn meta_map_view(m: StrMap<MetaValue>) -> Map<Seq<char>, (int, Seq<char>, bool)> {
    m@.map_values(|v: MetaValue| meta_view(v))
}

/// The content of a map of strings.
pub open spec fn text_map_view(m: StrMap<String>) -> Map<Seq<char>, Seq<char>> {
    m@.map_values(|v: String| v@)
}

/// Whether two process events hold the same content.
pub open spec fn process_eq(a: ProcessEvent, b: ProcessEvent) -> bool {
    &&& a.pid == b.pid
    &&& a.ppid == b.ppid
    &&& a.name@ == b.name@
    &&& opt_view(a.executable_path) == opt_view(b.executable_path)
    &&& string_seq_view(a.command_line@) == string_seq_view(b.command_line@)
    &&& a.start_time == b.start_time
    &&& a.cpu_usage_bits == b.cpu_usage_bits
    &&& a.memory_usage == b.memory_usage
    &&& opt_view(a.executable_hash) == opt_view(b.executable_hash)
    &&& opt_view(a.hash_algorithm) == opt_view(b.hash_algorithm)
    &&& opt_view(a.user_id) == opt_view(b.user_id)
    &&& a.accessible == b.accessible
    &&& a.file_exists == b.file_exists
    &&& a.timestamp == b.timestamp
    &&& match (a.platform_metadata, b.platform_metadata) {
        (Some(x), Some(y)) => meta_map_view(x) == meta_map_view(y),
        (None, None) => true,
        _ => false,
    }
}

/// Whether two trigger requests hold the same content.
pub open spec fn request_eq(a: TriggerRequest, b: TriggerRequest) -> bool {
    &&& a.trigger_id@ == b.trigger_id@
    &&& a.target_collector@ == b.target_collector@
    &&& analysis_key(a.analysis_type) == analysis_key(b.analysis_type)
    &&& a.priority == b.priority
    &&& a.target_pid == b.target_pid
    &&& opt_view(a.target_path) == opt_view(b.target_path)
    &&& a.correlation_id@ == b.correlation_id@
    &&& text_map_view(a.metadata) == text_map_view(b.metadata)
    &&& a.timestamp == b.timestamp
}

/// Whether two events hold the same content.
pub open spec fn event_eq(a: CollectionEvent, b: CollectionEvent) -> bool {
    match (a, b) {
        (CollectionEvent::Process(x), CollectionEvent::Process(y)) => process_eq(x, y),
        (CollectionEvent::Network(x), CollectionEvent::Network(y)) => {
            &&& x.connection_id@ == y.connection_id@
            &&& x.source_addr@ == y.source_addr@
            &&& x.dest_addr@ == y.dest_addr@
            &&& x.protocol@ == y.protocol@
            &&& x.state@ == y.state@
            &&& x.pid == y.pid
            &&& x.bytes_sent == y.bytes_sent
            &&& x.bytes_received == y.bytes_received
            &&& x.timestamp == y.timestamp
        },
        (CollectionEvent::Filesystem(x), CollectionEvent::Filesystem(y)) => {
            &&& x.path@ == y.path@
            &&& x.operation@ == y.operation@
            &&& x.pid == y.pid
            &&& x.size == y.size
            &&& opt_view(x.permissions) == opt_view(y.permissions)
            &&& opt_view(x.file_hash) == opt_view(y.file_hash)
            &&& x.timestamp == y.timestamp
        },
        (CollectionEvent::Performance(x), CollectionEvent::Performance(y)) => {
            &&& x.metric_name@ == y.metric_name@
            &&& x.value_bits == y.value_bits
            &&& x.unit@ == y.unit@
            &&& x.pid == y.pid
            &&& x.component@ == y.component@
            &&& x.timestamp == y.timestamp
        },
        (CollectionEvent::TriggerRequest(x), CollectionEvent::TriggerRequest(y)) => request_eq(x, y),
        _ => false,
    }
}

/// Whether two sequences of events hold the same content, in order.
pub open spec fn events_eq(a: Seq<CollectionEvent>, b: Seq<CollectionEvent>) -> bool {
    a.len() == b.len() && forall|i: int| 0 <= i < a.len() ==> #[trigger] event_eq(a[i], b[i])
}

fn strings_equal(a: &Vec<String>, b: &Vec<String>) -> (r: bool)
    ensures
        r == (string_seq_view(a@) == string_seq_view(b@)),
{
    if a.len() != b.len() {
        proof {
            assert(string_seq_view(a@).len() != string_seq_view(b@).len());
        }
        return false;
    }
    let mut i: usize = 0;
    while i < a.len()
        invariant
            a@.len() == b@.len(),
            i <= a@.len(),
            forall|j: int| 0 <= j < i ==> a@[j]@ == b@[j]@,
        decreases a@.len() - i,
    {
        if !str_eq(a[i].as_str(), b[i].as_str()) {
            proof {
                assert(string_seq_view(a@)[i as int] != string_seq_view(b@)[i as int]);
            }
            return false;
        }
        i = i + 1;
    }
    assert(string_seq_view(a@) =~= string_seq_view(b@));
    true
}

fn meta_equal(a: &MetaValue, b: &MetaValue) -> (r: bool)
    ensures
        r == (meta_view(*a) == meta_view(*b)),
{
    match (a, b) {
        (MetaValue::Str(x), MetaValue::Str(y)) => str_eq(x.as_str(), y.as_str()),
        (MetaValue::Bool(x), MetaValue::Bool(y)) => *x == *y,
        (MetaValue::Other(x), MetaValue::Other(y)) => str_eq(x.as_str(), y.as_str()),
        _ => false,
    }
}

/// Whether every key of `a` is a key of `b`.
fn keys_within<V, W>(a: &StrMap<V>, b: &StrMap<W>) -> (r: bool)
    ensures
        r == (forall|k: Seq<char>| #[trigger] a@.contains_key(k) ==> b@.contains_key(k)),
{
    proof {
        use_type_invariant(a);
        a.lemma_keys();
    }
    let mut i: usize = 0;
    while i < a.len()
        invariant
            a.wf(),
            i <= a.keys().len(),
            forall|j: int| 0 <= j < i ==> #[trigger] b@.contains_key(a.keys()[j]),
        decreases a.keys().len() - i,
    {
        if !b.contains_key(a.key_at(i).as_str()) {
            proof {
                a.lemma_keys();
                assert(a@.contains_key(a.keys()[i as int]));
            }
            return false;
        }
        i = i + 1;
    }
    proof {
        a.lemma_keys();
        assert forall|k: Seq<char>| #[trigger] a@.contains_key(k) implies b@.contains_key(k) by {
            assert(a.keys().contains(k));
        }
    }
    true
}

fn meta_maps_equal(a: &StrMap<MetaValue>, b: &StrMap<MetaValue>) -> (r: bool)
    ensures
        r == (meta_map_view(*a) == meta_map_view(*b)),
{
    if !keys_within(a, b) || !keys_within(b, a) {
        proof {
            if meta_map_view(*a) == meta_map_view(*b) {
                assert(meta_map_view(*a).dom() == a@.dom());
                assert(meta_map_view(*b).dom() == b@.dom());
            }
        }
        return false;
    }
    proof {
        use_type_invariant(a);
        a.lemma_keys();
    }
    let mut i: usize = 0;
    while i < a.len()
        invariant
            a.wf(),
            i <= a.keys().len(),
            forall|k: Seq<char>| #[trigger] a@.contains_key(k) ==> b@.contains_key(k),
            forall|j: int| 0 <= j < i ==> #[trigger] meta_view(a@[a.keys()[j]]) == meta_view(b@[a.keys()[j]]),
        decreases a.keys().len() - i,
    {
        let k = a.key_at(i);
        let va = a.value_at(i);
        proof {
            a.lemma_keys();
        }
        match b.get(k.as_str()) {
            Some(vb) => {
                if !meta_equal(va, vb) {
                    proof {
                        assert(a@.contains_key(a.keys()[i as int]));
                        assert(meta_map_view(*a)[k@] != meta_map_view(*b)[k@]);
                    }
                    return false;
                }
            },
            None => {
                proof {
                    assert(a@.contains_key(a.keys()[i as int]));
                }
                return false;
            },
        }
        i = i + 1;
    }
    proof {
        a.lemma_keys();
        assert forall|k: Seq<char>| #[trigger] meta_map_view(*a).contains_key(k) implies meta_map_view(*a)[k]
            == meta_map_view(*b)[k] by {
            assert(a.keys().contains(k));
            let j = choose|j: int| 0 <= j < a.keys().len() && a.keys()[j] == k;
            assert(meta_view(a@[a.keys()[j]]) == meta_view(b@[a.keys()[j]]));
        }
        assert(meta_map_view(*a).dom() =~= meta_map_view(*b).dom());
        assert(meta_map_view(*a) =~= meta_map_view(*b));
    }
    true
}

fn text_maps_equal(a: &StrMap<String>, b: &StrMap<String>) -> (r: bool)
    ensures
        r == (text_map_view(*a) == text_map_view(*b)),
{
    if !keys_within(a, b) || !keys_within(b, a) {
        proof {
            if text_map_view(*a) == text_map_view(*b) {
                assert(text_map_view(*a).dom() == a@.dom());
                assert(text_map_view(*b).dom() == b@.dom());
            }
        }
        return false;
    }
    proof {
        use_type_invariant(a);
        a.lemma_keys();
    }
    let mut i: usize = 0;
    while i < a.len()
        invariant
            a.wf(),
            i <= a.keys().len(),
            forall|k: Seq<char>| #[trigger] a@.contains_key(k) ==> b@.contains_key(k),
            forall|j: int| 0 <= j < i ==> #[trigger] a@[a.keys()[j]]@ == b@[a.keys()[j]]@,
        decreases a.keys().len() - i,
    {
        let k = a.key_at(i);
        let va = a.value_at(i);
        proof {
            a.lemma_keys();
        }
        match b.get(k.as_str()) {
            Some(vb) => {
                if !str_eq(va.as_str(), vb.as_str()) {
                    proof {
                        assert(a@.contains_key(a.keys()[i as int]));
                        assert(text_map_view(*a)[k@] != text_map_view(*b)[k@]);
                    }
                    return false;
                }
            },
            None => {
                proof {
                    assert(a@.contains_key(a.keys()[i as int]));
                }
                return false;
            },
        }
        i = i + 1;
    }
    proof {
        a.lemma_keys();
        assert forall|k: Seq<char>| #[trigger] text_map_view(*a).contains_key(k) implies text_map_view(*a)[k]
            == text_map_view(*b)[k] by {
            assert(a.keys().contains(k));
            let j = choose|j: int| 0 <= j < a.keys().len() && a.keys()[j] == k;
            assert(a@[a.keys()[j]]@ == b@[a.keys()[j]]@);
        }
        assert(text_map_view(*a).dom() =~= text_map_view(*b).dom());
        assert(text_map_view(*a) =~= text_map_view(*b));
    }
    true
}

fn process_equal(a: &ProcessEvent, b: &ProcessEvent) -> (r: bool)
    ensures
        r == process_eq(*a, *b),
{
    let meta = match (&a.platform_metadata, &b.platform_metadata) {
        (Some(x), Some(y)) => meta_maps_equal(x, y),
        (None, None) => true,
        _ => false,
    };
    a.pid == b.pid && a.ppid == b.ppid && str_eq(a.name.as_str(), b.name.as_str()) && opt_str_eq(
        &a.executable_path,
        &b.executable_path,
    ) && strings_equal(&a.command_line, &b.command_line) && a.start_time == b.start_time
        && a.cpu_usage_bits == b.cpu_usage_bits && a.memory_usage == b.memory_usage && opt_str_eq(
        &a.executable_hash,
        &b.executable_hash,
    ) && opt_str_eq(&a.hash_algorithm, &b.hash_algorithm) && opt_str_eq(&a.user_id, &b.user_id)
        && a.accessible == b.accessible && a.file_exists == b.file_exists && a.timestamp
        == b.timestamp && meta
}

fn request_equal(a: &TriggerRequest, b: &TriggerRequest) -> (r: bool)
    ensures
        r == request_eq(*a, *b),
{
    proof {
        lemma_same_analysis_key(a.analysis_type, b.analysis_type);
    }
    str_eq(a.trigger_id.as_str(), b.trigger_id.as_str()) && str_eq(
        a.target_collector.as_str(),
        b.target_collector.as_str(),
    ) && a.analysis_type.same_as(&b.analysis_type) && a.priority == b.priority && a.target_pid
        == b.target_pid && opt_str_eq(&a.target_path, &b.target_path) && str_eq(
        a.correlation_id.as_str(),
        b.correlation_id.as_str(),
    ) && text_maps_equal(&a.metadata, &b.metadata) && a.timestamp == b.timestamp
}

/// Whether two events hold the same content.
pub fn events_equal(a: &CollectionEvent, b: &CollectionEvent) -> (r: bool)
    ensures
        r == event_eq(*a, *b),
{
    match (a, b) {
        (CollectionEvent::Process(x), CollectionEvent::Process(y)) => process_equal(x, y),
        (CollectionEvent::Network(x), CollectionEvent::Network(y)) => str_eq(
            x.connection_id.as_str(),
            y.connection_id.as_str(),
        ) && str_eq(x.source_addr.as_str(), y.source_addr.as_str()) && str_eq(
            x.dest_addr.as_str(),
            y.dest_addr.as_str(),
        ) && str_eq(x.protocol.as_str(), y.protocol.as_str()) && str_eq(
            x.state.as_str(),
            y.state.as_str(),
        ) && x.pid == y.pid && x.bytes_sent == y.bytes_sent && x.bytes_received
            == y.bytes_received && x.timestamp == y.timestamp,
        (CollectionEvent::Filesystem(x), CollectionEvent::Filesystem(y)) => str_eq(
            x.path.as_str(),
            y.path.as_str(),
        ) && str_eq(x.operation.as_str(), y.operation.as_str()) && x.pid == y.pid && x.size
            == y.size && opt_str_eq(&x.permissions, &y.permissions) && opt_str_eq(
            &x.file_hash,
            &y.file_hash,
        ) && x.timestamp == y.timestamp,
        (CollectionEvent::Performance(x), CollectionEvent::Performance(y)) => str_eq(
            x.metric_name.as_str(),
            y.metric_name.as_str(),
        ) && x.value_bits == y.value_bits && str_eq(x.unit.as_str(), y.unit.as_str()) && x.pid
            == y.pid && str_eq(x.component.as_str(), y.component.as_str()) && x.timestamp
            == y.timestamp,
        (CollectionEvent::TriggerRequest(x), CollectionEvent::TriggerRequest(y)) => request_equal(
            x,
            y,
        ),
        _ => false,
    }
}

/// Whether two sequences of events hold the same content, in order.
pub fn event_lists_equal(a: &Vec<CollectionEvent>, b: &Vec<CollectionEvent>) -> (r: bool)
    ensures
        r == events_eq(a@, b@),
{
    if a.len() != b.len() {
        return false;
    }
    let mut i: usize = 0;
    while i < a.len()
        invariant
            a@.len() == b@.len(),
            i <= a@.len(),
            forall|j: int| 0 <= j < i ==> #[trigger] event_eq(a@[j], b@[j]),
        decreases a@.len() - i,
    {
        if !events_equal(&a[i], &b[i]) {
            return false;
        }
        i = i + 1;
    }
    true
}

} // verus!
