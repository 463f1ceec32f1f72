//! Publishing of events: the checks on the publisher's configuration, the
//! rewriting of an event's JSON by the configured rules, and the key its
//! message is partitioned by.

use vstd::prelude::*;

use crate::entries::Entries;
use crate::events::EventConfig;
use crate::json::{lookup_path, object_fields, set_parts, set_path, JsonModel, JsonValue};
use crate::text::{pair_views, split_all, split_all_char, str_eq, string_views};

verus! {

/// Errors of publishing events.
#[derive(Clone, Debug)]
pub enum EventPublisherError {
    InvalidConfiguration { message: String },
    KafkaWriterInitializationFailed,
    EventSerializationFailed,
    EventPublishFailed,
    InvalidPath { path: String },
    AlreadyInitialized,
}

/// A publisher can be made from a configuration with a broker and a topic;
/// an empty broker list is reported first.
pub fn check_publisher_config(config: &EventConfig) -> (r: Result<(), EventPublisherError>)
    ensures
        config.brokers@.len() == 0 ==> (r matches Err(EventPublisherError::InvalidConfiguration { message })
            && message@ == "brokers list cannot be empty"@),
        config.brokers@.len() > 0 && config.topic@.len() == 0 ==> (r matches Err(
            EventPublisherError::InvalidConfiguration { message },
        ) && message@ == "topic cannot be empty"@),
        config.brokers@.len() > 0 && config.topic@.len() > 0 ==> r is Ok,
{
    if config.brokers.len() == 0 {
        return Err(EventPublisherError::InvalidConfiguration {
            message: String::from_str("brokers list cannot be empty"),
        });
    }
    if config.topic.as_str().unicode_len() == 0 {
        return Err(EventPublisherError::InvalidConfiguration { message: String::from_str("topic cannot be empty") });
    }
    Ok(())
}

/// The parts of a list that are not empty, in order.
pub open spec fn non_empty_parts(parts: Seq<Seq<char>>) -> Seq<Seq<char>>
    decreases parts.len(),
{
    if parts.len() == 0 {
        parts
    } else if parts.last().len() == 0 {
        non_empty_parts(parts.drop_last())
    } else {
        non_empty_parts(parts.drop_last()).push(parts.last())
    }
}

/// The keys of a dotted target path: its dot-separated parts that are not empty.
pub open spec fn path_segments(path: Seq<char>) -> Seq<Seq<char>> {
    non_empty_parts(split_all(path, '.'))
}

fn segments_of(path: &str) -> (r: Vec<String>)
    ensures
        string_views(r@) == path_segments(path@),
{
    let parts = split_all_char(path, '.');
    let ghost views = string_views(parts@);
    let mut out: Vec<String> = Vec::new();
    let n = parts.len();
    let mut i: usize = 0;
    assert(views.subrange(0, 0) =~= Seq::<Seq<char>>::empty());
    assert(string_views(out@) =~= Seq::<Seq<char>>::empty());
    while i < n
        invariant
            n == parts@.len(),
            views == string_views(parts@),
            i <= n,
            string_views(out@) == non_empty_parts(views.subrange(0, i as int)),
        decreases n - i,
    {
        proof {
            assert(views.subrange(0, i + 1).drop_last() =~= views.subrange(0, i as int));
            assert(views.subrange(0, i + 1).last() == parts@[i as int]@);
        }
        if parts[i].as_str().unicode_len() > 0 {
            let ghost before = out@;
            out.push(parts[i].clone());
            assert(string_views(out@) =~= string_views(before).push(parts@[i as int]@));
        }
        i = i + 1;
    }
    assert(views.subrange(0, n as int) =~= views);
    out
}

/// A value written at a dotted path; a path with no keys writes nothing.
pub open spec fn set_at(t: JsonModel, path: Seq<char>, v: JsonModel) -> JsonModel {
    if path_segments(path).len() == 0 {
        t
    } else {
        set_path(t, path_segments(path), v)
    }
}

/// Writes a value at a dotted path of an object (or of null, which becomes an
/// object). A path with no keys is refused and the target left as it was.
pub fn set_nested_value(target: &mut JsonValue, path: &str, value: JsonValue) -> (r: Result<(), EventPublisherError>)
    requires
        *old(target) is Object || *old(target) is Null,
    ensures
        path_segments(path@).len() == 0 ==> (r matches Err(EventPublisherError::InvalidPath { path: p }) && p@ == path@
            && final(target).model() == old(target).model()),
        path_segments(path@).len() > 0 ==> r is Ok && final(target).model() == set_path(
            old(target).model(),
            path_segments(path@),
            value.model(),
        ),
        *final(target) is Object || *final(target) is Null,
{
    let parts = segments_of(path);
    if parts.len() == 0 {
        return Err(EventPublisherError::InvalidPath { path: String::from_str(path) });
    }
    let mut taken = JsonValue::Null;
    std::mem::swap(&mut taken, target);
    let updated = set_parts(taken, &parts, 0, value);
    assert(string_views(parts@).skip(0) =~= string_views(parts@));
    *target = updated;
    Ok(())
}

/// The value an extraction path picks: a path `req.a.b` reads `a.b` in the
/// event's request data; a path that does not start at `req` picks nothing.
pub open spec fn extracted(event: JsonModel, path: Seq<char>) -> Option<JsonModel> {
    let parts = split_all(path, '.');
    if parts[0] == "req"@ {
        lookup_path(event, seq!["request_data"@] + parts.drop_first())
    } else {
        None
    }
}

proof fn lemma_split_all_nonempty(s: Seq<char>, c: char)
    ensures
        split_all(s, c).len() >= 1,
{
    crate::text::lemma_first_index_of(s, c);
}

/// Reads the value at an extraction path of an event.
pub fn extract_from_request(event_value: &JsonValue, extraction_path: &str) -> (r: Option<JsonValue>)
    ensures
        match extracted(event_value.model(), extraction_path@) {
            Some(v) => r matches Some(x) && x.model() == v,
            None => r is None,
        },
{
    let parts = split_all_char(extraction_path, '.');
    let ghost views = string_views(parts@);
    proof {
        lemma_split_all_nonempty(extraction_path@, '.');
        reveal_strlit("req");
        reveal_strlit("request_data");
    }
    assert(views[0] == parts@[0]@);
    if !str_eq(parts[0].as_str(), "req") {
        return None;
    }
    let ghost full = seq!["request_data"@] + views.drop_first();
    let source = match event_value.get("request_data") {
        Some(v) => v,
        None => {
            assert(full[0] == "request_data"@);
            return None;
        },
    };
    assert(full.drop_first() =~= views.drop_first());
    let mut current: &JsonValue = source;
    let n = parts.len();
    let mut i: usize = 1;
    assert(views.drop_first() =~= views.skip(1));
    while i < n
        invariant
            n == parts@.len(),
            views == string_views(parts@),
            1 <= i <= n,
            views == split_all(extraction_path@, '.'),
            views[0] == "req"@,
            full == seq!["request_data"@] + views.drop_first(),
            lookup_path(event_value.model(), full) == lookup_path(current.model(), views.skip(i as int)),
        decreases n - i,
    {
        assert(views.skip(i as int)[0] == parts@[i as int]@);
        assert(views.skip(i as int).drop_first() =~= views.skip(i + 1));
        match current.get(parts[i].as_str()) {
            Some(next) => {
                current = next;
            },
            None => {
                assert(views.skip(i as int).len() > 0);
                assert(lookup_path(current.model(), views.skip(i as int)) is None);
                return None;
            },
        }
        i = i + 1;
    }
    assert(views.skip(n as int).len() == 0);
    Some(current.copy())
}

/// The event after the transformation rules: each rule, in turn, copies the
/// value of a top-level field, where there is one, to its target path.
pub open spec fn apply_transformations(t: JsonModel, rules: Entries) -> JsonModel
    decreases rules.len(),
{
    if rules.len() == 0 {
        t
    } else {
        let before = apply_transformations(t, rules.drop_last());
        let (target, source) = rules.last();
        if object_fields(before).contains_key(source) {
            set_at(before, target, object_fields(before)[source])
        } else {
            before
        }
    }
}

/// The event after the static rules: each rule writes its text at its target path.
pub open spec fn apply_static_values(t: JsonModel, rules: Entries) -> JsonModel
    decreases rules.len(),
{
    if rules.len() == 0 {
        t
    } else {
        let before = apply_static_values(t, rules.drop_last());
        set_at(before, rules.last().0, JsonModel::Text(rules.last().1))
    }
}

/// The event after the extraction rules: each rule copies the value at its
/// extraction path, where there is one, to its target path.
pub open spec fn apply_extractions(t: JsonModel, rules: Entries) -> JsonModel
    decreases rules.len(),
{
    if rules.len() == 0 {
        t
    } else {
        let before = apply_extractions(t, rules.drop_last());
        match extracted(before, rules.last().1) {
            Some(v) => set_at(before, rules.last().0, v),
            None => before,
        }
    }
}

/// The event as published: transformations, then static values, then extractions.
pub open spec fn processed_event(t: JsonModel, config: EventConfig) -> JsonModel {
    apply_extractions(
        apply_static_values(apply_transformations(t, pair_views(config.transformations@)), pair_views(config.static_values@)),
        pair_views(config.extractions@),
    )
}

/// An event is published as it is when the configuration has no rules.
pub proof fn lemma_no_rules_no_change(t: JsonModel, config: EventConfig)
    requires
        config.transformations@.len() == 0,
        config.static_values@.len() == 0,
        config.extractions@.len() == 0,
    ensures
        processed_event(t, config) == t,
{
    assert(pair_views(config.transformations@).len() == 0);
    assert(pair_views(config.static_values@).len() == 0);
    assert(pair_views(config.extractions@).len() == 0);
}

/// A static rule with a target path that has keys writes its text there: a
/// read at that path of the rewritten event gives the text.
pub proof fn lemma_static_value_written(t: JsonModel, target: Seq<char>, text: Seq<char>)
    requires
        path_segments(target).len() > 0,
    ensures
        lookup_path(apply_static_values(t, seq![(target, text)]), path_segments(target)) == Some(JsonModel::Text(text)),
{
    let rules = seq![(target, text)];
    assert(rules.drop_last() =~= Seq::<(Seq<char>, Seq<char>)>::empty());
    assert(apply_static_values(t, rules.drop_last()) == t);
    assert(rules.last() == (target, text));
    assert(apply_static_values(t, rules) == set_path(t, path_segments(target), JsonModel::Text(text)));
    crate::json::lemma_read_after_write(t, path_segments(target), JsonModel::Text(text));
}

proof fn lemma_set_at_object(t: JsonModel, path: Seq<char>, v: JsonModel)
    requires
        t is Object,
    ensures
        set_at(t, path, v) is Object,
{
}

/// Rewrites an event, an object, by the rules of a configuration. A rule whose
/// target path has no keys writes nothing.
pub fn process_event(event: JsonValue, config: &EventConfig) -> (r: JsonValue)
    requires
        event is Object,
    ensures
        r.model() == processed_event(event.model(), *config),
{
    let mut result = event;
    let ghost start = result.model();
    let ghost tr = pair_views(config.transformations@);
    let n = config.transformations.len();
    let mut i: usize = 0;
    assert(tr.subrange(0, 0) =~= Seq::<(Seq<char>, Seq<char>)>::empty());
    while i < n
        invariant
            n == config.transformations@.len(),
            tr == pair_views(config.transformations@),
            i <= n,
            result is Object,
            result.model() == apply_transformations(start, tr.subrange(0, i as int)),
        decreases n - i,
    {
        let ghost before = result.model();
        proof {
            assert(tr.subrange(0, i + 1).drop_last() =~= tr.subrange(0, i as int));
            assert(tr.subrange(0, i + 1).last() == (config.transformations@[i as int].0@, config.transformations@[i as int].1@));
        }
        let found = match result.get(config.transformations[i].1.as_str()) {
            Some(v) => Some(v.copy()),
            None => None,
        };
        match found {
            Some(v) => {
                let _ = set_nested_value(&mut result, config.transformations[i].0.as_str(), v);
            },
            None => {},
        }
        proof {
            lemma_set_at_object(before, config.transformations@[i as int].0@, JsonModel::Null);
        }
        i = i + 1;
    }
    assert(tr.subrange(0, n as int) =~= tr);
    let ghost after_tr = result.model();
    let ghost st = pair_views(config.static_values@);
    let n = config.static_values.len();
    let mut i: usize = 0;
    assert(st.subrange(0, 0) =~= Seq::<(Seq<char>, Seq<char>)>::empty());
    while i < n
        invariant
            n == config.static_values@.len(),
            st == pair_views(config.static_values@),
            i <= n,
            result is Object,
            result.model() == apply_static_values(after_tr, st.subrange(0, i as int)),
        decreases n - i,
    {
        proof {
            assert(st.subrange(0, i + 1).drop_last() =~= st.subrange(0, i as int));
            assert(st.subrange(0, i + 1).last() == (config.static_values@[i as int].0@, config.static_values@[i as int].1@));
        }
        let text = JsonValue::Text(config.static_values[i].1.clone());
        let _ = set_nested_value(&mut result, config.static_values[i].0.as_str(), text);
        i = i + 1;
    }
    assert(st.subrange(0, n as int) =~= st);
    let ghost after_st = result.model();
    let ghost ex = pair_views(config.extractions@);
    let n = config.extractions.len();
    let mut i: usize = 0;
    assert(ex.subrange(0, 0) =~= Seq::<(Seq<char>, Seq<char>)>::empty());
    while i < n
        invariant
            n == config.extractions@.len(),
            ex == pair_views(config.extractions@),
            i <= n,
            result is Object,
            result.model() == apply_extractions(after_st, ex.subrange(0, i as int)),
        decreases n - i,
    {
        proof {
            assert(ex.subrange(0, i + 1).drop_last() =~= ex.subrange(0, i as int));
            assert(ex.subrange(0, i + 1).last() == (config.extractions@[i as int].0@, config.extractions@[i as int].1@));
        }
        match extract_from_request(&result, config.extractions[i].1.as_str()) {
            Some(v) => {
                let _ = set_nested_value(&mut result, config.extractions[i].0.as_str(), v);
            },
            None => {},
        }
        i = i + 1;
    }
    assert(ex.subrange(0, n as int) =~= ex);
    result
}

/// The partition key of an event: the text of its top-level field with the
/// configured name, where that field holds a text.
pub open spec fn partition_key_of(event: JsonModel, field: Seq<char>) -> Option<Seq<char>> {
    let m = object_fields(event);
    if event is Object && m.contains_key(field) && m[field] is Text {
        Some(m[field]->Text_0)
    } else {
        None
    }
}

/// The key an event's message is published under.
pub fn partition_key(event: &JsonValue, partition_key_field: &str) -> (r: Option<String>)
    ensures
        match partition_key_of(event.model(), partition_key_field@) {
            Some(k) => r matches Some(s) && s@ == k,
            None => r is None,
        },
{
    match event.get(partition_key_field) {
        Some(JsonValue::Text(s)) => Some(s.clone()),
        _ => None,
    }
}

} // verus!
