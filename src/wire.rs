use vstd::prelude::*;
use vstd::string::StringExecFns;
use serde_json::Value;
use crate::json::{
    array_value, json_array, json_object, json_object_from, json_string, json_u64, map_value,
    new_object, object_entries, object_keys, object_value, put, string_value, u64_value,
};
use crate::record::{OutboundRecord, opt_view};
use crate::types::{IngestRawOptions, environment_name, level_name, raw_format_name, RawFormat};

verus! {

/// `s` with `k` added when `present`.
pub open spec fn with_key(s: Set<Seq<char>>, present: bool, k: Seq<char>) -> Set<Seq<char>> {
    Set::new(|x: Seq<char>| s.contains(x) || (present && x == k))
}

/// The keys a record is encoded with: the four required ones, and one per
/// optional field that is set, in lower camel case.
pub open spec fn record_keys(r: OutboundRecord) -> Set<Seq<char>> {
    let s = set!["level"@, "message"@, "source"@, "environment"@];
    let s = with_key(s, r.version is Some, "version"@);
    let s = with_key(s, r.user_id is Some, "userId"@);
    let s = with_key(s, r.session_id is Some, "sessionId"@);
    let s = with_key(s, r.request_id is Some, "requestId"@);
    let s = with_key(s, r.data is Some, "data"@);
    let s = with_key(s, r.error_name is Some, "errorName"@);
    let s = with_key(s, r.error_stack is Some, "errorStack"@);
    let s = with_key(s, r.tags is Some, "tags"@);
    let s = with_key(s, r.flow_id is Some, "flowId"@);
    let s = with_key(s, r.step_index is Some, "stepIndex"@);
    let s = with_key(s, r.dataset is Some, "dataset"@);
    let s = with_key(s, r.timestamp is Some, "timestamp"@);
    let s = with_key(s, r.ip_address is Some, "ipAddress"@);
    with_key(s, r.country is Some, "country"@)
}

/// `m` with `k` holding `v` when `present`.
#[verifier::opaque]
pub open spec fn with_entry(m: Map<Seq<char>, Value>, present: bool, k: Seq<char>, v: Value) -> Map<Seq<char>, Value> {
    Map::new(
        |x: Seq<char>| m.dom().contains(x) || (present && x == k),
        |x: Seq<char>| if present && x == k { v } else { m[x] },
    )
}

/// The JSON strings of a list of strings.
pub open spec fn json_strings(items: Seq<String>) -> Seq<Value> {
    items.map_values(|t: String| json_string(t@))
}

/// The entries a record is encoded with: each field under its lower-camel-case
/// key, level and environment by their lower-case names, unset fields left out.
pub open spec fn record_entries(r: OutboundRecord) -> Map<Seq<char>, Value> {
    let m = map![
        "level"@ => json_string(level_name(r.level)),
        "message"@ => json_string(r.message@),
        "source"@ => json_string(r.source@),
        "environment"@ => json_string(environment_name(r.environment)),
    ];
    let m = with_entry(m, r.version is Some, "version"@, json_string(r.version->0@));
    let m = with_entry(m, r.user_id is Some, "userId"@, json_string(r.user_id->0@));
    let m = with_entry(m, r.session_id is Some, "sessionId"@, json_string(r.session_id->0@));
    let m = with_entry(m, r.request_id is Some, "requestId"@, json_string(r.request_id->0@));
    let m = with_entry(m, r.data is Some, "data"@, json_object_from(r.data->0@));
    let m = with_entry(m, r.error_name is Some, "errorName"@, json_string(r.error_name->0@));
    let m = with_entry(m, r.error_stack is Some, "errorStack"@, json_string(r.error_stack->0@));
    let m = with_entry(m, r.tags is Some, "tags"@, json_array(json_strings(r.tags->0@)));
    let m = with_entry(m, r.flow_id is Some, "flowId"@, json_string(r.flow_id->0@));
    let m = with_entry(m, r.step_index is Some, "stepIndex"@, json_u64(r.step_index->0 as u64));
    let m = with_entry(m, r.dataset is Some, "dataset"@, json_string(r.dataset->0@));
    let m = with_entry(m, r.timestamp is Some, "timestamp"@, json_u64(r.timestamp->0));
    let m = with_entry(m, r.ip_address is Some, "ipAddress"@, json_string(r.ip_address->0@));
    with_entry(m, r.country is Some, "country"@, json_string(r.country->0@))
}

fn put_text(m: &mut serde_json::Map<String, Value>, key: &str, value: &Option<String>)
    ensures
        object_keys(*final(m)) == with_key(object_keys(*old(m)), value is Some, key@),
        object_entries(*final(m)) == with_entry(object_entries(*old(m)), value is Some, key@, json_string(value->0@)),
{
    if let Some(v) = value {
        put(m, String::from_str(key), string_value(v.clone()));
    }
    proof {
        reveal(with_entry);
        assert(object_keys(*m) =~= with_key(object_keys(*old(m)), value is Some, key@));
        assert(object_entries(*m) =~= with_entry(object_entries(*old(m)), value is Some, key@, json_string(value->0@)));
    }
}

fn put_number(m: &mut serde_json::Map<String, Value>, key: &str, value: Option<u64>)
    ensures
        object_keys(*final(m)) == with_key(object_keys(*old(m)), value is Some, key@),
        object_entries(*final(m)) == with_entry(object_entries(*old(m)), value is Some, key@, json_u64(value->0)),
{
    if let Some(v) = value {
        put(m, String::from_str(key), u64_value(v));
    }
    proof {
        reveal(with_entry);
        assert(object_keys(*m) =~= with_key(object_keys(*old(m)), value is Some, key@));
        assert(object_entries(*m) =~= with_entry(object_entries(*old(m)), value is Some, key@, json_u64(value->0)));
    }
}

fn string_list(items: &Vec<String>) -> (r: Value)
    ensures
        r == json_array(json_strings(items@)),
{
    let mut out: Vec<Value> = Vec::new();
    let mut i: usize = 0;
    while i < items.len()
        invariant
            i <= items@.len(),
            out@ == json_strings(items@.take(i as int)),
        decreases items@.len() - i,
    {
        out.push(string_value(items[i].clone()));
        proof {
            assert(json_strings(items@.take(i + 1)) =~= json_strings(items@.take(i as int)).push(json_string(items@[i as int]@)));
        }
        i = i + 1;
    }
    proof {
        assert(items@.take(items@.len() as int) =~= items@);
    }
    array_value(out)
}

impl OutboundRecord {
    /// The record as a JSON object; unset optional fields are left out.
    pub fn to_json(&self) -> (r: serde_json::Map<String, Value>)
        ensures
            object_keys(r) == record_keys(*self),
            object_entries(r) == record_entries(*self),
    {
        proof {
            reveal(with_entry);
        }
        let mut m = new_object();
        put(&mut m, String::from_str("level"), string_value(String::from_str(self.level.as_str())));
        put(&mut m, String::from_str("message"), string_value(self.message.clone()));
        put(&mut m, String::from_str("source"), string_value(self.source.clone()));
        put(&mut m, String::from_str("environment"), string_value(String::from_str(self.environment.as_str())));
        assert(object_entries(m) =~= map![
            "level"@ => json_string(level_name(self.level)),
            "message"@ => json_string(self.message@),
            "source"@ => json_string(self.source@),
            "environment"@ => json_string(environment_name(self.environment)),
        ]);
        put_text(&mut m, "version", &self.version);
        put_text(&mut m, "userId", &self.user_id);
        put_text(&mut m, "sessionId", &self.session_id);
        put_text(&mut m, "requestId", &self.request_id);
        let ghost before_data = m;
        if let Some(d) = &self.data {
            put(&mut m, String::from_str("data"), map_value(d));
        }
        assert(object_keys(m) =~= with_key(object_keys(before_data), self.data is Some, "data"@));
        assert(object_entries(m) =~= with_entry(object_entries(before_data), self.data is Some, "data"@, json_object_from(self.data->0@)));
        put_text(&mut m, "errorName", &self.error_name);
        put_text(&mut m, "errorStack", &self.error_stack);
        let ghost before_tags = m;
        if let Some(t) = &self.tags {
            put(&mut m, String::from_str("tags"), string_list(t));
        }
        assert(object_keys(m) =~= with_key(object_keys(before_tags), self.tags is Some, "tags"@));
        assert(object_entries(m) =~= with_entry(object_entries(before_tags), self.tags is Some, "tags"@, json_array(json_strings(self.tags->0@))));
        put_text(&mut m, "flowId", &self.flow_id);
        let ghost before_step = m;
        if let Some(step) = self.step_index {
            put(&mut m, String::from_str("stepIndex"), u64_value(step as u64));
        }
        assert(object_keys(m) =~= with_key(object_keys(before_step), self.step_index is Some, "stepIndex"@));
        assert(object_entries(m) =~= with_entry(object_entries(before_step), self.step_index is Some, "stepIndex"@, json_u64(self.step_index->0 as u64)));
        put_text(&mut m, "dataset", &self.dataset);
        put_number(&mut m, "timestamp", self.timestamp);
        put_text(&mut m, "ipAddress", &self.ip_address);
        put_text(&mut m, "country", &self.country);
        proof {
            assert(object_keys(m) =~= record_keys(*self));
        }
        m
    }
}

/// `v` is the JSON object encoding record `r`.
pub open spec fn encodes_record(v: Value, r: OutboundRecord) -> bool {
    exists|m: serde_json::Map<String, Value>| v == json_object(m) && object_entries(m) == record_entries(r)
}

/// The body of a batch request: `{ "logs": [record, ...] }`, with one object
/// per record, in queue order.
pub fn batch_payload(records: &Vec<OutboundRecord>) -> (r: serde_json::Map<String, Value>)
    ensures
        object_keys(r) == set!["logs"@],
        exists|items: Seq<Value>| {
            &&& object_entries(r)["logs"@] == json_array(items)
            &&& items.len() == records@.len()
            &&& forall|i: int| 0 <= i < items.len() ==> encodes_record(#[trigger] items[i], records@[i])
        },
{
    let mut items: Vec<Value> = Vec::new();
    let mut i: usize = 0;
    while i < records.len()
        invariant
            i <= records@.len(),
            items@.len() == i,
            forall|j: int| 0 <= j < i ==> encodes_record(#[trigger] items@[j], records@[j]),
        decreases records@.len() - i,
    {
        let o = records[i].to_json();
        let v = object_value(o);
        proof {
            assert(v == json_object(o) && object_entries(o) == record_entries(records@[i as int]));
        }
        items.push(v);
        i = i + 1;
    }
    let ghost seq_items = items@;
    let mut m = new_object();
    put(&mut m, String::from_str("logs"), array_value(items));
    proof {
        assert(object_keys(m) =~= set!["logs"@]);
        assert(object_entries(m)["logs"@] == json_array(seq_items));
    }
    m
}

/// The body of a flow registration request: `{ "name": name }`.
pub fn flow_request(name: &String) -> (r: serde_json::Map<String, Value>)
    ensures
        object_keys(r) == set!["name"@],
        object_entries(r)["name"@] == json_string(name@),
{
    let mut m = new_object();
    put(&mut m, String::from_str("name"), string_value(name.clone()));
    proof {
        assert(object_keys(m) =~= set!["name"@]);
    }
    m
}

/// A query parameter as text.
pub open spec fn param_view(p: (String, String)) -> (Seq<char>, Seq<char>) {
    (p.0@, p.1@)
}

/// `ps` followed by `(name, value)` when `value` is set.
pub open spec fn with_param(ps: Seq<(Seq<char>, Seq<char>)>, name: Seq<char>, value: Option<Seq<char>>) -> Seq<(Seq<char>, Seq<char>)> {
    match value {
        Some(v) => ps.push((name, v)),
        None => ps,
    }
}

/// Query parameters of a raw ingestion request: the format, then each
/// override that is set, in the order source, dataset, environment, level.
pub open spec fn raw_params(format: RawFormat, options: Option<IngestRawOptions>) -> Seq<(Seq<char>, Seq<char>)> {
    let ps = seq![("format"@, raw_format_name(format))];
    match options {
        None => ps,
        Some(o) => {
            let ps = with_param(ps, "source"@, opt_view(o.source));
            let ps = with_param(ps, "dataset"@, opt_view(o.dataset));
            let ps = with_param(ps, "environment"@, match o.environment {
                Some(e) => Some(environment_name(e)),
                None => None,
            });
            with_param(ps, "level"@, match o.level {
                Some(l) => Some(level_name(l)),
                None => None,
            })
        },
    }
}

fn push_param(ps: &mut Vec<(String, String)>, name: &str, value: Option<&str>)
    ensures
        final(ps)@.map_values(|p: (String, String)| param_view(p)) == with_param(
            old(ps)@.map_values(|p: (String, String)| param_view(p)),
            name@,
            match value { Some(v) => Some(v@), None => None },
        ),
{
    if let Some(v) = value {
        ps.push((String::from_str(name), String::from_str(v)));
        proof {
            assert(ps@.map_values(|p: (String, String)| param_view(p)) =~= old(ps)@.map_values(
                |p: (String, String)| param_view(p),
            ).push((name@, v@)));
        }
    }
}

fn opt_str(o: &Option<String>) -> (r: Option<&str>)
    ensures
        match r { Some(v) => Some(v@), None => None } == opt_view(*o),
{
    match o {
        Some(s) => Some(s.as_str()),
        None => None,
    }
}

/// The query parameters of a raw ingestion request, as name and value.
pub fn raw_query(format: RawFormat, options: &Option<IngestRawOptions>) -> (r: Vec<(String, String)>)
    ensures
        r@.map_values(|p: (String, String)| param_view(p)) == raw_params(format, *options),
{
    let mut ps: Vec<(String, String)> = Vec::new();
    push_param(&mut ps, "format", Some(format.as_str()));
    proof {
        assert(ps@.map_values(|p: (String, String)| param_view(p)) =~= seq![("format"@, raw_format_name(format))]);
    }
    if let Some(o) = options {
        push_param(&mut ps, "source", opt_str(&o.source));
        push_param(&mut ps, "dataset", opt_str(&o.dataset));
        let env: Option<&str> = match o.environment {
            Some(e) => Some(e.as_str()),
            None => None,
        };
        push_param(&mut ps, "environment", env);
        let level: Option<&str> = match o.level {
            Some(l) => Some(l.as_str()),
            None => None,
        };
        push_param(&mut ps, "level", level);
    }
    ps
}

proof fn lemma_key_names()
    ensures
        "level"@.len() == 5 && "level"@[0] == 'l',
        "message"@.len() == 7 && "message"@[0] == 'm',
        "source"@.len() == 6 && "source"@[0] == 's',
        "environment"@.len() == 11 && "environment"@[0] == 'e',
        "version"@.len() == 7 && "version"@[0] == 'v',
        "userId"@.len() == 6 && "userId"@[0] == 'u',
        "sessionId"@.len() == 9 && "sessionId"@[0] == 's' && "sessionId"@[1] == 'e',
        "requestId"@.len() == 9 && "requestId"@[0] == 'r',
        "data"@.len() == 4 && "data"@[0] == 'd',
        "errorName"@.len() == 9 && "errorName"@[0] == 'e',
        "errorStack"@.len() == 10 && "errorStack"@[0] == 'e',
        "tags"@.len() == 4 && "tags"@[0] == 't',
        "flowId"@.len() == 6 && "flowId"@[0] == 'f',
        "stepIndex"@.len() == 9 && "stepIndex"@[0] == 's' && "stepIndex"@[1] == 't',
        "dataset"@.len() == 7 && "dataset"@[0] == 'd',
        "timestamp"@.len() == 9 && "timestamp"@[0] == 't',
        "ipAddress"@.len() == 9 && "ipAddress"@[0] == 'i',
        "country"@.len() == 7 && "country"@[0] == 'c',
{
    reveal_strlit("level");
    reveal_strlit("message");
    reveal_strlit("source");
    reveal_strlit("environment");
    reveal_strlit("version");
    reveal_strlit("userId");
    reveal_strlit("sessionId");
    reveal_strlit("requestId");
    reveal_strlit("data");
    reveal_strlit("errorName");
    reveal_strlit("errorStack");
    reveal_strlit("tags");
    reveal_strlit("flowId");
    reveal_strlit("stepIndex");
    reveal_strlit("dataset");
    reveal_strlit("timestamp");
    reveal_strlit("ipAddress");
    reveal_strlit("country");
}

/// Each optional field of a record is encoded under its lower-camel-case key
/// exactly when it is set, and the required fields always are.
pub proof fn lemma_record_keys(r: OutboundRecord)
    ensures
        record_keys(r).contains("level"@),
        record_keys(r).contains("message"@),
        record_keys(r).contains("source"@),
        record_keys(r).contains("environment"@),
        record_keys(r).contains("version"@) <==> r.version is Some,
        record_keys(r).contains("userId"@) <==> r.user_id is Some,
        record_keys(r).contains("sessionId"@) <==> r.session_id is Some,
        record_keys(r).contains("requestId"@) <==> r.request_id is Some,
        record_keys(r).contains("data"@) <==> r.data is Some,
        record_keys(r).contains("errorName"@) <==> r.error_name is Some,
        record_keys(r).contains("errorStack"@) <==> r.error_stack is Some,
        record_keys(r).contains("tags"@) <==> r.tags is Some,
        record_keys(r).contains("flowId"@) <==> r.flow_id is Some,
        record_keys(r).contains("stepIndex"@) <==> r.step_index is Some,
        record_keys(r).contains("dataset"@) <==> r.dataset is Some,
        record_keys(r).contains("timestamp"@) <==> r.timestamp is Some,
        record_keys(r).contains("ipAddress"@) <==> r.ip_address is Some,
        record_keys(r).contains("country"@) <==> r.country is Some,
{
    lemma_key_names();
}

proof fn lemma_with_entry(m: Map<Seq<char>, Value>, present: bool, k: Seq<char>, v: Value)
    ensures
        forall|x: Seq<char>| #[trigger] with_entry(m, present, k, v).dom().contains(x)
            <==> (m.dom().contains(x) || (present && x == k)),
        present ==> with_entry(m, present, k, v)[k] == v,
        forall|x: Seq<char>| m.dom().contains(x) && x != k ==> #[trigger] with_entry(m, present, k, v)[x] == m[x],
{
    reveal(with_entry);
}

/// The required fields are encoded with their values, level and environment
/// by their lower-case names.
#[verifier::spinoff_prover]
#[verifier::rlimit(60)]
pub proof fn lemma_required_values(r: OutboundRecord)
    ensures
        record_entries(r)["level"@] == json_string(level_name(r.level)),
        record_entries(r)["message"@] == json_string(r.message@),
        record_entries(r)["source"@] == json_string(r.source@),
        record_entries(r)["environment"@] == json_string(environment_name(r.environment)),
{
    let m0 = map![
        "level"@ => json_string(level_name(r.level)),
        "message"@ => json_string(r.message@),
        "source"@ => json_string(r.source@),
        "environment"@ => json_string(environment_name(r.environment)),
    ];
    let m1 = with_entry(m0, r.version is Some, "version"@, json_string(r.version->0@));
    let m2 = with_entry(m1, r.user_id is Some, "userId"@, json_string(r.user_id->0@));
    let m3 = with_entry(m2, r.session_id is Some, "sessionId"@, json_string(r.session_id->0@));
    let m4 = with_entry(m3, r.request_id is Some, "requestId"@, json_string(r.request_id->0@));
    let m5 = with_entry(m4, r.data is Some, "data"@, json_object_from(r.data->0@));
    let m6 = with_entry(m5, r.error_name is Some, "errorName"@, json_string(r.error_name->0@));
    let m7 = with_entry(m6, r.error_stack is Some, "errorStack"@, json_string(r.error_stack->0@));
    let m8 = with_entry(m7, r.tags is Some, "tags"@, json_array(json_strings(r.tags->0@)));
    let m9 = with_entry(m8, r.flow_id is Some, "flowId"@, json_string(r.flow_id->0@));
    let m10 = with_entry(m9, r.step_index is Some, "stepIndex"@, json_u64(r.step_index->0 as u64));
    let m11 = with_entry(m10, r.dataset is Some, "dataset"@, json_string(r.dataset->0@));
    let m12 = with_entry(m11, r.timestamp is Some, "timestamp"@, json_u64(r.timestamp->0));
    let m13 = with_entry(m12, r.ip_address is Some, "ipAddress"@, json_string(r.ip_address->0@));
    let m14 = with_entry(m13, r.country is Some, "country"@, json_string(r.country->0@));
    lemma_with_entry(m0, r.version is Some, "version"@, json_string(r.version->0@));
    lemma_with_entry(m1, r.user_id is Some, "userId"@, json_string(r.user_id->0@));
    lemma_with_entry(m2, r.session_id is Some, "sessionId"@, json_string(r.session_id->0@));
    lemma_with_entry(m3, r.request_id is Some, "requestId"@, json_string(r.request_id->0@));
    lemma_with_entry(m4, r.data is Some, "data"@, json_object_from(r.data->0@));
    lemma_with_entry(m5, r.error_name is Some, "errorName"@, json_string(r.error_name->0@));
    lemma_with_entry(m6, r.error_stack is Some, "errorStack"@, json_string(r.error_stack->0@));
    lemma_with_entry(m7, r.tags is Some, "tags"@, json_array(json_strings(r.tags->0@)));
    lemma_with_entry(m8, r.flow_id is Some, "flowId"@, json_string(r.flow_id->0@));
    lemma_with_entry(m9, r.step_index is Some, "stepIndex"@, json_u64(r.step_index->0 as u64));
    lemma_with_entry(m10, r.dataset is Some, "dataset"@, json_string(r.dataset->0@));
    lemma_with_entry(m11, r.timestamp is Some, "timestamp"@, json_u64(r.timestamp->0));
    lemma_with_entry(m12, r.ip_address is Some, "ipAddress"@, json_string(r.ip_address->0@));
    lemma_with_entry(m13, r.country is Some, "country"@, json_string(r.country->0@));
    assert(record_entries(r) == m14);
    lemma_key_names();
    assert(m14.dom().contains("level"@) && m14["level"@] == json_string(level_name(r.level))) by {
        assert(m0.dom().contains("level"@) && m0["level"@] == json_string(level_name(r.level)));
        assert(m1.dom().contains("level"@) && m1["level"@] == m0["level"@]);
        assert(m2.dom().contains("level"@) && m2["level"@] == m1["level"@]);
        assert(m3.dom().contains("level"@) && m3["level"@] == m2["level"@]);
        assert(m4.dom().contains("level"@) && m4["level"@] == m3["level"@]);
        assert(m5.dom().contains("level"@) && m5["level"@] == m4["level"@]);
        assert(m6.dom().contains("level"@) && m6["level"@] == m5["level"@]);
        assert(m7.dom().contains("level"@) && m7["level"@] == m6["level"@]);
        assert(m8.dom().contains("level"@) && m8["level"@] == m7["level"@]);
        assert(m9.dom().contains("level"@) && m9["level"@] == m8["level"@]);
        assert(m10.dom().contains("level"@) && m10["level"@] == m9["level"@]);
        assert(m11.dom().contains("level"@) && m11["level"@] == m10["level"@]);
        assert(m12.dom().contains("level"@) && m12["level"@] == m11["level"@]);
        assert(m13.dom().contains("level"@) && m13["level"@] == m12["level"@]);
        assert(m14.dom().contains("level"@) && m14["level"@] == m13["level"@]);
    }
    assert(m14.dom().contains("message"@) && m14["message"@] == json_string(r.message@)) by {
        assert(m0.dom().contains("message"@) && m0["message"@] == json_string(r.message@));
        assert(m1.dom().contains("message"@) && m1["message"@] == m0["message"@]);
        assert(m2.dom().contains("message"@) && m2["message"@] == m1["message"@]);
        assert(m3.dom().contains("message"@) && m3["message"@] == m2["message"@]);
        assert(m4.dom().contains("message"@) && m4["message"@] == m3["message"@]);
        assert(m5.dom().contains("message"@) && m5["message"@] == m4["message"@]);
        assert(m6.dom().contains("message"@) && m6["message"@] == m5["message"@]);
        assert(m7.dom().contains("message"@) && m7["message"@] == m6["message"@]);
        assert(m8.dom().contains("message"@) && m8["message"@] == m7["message"@]);
        assert(m9.dom().contains("message"@) && m9["message"@] == m8["message"@]);
        assert(m10.dom().contains("message"@) && m10["message"@] == m9["message"@]);
        assert(m11.dom().contains("message"@) && m11["message"@] == m10["message"@]);
        assert(m12.dom().contains("message"@) && m12["message"@] == m11["message"@]);
        assert(m13.dom().contains("message"@) && m13["message"@] == m12["message"@]);
        assert(m14.dom().contains("message"@) && m14["message"@] == m13["message"@]);
    }
    assert(m14.dom().contains("source"@) && m14["source"@] == json_string(r.source@)) by {
        assert(m0.dom().contains("source"@) && m0["source"@] == json_string(r.source@));
        assert(m1.dom().contains("source"@) && m1["source"@] == m0["source"@]);
        assert(m2.dom().contains("source"@) && m2["source"@] == m1["source"@]);
        assert(m3.dom().contains("source"@) && m3["source"@] == m2["source"@]);
        assert(m4.dom().contains("source"@) && m4["source"@] == m3["source"@]);
        assert(m5.dom().contains("source"@) && m5["source"@] == m4["source"@]);
        assert(m6.dom().contains("source"@) && m6["source"@] == m5["source"@]);
        assert(m7.dom().contains("source"@) && m7["source"@] == m6["source"@]);
        assert(m8.dom().contains("source"@) && m8["source"@] == m7["source"@]);
        assert(m9.dom().contains("source"@) && m9["source"@] == m8["source"@]);
        assert(m10.dom().contains("source"@) && m10["source"@] == m9["source"@]);
        assert(m11.dom().contains("source"@) && m11["source"@] == m10["source"@]);
        assert(m12.dom().contains("source"@) && m12["source"@] == m11["source"@]);
        assert(m13.dom().contains("source"@) && m13["source"@] == m12["source"@]);
        assert(m14.dom().contains("source"@) && m14["source"@] == m13["source"@]);
    }
    assert(m14.dom().contains("environment"@) && m14["environment"@] == json_string(environment_name(r.environment))) by {
        assert(m0.dom().contains("environment"@) && m0["environment"@] == json_string(environment_name(r.environment)));
        assert(m1.dom().contains("environment"@) && m1["environment"@] == m0["environment"@]);
        assert(m2.dom().contains("environment"@) && m2["environment"@] == m1["environment"@]);
        assert(m3.dom().contains("environment"@) && m3["environment"@] == m2["environment"@]);
        assert(m4.dom().contains("environment"@) && m4["environment"@] == m3["environment"@]);
        assert(m5.dom().contains("environment"@) && m5["environment"@] == m4["environment"@]);
        assert(m6.dom().contains("environment"@) && m6["environment"@] == m5["environment"@]);
        assert(m7.dom().contains("environment"@) && m7["environment"@] == m6["environment"@]);
        assert(m8.dom().contains("environment"@) && m8["environment"@] == m7["environment"@]);
        assert(m9.dom().contains("environment"@) && m9["environment"@] == m8["environment"@]);
        assert(m10.dom().contains("environment"@) && m10["environment"@] == m9["environment"@]);
        assert(m11.dom().contains("environment"@) && m11["environment"@] == m10["environment"@]);
        assert(m12.dom().contains("environment"@) && m12["environment"@] == m11["environment"@]);
        assert(m13.dom().contains("environment"@) && m13["environment"@] == m12["environment"@]);
        assert(m14.dom().contains("environment"@) && m14["environment"@] == m13["environment"@]);
    }
}

/// The version, user, session and request ids and the data payload, when
/// set, are encoded with their values.
pub proof fn lemma_optional_values_ids(r: OutboundRecord)
    ensures
        r.version is Some ==> record_entries(r)["version"@] == json_string(r.version->0@),
        r.user_id is Some ==> record_entries(r)["userId"@] == json_string(r.user_id->0@),
        r.session_id is Some ==> record_entries(r)["sessionId"@] == json_string(r.session_id->0@),
        r.request_id is Some ==> record_entries(r)["requestId"@] == json_string(r.request_id->0@),
        r.data is Some ==> record_entries(r)["data"@] == json_object_from(r.data->0@),
{
    let m0 = map![
        "level"@ => json_string(level_name(r.level)),
        "message"@ => json_string(r.message@),
        "source"@ => json_string(r.source@),
        "environment"@ => json_string(environment_name(r.environment)),
    ];
    let m1 = with_entry(m0, r.version is Some, "version"@, json_string(r.version->0@));
    let m2 = with_entry(m1, r.user_id is Some, "userId"@, json_string(r.user_id->0@));
    let m3 = with_entry(m2, r.session_id is Some, "sessionId"@, json_string(r.session_id->0@));
    let m4 = with_entry(m3, r.request_id is Some, "requestId"@, json_string(r.request_id->0@));
    let m5 = with_entry(m4, r.data is Some, "data"@, json_object_from(r.data->0@));
    let m6 = with_entry(m5, r.error_name is Some, "errorName"@, json_string(r.error_name->0@));
    let m7 = with_entry(m6, r.error_stack is Some, "errorStack"@, json_string(r.error_stack->0@));
    let m8 = with_entry(m7, r.tags is Some, "tags"@, json_array(json_strings(r.tags->0@)));
    let m9 = with_entry(m8, r.flow_id is Some, "flowId"@, json_string(r.flow_id->0@));
    let m10 = with_entry(m9, r.step_index is Some, "stepIndex"@, json_u64(r.step_index->0 as u64));
    let m11 = with_entry(m10, r.dataset is Some, "dataset"@, json_string(r.dataset->0@));
    let m12 = with_entry(m11, r.timestamp is Some, "timestamp"@, json_u64(r.timestamp->0));
    let m13 = with_entry(m12, r.ip_address is Some, "ipAddress"@, json_string(r.ip_address->0@));
    let m14 = with_entry(m13, r.country is Some, "country"@, json_string(r.country->0@));
    lemma_with_entry(m0, r.version is Some, "version"@, json_string(r.version->0@));
    lemma_with_entry(m1, r.user_id is Some, "userId"@, json_string(r.user_id->0@));
    lemma_with_entry(m2, r.session_id is Some, "sessionId"@, json_string(r.session_id->0@));
    lemma_with_entry(m3, r.request_id is Some, "requestId"@, json_string(r.request_id->0@));
    lemma_with_entry(m4, r.data is Some, "data"@, json_object_from(r.data->0@));
    lemma_with_entry(m5, r.error_name is Some, "errorName"@, json_string(r.error_name->0@));
    lemma_with_entry(m6, r.error_stack is Some, "errorStack"@, json_string(r.error_stack->0@));
    lemma_with_entry(m7, r.tags is Some, "tags"@, json_array(json_strings(r.tags->0@)));
    lemma_with_entry(m8, r.flow_id is Some, "flowId"@, json_string(r.flow_id->0@));
    lemma_with_entry(m9, r.step_index is Some, "stepIndex"@, json_u64(r.step_index->0 as u64));
    lemma_with_entry(m10, r.dataset is Some, "dataset"@, json_string(r.dataset->0@));
    lemma_with_entry(m11, r.timestamp is Some, "timestamp"@, json_u64(r.timestamp->0));
    lemma_with_entry(m12, r.ip_address is Some, "ipAddress"@, json_string(r.ip_address->0@));
    lemma_with_entry(m13, r.country is Some, "country"@, json_string(r.country->0@));
    assert(record_entries(r) == m14);
    lemma_key_names();
    if r.version is Some {
        assert(m1.dom().contains("version"@) && m1["version"@] == json_string(r.version->0@));
        assert(m2.dom().contains("version"@) && m2["version"@] == m1["version"@]);
        assert(m3.dom().contains("version"@) && m3["version"@] == m2["version"@]);
        assert(m4.dom().contains("version"@) && m4["version"@] == m3["version"@]);
        assert(m5.dom().contains("version"@) && m5["version"@] == m4["version"@]);
        assert(m6.dom().contains("version"@) && m6["version"@] == m5["version"@]);
        assert(m7.dom().contains("version"@) && m7["version"@] == m6["version"@]);
        assert(m8.dom().contains("version"@) && m8["version"@] == m7["version"@]);
        assert(m9.dom().contains("version"@) && m9["version"@] == m8["version"@]);
        assert(m10.dom().contains("version"@) && m10["version"@] == m9["version"@]);
        assert(m11.dom().contains("version"@) && m11["version"@] == m10["version"@]);
        assert(m12.dom().contains("version"@) && m12["version"@] == m11["version"@]);
        assert(m13.dom().contains("version"@) && m13["version"@] == m12["version"@]);
        assert(m14.dom().contains("version"@) && m14["version"@] == m13["version"@]);
    }
    if r.user_id is Some {
        assert(m2.dom().contains("userId"@) && m2["userId"@] == json_string(r.user_id->0@));
        assert(m3.dom().contains("userId"@) && m3["userId"@] == m2["userId"@]);
        assert(m4.dom().contains("userId"@) && m4["userId"@] == m3["userId"@]);
        assert(m5.dom().contains("userId"@) && m5["userId"@] == m4["userId"@]);
        assert(m6.dom().contains("userId"@) && m6["userId"@] == m5["userId"@]);
        assert(m7.dom().contains("userId"@) && m7["userId"@] == m6["userId"@]);
        assert(m8.dom().contains("userId"@) && m8["userId"@] == m7["userId"@]);
        assert(m9.dom().contains("userId"@) && m9["userId"@] == m8["userId"@]);
        assert(m10.dom().contains("userId"@) && m10["userId"@] == m9["userId"@]);
        assert(m11.dom().contains("userId"@) && m11["userId"@] == m10["userId"@]);
        assert(m12.dom().contains("userId"@) && m12["userId"@] == m11["userId"@]);
        assert(m13.dom().contains("userId"@) && m13["userId"@] == m12["userId"@]);
        assert(m14.dom().contains("userId"@) && m14["userId"@] == m13["userId"@]);
    }
    if r.session_id is Some {
        assert(m3.dom().contains("sessionId"@) && m3["sessionId"@] == json_string(r.session_id->0@));
        assert(m4.dom().contains("sessionId"@) && m4["sessionId"@] == m3["sessionId"@]);
        assert(m5.dom().contains("sessionId"@) && m5["sessionId"@] == m4["sessionId"@]);
        assert(m6.dom().contains("sessionId"@) && m6["sessionId"@] == m5["sessionId"@]);
        assert(m7.dom().contains("sessionId"@) && m7["sessionId"@] == m6["sessionId"@]);
        assert(m8.dom().contains("sessionId"@) && m8["sessionId"@] == m7["sessionId"@]);
        assert(m9.dom().contains("sessionId"@) && m9["sessionId"@] == m8["sessionId"@]);
        assert(m10.dom().contains("sessionId"@) && m10["sessionId"@] == m9["sessionId"@]);
        assert(m11.dom().contains("sessionId"@) && m11["sessionId"@] == m10["sessionId"@]);
        assert(m12.dom().contains("sessionId"@) && m12["sessionId"@] == m11["sessionId"@]);
        assert(m13.dom().contains("sessionId"@) && m13["sessionId"@] == m12["sessionId"@]);
        assert(m14.dom().contains("sessionId"@) && m14["sessionId"@] == m13["sessionId"@]);
    }
    if r.request_id is Some {
        assert(m4.dom().contains("requestId"@) && m4["requestId"@] == json_string(r.request_id->0@));
        assert(m5.dom().contains("requestId"@) && m5["requestId"@] == m4["requestId"@]);
        assert(m6.dom().contains("requestId"@) && m6["requestId"@] == m5["requestId"@]);
        assert(m7.dom().contains("requestId"@) && m7["requestId"@] == m6["requestId"@]);
        assert(m8.dom().contains("requestId"@) && m8["requestId"@] == m7["requestId"@]);
        assert(m9.dom().contains("requestId"@) && m9["requestId"@] == m8["requestId"@]);
        assert(m10.dom().contains("requestId"@) && m10["requestId"@] == m9["requestId"@]);
        assert(m11.dom().contains("requestId"@) && m11["requestId"@] == m10["requestId"@]);
        assert(m12.dom().contains("requestId"@) && m12["requestId"@] == m11["requestId"@]);
        assert(m13.dom().contains("requestId"@) && m13["requestId"@] == m12["requestId"@]);
        assert(m14.dom().contains("requestId"@) && m14["requestId"@] == m13["requestId"@]);
    }
    if r.data is Some {
        assert(m5.dom().contains("data"@) && m5["data"@] == json_object_from(r.data->0@));
        assert(m6.dom().contains("data"@) && m6["data"@] == m5["data"@]);
        assert(m7.dom().contains("data"@) && m7["data"@] == m6["data"@]);
        assert(m8.dom().contains("data"@) && m8["data"@] == m7["data"@]);
        assert(m9.dom().contains("data"@) && m9["data"@] == m8["data"@]);
        assert(m10.dom().contains("data"@) && m10["data"@] == m9["data"@]);
        assert(m11.dom().contains("data"@) && m11["data"@] == m10["data"@]);
        assert(m12.dom().contains("data"@) && m12["data"@] == m11["data"@]);
        assert(m13.dom().contains("data"@) && m13["data"@] == m12["data"@]);
        assert(m14.dom().contains("data"@) && m14["data"@] == m13["data"@]);
    }
}

/// The error name and stack, tags, flow id and step index, when set, are
/// encoded with their values.
pub proof fn lemma_optional_values_details(r: OutboundRecord)
    ensures
        r.error_name is Some ==> record_entries(r)["errorName"@] == json_string(r.error_name->0@),
        r.error_stack is Some ==> record_entries(r)["errorStack"@] == json_string(r.error_stack->0@),
        r.tags is Some ==> record_entries(r)["tags"@] == json_array(json_strings(r.tags->0@)),
        r.flow_id is Some ==> record_entries(r)["flowId"@] == json_string(r.flow_id->0@),
        r.step_index is Some ==> record_entries(r)["stepIndex"@] == json_u64(r.step_index->0 as u64),
{
    let m0 = map![
        "level"@ => json_string(level_name(r.level)),
        "message"@ => json_string(r.message@),
        "source"@ => json_string(r.source@),
        "environment"@ => json_string(environment_name(r.environment)),
    ];
    let m1 = with_entry(m0, r.version is Some, "version"@, json_string(r.version->0@));
    let m2 = with_entry(m1, r.user_id is Some, "userId"@, json_string(r.user_id->0@));
    let m3 = with_entry(m2, r.session_id is Some, "sessionId"@, json_string(r.session_id->0@));
    let m4 = with_entry(m3, r.request_id is Some, "requestId"@, json_string(r.request_id->0@));
    let m5 = with_entry(m4, r.data is Some, "data"@, json_object_from(r.data->0@));
    let m6 = with_entry(m5, r.error_name is Some, "errorName"@, json_string(r.error_name->0@));
    let m7 = with_entry(m6, r.error_stack is Some, "errorStack"@, json_string(r.error_stack->0@));
    let m8 = with_entry(m7, r.tags is Some, "tags"@, json_array(json_strings(r.tags->0@)));
    let m9 = with_entry(m8, r.flow_id is Some, "flowId"@, json_string(r.flow_id->0@));
    let m10 = with_entry(m9, r.step_index is Some, "stepIndex"@, json_u64(r.step_index->0 as u64));
    let m11 = with_entry(m10, r.dataset is Some, "dataset"@, json_string(r.dataset->0@));
    let m12 = with_entry(m11, r.timestamp is Some, "timestamp"@, json_u64(r.timestamp->0));
    let m13 = with_entry(m12, r.ip_address is Some, "ipAddress"@, json_string(r.ip_address->0@));
    let m14 = with_entry(m13, r.country is Some, "country"@, json_string(r.country->0@));
    lemma_with_entry(m0, r.version is Some, "version"@, json_string(r.version->0@));
    lemma_with_entry(m1, r.user_id is Some, "userId"@, json_string(r.user_id->0@));
    lemma_with_entry(m2, r.session_id is Some, "sessionId"@, json_string(r.session_id->0@));
    lemma_with_entry(m3, r.request_id is Some, "requestId"@, json_string(r.request_id->0@));
    lemma_with_entry(m4, r.data is Some, "data"@, json_object_from(r.data->0@));
    lemma_with_entry(m5, r.error_name is Some, "errorName"@, json_string(r.error_name->0@));
    lemma_with_entry(m6, r.error_stack is Some, "errorStack"@, json_string(r.error_stack->0@));
    lemma_with_entry(m7, r.tags is Some, "tags"@, json_array(json_strings(r.tags->0@)));
    lemma_with_entry(m8, r.flow_id is Some, "flowId"@, json_string(r.flow_id->0@));
    lemma_with_entry(m9, r.step_index is Some, "stepIndex"@, json_u64(r.step_index->0 as u64));
    lemma_with_entry(m10, r.dataset is Some, "dataset"@, json_string(r.dataset->0@));
    lemma_with_entry(m11, r.timestamp is Some, "timestamp"@, json_u64(r.timestamp->0));
    lemma_with_entry(m12, r.ip_address is Some, "ipAddress"@, json_string(r.ip_address->0@));
    lemma_with_entry(m13, r.country is Some, "country"@, json_string(r.country->0@));
    assert(record_entries(r) == m14);
    lemma_key_names();
    if r.error_name is Some {
        assert(m6.dom().contains("errorName"@) && m6["errorName"@] == json_string(r.error_name->0@));
        assert(m7.dom().contains("errorName"@) && m7["errorName"@] == m6["errorName"@]);
        assert(m8.dom().contains("errorName"@) && m8["errorName"@] == m7["errorName"@]);
        assert(m9.dom().contains("errorName"@) && m9["errorName"@] == m8["errorName"@]);
        assert(m10.dom().contains("errorName"@) && m10["errorName"@] == m9["errorName"@]);
        assert(m11.dom().contains("errorName"@) && m11["errorName"@] == m10["errorName"@]);
        assert(m12.dom().contains("errorName"@) && m12["errorName"@] == m11["errorName"@]);
        assert(m13.dom().contains("errorName"@) && m13["errorName"@] == m12["errorName"@]);
        assert(m14.dom().contains("errorName"@) && m14["errorName"@] == m13["errorName"@]);
    }
    if r.error_stack is Some {
        assert(m7.dom().contains("errorStack"@) && m7["errorStack"@] == json_string(r.error_stack->0@));
        assert(m8.dom().contains("errorStack"@) && m8["errorStack"@] == m7["errorStack"@]);
        assert(m9.dom().contains("errorStack"@) && m9["errorStack"@] == m8["errorStack"@]);
        assert(m10.dom().contains("errorStack"@) && m10["errorStack"@] == m9["errorStack"@]);
        assert(m11.dom().contains("errorStack"@) && m11["errorStack"@] == m10["errorStack"@]);
        assert(m12.dom().contains("errorStack"@) && m12["errorStack"@] == m11["errorStack"@]);
        assert(m13.dom().contains("errorStack"@) && m13["errorStack"@] == m12["errorStack"@]);
        assert(m14.dom().contains("errorStack"@) && m14["errorStack"@] == m13["errorStack"@]);
    }
    if r.tags is Some {
        assert(m8.dom().contains("tags"@) && m8["tags"@] == json_array(json_strings(r.tags->0@)));
        assert(m9.dom().contains("tags"@) && m9["tags"@] == m8["tags"@]);
        assert(m10.dom().contains("tags"@) && m10["tags"@] == m9["tags"@]);
        assert(m11.dom().contains("tags"@) && m11["tags"@] == m10["tags"@]);
        assert(m12.dom().contains("tags"@) && m12["tags"@] == m11["tags"@]);
        assert(m13.dom().contains("tags"@) && m13["tags"@] == m12["tags"@]);
        assert(m14.dom().contains("tags"@) && m14["tags"@] == m13["tags"@]);
    }
    if r.flow_id is Some {
        assert(m9.dom().contains("flowId"@) && m9["flowId"@] == json_string(r.flow_id->0@));
        assert(m10.dom().contains("flowId"@) && m10["flowId"@] == m9["flowId"@]);
        assert(m11.dom().contains("flowId"@) && m11["flowId"@] == m10["flowId"@]);
        assert(m12.dom().contains("flowId"@) && m12["flowId"@] == m11["flowId"@]);
        assert(m13.dom().contains("flowId"@) && m13["flowId"@] == m12["flowId"@]);
        assert(m14.dom().contains("flowId"@) && m14["flowId"@] == m13["flowId"@]);
    }
    if r.step_index is Some {
        assert(m10.dom().contains("stepIndex"@) && m10["stepIndex"@] == json_u64(r.step_index->0 as u64));
        assert(m11.dom().contains("stepIndex"@) && m11["stepIndex"@] == m10["stepIndex"@]);
        assert(m12.dom().contains("stepIndex"@) && m12["stepIndex"@] == m11["stepIndex"@]);
        assert(m13.dom().contains("stepIndex"@) && m13["stepIndex"@] == m12["stepIndex"@]);
        assert(m14.dom().contains("stepIndex"@) && m14["stepIndex"@] == m13["stepIndex"@]);
    }
}

/// The dataset, timestamp, IP address and country, when set, are encoded
/// with their values.
pub proof fn lemma_optional_values_context(r: OutboundRecord)
    ensures
        r.dataset is Some ==> record_entries(r)["dataset"@] == json_string(r.dataset->0@),
        r.timestamp is Some ==> record_entries(r)["timestamp"@] == json_u64(r.timestamp->0),
        r.ip_address is Some ==> record_entries(r)["ipAddress"@] == json_string(r.ip_address->0@),
        r.country is Some ==> record_entries(r)["country"@] == json_string(r.country->0@),
{
    let m0 = map![
        "level"@ => json_string(level_name(r.level)),
        "message"@ => json_string(r.message@),
        "source"@ => json_string(r.source@),
        "environment"@ => json_string(environment_name(r.environment)),
    ];
    let m1 = with_entry(m0, r.version is Some, "version"@, json_string(r.version->0@));
    let m2 = with_entry(m1, r.user_id is Some, "userId"@, json_string(r.user_id->0@));
    let m3 = with_entry(m2, r.session_id is Some, "sessionId"@, json_string(r.session_id->0@));
    let m4 = with_entry(m3, r.request_id is Some, "requestId"@, json_string(r.request_id->0@));
    let m5 = with_entry(m4, r.data is Some, "data"@, json_object_from(r.data->0@));
    let m6 = with_entry(m5, r.error_name is Some, "errorName"@, json_string(r.error_name->0@));
    let m7 = with_entry(m6, r.error_stack is Some, "errorStack"@, json_string(r.error_stack->0@));
    let m8 = with_entry(m7, r.tags is Some, "tags"@, json_array(json_strings(r.tags->0@)));
    let m9 = with_entry(m8, r.flow_id is Some, "flowId"@, json_string(r.flow_id->0@));
    let m10 = with_entry(m9, r.step_index is Some, "stepIndex"@, json_u64(r.step_index->0 as u64));
    let m11 = with_entry(m10, r.dataset is Some, "dataset"@, json_string(r.dataset->0@));
    let m12 = with_entry(m11, r.timestamp is Some, "timestamp"@, json_u64(r.timestamp->0));
    let m13 = with_entry(m12, r.ip_address is Some, "ipAddress"@, json_string(r.ip_address->0@));
    let m14 = with_entry(m13, r.country is Some, "country"@, json_string(r.country->0@));
    lemma_with_entry(m0, r.version is Some, "version"@, json_string(r.version->0@));
    lemma_with_entry(m1, r.user_id is Some, "userId"@, json_string(r.user_id->0@));
    lemma_with_entry(m2, r.session_id is Some, "sessionId"@, json_string(r.session_id->0@));
    lemma_with_entry(m3, r.request_id is Some, "requestId"@, json_string(r.request_id->0@));
    lemma_with_entry(m4, r.data is Some, "data"@, json_object_from(r.data->0@));
    lemma_with_entry(m5, r.error_name is Some, "errorName"@, json_string(r.error_name->0@));
    lemma_with_entry(m6, r.error_stack is Some, "errorStack"@, json_string(r.error_stack->0@));
    lemma_with_entry(m7, r.tags is Some, "tags"@, json_array(json_strings(r.tags->0@)));
    lemma_with_entry(m8, r.flow_id is Some, "flowId"@, json_string(r.flow_id->0@));
    lemma_with_entry(m9, r.step_index is Some, "stepIndex"@, json_u64(r.step_index->0 as u64));
    lemma_with_entry(m10, r.dataset is Some, "dataset"@, json_string(r.dataset->0@));
    lemma_with_entry(m11, r.timestamp is Some, "timestamp"@, json_u64(r.timestamp->0));
    lemma_with_entry(m12, r.ip_address is Some, "ipAddress"@, json_string(r.ip_address->0@));
    lemma_with_entry(m13, r.country is Some, "country"@, json_string(r.country->0@));
    assert(record_entries(r) == m14);
    lemma_key_names();
    if r.dataset is Some {
        assert(m11.dom().contains("dataset"@) && m11["dataset"@] == json_string(r.dataset->0@));
        assert(m12.dom().contains("dataset"@) && m12["dataset"@] == m11["dataset"@]);
        assert(m13.dom().contains("dataset"@) && m13["dataset"@] == m12["dataset"@]);
        assert(m14.dom().contains("dataset"@) && m14["dataset"@] == m13["dataset"@]);
    }
    if r.timestamp is Some {
        assert(m12.dom().contains("timestamp"@) && m12["timestamp"@] == json_u64(r.timestamp->0));
        assert(m13.dom().contains("timestamp"@) && m13["timestamp"@] == m12["timestamp"@]);
        assert(m14.dom().contains("timestamp"@) && m14["timestamp"@] == m13["timestamp"@]);
    }
    if r.ip_address is Some {
        assert(m13.dom().contains("ipAddress"@) && m13["ipAddress"@] == json_string(r.ip_address->0@));
        assert(m14.dom().contains("ipAddress"@) && m14["ipAddress"@] == m13["ipAddress"@]);
    }
    if r.country is Some {
        assert(m14.dom().contains("country"@) && m14["country"@] == json_string(r.country->0@));
    }
}

} // verus!
