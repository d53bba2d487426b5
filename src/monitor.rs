//! Monitors, their measurements, and the ordered store that holds them.

use crate::clock::{now, rfc3339, rfc3339_text, Timestamp};
use crate::json::{decimal, decimal_text, json_quoted, quoted};
use rand::Rng;
use vstd::prelude::*;

verus! {

/// Measurements are drawn from `0..VALUE_BOUND`.
pub const VALUE_BOUND: u32 = 100;

/// A time that cannot be written: it lies outside chrono's range.
#[derive(Clone, Copy, Debug, PartialEq, Eq)]
pub enum FatalError {
    ClockOutOfRange,
}

/// One sample: a value and the time it was taken.
#[derive(Clone, Copy, Debug, PartialEq, Eq)]
pub struct Measurement {
    pub value: u32,
    pub processed_at: Timestamp,
}

/// A monitored entity. `result` holds the serialized latest measurement.
#[derive(Debug)]
pub struct Monitor {
    pub name: Option<String>,
    pub script: Option<String>,
    pub result: Option<String>,
    pub code: String,
}

/// A monitor with its texts as sequences of characters.
pub struct MonitorView {
    pub name: Option<Seq<char>>,
    pub script: Option<Seq<char>>,
    pub result: Option<Seq<char>>,
    pub code: Seq<char>,
}

/// An optional text as an optional sequence of characters.
pub open spec fn opt_text(o: Option<String>) -> Option<Seq<char>> {
    match o {
        Some(s) => Some(s@),
        None => None,
    }
}

impl View for Monitor {
    type V = MonitorView;

    open spec fn view(&self) -> MonitorView {
        MonitorView {
            name: opt_text(self.name),
            script: opt_text(self.script),
            result: opt_text(self.result),
            code: self.code@,
        }
    }
}

/// `{"value":<decimal>,"processed_at":<time>}`, with the time given as JSON.
pub open spec fn payload_with(value: nat, time_json: Seq<char>) -> Seq<char> {
    "{\"value\":"@ + decimal(value) + ",\"processed_at\":"@ + time_json + "}"@
}

/// The payload stored in a monitor's `result`: the value, and the RFC 3339
/// time as a JSON string.
pub open spec fn payload_text(m: Measurement) -> Seq<char> {
    payload_with(
        m.value as nat,
        json_quoted(rfc3339_text(m.processed_at.secs as int, m.processed_at.nanos as int)),
    )
}

/// Frames a value and a time already written as a JSON string into a payload.
pub fn payload_json(value: u32, time_json: &str) -> (r: String)
    ensures
        r@ == payload_with(value as nat, time_json@),
{
    let mut s = String::from_str("{\"value\":");
    let digits = decimal_text(value);
    s.append(digits.as_str());
    s.append(",\"processed_at\":");
    s.append(time_json);
    s.append("}");
    s
}

/// The monitor with its result replaced by `r`, all else kept.
pub open spec fn with_result(m: MonitorView, r: Seq<char>) -> MonitorView {
    MonitorView { name: m.name, script: m.script, result: Some(r), code: m.code }
}

/// Every monitor of `s` with the payload of the matching measurement of `ms`.
pub open spec fn updated(s: Seq<MonitorView>, ms: Seq<Measurement>) -> Seq<MonitorView> {
    Seq::new(s.len(), |i: int| with_result(s[i], payload_text(ms[i])))
}

/// `a` and `b` list the same monitors in the same order: equal names,
/// scripts and codes, whatever their results.
pub open spec fn same_monitors(a: Seq<MonitorView>, b: Seq<MonitorView>) -> bool {
    &&& a.len() == b.len()
    &&& forall|i: int|
        0 <= i < a.len() ==> (#[trigger] a[i]).name == b[i].name && a[i].script == b[i].script
            && a[i].code == b[i].code
}

/// Every monitor of `s` holds a result.
pub open spec fn all_measured(s: Seq<MonitorView>) -> bool {
    forall|i: int| 0 <= i < s.len() ==> (#[trigger] s[i]).result is Some
}

/// `"key":<value>,` where a value (already JSON) is present, nothing where it
/// is absent.
pub open spec fn field_with(key: Seq<char>, v: Option<Seq<char>>) -> Seq<char> {
    match v {
        Some(t) => key + t + ","@,
        None => Seq::empty(),
    }
}

/// A JSON object of a monitor whose field values are already JSON: the
/// present fields in the order name, script, result, code.
pub open spec fn object_with(
    name: Option<Seq<char>>,
    script: Option<Seq<char>>,
    result: Option<Seq<char>>,
    code: Seq<char>,
) -> Seq<char> {
    "{"@ + field_with("\"name\":"@, name) + field_with("\"script\":"@, script) + field_with(
        "\"result\":"@,
        result,
    ) + "\"code\":"@ + code + "}"@
}

/// The JSON string of a text, where it is present.
pub open spec fn quoted_opt(v: Option<Seq<char>>) -> Option<Seq<char>> {
    match v {
        Some(t) => Some(json_quoted(t)),
        None => None,
    }
}

/// The JSON object of one monitor, absent fields left out.
pub open spec fn monitor_text(m: MonitorView) -> Seq<char> {
    object_with(quoted_opt(m.name), quoted_opt(m.script), quoted_opt(m.result), json_quoted(m.code))
}

/// The texts of `items`, separated by commas.
pub open spec fn joined(items: Seq<Seq<char>>) -> Seq<char>
    decreases items.len(),
{
    if items.len() == 0 {
        Seq::empty()
    } else if items.len() == 1 {
        items[0]
    } else {
        joined(items.drop_last()) + ","@ + items.last()
    }
}

/// `{"monitors":[...]}` around objects already written as JSON.
pub open spec fn document_with(objects: Seq<Seq<char>>) -> Seq<char> {
    "{\"monitors\":["@ + joined(objects) + "]}"@
}

/// The serialized store: every monitor's object, in store order.
pub open spec fn store_text(s: Seq<MonitorView>) -> Seq<char> {
    document_with(s.map_values(|m: MonitorView| monitor_text(m)))
}

/// Relies on rand's `thread_rng().gen_range(0..bound)`: a value drawn from
/// `0..bound`. The call panics on an empty range, which `requires` leaves out.
#[verifier::external_body]
fn sample_below(bound: u32) -> (r: u32)
    requires
        bound > 0,
    ensures
        r < bound,
{
    rand::thread_rng().gen_range(0..bound)
}

/// Takes one sample: a value in `0..VALUE_BOUND` and the current time.
pub fn sample_measurement() -> (m: Measurement)
    ensures
        m.value < VALUE_BOUND,
        m.processed_at.wf(),
{
    let value = sample_below(VALUE_BOUND);
    let processed_at = now();
    Measurement { value, processed_at }
}

/// Serializes a measurement to the payload that a monitor's `result` holds.
/// Succeeds for every well-formed time, such as one read from the clock.
pub fn encode_measurement(m: &Measurement) -> (r: Result<String, FatalError>)
    ensures
        r matches Ok(s) ==> s@ == payload_text(*m),
        m.processed_at.wf() ==> r is Ok,
{
    let time = match rfc3339(m.processed_at) {
        Some(t) => t,
        None => return Err(FatalError::ClockOutOfRange),
    };
    let time_json = quoted(time.as_str());
    Ok(payload_json(m.value, time_json.as_str()))
}

impl Monitor {
    /// A monitor as loaded from a configuration: no result yet.
    pub fn new(name: Option<String>, script: Option<String>, code: String) -> (r: Monitor)
        ensures
            r@.name == opt_text(name),
            r@.script == opt_text(script),
            r@.result is None,
            r@.code == code@,
    {
        Monitor { name, script, result: None, code }
    }
}

/// The update step: takes a fresh sample and overwrites the monitor's result
/// with its payload, whatever the monitor held before. Returns the sample.
pub fn update_monitor(monitor: &mut Monitor) -> (m: Measurement)
    ensures
        m.value < VALUE_BOUND,
        m.processed_at.wf(),
        final(monitor)@ == with_result(old(monitor)@, payload_text(m)),
{
    let m = sample_measurement();
    let payload = match encode_measurement(&m) {
        Ok(p) => p,
        Err(_) => vstd::pervasive::unreached(),
    };
    monitor.result = Some(payload);
    m
}

fn append_field(out: &mut String, key: &str, v: &Option<String>)
    ensures
        final(out)@ == old(out)@ + field_with(key@, opt_text(*v)),
{
    match v {
        Some(text) => {
            out.append(key);
            out.append(text.as_str());
            out.append(",");
        },
        None => {
            assert(old(out)@ + field_with(key@, opt_text(*v)) =~= old(out)@);
        },
    }
}

/// Frames the fields of a monitor, each already written as JSON, into the
/// monitor's object.
pub fn monitor_object(
    name: &Option<String>,
    script: &Option<String>,
    result: &Option<String>,
    code: &str,
) -> (r: String)
    ensures
        r@ == object_with(opt_text(*name), opt_text(*script), opt_text(*result), code@),
{
    let mut s = String::from_str("{");
    append_field(&mut s, "\"name\":", name);
    append_field(&mut s, "\"script\":", script);
    append_field(&mut s, "\"result\":", result);
    s.append("\"code\":");
    s.append(code);
    s.append("}");
    s
}

fn quote_opt(v: &Option<String>) -> (r: Option<String>)
    ensures
        opt_text(r) == quoted_opt(opt_text(*v)),
{
    match v {
        Some(text) => Some(quoted(text.as_str())),
        None => None,
    }
}

/// Serializes one monitor to its JSON object, absent fields left out.
pub fn monitor_json(m: &Monitor) -> (r: String)
    ensures
        r@ == monitor_text(m@),
{
    let name = quote_opt(&m.name);
    let script = quote_opt(&m.script);
    let result = quote_opt(&m.result);
    let code = quoted(m.code.as_str());
    monitor_object(&name, &script, &result, code.as_str())
}

/// The monitors in configuration order.
pub struct MonitorStore {
    pub monitors: Vec<Monitor>,
}

impl View for MonitorStore {
    type V = Seq<MonitorView>;

    open spec fn view(&self) -> Seq<MonitorView> {
        self.monitors@.map_values(|m: Monitor| m@)
    }
}

/// Every monitor of `s` with its result replaced by the matching text of `ps`.
pub open spec fn with_results(s: Seq<MonitorView>, ps: Seq<Seq<char>>) -> Seq<MonitorView> {
    Seq::new(s.len(), |i: int| with_result(s[i], ps[i]))
}

impl MonitorStore {
    /// A store holding the monitors in the given order.
    pub fn new(monitors: Vec<Monitor>) -> (r: MonitorStore)
        ensures
            r@ == monitors@.map_values(|m: Monitor| m@),
    {
        MonitorStore { monitors }
    }

    pub fn len(&self) -> (r: usize)
        ensures
            r == self@.len(),
    {
        self.monitors.len()
    }

    /// Overwrites the result of the monitor at each position with the text at
    /// that position of `payloads`.
    pub fn apply_payloads(&mut self, payloads: &Vec<String>)
        requires
            old(self)@.len() == payloads@.len(),
        ensures
            final(self)@ == with_results(old(self)@, payloads@.map_values(|p: String| p@)),
    {
        let ghost start = self@;
        let mut rest: Vec<Monitor> = Vec::new();
        std::mem::swap(&mut self.monitors, &mut rest);
        let n = rest.len();
        let mut i: usize = 0;
        while i < n
            invariant
                n == start.len(),
                n == payloads@.len(),
                i <= n,
                rest@.len() == n - i,
                forall|k: int| 0 <= k < n - i ==> (#[trigger] rest@[k])@ == start[i + k],
                self.monitors@.len() == i,
                forall|k: int| 0 <= k < i ==> (#[trigger] self.monitors@[k])@ == with_result(start[k], payloads@[k]@),
            decreases n - i,
        {
            let mut m = rest.remove(0);
            m.result = Some(payloads[i].clone());
            self.monitors.push(m);
            i += 1;
        }
        assert(self@ =~= with_results(start, payloads@.map_values(|p: String| p@)));
    }

    /// Applies the update step to every monitor, sequentially and in store
    /// order, as one batch: all samples are taken and serialized, then every
    /// result is overwritten. Returns the samples, one per monitor.
    pub fn update_all(&mut self) -> (ms: Vec<Measurement>)
        ensures
            ms@.len() == old(self)@.len(),
            forall|i: int|
                0 <= i < ms@.len() ==> (#[trigger] ms@[i]).value < VALUE_BOUND
                    && ms@[i].processed_at.wf(),
            final(self)@ == updated(old(self)@, ms@),
    {
        let n = self.monitors.len();
        let mut ms: Vec<Measurement> = Vec::new();
        let mut payloads: Vec<String> = Vec::new();
        while ms.len() < n
            invariant
                n == self@.len(),
                ms@.len() == payloads@.len(),
                ms@.len() <= n,
                forall|i: int|
                    0 <= i < ms@.len() ==> (#[trigger] ms@[i]).value < VALUE_BOUND
                        && ms@[i].processed_at.wf() && payloads@[i]@ == payload_text(ms@[i]),
            decreases n - ms@.len(),
        {
            let m = sample_measurement();
            let p = match encode_measurement(&m) {
                Ok(p) => p,
                Err(_) => vstd::pervasive::unreached(),
            };
            ms.push(m);
            payloads.push(p);
        }
        let ghost start = self@;
        self.apply_payloads(&payloads);
        assert(self@ =~= updated(start, ms@));
        ms
    }

    /// Serializes the whole store: `{"monitors":[...]}` with each monitor's
    /// object in store order.
    pub fn to_json(&self) -> (r: String)
        ensures
            r@ == store_text(self@),
    {
        let n = self.monitors.len();
        let mut objects: Vec<String> = Vec::new();
        while objects.len() < n
            invariant
                n == self@.len(),
                objects@.len() <= n,
                forall|k: int|
                    0 <= k < objects@.len() ==> (#[trigger] objects@[k])@ == monitor_text(
                        self@[k],
                    ),
            decreases n - objects@.len(),
        {
            let obj = monitor_json(&self.monitors[objects.len()]);
            objects.push(obj);
        }
        assert(objects@.map_values(|o: String| o@) =~= self@.map_values(
            |m: MonitorView| monitor_text(m),
        ));
        store_document(&objects)
    }
}

/// Frames monitor objects, each already written as JSON, into the store
/// document.
pub fn store_document(objects: &Vec<String>) -> (r: String)
    ensures
        r@ == document_with(objects@.map_values(|o: String| o@)),
{
    let ghost items = objects@.map_values(|o: String| o@);
    let mut s = String::from_str("{\"monitors\":[");
    let n = objects.len();
    let mut i: usize = 0;
    while i < n
        invariant
            n == objects@.len(),
            items == objects@.map_values(|o: String| o@),
            i <= n,
            s@ == "{\"monitors\":["@ + joined(items.take(i as int)),
        decreases n - i,
    {
        proof {
            let t = items.take(i + 1);
            assert(t.drop_last() =~= items.take(i as int));
            assert(t.last() == objects@[i as int]@);
        }
        if i > 0 {
            s.append(",");
        } else {
            assert(items.take(1).len() == 1);
        }
        s.append(objects[i].as_str());
        i += 1;
    }
    s.append("]}");
    assert(items.take(n as int) =~= items);
    s
}

/// Two update batches in a row leave each monitor with exactly one result,
/// the second batch's: nothing of the first remains, and every other field
/// and the order of the monitors are kept.
pub proof fn lemma_update_twice(
    s: Seq<MonitorView>,
    first: Seq<Measurement>,
    second: Seq<Measurement>,
)
    requires
        first.len() == s.len(),
        second.len() == s.len(),
    ensures
        updated(updated(s, first), second) == updated(s, second),
        all_measured(updated(s, second)),
        same_monitors(s, updated(updated(s, first), second)),
{
    assert(updated(updated(s, first), second) =~= updated(s, second));
}

/// An empty store serializes to an empty monitor list.
pub proof fn lemma_empty_store_text()
    ensures
        store_text(Seq::empty()) == "{\"monitors\":[]}"@,
{
    reveal_strlit("{\"monitors\":[");
    reveal_strlit("]}");
    reveal_strlit("{\"monitors\":[]}");
    assert(store_text(Seq::empty()) =~= "{\"monitors\":[]}"@);
}

} // verus!
