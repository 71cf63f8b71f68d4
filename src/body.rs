use vstd::prelude::*;
use vstd::string::StringExecFns;
use crate::decimal::{decimal, int_text};
use crate::schema::TimeEntry;
use crate::text::{join_texts, joined, json_string, json_string_text, texts};
use crate::time::{Timestamp, rfc3339_text};

verus! {

/// One member of a JSON object: the quoted key, a colon, the value's text.
pub open spec fn member(key: Seq<char>, value: Seq<char>) -> Seq<char> {
    "\""@ + key + "\":"@ + value
}

/// The members of an object, one for each key and value text.
pub open spec fn members(fields: Seq<(Seq<char>, Seq<char>)>) -> Seq<Seq<char>> {
    fields.map_values(|f: (Seq<char>, Seq<char>)| member(f.0, f.1))
}

/// The compact JSON text of an object with the given keys and value texts, in
/// that order.
pub open spec fn object_text(fields: Seq<(Seq<char>, Seq<char>)>) -> Seq<char> {
    "{"@ + joined(members(fields), ","@) + "}"@
}

/// The keys of an object's fields, in order.
pub open spec fn keys(fields: Seq<(Seq<char>, Seq<char>)>) -> Seq<Seq<char>> {
    fields.map_values(|f: (Seq<char>, Seq<char>)| f.0)
}

/// One field where a value is present, none where it is absent.
pub open spec fn opt_field(key: Seq<char>, value: Option<Seq<char>>) -> Seq<(Seq<char>, Seq<char>)> {
    match value {
        Some(v) => seq![(key, v)],
        None => Seq::empty(),
    }
}

pub open spec fn int_json(v: Option<i64>) -> Option<Seq<char>> {
    match v {
        Some(n) => Some(decimal(n as int)),
        None => None,
    }
}

pub open spec fn bool_value(b: bool) -> Seq<char> {
    if b {
        "true"@
    } else {
        "false"@
    }
}

pub open spec fn bool_json(v: Option<bool>) -> Option<Seq<char>> {
    match v {
        Some(b) => Some(bool_value(b)),
        None => None,
    }
}

pub open spec fn string_json(v: Option<String>) -> Option<Seq<char>> {
    match v {
        Some(s) => Some(json_string_text(s@)),
        None => None,
    }
}

/// A timestamp is written as a JSON string of its ISO 8601 text.
pub open spec fn time_value(t: Timestamp) -> Seq<char> {
    json_string_text(rfc3339_text(t.secs_spec(), t.nanos_spec()))
}

pub open spec fn time_json(v: Option<Timestamp>) -> Option<Seq<char>> {
    match v {
        Some(t) => Some(time_value(t)),
        None => None,
    }
}

/// A list of strings is written as a JSON array of JSON strings.
pub open spec fn strings_value(items: Seq<String>) -> Seq<char> {
    "["@ + joined(texts(items).map_values(|s: Seq<char>| json_string_text(s)), ","@) + "]"@
}

pub open spec fn strings_json(v: Option<Vec<String>>) -> Option<Seq<char>> {
    match v {
        Some(items) => Some(strings_value(items@)),
        None => None,
    }
}

/// The fields a time entry is written with, in declaration order: each
/// optional field only where it is set.
pub open spec fn entry_fields(e: TimeEntry) -> Seq<(Seq<char>, Seq<char>)> {
    opt_field("id"@, int_json(e.id)) + opt_field("description"@, string_json(e.description))
        + opt_field("wid"@, int_json(e.wid)) + opt_field("pid"@, int_json(e.pid))
        + opt_field("tid"@, int_json(e.tid)) + opt_field("billable"@, bool_json(e.billable))
        + opt_field("start"@, Some(time_value(e.start))) + opt_field("stop"@, time_json(e.stop))
        + opt_field("duration"@, Some(decimal(e.duration as int)))
        + opt_field("created_with"@, string_json(e.created_with))
        + opt_field("tags"@, strings_json(e.tags)) + opt_field("duronly"@, bool_json(e.duronly))
        + opt_field("at"@, time_json(e.at))
}

fn bool_text(b: bool) -> (r: String)
    ensures
        r@ == bool_value(b),
{
    if b {
        String::from_str("true")
    } else {
        String::from_str("false")
    }
}

fn member_text(key: &str, value: &str) -> (r: String)
    ensures
        r@ == member(key@, value@),
{
    String::from_str("\"").concat(key).concat("\":").concat(value)
}

fn object_from_members(items: &Vec<String>) -> (r: String)
    ensures
        r@ == "{"@ + joined(texts(items@), ","@) + "}"@,
{
    let inner = join_texts(items, ",");
    String::from_str("{").concat(inner.as_str()).concat("}")
}

/// Adds the member of an optional field to the members written so far.
fn add_field(
    out: &mut Vec<String>,
    fields: Ghost<Seq<(Seq<char>, Seq<char>)>>,
    key: &str,
    value: Option<String>,
) -> (r: Ghost<Seq<(Seq<char>, Seq<char>)>>)
    requires
        texts(old(out)@) == members(fields@),
    ensures
        r@ == fields@ + opt_field(key@, opt_chars(value)),
        texts(final(out)@) == members(r@),
{
    let ghost added = fields@ + opt_field(key@, opt_chars(value));
    let ghost before = out@;
    match value {
        Some(v) => {
            let m = member_text(key, v.as_str());
            out.push(m);
            assert(texts(out@) =~= texts(before).push(m@));
            assert(members(added) =~= members(fields@).push(member(key@, v@)));
        },
        None => {
            assert(added =~= fields@);
        },
    }
    Ghost(added)
}

pub open spec fn opt_chars(v: Option<String>) -> Option<Seq<char>> {
    match v {
        Some(s) => Some(s@),
        None => None,
    }
}

fn int_field(v: Option<i64>) -> (r: Option<String>)
    ensures
        opt_chars(r) == int_json(v),
{
    match v {
        Some(n) => Some(int_text(n)),
        None => None,
    }
}

fn bool_field(v: Option<bool>) -> (r: Option<String>)
    ensures
        opt_chars(r) == bool_json(v),
{
    match v {
        Some(b) => Some(bool_text(b)),
        None => None,
    }
}

fn string_field(v: &Option<String>) -> (r: Option<String>)
    ensures
        opt_chars(r) == string_json(*v),
{
    match v {
        Some(s) => Some(json_string(s.as_str())),
        None => None,
    }
}

fn time_text(t: &Timestamp) -> (r: String)
    ensures
        r@ == time_value(*t),
{
    let iso = t.to_rfc3339();
    json_string(iso.as_str())
}

fn time_field(v: &Option<Timestamp>) -> (r: Option<String>)
    ensures
        opt_chars(r) == time_json(*v),
{
    match v {
        Some(t) => Some(time_text(t)),
        None => None,
    }
}

fn strings_text(items: &Vec<String>) -> (r: String)
    ensures
        r@ == strings_value(items@),
{
    let mut quoted: Vec<String> = Vec::new();
    let mut i: usize = 0;
    while i < items.len()
        invariant
            i <= items@.len(),
            texts(quoted@) =~= texts(items@.subrange(0, i as int)).map_values(
                |s: Seq<char>| json_string_text(s),
            ),
        decreases items@.len() - i,
    {
        let ghost before = quoted@;
        let q = json_string(items[i].as_str());
        quoted.push(q);
        proof {
            let done = texts(items@.subrange(0, i as int));
            let next = texts(items@.subrange(0, i + 1));
            assert(next =~= done.push(items@[i as int]@));
            assert(texts(quoted@) =~= texts(before).push(q@));
        }
        i = i + 1;
    }
    assert(items@.subrange(0, items@.len() as int) =~= items@);
    let inner = join_texts(&quoted, ",");
    String::from_str("[").concat(inner.as_str()).concat("]")
}

fn strings_field(v: &Option<Vec<String>>) -> (r: Option<String>)
    ensures
        opt_chars(r) == strings_json(*v),
{
    match v {
        Some(items) => Some(strings_text(items)),
        None => None,
    }
}

impl TimeEntry {
    /// The compact JSON text of the entry. Optional fields that are unset are
    /// left out, not written as `null`.
    pub fn to_json(&self) -> (r: String)
        ensures
            r@ == object_text(entry_fields(*self)),
    {
        let mut out: Vec<String> = Vec::new();
        assert(texts(out@) =~= members(Seq::empty()));
        let f = add_field(&mut out, Ghost(Seq::empty()), "id", int_field(self.id));
        assert(f@ =~= opt_field("id"@, int_json(self.id)));
        let f = add_field(&mut out, f, "description", string_field(&self.description));
        let f = add_field(&mut out, f, "wid", int_field(self.wid));
        let f = add_field(&mut out, f, "pid", int_field(self.pid));
        let f = add_field(&mut out, f, "tid", int_field(self.tid));
        let f = add_field(&mut out, f, "billable", bool_field(self.billable));
        let f = add_field(&mut out, f, "start", Some(time_text(&self.start)));
        let f = add_field(&mut out, f, "stop", time_field(&self.stop));
        let f = add_field(&mut out, f, "duration", Some(int_text(self.duration)));
        let f = add_field(&mut out, f, "created_with", string_field(&self.created_with));
        let f = add_field(&mut out, f, "tags", strings_field(&self.tags));
        let f = add_field(&mut out, f, "duronly", bool_field(self.duronly));
        let f = add_field(&mut out, f, "at", time_field(&self.at));
        assert(f@ == entry_fields(*self));
        object_from_members(&out)
    }
}

/// The body that creates a time entry: the entry under the key `time_entry`.
pub fn time_entry_request(entry: &TimeEntry) -> (r: String)
    ensures
        r@ == object_text(seq![("time_entry"@, object_text(entry_fields(*entry)))]),
{
    let inner = entry.to_json();
    let mut out: Vec<String> = Vec::new();
    out.push(member_text("time_entry", inner.as_str()));
    proof {
        let fields = seq![("time_entry"@, inner@)];
        assert(texts(out@) =~= members(fields));
    }
    object_from_members(&out)
}

/// Serializing an entry leaves out every optional field that is unset: with
/// none set, the object has exactly the keys `start` and `duration`.
pub proof fn unset_fields_are_omitted(e: TimeEntry)
    requires
        e.id is None,
        e.description is None,
        e.wid is None,
        e.pid is None,
        e.tid is None,
        e.billable is None,
        e.stop is None,
        e.created_with is None,
        e.tags is None,
        e.duronly is None,
        e.at is None,
    ensures
        keys(entry_fields(e)) == seq!["start"@, "duration"@],
{
    assert(keys(entry_fields(e)) =~= seq!["start"@, "duration"@]);
}

} // verus!
