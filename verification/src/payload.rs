//! Task payloads: JSON documents read into plain values.
//!
//! A payload is a JSON object with a `tool` (the task kind) and `params` (the
//! parameters of the task). The JSON grammar is `serde_json`'s; this module
//! reads the parsed document into values of its own, one level deep: every
//! value is kept as its compact JSON text, and a JSON string also as the text
//! it holds. Two values are the same when their compact JSON texts are equal;
//! so `0.0` and `-0.0`, which are written differently, are different values
//! here.

use vstd::prelude::*;

verus! {

/// A JSON value.
#[derive(Debug, Clone)]
pub struct ParamValue {
    /// The value in compact JSON notation.
    pub json: String,
    /// The text held by the value, if it is a JSON string.
    pub text: Option<String>,
}

/// The value that a [`ParamValue`] stands for in contracts.
pub struct ParamValueView {
    pub json: Seq<char>,
    pub text: Option<Seq<char>>,
}

impl View for ParamValue {
    type V = ParamValueView;

    open spec fn view(&self) -> ParamValueView {
        ParamValueView {
            json: self.json@,
            text: match self.text {
                Some(t) => Some(t@),
                None => None,
            },
        }
    }
}

/// A member of a JSON object.
#[derive(Debug, Clone)]
pub struct ParamEntry {
    pub key: String,
    pub value: ParamValue,
}

/// The value that a [`ParamEntry`] stands for in contracts.
pub struct ParamEntryView {
    pub key: Seq<char>,
    pub value: ParamValueView,
}

impl View for ParamEntry {
    type V = ParamEntryView;

    open spec fn view(&self) -> ParamEntryView {
        ParamEntryView { key: self.key@, value: self.value@ }
    }
}

/// A JSON document: an object, read into its members, or any other value.
#[derive(Debug, Clone)]
pub enum Params {
    Object(Vec<ParamEntry>),
    Other(ParamValue),
}

/// The value that a [`Params`] stands for in contracts.
pub enum ParamsView {
    Object(Seq<ParamEntryView>),
    Other(ParamValueView),
}

/// The views of the entries, in order.
pub open spec fn entry_views(entries: Seq<ParamEntry>) -> Seq<ParamEntryView> {
    entries.map_values(|e: ParamEntry| e@)
}

/// The keys of the entries, in order.
pub open spec fn keys_of(entries: Seq<ParamEntryView>) -> Seq<Seq<char>> {
    entries.map_values(|e: ParamEntryView| e.key)
}

/// Position of the first entry at or after `from` whose key is `key`.
pub open spec fn position_from(entries: Seq<ParamEntryView>, key: Seq<char>, from: int) -> Option<
    int,
>
    decreases entries.len() - from,
{
    if from < 0 || from >= entries.len() {
        None
    } else if entries[from].key == key {
        Some(from)
    } else {
        position_from(entries, key, from + 1)
    }
}

impl View for Params {
    type V = ParamsView;

    open spec fn view(&self) -> ParamsView {
        match self {
            Params::Object(entries) => ParamsView::Object(entry_views(entries@)),
            Params::Other(v) => ParamsView::Other(v@),
        }
    }
}

impl ParamsView {
    /// No key occurs twice.
    pub open spec fn wf(self) -> bool {
        match self {
            ParamsView::Object(entries) => keys_of(entries).no_duplicates(),
            ParamsView::Other(_) => true,
        }
    }

    /// The value under `key`, if the document is an object that has the key.
    pub open spec fn lookup(self, key: Seq<char>) -> Option<ParamValueView> {
        match self {
            ParamsView::Object(entries) => match position_from(entries, key, 0) {
                Some(i) => Some(entries[i].value),
                None => None,
            },
            ParamsView::Other(_) => None,
        }
    }

    /// The text under `key`, if the document is an object that has the key
    /// with a JSON string as its value.
    pub open spec fn text_of(self, key: Seq<char>) -> Option<Seq<char>> {
        match self.lookup(key) {
            Some(v) => v.text,
            None => None,
        }
    }

    /// Number of members, zero for a document that is no object.
    pub open spec fn count(self) -> nat {
        match self {
            ParamsView::Object(entries) => entries.len(),
            ParamsView::Other(_) => 0,
        }
    }
}

/// What `serde_json` reads from a text: `None` if the text is not one JSON
/// document, else the document.
pub uninterp spec fn json_document(text: Seq<char>) -> Option<ParamsView>;

/// `serde_json::from_str` into a `serde_json::Value`, converted. Trusted:
/// the result is what `serde_json` reads, which the contract only names. An
/// object becomes its members in the order of `serde_json`'s map, in which
/// no key occurs twice; each value is kept as `Value::to_string` prints it,
/// and as the text of `Value::as_str`.
#[verifier::external_body]
pub(crate) fn read_json(text: &str) -> (r: Option<Params>)
    ensures
        (r is Some) == (json_document(text@) is Some),
        r matches Some(doc) ==> doc@ == json_document(text@)->0 && doc@.wf(),
{
    let conv = |v: &serde_json::Value| ParamValue {
        json: v.to_string(),
        text: v.as_str().map(String::from),
    };
    match serde_json::from_str::<serde_json::Value>(text) {
        Ok(serde_json::Value::Object(m)) => Some(Params::Object(
            m.iter().map(|(k, v)| ParamEntry { key: k.clone(), value: conv(v) }).collect(),
        )),
        Ok(v) => Some(Params::Other(conv(&v))),
        Err(_) => None,
    }
}

impl ParamValue {
    /// A copy of the value.
    pub fn duplicate(&self) -> (r: ParamValue)
        ensures
            r@ == self@,
    {
        ParamValue {
            json: self.json.clone(),
            text: match &self.text {
                Some(t) => Some(t.clone()),
                None => None,
            },
        }
    }

    /// Whether two values are the same: their compact JSON texts are equal.
    pub fn same_as(&self, other: &ParamValue) -> (r: bool)
        ensures
            r == (self@.json == other@.json),
    {
        self.json == other.json
    }
}

impl ParamEntry {
    /// A copy of the entry.
    pub fn duplicate(&self) -> (r: ParamEntry)
        ensures
            r@ == self@,
    {
        ParamEntry { key: self.key.clone(), value: self.value.duplicate() }
    }
}

impl Params {
    /// The empty object.
    pub fn empty() -> (r: Params)
        ensures
            r@ == ParamsView::Object(Seq::empty()),
            r@.wf(),
    {
        let r = Params::Object(Vec::new());
        assert(entry_views(Seq::<ParamEntry>::empty()) =~= Seq::empty());
        r
    }

    /// Reads a JSON text. `None` if the text is not one JSON document.
    pub fn parse(text: &str) -> (r: Option<Params>)
        ensures
            (r is Some) == (json_document(text@) is Some),
            r matches Some(doc) ==> doc@ == json_document(text@)->0 && doc@.wf(),
    {
        read_json(text)
    }

    /// Number of members, zero for a document that is no object.
    pub fn count(&self) -> (r: usize)
        ensures
            r == self@.count(),
    {
        match self {
            Params::Object(entries) => entries.len(),
            Params::Other(_) => 0,
        }
    }

    /// The value under `key`, if the document is an object that has the key.
    pub fn get(&self, key: &str) -> (r: Option<&ParamValue>)
        ensures
            match r {
                Some(v) => self@.lookup(key@) == Some(v@),
                None => self@.lookup(key@) is None,
            },
    {
        match self {
            Params::Object(entries) => {
                let wanted = String::from_str(key);
                let n = entries.len();
                let mut i: usize = 0;
                while i < n
                    invariant
                        n == entries@.len(),
                        i <= n,
                        wanted@ == key@,
                        self@ == ParamsView::Object(entry_views(entries@)),
                        position_from(entry_views(entries@), key@, 0) == position_from(
                            entry_views(entries@),
                            key@,
                            i as int,
                        ),
                    decreases n - i,
                {
                    if entries[i].key == wanted {
                        return Some(&entries[i].value);
                    }
                    i = i + 1;
                }
                None
            },
            Params::Other(_) => None,
        }
    }

    /// The text under `key`, if the document is an object that has the key
    /// with a JSON string as its value.
    pub fn get_text(&self, key: &str) -> (r: Option<&String>)
        ensures
            match r {
                Some(t) => self@.text_of(key@) == Some(t@),
                None => self@.text_of(key@) is None,
            },
    {
        match self.get(key) {
            Some(v) => match &v.text {
                Some(t) => Some(t),
                None => None,
            },
            None => None,
        }
    }
}

/// The document that a stored parameter text stands for: the empty object
/// where the text is not one JSON document.
pub open spec fn stored_params(json: Seq<char>) -> ParamsView {
    match json_document(json) {
        Some(doc) => doc,
        None => ParamsView::Object(Seq::empty()),
    }
}

/// The document that the compact JSON text of a value stands for: the value
/// itself, unread, where the text is not one JSON document.
pub open spec fn params_of_json(json: Seq<char>) -> ParamsView {
    match json_document(json) {
        Some(doc) => doc,
        None => ParamsView::Other(ParamValueView { json, text: None }),
    }
}

impl Params {
    /// Reads a stored parameter text; the empty object if the text is not
    /// one JSON document.
    pub fn from_stored(json: &str) -> (r: Params)
        ensures
            r@ == stored_params(json@),
            r@.wf(),
    {
        match Params::parse(json) {
            Some(doc) => doc,
            None => Params::empty(),
        }
    }
}

/// A unit of work: the kind of task and its parameters.
#[derive(Debug, Clone)]
pub struct Task {
    /// The task kind.
    pub tool: String,
    /// The parameters.
    pub params: Params,
    /// The parameters in compact JSON notation.
    pub params_json: String,
}

/// The value that a [`Task`] stands for in contracts.
pub struct TaskView {
    pub tool: Seq<char>,
    pub params: ParamsView,
    pub params_json: Seq<char>,
}

impl View for Task {
    type V = TaskView;

    open spec fn view(&self) -> TaskView {
        TaskView { tool: self.tool@, params: self.params@, params_json: self.params_json@ }
    }
}

/// The task that stands for every malformed payload: kind `unknown`, no
/// parameters.
pub open spec fn unknown_task() -> TaskView {
    TaskView { tool: "unknown"@, params: ParamsView::Object(Seq::empty()), params_json: "{}"@ }
}

/// The task that a JSON document describes. The kind is the text under
/// `tool`, or `unknown` where there is none; the parameters are the value
/// under `params`, or `null` where there is none.
pub open spec fn task_of_document(doc: ParamsView) -> TaskView {
    let params_json = match doc.lookup("params"@) {
        Some(v) => v.json,
        None => "null"@,
    };
    TaskView {
        tool: match doc.text_of("tool"@) {
            Some(t) => t,
            None => "unknown"@,
        },
        params: params_of_json(params_json),
        params_json,
    }
}

/// The task that a payload describes; [`unknown_task`] where the payload is
/// not one JSON document.
pub open spec fn task_of_payload(payload: Seq<char>) -> TaskView {
    match json_document(payload) {
        Some(doc) => task_of_document(doc),
        None => unknown_task(),
    }
}

impl Task {
    /// The task that stands for every malformed payload.
    pub fn unknown() -> (r: Task)
        ensures
            r@ == unknown_task(),
            r.params@.wf(),
    {
        Task {
            tool: String::from_str("unknown"),
            params: Params::empty(),
            params_json: String::from_str("{}"),
        }
    }

    /// The task that the document `doc` describes.
    pub fn from_document(doc: &Params) -> (r: Task)
        ensures
            r@ == task_of_document(doc@),
            r.params@.wf(),
    {
        let tool = match doc.get_text("tool") {
            Some(t) => t.clone(),
            None => String::from_str("unknown"),
        };
        let params_json = match doc.get("params") {
            Some(v) => v.json.clone(),
            None => String::from_str("null"),
        };
        let params = match Params::parse(params_json.as_str()) {
            Some(p) => p,
            None => Params::Other(ParamValue { json: params_json.clone(), text: None }),
        };
        Task { tool, params, params_json }
    }

    /// Reads a payload. A payload that is not one JSON document is not
    /// rejected: it reads as [`Task::unknown`].
    pub fn from_payload(payload: &str) -> (r: Task)
        ensures
            r@ == task_of_payload(payload@),
            r.params@.wf(),
    {
        match Params::parse(payload) {
            Some(doc) => Task::from_document(&doc),
            None => Task::unknown(),
        }
    }
}

} // verus!
