//! The enforcement backend: one named set of hardware addresses in the
//! kernel packet filter, operated through an external filter-management
//! tool that takes a structured JSON command document.
//!
//! The backend never runs the tool itself: each operation builds the
//! exact command document, the surrounding service invokes the tool with
//! it, and the listing parser reads the tool's structured output back.
//! Every string embedded into a document is validated first — a hardware
//! address against the canonical format, the table and set names against
//! the set of characters that need no JSON escaping — so that unvalidated
//! input can never reach the command invocation layer.

use vstd::prelude::*;
use vstd::string::*;

use crate::errors::Error;
use crate::mac::{is_mac_valid, spec_mac_valid};
use crate::text::{is_plain_text, spec_plain_text};

verus! {

/// The named enforcement set: protocol family `inet`, a table and a set
/// name chosen by configuration.
pub struct Nftables {
    pub table: String,
    pub set: String,
}

/// The command document that lists the set.
pub open spec fn spec_list_document(table: Seq<char>, set: Seq<char>) -> Seq<char> {
    "{\"nftables\":[{\"list\":{\"set\":{\"family\":\"inet\",\"table\":\""@ + table
        + "\",\"name\":\""@ + set + "\"}}}]}"@
}

/// The given texts each wrapped in double quotes, joined with commas.
pub open spec fn spec_quoted_items(items: Seq<Seq<char>>) -> Seq<char>
    decreases items.len(),
{
    if items.len() == 0 {
        Seq::empty()
    } else if items.len() == 1 {
        "\""@ + items[0] + "\""@
    } else {
        spec_quoted_items(items.drop_last()) + ",\""@ + items.last() + "\""@
    }
}

/// The command document that adds or deletes the given elements, with
/// `verb` either of the tool's two mutation verbs.
pub open spec fn spec_element_document(
    verb: Seq<char>,
    table: Seq<char>,
    set: Seq<char>,
    items: Seq<Seq<char>>,
) -> Seq<char> {
    "{\"nftables\":[{\""@ + verb + "\":{\"element\":{\"family\":\"inet\",\"table\":\""@ + table
        + "\",\"name\":\""@ + set + "\",\"elem\":["@ + spec_quoted_items(items) + "]}}}]}"@
}

/// Joins the given strings, each wrapped in double quotes, with commas.
fn quoted_items(items: &Vec<String>) -> (r: String)
    ensures
        r@ == spec_quoted_items(items.deep_view()),
{
    let mut r = String::new();
    let mut i: usize = 0;
    while i < items.len()
        invariant
            i <= items@.len(),
            r@ == spec_quoted_items(items.deep_view().take(i as int)),
        decreases items@.len() - i,
    {
        if i > 0 {
            r.append(",\"");
        } else {
            r.append("\"");
        }
        r.append(items[i].as_str());
        r.append("\"");
        proof {
            let dv = items.deep_view();
            assert(dv.take(i as int + 1).drop_last() =~= dv.take(i as int));
            assert(dv.take(i as int + 1).last() == dv[i as int]);
            assert(dv[i as int] == items@[i as int]@);
            assert(r@ =~= spec_quoted_items(dv.take(i as int + 1)));
        }
        i += 1;
    }
    proof {
        assert(items.deep_view().take(items@.len() as int) =~= items.deep_view());
    }
    r
}

/// Checks that every given string is a canonically formed hardware
/// address.
fn all_macs_valid(items: &Vec<String>) -> (r: bool)
    ensures
        r == (forall|i: int|
            0 <= i < items@.len() ==> spec_mac_valid(#[trigger] items.deep_view()[i])),
{
    let mut i: usize = 0;
    while i < items.len()
        invariant
            i <= items@.len(),
            forall|j: int| 0 <= j < i ==> spec_mac_valid(#[trigger] items.deep_view()[j]),
        decreases items@.len() - i,
    {
        if !is_mac_valid(items[i].as_str()) {
            proof {
                assert(items.deep_view()[i as int] == items@[i as int]@);
            }
            return false;
        }
        proof {
            assert(items.deep_view()[i as int] == items@[i as int]@);
        }
        i += 1;
    }
    true
}

impl Nftables {
    /// A handle on the named set; nothing is validated or contacted yet.
    pub fn new(table: String, set: String) -> (r: Self)
        ensures
            r.table@ == table@,
            r.set@ == set@,
    {
        Nftables { table, set }
    }

    /// Whether the configured table and set names can be embedded
    /// verbatim into a command document.
    pub open spec fn spec_names_plain(&self) -> bool {
        spec_plain_text(self.table@) && spec_plain_text(self.set@)
    }

    /// The command document that lists the set's elements, or a
    /// validation error when the configured names cannot be embedded.
    pub fn list_command(&self) -> (r: Result<String, Error>)
        ensures
            r is Ok <==> self.spec_names_plain(),
            r matches Ok(doc) ==> doc@ == spec_list_document(self.table@, self.set@),
            r matches Err(e) ==> e is ValidationError,
    {
        if !is_plain_text(self.table.as_str()) || !is_plain_text(self.set.as_str()) {
            return Err(Error::ValidationError);
        }
        let mut doc = String::new();
        doc.append("{\"nftables\":[{\"list\":{\"set\":{\"family\":\"inet\",\"table\":\"");
        doc.append(self.table.as_str());
        doc.append("\",\"name\":\"");
        doc.append(self.set.as_str());
        doc.append("\"}}}]}");
        proof {
            assert(doc@ =~= spec_list_document(self.table@, self.set@));
        }
        Ok(doc)
    }

    /// The command document that adds or deletes the given elements.
    fn element_command(&self, verb: &str, items: &Vec<String>) -> (r: Result<String, Error>)
        ensures
            r is Ok <==> (self.spec_names_plain() && (forall|i: int|
                0 <= i < items@.len() ==> spec_mac_valid(#[trigger] items.deep_view()[i]))),
            r matches Ok(doc) ==> doc@ == spec_element_document(
                verb@,
                self.table@,
                self.set@,
                items.deep_view(),
            ),
            r matches Err(e) ==> e is ValidationError,
    {
        if !is_plain_text(self.table.as_str()) || !is_plain_text(self.set.as_str())
            || !all_macs_valid(items) {
            return Err(Error::ValidationError);
        }
        let mut doc = String::new();
        doc.append("{\"nftables\":[{\"");
        doc.append(verb);
        doc.append("\":{\"element\":{\"family\":\"inet\",\"table\":\"");
        doc.append(self.table.as_str());
        doc.append("\",\"name\":\"");
        doc.append(self.set.as_str());
        doc.append("\",\"elem\":[");
        doc.append(quoted_items(items).as_str());
        doc.append("]}}}]}");
        proof {
            assert(doc@ =~= spec_element_document(
                verb@,
                self.table@,
                self.set@,
                items.deep_view(),
            ));
        }
        Ok(doc)
    }

    /// The command document that adds the given hardware addresses to the
    /// set. Adding an already-present element is not an error of the
    /// tool, so the command is idempotent. Every address is validated
    /// against the canonical format before it is embedded.
    pub fn add_items_in_set(&self, items: &Vec<String>) -> (r: Result<String, Error>)
        ensures
            r is Ok <==> (self.spec_names_plain() && (forall|i: int|
                0 <= i < items@.len() ==> spec_mac_valid(#[trigger] items.deep_view()[i]))),
            r matches Ok(doc) ==> doc@ == spec_element_document(
                "add"@,
                self.table@,
                self.set@,
                items.deep_view(),
            ),
            r matches Err(e) ==> e is ValidationError,
    {
        self.element_command("add", items)
    }

    /// The command document that deletes the given hardware addresses
    /// from the set. Deleting an absent element is a documented failure
    /// mode of the tool itself and surfaces as a tool failure, not as a
    /// validation error here.
    pub fn delete_items_in_set(&self, items: &Vec<String>) -> (r: Result<String, Error>)
        ensures
            r is Ok <==> (self.spec_names_plain() && (forall|i: int|
                0 <= i < items@.len() ==> spec_mac_valid(#[trigger] items.deep_view()[i]))),
            r matches Ok(doc) ==> doc@ == spec_element_document(
                "delete"@,
                self.table@,
                self.set@,
                items.deep_view(),
            ),
            r matches Err(e) ==> e is ValidationError,
    {
        self.element_command("delete", items)
    }

    /// Flush as list-then-delete: given the elements the tool just
    /// listed, the command that deletes them all. Not atomic — an element
    /// added between the listing and this deletion survives; that race is
    /// a documented limitation, mitigated by keeping full resyncs rare.
    pub fn flush_set(&self, current: &Vec<String>) -> (r: Result<String, Error>)
        ensures
            r is Ok <==> (self.spec_names_plain() && (forall|i: int|
                0 <= i < current@.len() ==> spec_mac_valid(#[trigger] current.deep_view()[i]))),
            r matches Ok(doc) ==> doc@ == spec_element_document(
                "delete"@,
                self.table@,
                self.set@,
                current.deep_view(),
            ),
            r matches Err(e) ==> e is ValidationError,
    {
        self.delete_items_in_set(current)
    }
}

#[verifier::external_type_specification]
#[verifier::external_body]
pub struct ExValue(serde_json::Value);

/// The shape of a parsed JSON value, as far as the listing reader looks
/// at one: a string, an array, an object, or anything else.
pub enum JsonModel {
    Text(Seq<char>),
    Arr(Seq<JsonModel>),
    Obj(Map<Seq<char>, JsonModel>),
    Other,
}

/// What shape a given `serde_json::Value` has: a function of the value
/// alone, applied by the accessor wrappers below.
pub uninterp spec fn spec_model_of(v: serde_json::Value) -> JsonModel;

/// What `serde_json::from_slice::<serde_json::Value>` returns for the
/// given bytes — `None` when they are not one valid JSON document — as a
/// function of the bytes alone.
pub uninterp spec fn spec_parsed(bytes: Seq<u8>) -> Option<JsonModel>;

/// Member lookup on a model: a value only when the model is an object
/// that carries the key.
pub open spec fn spec_member(m: JsonModel, key: Seq<char>) -> Option<JsonModel> {
    match m {
        JsonModel::Obj(fields) => if fields.contains_key(key) {
            Some(fields[key])
        } else {
            None
        },
        _ => None,
    }
}

/// The text of a model known to be a string.
pub open spec fn spec_text_of(m: JsonModel) -> Seq<char> {
    match m {
        JsonModel::Text(t) => t,
        _ => Seq::empty(),
    }
}

/// The items of a model known to be an array.
spec fn spec_items_of(m: JsonModel) -> Seq<JsonModel> {
    match m {
        JsonModel::Arr(items) => items,
        _ => Seq::empty(),
    }
}

/// Relies on `serde_json::from_slice::<serde_json::Value>`: parses the
/// bytes as one JSON document, `None` when they are not valid JSON. The
/// result depends on the bytes alone; `spec_parsed` names it.
#[verifier::external_body]
fn parse_json(bytes: &[u8]) -> (r: Option<serde_json::Value>)
    ensures
        r is Some <==> spec_parsed(bytes@) is Some,
        r matches Some(v) ==> spec_parsed(bytes@) == Some(spec_model_of(v)),
{
    serde_json::from_slice::<serde_json::Value>(bytes).ok()
}

/// Relies on `serde_json::Value::get` with a string index: the member
/// when the value is an object that carries the key, `None` otherwise.
#[verifier::external_body]
fn json_member<'a>(v: &'a serde_json::Value, key: &str) -> (r: Option<&'a serde_json::Value>)
    ensures
        r is Some <==> spec_member(spec_model_of(*v), key@) is Some,
        r matches Some(m) ==> spec_member(spec_model_of(*v), key@) == Some(spec_model_of(*m)),
{
    v.get(key)
}

/// Relies on `serde_json::Value::as_array`: the elements when the value
/// is an array, `None` otherwise.
#[verifier::external_body]
fn json_array<'a>(v: &'a serde_json::Value) -> (r: Option<&'a Vec<serde_json::Value>>)
    ensures
        r is Some <==> spec_model_of(*v) is Arr,
        r matches Some(a) ==> spec_model_of(*v) matches JsonModel::Arr(models) && a@.len()
            == models.len() && (forall|i: int|
            0 <= i < models.len() ==> spec_model_of(#[trigger] a@[i]) == models[i]),
{
    v.as_array()
}

/// Relies on `serde_json::Value::as_str`: the text when the value is a
/// string, `None` otherwise.
#[verifier::external_body]
fn json_text<'a>(v: &'a serde_json::Value) -> (r: Option<&'a str>)
    ensures
        r is Some <==> spec_model_of(*v) is Text,
        r matches Some(s) ==> spec_model_of(*v) matches JsonModel::Text(t) && s@ == t,
{
    v.as_str()
}

/// The texts of an element array: defined exactly when every element is
/// a string.
pub open spec fn spec_texts_of(items: Seq<JsonModel>) -> Option<Seq<Seq<char>>> {
    if forall|i: int| 0 <= i < items.len() ==> (#[trigger] items[i]) is Text {
        Some(Seq::new(items.len(), |i: int| spec_text_of(items[i])))
    } else {
        None
    }
}

/// The element list of one set fact's `set` object: an absent `elem`
/// member means the empty set, a present one must be an array of
/// strings.
pub open spec fn spec_elems_of(set_value: JsonModel) -> Option<Seq<Seq<char>>> {
    match spec_member(set_value, "elem"@) {
        None => Some(Seq::empty()),
        Some(e) => match e {
            JsonModel::Arr(items) => spec_texts_of(items),
            _ => None,
        },
    }
}

/// Scans the fact list for the first fact that carries a `set` member
/// and yields that set's element list; no such fact means no listing.
pub open spec fn spec_scan_facts(facts: Seq<JsonModel>) -> Option<Seq<Seq<char>>>
    decreases facts.len(),
{
    if facts.len() == 0 {
        None
    } else {
        match spec_member(facts[0], "set"@) {
            Some(set_value) => spec_elems_of(set_value),
            None => spec_scan_facts(facts.drop_first()),
        }
    }
}

/// The element list carried by one parsed listing document: its
/// `nftables` member must be an array of facts, scanned for the first
/// set fact.
pub open spec fn spec_set_listing(model: JsonModel) -> Option<Seq<Seq<char>>> {
    match spec_member(model, "nftables"@) {
        None => None,
        Some(f) => match f {
            JsonModel::Arr(facts) => spec_scan_facts(facts),
            _ => None,
        },
    }
}

/// The element list the listing reader extracts from the given output
/// bytes, when they parse as a well-shaped listing document.
pub open spec fn spec_listing_of(bytes: Seq<u8>) -> Option<Seq<Seq<char>>> {
    match spec_parsed(bytes) {
        None => None,
        Some(m) => spec_set_listing(m),
    }
}

/// When the facts before `i` carry no `set` member and the fact at `i`
/// does, the scan yields that fact's element list.
proof fn lemma_scan_hit(facts: Seq<JsonModel>, i: int)
    requires
        0 <= i < facts.len(),
        forall|j: int| 0 <= j < i ==> spec_member(#[trigger] facts[j], "set"@) is None,
        spec_member(facts[i], "set"@) is Some,
    ensures
        spec_scan_facts(facts) == spec_elems_of(spec_member(facts[i], "set"@)->0),
    decreases i,
{
    if i > 0 {
        assert forall|j: int|
            0 <= j < i - 1 implies spec_member(#[trigger] facts.drop_first()[j], "set"@)
            is None by {
            assert(facts.drop_first()[j] == facts[j + 1]);
        }
        assert(facts.drop_first()[i - 1] == facts[i]);
        lemma_scan_hit(facts.drop_first(), i - 1);
    }
}

/// When no fact carries a `set` member, the scan yields nothing.
proof fn lemma_scan_miss(facts: Seq<JsonModel>)
    requires
        forall|j: int| 0 <= j < facts.len() ==> spec_member(#[trigger] facts[j], "set"@) is None,
    ensures
        spec_scan_facts(facts) is None,
    decreases facts.len(),
{
    if facts.len() > 0 {
        assert forall|j: int|
            0 <= j < facts.drop_first().len() implies spec_member(
            #[trigger] facts.drop_first()[j],
            "set"@,
        ) is None by {
            assert(facts.drop_first()[j] == facts[j + 1]);
        }
        lemma_scan_miss(facts.drop_first());
    }
}

/// A tool failure carrying the given diagnostic text.
fn tool_output_error(detail: &str) -> (r: Error)
    ensures
        r matches Error::EnforcementToolFailure(d) && d@ == detail@,
{
    Error::EnforcementToolFailure(String::from_str(detail))
}

/// Reads the element list out of the tool's structured listing output:
/// the first fact that describes a set, with an absent element list
/// meaning the empty set. It succeeds exactly on the outputs whose
/// parsed shape yields a listing — see [`spec_listing_of`] — and then
/// returns exactly that element list. Output in any other shape — not
/// JSON, no fact list, no set fact, or elements that are not strings —
/// is a tool failure carrying a diagnostic, never silently swallowed.
pub fn parse_list_output(output: &[u8]) -> (r: Result<Vec<String>, Error>)
    ensures
        r is Ok <==> spec_listing_of(output@) is Some,
        r matches Ok(items) ==> Some(items.deep_view()) == spec_listing_of(output@),
        r matches Err(e) ==> e is EnforcementToolFailure,
{
    let root = match parse_json(output) {
        Some(v) => v,
        None => {
            return Err(tool_output_error("tool output is not valid JSON"));
        },
    };
    let facts_value = match json_member(&root, "nftables") {
        Some(v) => v,
        None => {
            return Err(tool_output_error("tool output has no fact list"));
        },
    };
    let facts = match json_array(facts_value) {
        Some(a) => a,
        None => {
            return Err(tool_output_error("tool output has no fact list"));
        },
    };
    let ghost fact_models = spec_items_of(spec_model_of(*facts_value));
    proof {
        assert(spec_listing_of(output@) == spec_scan_facts(fact_models));
    }
    let mut i: usize = 0;
    while i < facts.len()
        invariant
            i <= facts@.len(),
            fact_models.len() == facts@.len(),
            forall|k: int|
                0 <= k < facts@.len() ==> spec_model_of(#[trigger] facts@[k]) == fact_models[k],
            forall|j: int| 0 <= j < i ==> spec_member(#[trigger] fact_models[j], "set"@) is None,
            spec_listing_of(output@) == spec_scan_facts(fact_models),
        decreases facts@.len() - i,
    {
        if let Some(set_fact) = json_member(&facts[i], "set") {
            proof {
                lemma_scan_hit(fact_models, i as int);
                assert(spec_listing_of(output@) == spec_elems_of(spec_model_of(*set_fact)));
            }
            match json_member(set_fact, "elem") {
                None => {
                    let out: Vec<String> = Vec::new();
                    proof {
                        assert(out.deep_view() =~= Seq::<Seq<char>>::empty());
                    }
                    return Ok(out);
                },
                Some(elems_value) => {
                    let elems = match json_array(elems_value) {
                        Some(a) => a,
                        None => {
                            return Err(tool_output_error("set elements are not a list"));
                        },
                    };
                    let ghost elem_models = spec_items_of(spec_model_of(*elems_value));
                    proof {
                        assert(spec_listing_of(output@) == spec_texts_of(elem_models));
                    }
                    let mut out: Vec<String> = Vec::new();
                    let mut j: usize = 0;
                    while j < elems.len()
                        invariant
                            j <= elems@.len(),
                            elem_models.len() == elems@.len(),
                            forall|k: int|
                                0 <= k < elems@.len() ==> spec_model_of(#[trigger] elems@[k])
                                    == elem_models[k],
                            forall|k: int| 0 <= k < j ==> (#[trigger] elem_models[k]) is Text,
                            out.deep_view().len() == j,
                            forall|k: int|
                                0 <= k < j ==> out.deep_view()[k] == spec_text_of(
                                    #[trigger] elem_models[k],
                                ),
                            spec_listing_of(output@) == spec_texts_of(elem_models),
                        decreases elems@.len() - j,
                    {
                        match json_text(&elems[j]) {
                            Some(s) => {
                                let ghost prev = out.deep_view();
                                out.push(s.to_owned());
                                proof {
                                    assert(out.deep_view() =~= prev.push(
                                        spec_text_of(elem_models[j as int]),
                                    ));
                                }
                            },
                            None => {
                                // One element is not a string, so the
                                // listing is undefined as a whole.
                                assert(spec_texts_of(elem_models) is None);
                                return Err(tool_output_error("set element is not a string"));
                            },
                        }
                        j += 1;
                    }
                    proof {
                        assert(spec_texts_of(elem_models) is Some);
                        let ts = spec_texts_of(elem_models)->0;
                        assert(out.deep_view() =~= ts);
                    }
                    return Ok(out);
                },
            }
        }
        i += 1;
    }
    proof {
        lemma_scan_miss(fact_models);
    }
    Err(tool_output_error("tool output describes no set"))
}

} // verus!
