//! Making the answers of different nodes agree: members of a response that
//! may differ from node to node are overwritten before responses are
//! compared.
//!
//! The JSON itself is read, changed and written by `serde_json`; what is
//! overwritten, and where, is decided here.

use vstd::prelude::*;

verus! {

/// The JSON value that `serde_json` reads from a text, if it is JSON.
pub uninterp spec fn json_of(text: Seq<u8>) -> Option<serde_json::Value>;

/// The text that `serde_json` writes for a JSON value.
pub uninterp spec fn json_text(value: serde_json::Value) -> Option<Seq<u8>>;

/// The member of a JSON object under a key, if the value is an object that
/// has it.
pub uninterp spec fn json_member(value: serde_json::Value, key: Seq<char>) -> Option<serde_json::Value>;

/// The elements of a JSON array, if the value is one.
pub uninterp spec fn json_items(value: serde_json::Value) -> Option<Seq<serde_json::Value>>;

/// A JSON object with the member under a key set, if the value is an object.
pub uninterp spec fn json_with_member(
    object: serde_json::Value,
    key: Seq<char>,
    member: serde_json::Value,
) -> Option<serde_json::Value>;

/// The JSON string of a text.
pub uninterp spec fn json_string(text: Seq<char>) -> serde_json::Value;

/// The JSON array of some elements.
pub uninterp spec fn json_list(items: Seq<serde_json::Value>) -> serde_json::Value;

/// `serde_json::from_slice`. Claimed: what is read, or that the text is no
/// JSON, depends on the text alone.
#[verifier::external_body]
fn parse_json(text: &[u8]) -> (out: Option<serde_json::Value>)
    ensures
        out == json_of(text@),
{
    serde_json::from_slice(text).ok()
}

/// `serde_json::to_vec`. Claimed: what is written depends on the value
/// alone.
#[verifier::external_body]
fn write_json(value: &serde_json::Value) -> (out: Option<Vec<u8>>)
    ensures
        match out {
            Some(text) => json_text(*value) == Some(text@),
            None => json_text(*value) is None,
        },
{
    serde_json::to_vec(value).ok()
}

/// `serde_json::Value::get` with a key. Claimed: the member that is found,
/// or that none is, depends on the value and the key alone.
#[verifier::external_body]
fn get_member(value: &serde_json::Value, key: &str) -> (out: Option<serde_json::Value>)
    ensures
        out == json_member(*value, key@),
{
    value.get(key).cloned()
}

/// The elements of a `serde_json::Value::Array`. Claimed: they depend on the
/// value alone, and there are none to hand out where the value is no array.
#[verifier::external_body]
fn into_items(value: serde_json::Value) -> (out: Option<Vec<serde_json::Value>>)
    ensures
        match out {
            Some(items) => json_items(value) == Some(items@),
            None => json_items(value) is None,
        },
{
    match value {
        serde_json::Value::Array(items) => Some(items),
        _ => None,
    }
}

/// `serde_json::Map::insert` on the map of a `serde_json::Value::Object`.
/// Claimed: the object that comes out depends on the object, the key and
/// the member alone, and none comes out where the value is no object.
#[verifier::external_body]
fn set_member(object: serde_json::Value, key: &str, member: serde_json::Value) -> (out: Option<
    serde_json::Value,
>)
    ensures
        out == json_with_member(object, key@, member),
{
    match object {
        serde_json::Value::Object(mut map) => {
            map.insert(key.to_owned(), member);
            Some(serde_json::Value::Object(map))
        },
        _ => None,
    }
}

/// `serde_json::Value::from` on a text.
#[verifier::external_body]
fn string_value(text: &str) -> (out: serde_json::Value)
    ensures
        out == json_string(text@),
{
    serde_json::Value::from(text)
}

/// `serde_json::Value::Array` of some elements.
#[verifier::external_body]
fn list_value(items: Vec<serde_json::Value>) -> (out: serde_json::Value)
    ensures
        out == json_list(items@),
{
    serde_json::Value::Array(items)
}

/// The value that an overwritten member gets.
pub open spec fn neutral_index() -> Seq<char> {
    "0x0"@
}

/// Where the node's answer stands in a response.
pub open spec fn result_key() -> Seq<char> {
    "result"@
}

/// An object with the members of the given names overwritten, the first
/// name first; nothing where it is no object and there is a name.
pub open spec fn overwritten(element: serde_json::Value, names: Seq<Seq<char>>) -> Option<
    serde_json::Value,
>
    decreases names.len(),
{
    if names.len() == 0 {
        Some(element)
    } else {
        match overwritten(element, names.drop_last()) {
            Some(changed) => json_with_member(changed, names.last(), json_string(neutral_index())),
            None => None,
        }
    }
}

/// The elements with the members of the given names overwritten in each;
/// nothing where that fails for one of them.
pub open spec fn all_overwritten(items: Seq<serde_json::Value>, names: Seq<Seq<char>>) -> Option<
    Seq<serde_json::Value>,
> {
    if forall|i: int| 0 <= i < items.len() ==> (#[trigger] overwritten(items[i], names)) is Some {
        Some(Seq::new(items.len(), |i: int| overwritten(items[i], names)->Some_0))
    } else {
        None
    }
}

/// A response with its result replaced.
pub open spec fn with_result(response: serde_json::Value, result: Option<serde_json::Value>) -> Option<
    Seq<u8>,
> {
    match result {
        Some(changed) => match json_with_member(response, result_key(), changed) {
            Some(whole) => json_text(whole),
            None => None,
        },
        None => None,
    }
}

/// Whether a response with this status has a body to process: only a
/// success has.
pub fn has_body_to_process(status: u64) -> (process: bool)
    ensures
        process == (status == 200),
{
    status == 200
}

/// Overwrites the members of the given names in an object.
fn overwrite(element: serde_json::Value, names: &Vec<&'static str>) -> (out: Option<
    serde_json::Value,
>)
    ensures
        out == overwritten(element, names@.map_values(|name: &'static str| name@)),
{
    let ghost all = names@.map_values(|name: &'static str| name@);
    let mut changed = element;
    let mut k: usize = 0;
    while k < names.len()
        invariant
            k <= names@.len(),
            all == names@.map_values(|name: &'static str| name@),
            Some(changed) == overwritten(element, all.take(k as int)),
        decreases names@.len() - k,
    {
        proof {
            let next = all.take(k + 1);
            assert(next.drop_last() =~= all.take(k as int));
            assert(next.last() == names@[k as int]@);
        }
        match set_member(changed, names[k], string_value("0x0")) {
            Some(next) => {
                changed = next;
            },
            None => {
                proof {
                    lemma_overwritten_fails(element, all, k + 1);
                }
                return None;
            },
        }
        k += 1;
    }
    assert(all.take(k as int) =~= all);
    Some(changed)
}

/// Where overwriting fails for some of the names it fails for all of them.
proof fn lemma_overwritten_fails(element: serde_json::Value, names: Seq<Seq<char>>, k: int)
    requires
        0 <= k <= names.len(),
        overwritten(element, names.take(k)) is None,
    ensures
        overwritten(element, names) is None,
    decreases names.len() - k,
{
    if k < names.len() {
        let next = names.take(k + 1);
        assert(next.drop_last() =~= names.take(k));
        lemma_overwritten_fails(element, names, k + 1);
    } else {
        assert(names.take(k) =~= names);
    }
}

/// Overwrites the members of the given names in every element.
fn overwrite_all(items: Vec<serde_json::Value>, names: &Vec<&'static str>) -> (out: Option<
    Vec<serde_json::Value>,
>)
    ensures
        match all_overwritten(items@, names@.map_values(|name: &'static str| name@)) {
            Some(changed) => out is Some && out->Some_0@ == changed,
            None => out is None,
        },
{
    let ghost all = items@;
    let ghost keys = names@.map_values(|name: &'static str| name@);
    let mut rest = items;
    let mut reversed: Vec<serde_json::Value> = Vec::new();
    while rest.len() > 0
        invariant
            all == items@,
            keys == names@.map_values(|name: &'static str| name@),
            rest@.len() + reversed@.len() == all.len(),
            rest@ == all.take(rest@.len() as int),
            forall|i: int|
                0 <= i < reversed@.len() ==> Some(#[trigger] reversed@[i]) == overwritten(
                    all[all.len() - 1 - i],
                    keys,
                ),
        decreases rest@.len(),
    {
        let element = rest.pop().unwrap();
        assert(rest@ =~= all.take(rest@.len() as int));
        match overwrite(element, names) {
            Some(changed) => {
                reversed.push(changed);
            },
            None => {
                assert(overwritten(all[rest@.len() as int], keys) is None);
                assert(all_overwritten(all, keys) is None);
                return None;
            },
        }
    }
    let mut changed: Vec<serde_json::Value> = Vec::new();
    while reversed.len() > 0
        invariant
            changed@.len() + reversed@.len() == all.len(),
            forall|i: int|
                0 <= i < reversed@.len() ==> Some(#[trigger] reversed@[i]) == overwritten(
                    all[all.len() - 1 - i],
                    keys,
                ),
            forall|i: int|
                0 <= i < changed@.len() ==> Some(#[trigger] changed@[i]) == overwritten(
                    all[i],
                    keys,
                ),
        decreases reversed@.len(),
    {
        let element = reversed.pop().unwrap();
        changed.push(element);
    }
    assert forall|i: int| 0 <= i < all.len() implies (#[trigger] overwritten(
        all[i],
        keys,
    )) is Some by {
        assert(Some(changed@[i]) == overwritten(all[i], keys));
    }
    assert(changed@ =~= all_overwritten(all, keys)->Some_0);
    Some(changed)
}

/// Puts a changed result back into its response and writes the response.
fn write_with_result(response: serde_json::Value, result: Option<serde_json::Value>) -> (out: Option<
    Vec<u8>,
>)
    ensures
        match with_result(response, result) {
            Some(text) => out is Some && out->Some_0@ == text,
            None => out is None,
        },
{
    match result {
        Some(changed) => match set_member(response, "result", changed) {
            Some(whole) => write_json(&whole),
            None => None,
        },
        None => None,
    }
}

/// For a response whose result is one object.
#[derive(Clone, Copy, Debug, PartialEq, Eq)]
pub struct SingleResultTransformProcessor {
    /// Whether `transactionIndex` is overwritten.
    pub transaction_index: bool,
}

/// For a response whose result is an array of objects.
#[derive(Clone, Copy, Debug, PartialEq, Eq)]
pub struct ArrayResultTransformProcessor {
    /// Whether `transactionIndex` is overwritten in every element.
    pub transaction_index: bool,
    /// Whether `logIndex` is overwritten in every element.
    pub log_index: bool,
}

impl Default for SingleResultTransformProcessor {
    fn default() -> (out: Self)
        ensures
            !out.transaction_index,
    {
        SingleResultTransformProcessor { transaction_index: false }
    }
}

impl Default for ArrayResultTransformProcessor {
    fn default() -> (out: Self)
        ensures
            !out.transaction_index,
            !out.log_index,
    {
        ArrayResultTransformProcessor { transaction_index: false, log_index: false }
    }
}

impl SingleResultTransformProcessor {
    /// The names of the members that are overwritten.
    pub open spec fn member_names(&self) -> Seq<Seq<char>> {
        if self.transaction_index {
            seq!["transactionIndex"@]
        } else {
            Seq::empty()
        }
    }

    /// The body that comes out of `body`: the same JSON written anew, with
    /// `transactionIndex` in its result overwritten if that is switched on.
    /// Nothing comes out of what is no JSON, or has no result that is an
    /// object where one is to be changed.
    pub open spec fn processed(&self, body: Seq<u8>) -> Option<Seq<u8>> {
        match json_of(body) {
            None => None,
            Some(response) => if self.transaction_index {
                match json_member(response, result_key()) {
                    None => None,
                    Some(result) => with_result(response, overwritten(result, self.member_names())),
                }
            } else {
                json_text(response)
            },
        }
    }

    /// The members of the result that are overwritten with `"0x0"`.
    pub fn overwritten_members(&self) -> (names: Vec<&'static str>)
        ensures
            names@.map_values(|name: &'static str| name@) == self.member_names(),
    {
        let mut names: Vec<&'static str> = Vec::new();
        if self.transaction_index {
            names.push("transactionIndex");
        }
        assert(names@.map_values(|name: &'static str| name@) =~= self.member_names());
        names
    }

    /// Processes the body of a response.
    pub fn process_body(&self, body: &[u8]) -> (out: Option<Vec<u8>>)
        ensures
            match self.processed(body@) {
                Some(text) => out is Some && out->Some_0@ == text,
                None => out is None,
            },
    {
        let response = match parse_json(body) {
            Some(response) => response,
            None => {
                return None;
            },
        };
        if self.transaction_index {
            match get_member(&response, "result") {
                Some(result) => {
                    let names = self.overwritten_members();
                    write_with_result(response, overwrite(result, &names))
                },
                None => None,
            }
        } else {
            write_json(&response)
        }
    }
}

impl ArrayResultTransformProcessor {
    /// The names of the members that are overwritten, in the order in which
    /// they are written.
    pub open spec fn member_names(&self) -> Seq<Seq<char>> {
        (if self.transaction_index {
            seq!["transactionIndex"@]
        } else {
            Seq::empty()
        }) + (if self.log_index {
            seq!["logIndex"@]
        } else {
            Seq::empty()
        })
    }

    /// The body that comes out of `body`: the same JSON written anew, with
    /// the members that are switched on overwritten in every element of its
    /// result. Nothing comes out of what is no JSON, has no result that is
    /// an array, or has an element that is no object where one is to be
    /// changed.
    pub open spec fn processed(&self, body: Seq<u8>) -> Option<Seq<u8>> {
        match json_of(body) {
            None => None,
            Some(response) => match json_member(response, result_key()) {
                None => None,
                Some(result) => match json_items(result) {
                    None => None,
                    Some(items) => with_result(
                        response,
                        match all_overwritten(items, self.member_names()) {
                            Some(changed) => Some(json_list(changed)),
                            None => None,
                        },
                    ),
                },
            },
        }
    }

    /// The members of each element of the result that are overwritten with
    /// `"0x0"`, in the order in which they are written.
    pub fn overwritten_members(&self) -> (names: Vec<&'static str>)
        ensures
            names@.map_values(|name: &'static str| name@) == self.member_names(),
    {
        let mut names: Vec<&'static str> = Vec::new();
        if self.transaction_index {
            names.push("transactionIndex");
        }
        if self.log_index {
            names.push("logIndex");
        }
        assert(names@.map_values(|name: &'static str| name@) =~= self.member_names());
        names
    }

    /// Processes the body of a response.
    pub fn process_body(&self, body: &[u8]) -> (out: Option<Vec<u8>>)
        ensures
            match self.processed(body@) {
                Some(text) => out is Some && out->Some_0@ == text,
                None => out is None,
            },
    {
        let response = match parse_json(body) {
            Some(response) => response,
            None => {
                return None;
            },
        };
        let result = match get_member(&response, "result") {
            Some(result) => result,
            None => {
                return None;
            },
        };
        let items = match into_items(result) {
            Some(items) => items,
            None => {
                return None;
            },
        };
        let names = self.overwritten_members();
        let changed = match overwrite_all(items, &names) {
            Some(changed) => Some(list_value(changed)),
            None => None,
        };
        write_with_result(response, changed)
    }
}

} // verus!
