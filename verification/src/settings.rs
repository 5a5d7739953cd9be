//! The user's settings file: the JVM's maximum heap, kept as JSON.
use vstd::prelude::*;
use crate::text::{decimal, decimal_text};

verus! {

pub const DEFAULT_HEAP_MB: u32 = 512;

pub const MIN_HEAP_MB: u32 = 128;

pub const MAX_HEAP_MB: u32 = 8192;

pub open spec fn heap_in_range(mb: int) -> bool {
    MIN_HEAP_MB <= mb <= MAX_HEAP_MB
}

/// The key under which the heap limit is stored.
pub open spec fn heap_key() -> Seq<char> {
    "maxHeapMb"@
}

#[verifier::external_type_specification]
#[verifier::external_body]
pub struct ExJsonValue(serde_json::Value);

#[verifier::external_type_specification]
#[verifier::external_body]
#[verifier::reject_recursive_types(K)]
#[verifier::reject_recursive_types(V)]
pub struct ExJsonMap<K, V>(serde_json::Map<K, V>);

/// The entries of a JSON object: each key with the compact JSON text of its value.
pub uninterp spec fn json_entries(object: serde_json::Map<String, serde_json::Value>) -> Map<
    Seq<char>,
    Seq<char>,
>;

/// How deeply arrays and objects nest in a JSON object, counting the object itself.
pub uninterp spec fn json_depth(object: serde_json::Map<String, serde_json::Value>) -> nat;

/// The deepest nesting that serde_json's parser accepts: it refuses a value whose arrays and
/// objects nest 128 deep.
pub open spec fn parsed_depth_limit() -> nat {
    127
}

/// The entries (as `json_entries` gives them) of the JSON object that `text` holds, or `None`
/// when `text` does not parse as JSON or is not an object.
pub uninterp spec fn json_object_entries(text: Seq<char>) -> Option<Map<Seq<char>, Seq<char>>>;

/// The value of `key` among `entries` when it is a non-negative integer that fits in `u64`
/// (its compact text is then its decimal digits).
pub open spec fn u64_entry(entries: Option<Map<Seq<char>, Seq<char>>>, key: Seq<char>) -> Option<u64> {
    match entries {
        Some(e) => if e.contains_key(key) && exists|v: u64| e[key] == decimal(v as nat) {
            Some(choose|v: u64| e[key] == decimal(v as nat))
        } else {
            None
        },
        None => None,
    }
}

pub open spec fn opt_view(text: Option<&str>) -> Option<Seq<char>> {
    match text {
        Some(t) => Some(t@),
        None => None,
    }
}

/// Calls `serde_json::from_str::<serde_json::Value>`, then `Value::get` with `key` and
/// `Value::as_u64` on what it finds, and hands back that number.
/// Claimed: the number is the entry of `key` in the parsed object when that entry is an integer
/// that fits in `u64`. `as_u64` answers only for such integers (`N::PosInt`), whose compact text
/// is their decimal digits, and `get` answers only on objects.
#[verifier::external_body]
fn json_u64_field(text: &str, key: &str) -> (n: Option<u64>)
    ensures
        n == u64_entry(json_object_entries(text@), key@),
{
    match serde_json::from_str::<serde_json::Value>(text) {
        Ok(value) => match value.get(key) {
            Some(field) => field.as_u64(),
            None => None,
        },
        Err(_) => None,
    }
}

/// Calls `serde_json::from_str::<serde_json::Value>` and hands back the object it holds.
/// Claimed: the result is `Some` exactly when the text holds a JSON object, with that object's
/// entries (named `json_object_entries`); the object nests no deeper than the parser's recursion
/// limit lets it (its depth counter starts at 128 and refuses the container that brings it to 0).
#[verifier::external_body]
fn json_object_of(text: &str) -> (object: Option<serde_json::Map<String, serde_json::Value>>)
    ensures
        object is Some <==> json_object_entries(text@) is Some,
        object matches Some(o) ==> json_object_entries(text@) == Some(json_entries(o)),
        object matches Some(o) ==> json_depth(o) <= parsed_depth_limit(),
{
    match serde_json::from_str::<serde_json::Value>(text) {
        Ok(serde_json::Value::Object(map)) => Some(map),
        Ok(_) => None,
        Err(_) => None,
    }
}

/// Calls `serde_json::Map::new`. Claimed: the object has no entries, so nothing nests in it.
#[verifier::external_body]
fn json_empty_object() -> (object: serde_json::Map<String, serde_json::Value>)
    ensures
        json_entries(object).dom() == Set::<Seq<char>>::empty(),
        json_depth(object) == 1,
{
    serde_json::Map::new()
}

/// Calls `serde_json::Map::insert` with `key` and the number `value`.
/// Claimed: `key` now holds `value`, whose compact text is its decimal digits, and every other
/// entry stays (`insert` replaces an earlier entry for the key). A number nests nothing, so the
/// object nests no deeper than before (less deep when the replaced entry was the deepest).
#[verifier::external_body]
fn json_insert_u64(object: &mut serde_json::Map<String, serde_json::Value>, key: &str, value: u64)
    ensures
        json_entries(*final(object)) == json_entries(*old(object)).insert(key@, decimal(value as nat)),
        json_depth(*final(object)) <= json_depth(*old(object)),
{
    object.insert(key.to_string(), serde_json::Value::from(value));
}

/// Calls `serde_json::to_string_pretty` on the object.
/// Claimed: for an object that nests no deeper than the parser accepts, the text parses back
/// to an object with the same entries. Rendering a `Value` with string keys does not fail;
/// numbers are written exactly (integers in decimal, floats in their shortest form that reads
/// back as the same `f64`), and with serde_json's `float_roundtrip` feature, which this crate
/// turns on, parsing gives back the same `f64`; strings are escaped and read back unchanged.
/// Nothing is claimed of a deeper object, which the parser would refuse.
#[verifier::external_body]
fn json_render(object: serde_json::Map<String, serde_json::Value>) -> (text: String)
    requires
        json_depth(object) <= parsed_depth_limit(),
    ensures
        json_object_entries(text@) == Some(json_entries(object)),
{
    match serde_json::to_string_pretty(&serde_json::Value::Object(object)) {
        Ok(rendered) => rendered,
        Err(_) => String::new(),
    }
}

/// The heap limit that a stored number selects: the number when there is one and it is within
/// range; the default otherwise.
pub open spec fn heap_from_number(n: Option<u64>) -> u32 {
    match n {
        Some(n) => if heap_in_range(n as int) {
            n as u32
        } else {
            DEFAULT_HEAP_MB
        },
        None => DEFAULT_HEAP_MB,
    }
}

/// The heap limit that a settings text selects: the stored value when there is a text, it
/// holds the key as an integer and that integer is within range; the default otherwise.
pub open spec fn heap_from_text(text: Option<Seq<char>>) -> u32 {
    match text {
        None => DEFAULT_HEAP_MB,
        Some(t) => heap_from_number(u64_entry(json_object_entries(t), heap_key())),
    }
}

/// The heap limit that the number stored under the heap key selects (`None` when the settings
/// hold no such integer): the number when it is within range, the default otherwise.
pub fn heap_from_field(n: Option<u64>) -> (mb: u32)
    ensures
        mb == heap_from_number(n),
        heap_in_range(mb as int),
{
    match n {
        Some(n) => if MIN_HEAP_MB as u64 <= n && n <= MAX_HEAP_MB as u64 {
            n as u32
        } else {
            DEFAULT_HEAP_MB
        },
        None => DEFAULT_HEAP_MB,
    }
}

/// Reads the heap limit from the settings file's text (`None` when it cannot be read);
/// a missing, corrupt or out-of-range setting gives the default.
pub fn heap_from_settings(text: Option<&str>) -> (mb: u32)
    ensures
        mb == heap_from_text(opt_view(text)),
        heap_in_range(mb as int),
{
    match text {
        None => DEFAULT_HEAP_MB,
        Some(t) => heap_from_field(json_u64_field(t, "maxHeapMb")),
    }
}

/// Whatever the settings text, the heap limit read from it is within range.
pub proof fn lemma_heap_always_in_range(text: Option<Seq<char>>)
    ensures
        heap_in_range(heap_from_text(text) as int),
{
}

/// The message given for a heap limit out of range.
pub open spec fn heap_range_message() -> Seq<char> {
    "堆内存需在 "@ + decimal(MIN_HEAP_MB as nat) + "–"@ + decimal(MAX_HEAP_MB as nat) + " MB 之间"@
}

/// Accepts a heap limit within range; refuses any other with a message naming the range.
pub fn check_max_heap(mb: u32) -> (r: Result<(), String>)
    ensures
        r is Ok <==> heap_in_range(mb as int),
        r matches Err(m) ==> m@ == heap_range_message(),
{
    if MIN_HEAP_MB <= mb && mb <= MAX_HEAP_MB {
        Ok(())
    } else {
        let mut m = String::from_str("堆内存需在 ");
        let low = decimal_text(MIN_HEAP_MB as u64);
        let high = decimal_text(MAX_HEAP_MB as u64);
        m.append(low.as_str());
        m.append("–");
        m.append(high.as_str());
        m.append(" MB 之间");
        Err(m)
    }
}

/// The settings that a new text keeps from the current one: the entries of the object it
/// holds, none when there is no text, it does not parse or it is not an object.
pub open spec fn kept_entries(existing: Option<Seq<char>>) -> Map<Seq<char>, Seq<char>> {
    match existing {
        Some(t) => match json_object_entries(t) {
            Some(e) => e,
            None => Map::empty(),
        },
        None => Map::empty(),
    }
}

/// The new settings text that stores `mb` as the heap limit and keeps the other settings of
/// `existing` (the current text, `None` when there is none); refused when `mb` is out of
/// range. Reading the heap limit back from the new text gives `mb`.
pub fn settings_with_heap(existing: Option<&str>, mb: u32) -> (r: Result<String, String>)
    ensures
        r is Ok <==> heap_in_range(mb as int),
        r matches Ok(t) ==> json_object_entries(t@) == Some(
            kept_entries(opt_view(existing)).insert(heap_key(), decimal(mb as nat)),
        ),
        r matches Ok(t) ==> heap_from_text(Some(t@)) == mb,
        r matches Err(m) ==> m@ == heap_range_message(),
{
    match check_max_heap(mb) {
        Err(m) => Err(m),
        Ok(()) => {
            let mut object = match existing {
                Some(t) => match json_object_of(t) {
                    Some(o) => o,
                    None => json_empty_object(),
                },
                None => json_empty_object(),
            };
            json_insert_u64(&mut object, "maxHeapMb", mb as u64);
            let t = json_render(object);
            proof {
                let e = json_object_entries(t@)->0;
                assert(e.contains_key(heap_key()) && e[heap_key()] == decimal(mb as nat));
                let v = choose|v: u64| e[heap_key()] == decimal(v as nat);
                crate::text::lemma_decimal_injective(v as nat, mb as nat);
            }
            Ok(t)
        },
    }
}

/// Whatever else the settings hold, storing the heap limit leaves every other setting as it
/// was in a current text that holds a JSON object.
pub proof fn lemma_other_settings_kept(existing: Seq<char>, new_text: Seq<char>, mb: u32, key: Seq<char>)
    requires
        json_object_entries(existing) is Some,
        json_object_entries(new_text) == Some(
            kept_entries(Some(existing)).insert(heap_key(), decimal(mb as nat)),
        ),
        key != heap_key(),
    ensures
        json_object_entries(new_text)->0.contains_key(key) <==> json_object_entries(existing)->0.contains_key(key),
        json_object_entries(existing)->0.contains_key(key) ==> json_object_entries(new_text)->0[key]
            == json_object_entries(existing)->0[key],
{
}

} // verus!
