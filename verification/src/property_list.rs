//! Property lists, as the device sends them.
use vstd::prelude::*;

use crate::text::option_view;

verus! {

/// A property list value of the `plist` crate.
#[verifier::external_type_specification]
#[verifier::external_body]
pub struct ExValue(plist::Value);

/// A property list dictionary of the `plist` crate.
#[verifier::external_type_specification]
#[verifier::external_body]
pub struct ExDictionary(plist::Dictionary);

/// What a property list value holds, as far as it is looked into.
pub ghost enum Plist {
    Dictionary(Map<Seq<char>, Plist>),
    Boolean(bool),
    Text(Seq<char>),
    Integer(int),
    Other,
}

/// What `value` holds.
pub uninterp spec fn plist_of(value: plist::Value) -> Plist;

/// What `dictionary` holds under each key.
pub uninterp spec fn entries_of(dictionary: plist::Dictionary) -> Map<Seq<char>, Plist>;

/// `plist::Value::as_dictionary` gives the dictionary that a value is, and nothing for a value of
/// another kind.
pub assume_specification[ plist::Value::as_dictionary ](value: &plist::Value) -> (found: Option<
    &plist::Dictionary,
>)
    ensures
        match found {
            Some(dictionary) => plist_of(*value) == Plist::Dictionary(entries_of(*dictionary)),
            None => !(plist_of(*value) is Dictionary),
        },
;

/// `plist::Dictionary::get` gives the value under a key, and nothing for a key that the dictionary
/// does not hold.
pub assume_specification<'a>[ plist::Dictionary::get ](
    dictionary: &'a plist::Dictionary,
    key: &str,
) -> (found: Option<&'a plist::Value>)
    ensures
        match found {
            Some(value) => entries_of(*dictionary).contains_key(key@) && plist_of(*value)
                == entries_of(*dictionary)[key@],
            None => !entries_of(*dictionary).contains_key(key@),
        },
;

/// `plist::Value::as_boolean` gives the truth value that a value is, and nothing for a value of
/// another kind.
pub assume_specification[ plist::Value::as_boolean ](value: &plist::Value) -> (found: Option<bool>)
    ensures
        found == boolean_in(plist_of(*value)),
;

/// `plist::Value::as_string` gives the text that a value is, and nothing for a value of another
/// kind.
pub assume_specification[ plist::Value::as_string ](value: &plist::Value) -> (found: Option<&str>)
    ensures
        match found {
            Some(text) => text_in(plist_of(*value)) == Some(text@),
            None => text_in(plist_of(*value)) is None,
        },
;

/// `plist::Value::as_unsigned_integer` gives the integer that a value is where it fits in 64 bits
/// without a sign, and nothing otherwise.
pub assume_specification[ plist::Value::as_unsigned_integer ](value: &plist::Value) -> (found:
    Option<u64>)
    ensures
        found == unsigned_in(plist_of(*value)),
;

/// The truth value that `value` is.
pub open spec fn boolean_in(value: Plist) -> Option<bool> {
    match value {
        Plist::Boolean(truth) => Some(truth),
        _ => None,
    }
}

/// The text that `value` is.
pub open spec fn text_in(value: Plist) -> Option<Seq<char>> {
    match value {
        Plist::Text(text) => Some(text),
        _ => None,
    }
}

/// The integer that `value` is, within 64 bits and without a sign.
pub open spec fn unsigned_in(value: Plist) -> Option<u64> {
    match value {
        Plist::Integer(number) => if 0 <= number <= u64::MAX {
            Some(number as u64)
        } else {
            None
        },
        _ => None,
    }
}

/// What `value` holds under `key`, if it is a dictionary with that key.
pub open spec fn entry(value: Plist, key: Seq<char>) -> Option<Plist> {
    match value {
        Plist::Dictionary(entries) => if entries.contains_key(key) {
            Some(entries[key])
        } else {
            None
        },
        _ => None,
    }
}

/// The value under `key`, if `value` is a dictionary with that key.
pub fn lookup<'a>(value: &'a plist::Value, key: &str) -> (found: Option<&'a plist::Value>)
    ensures
        match found {
            Some(inner) => entry(plist_of(*value), key@) == Some(plist_of(*inner)),
            None => entry(plist_of(*value), key@) is None,
        },
{
    match value.as_dictionary() {
        Some(dictionary) => dictionary.get(key),
        None => None,
    }
}

/// The text that a value is.
pub fn text_value(value: &plist::Value) -> (text: Option<String>)
    ensures
        option_view(text) == text_in(plist_of(*value)),
{
    match value.as_string() {
        Some(text) => Some(text.to_owned()),
        None => None,
    }
}

/// An app may be debugged: its entitlements allow other processes to take its task port.
pub open spec fn allows_task_port(app: Plist) -> bool {
    match entry(app, "Entitlements"@) {
        Some(entitlements) => entry(entitlements, "get-task-allow"@) == Some(Plist::Boolean(true)),
        None => false,
    }
}

/// Whether an app's entitlements hold a true `get-task-allow`.
pub fn has_get_task_allow(value: &plist::Value) -> (allowed: bool)
    ensures
        allowed == allows_task_port(plist_of(*value)),
{
    match lookup(value, "Entitlements") {
        Some(entitlements) => match lookup(entitlements, "get-task-allow") {
            Some(flag) => match flag.as_boolean() {
                Some(allowed) => allowed,
                None => false,
            },
            None => false,
        },
        None => false,
    }
}

/// The name under which an app is shown: its display name, or its bundle name where it has no
/// display name. There is none where the name that counts is not a text.
pub open spec fn own_name(app: Plist) -> Option<Seq<char>> {
    match entry(app, "CFBundleDisplayName"@) {
        Some(name) => text_in(name),
        None => match entry(app, "CFBundleName"@) {
            Some(name) => text_in(name),
            None => None,
        },
    }
}

/// The display name of an app, or its bundle name where it has no display name.
pub fn app_name(value: &plist::Value) -> (name: Option<String>)
    ensures
        option_view(name) == own_name(plist_of(*value)),
{
    match lookup(value, "CFBundleDisplayName") {
        Some(name) => text_value(name),
        None => match lookup(value, "CFBundleName") {
            Some(name) => text_value(name),
            None => None,
        },
    }
}

/// The chip identifier in a lockdown response, or the error that it lacks one.
pub fn unique_chip_id(value: &plist::Value) -> (id: Result<u64, String>)
    ensures
        match unsigned_in(plist_of(*value)) {
            Some(number) => id == Ok::<u64, String>(number),
            None => id matches Err(error) && error@
                == "missing UniqueChipID in lockdown response"@,
        },
{
    match value.as_unsigned_integer() {
        Some(number) => Ok(number),
        None => Err("missing UniqueChipID in lockdown response".to_owned()),
    }
}

} // verus!
