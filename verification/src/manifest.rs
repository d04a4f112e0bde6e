//! The package manifest of the frontend project.
//!
//! The native toolchain is driven through the package manager, so the
//! manifest has to name it among its scripts. This module registers a script
//! in the text of a manifest. Reading and printing JSON is `serde_json`'s
//! work; which member goes where is decided here.
//!
//! No plan of [`crate::plan`] does this. A run probes the manifest as the
//! marker of a project and never reads or writes it: an artifact is written
//! over its destination and is never merged with what is there. A driver that
//! wants the script in place reads the manifest, hands its text to
//! [`register_script`] and writes what comes back.

use vstd::prelude::*;

verus! {

/// A JSON document as a value. A number is kept as the text that prints it.
pub enum Json {
    Null,
    Bool(bool),
    Number(Seq<char>),
    Text(Seq<char>),
    Array(Seq<Json>),
    Object(Map<Seq<char>, Json>),
}

/// `serde_json::Value`, of which nothing but [`content`] is known here.
#[verifier::external_type_specification]
#[verifier::external_body]
pub struct ExValue(serde_json::Value);

/// `serde_json::Map`, of which nothing but [`members`] is known here.
#[verifier::external_type_specification]
#[verifier::external_body]
#[verifier::reject_recursive_types(K)]
#[verifier::reject_recursive_types(V)]
pub struct ExObject<K, V>(serde_json::Map<K, V>);

/// `serde_json::Error`, of which nothing is known here.
#[verifier::external_type_specification]
#[verifier::external_body]
pub struct ExError(serde_json::Error);

/// The document that a `serde_json::Value` holds.
pub uninterp spec fn content(value: serde_json::Value) -> Json;

/// The members that a `serde_json::Map` holds, each under its key.
pub uninterp spec fn members(object: serde_json::Map<String, serde_json::Value>) -> Map<
    Seq<char>,
    Json,
>;

/// The document that `serde_json::from_str` reads from a text, where it
/// reads one.
pub uninterp spec fn json_parsed(text: Seq<char>) -> Option<Json>;

/// The text that `serde_json::to_string_pretty` prints for a document.
pub uninterp spec fn json_pretty(document: Json) -> Seq<char>;

/// `serde_json::from_str` for a `Value`. Whether a text is read, and the
/// document that is read from it, depend on the text alone: both are left to
/// the name [`json_parsed`].
#[verifier::external_body]
fn parse_value(text: &str) -> (parsed: Result<serde_json::Value, serde_json::Error>)
    ensures
        match parsed {
            Ok(value) => json_parsed(text@) == Some(content(value)),
            Err(_) => json_parsed(text@) is None,
        },
{
    serde_json::from_str::<serde_json::Value>(text)
}

/// `serde_json::to_string_pretty` for a `Value`. Printing a `Value` succeeds:
/// it writes into a vector, which takes every byte, and the keys of an object
/// are strings; the printer has no other way to fail. The text that is
/// printed depends on the document alone and is left to the name
/// [`json_pretty`]. That holds while the members of an object are printed in
/// the order of their keys, as they are unless `serde_json` is built with its
/// `preserve_order` feature, which this crate does not switch on.
#[verifier::external_body]
fn print_value(value: &serde_json::Value) -> (printed: Result<String, serde_json::Error>)
    ensures
        printed is Ok,
        printed matches Ok(text) ==> text@ == json_pretty(content(*value)),
{
    serde_json::to_string_pretty(value)
}

/// Tells the variant `Value::Object` from the others, and moves its map out:
/// a value holds an object exactly when it is of this variant, and the
/// object's members are the map's.
#[verifier::external_body]
fn into_object(value: serde_json::Value) -> (object: Option<
    serde_json::Map<String, serde_json::Value>,
>)
    ensures
        match object {
            Some(held) => content(value) == Json::Object(members(held)),
            None => !(content(value) is Object),
        },
{
    match value {
        serde_json::Value::Object(held) => Some(held),
        _ => None,
    }
}

/// The variant `Value::Object` around a map: the value holds the object
/// whose members are the map's.
#[verifier::external_body]
fn object_value(object: serde_json::Map<String, serde_json::Value>) -> (value: serde_json::Value)
    ensures
        content(value) == Json::Object(members(object)),
{
    serde_json::Value::Object(object)
}

/// The variant `Value::String` around a string: the value holds that text.
#[verifier::external_body]
fn text_value(text: String) -> (value: serde_json::Value)
    ensures
        content(value) == Json::Text(text@),
{
    serde_json::Value::String(text)
}

/// `Map::new`: a map without members.
#[verifier::external_body]
fn empty_object() -> (fresh: serde_json::Map<String, serde_json::Value>)
    ensures
        members(fresh) =~= Map::empty(),
{
    serde_json::Map::new()
}

/// `Map::remove`: takes the member under `key` out of the map and hands it
/// back, where there is one; the other members stay.
#[verifier::external_body]
fn take_member(object: &mut serde_json::Map<String, serde_json::Value>, key: &str) -> (taken:
    Option<serde_json::Value>)
    ensures
        members(*final(object)) == members(*old(object)).remove(key@),
        match taken {
            Some(value) => members(*old(object)).contains_key(key@) && content(value) == members(
                *old(object),
            )[key@],
            None => !members(*old(object)).contains_key(key@),
        },
{
    object.remove(key)
}

/// `Map::insert`: puts a member into the map under `key`, in place of the
/// member that was there, which it hands back where there was one; the other
/// members stay.
#[verifier::external_body]
fn put_member(
    object: &mut serde_json::Map<String, serde_json::Value>,
    key: String,
    value: serde_json::Value,
) -> (replaced: Option<serde_json::Value>)
    ensures
        members(*final(object)) == members(*old(object)).insert(key@, content(value)),
        match replaced {
            Some(former) => members(*old(object)).contains_key(key@) && content(former)
                == members(*old(object))[key@],
            None => !members(*old(object)).contains_key(key@),
        },
{
    object.insert(key, value)
}

/// The member of a manifest that holds its scripts.
pub const SCRIPTS: &'static str = "scripts";

/// The script, and the command behind it, that drives the native toolchain.
pub const TOOLCHAIN_SCRIPT: &'static str = "tauri";

/// Why a script could not be registered.
#[derive(Clone, Copy, Debug, PartialEq, Eq, Structural)]
pub enum ManifestError {
    /// The text is not JSON.
    Malformed,
    /// The text is JSON, but not an object.
    NotAnObject,
    /// The document could not be printed. No document that
    /// [`register_script`] has read gives this.
    Unprintable,
}

/// The scripts of a manifest: the members of its `scripts` member where that
/// is an object, and none where it is missing or anything else.
pub open spec fn scripts_of(manifest: Map<Seq<char>, Json>) -> Map<Seq<char>, Json> {
    if manifest.contains_key(SCRIPTS@) && manifest[SCRIPTS@] is Object {
        manifest[SCRIPTS@]->Object_0
    } else {
        Map::empty()
    }
}

/// A manifest with the script `name` set to `command`. The other scripts and
/// the other members stay as they are; a `scripts` member that is no object
/// gives way to one.
pub open spec fn scripted(
    manifest: Map<Seq<char>, Json>,
    name: Seq<char>,
    command: Seq<char>,
) -> Map<Seq<char>, Json> {
    manifest.insert(SCRIPTS@, Json::Object(scripts_of(manifest).insert(name, Json::Text(command))))
}

/// Registering a script touches nothing else, and registering it twice is
/// registering it once. The members of the manifest other than `scripts`, and
/// the scripts other than `name`, are what they were; the script `name` is
/// the command; and a manifest that holds the script already comes out as it
/// went in.
pub proof fn law_script_is_registered_once(
    manifest: Map<Seq<char>, Json>,
    name: Seq<char>,
    command: Seq<char>,
)
    ensures
        scripted(manifest, name, command).dom() == manifest.dom().insert(SCRIPTS@),
        forall|key: Seq<char>|
            key != SCRIPTS@ && manifest.contains_key(key) ==> #[trigger] scripted(
                manifest,
                name,
                command,
            )[key] == manifest[key],
        scripts_of(scripted(manifest, name, command)) == scripts_of(manifest).insert(
            name,
            Json::Text(command),
        ),
        scripted(scripted(manifest, name, command), name, command) == scripted(
            manifest,
            name,
            command,
        ),
{
    let once = scripted(manifest, name, command);
    assert(once.dom() =~= manifest.dom().insert(SCRIPTS@));
    assert(scripts_of(once).insert(name, Json::Text(command)) =~= scripts_of(once));
    assert(scripted(once, name, command) =~= once);
}

/// Sets the script `name` of a manifest to `command`.
///
/// The document stays as it is but for the one script. A document that is no
/// object is refused.
pub fn with_script(document: serde_json::Value, name: &str, command: &str) -> (result: Result<
    serde_json::Value,
    ManifestError,
>)
    ensures
        match result {
            Ok(changed) => content(document) is Object && content(changed) == Json::Object(
                scripted(content(document)->Object_0, name@, command@),
            ),
            Err(error) => error == ManifestError::NotAnObject && !(content(document) is Object),
        },
{
    match into_object(document) {
        None => Err(ManifestError::NotAnObject),
        Some(manifest) => {
            let mut manifest = manifest;
            let ghost before = members(manifest);
            let mut scripts = match take_member(&mut manifest, SCRIPTS) {
                Some(member) => match into_object(member) {
                    Some(held) => held,
                    None => empty_object(),
                },
                None => empty_object(),
            };
            assert(members(scripts) == scripts_of(before));
            put_member(&mut scripts, String::from_str(name), text_value(String::from_str(command)));
            put_member(&mut manifest, String::from_str(SCRIPTS), object_value(scripts));
            assert(members(manifest) =~= scripted(before, name@, command@));
            Ok(object_value(manifest))
        },
    }
}

/// What becomes of a document that `serde_json` has printed, or failed to
/// print: the text as it is, or [`ManifestError::Unprintable`].
pub fn printed_text(printed: Result<String, serde_json::Error>) -> (result: Result<
    String,
    ManifestError,
>)
    ensures
        match printed {
            Ok(text) => result == Ok::<String, ManifestError>(text),
            Err(_) => result == Err::<String, ManifestError>(ManifestError::Unprintable),
        },
{
    match printed {
        Ok(text) => Ok(text),
        Err(_) => Err(ManifestError::Unprintable),
    }
}

/// Sets the script `name` to `command` in the text of a manifest, and prints
/// the manifest anew.
///
/// A text that is not JSON is refused as [`ManifestError::Malformed`], a
/// document that is no object as [`ManifestError::NotAnObject`]. Any other
/// text is printed with the script in its place.
pub fn register_script(text: &str, name: &str, command: &str) -> (result: Result<
    String,
    ManifestError,
>)
    ensures
        json_parsed(text@) is None ==> result == Err::<String, ManifestError>(
            ManifestError::Malformed,
        ),
        json_parsed(text@) matches Some(document) ==> if document is Object {
            result matches Ok(printed) && printed@ == json_pretty(
                Json::Object(scripted(document->Object_0, name@, command@)),
            )
        } else {
            result == Err::<String, ManifestError>(ManifestError::NotAnObject)
        },
{
    match parse_value(text) {
        Err(_) => Err(ManifestError::Malformed),
        Ok(document) => match with_script(document, name, command) {
            Err(error) => Err(error),
            Ok(changed) => printed_text(print_value(&changed)),
        },
    }
}

} // verus!
