//! The contents of Sunrise's settings.json.
use vstd::prelude::*;
use serde_json::Value;
use crate::error::{AppError, AppResult};
use crate::json;
use crate::json::Json;
use crate::pe;
use crate::text;

verus! {

/// An object with the keys that it lacks taken from another. Where both have an object at a key,
/// the same holds of these two; every other value stays, null and arrays too.
pub open spec fn filled(existing: Json, defaults: Json) -> Json
    decreases defaults,
{
    match (existing, defaults) {
        (Json::Object(e), Json::Object(d)) => Json::Object(
            Map::new(
                |key: Seq<char>| e.dom().contains(key) || d.dom().contains(key),
                |key: Seq<char>|
                    if !e.dom().contains(key) {
                        d[key]
                    } else if d.dom().contains(key) {
                        filled(e[key], d[key])
                    } else {
                        e[key]
                    },
            ),
        ),
        _ => existing,
    }
}

/// Missing keys take the default; existing values stay, including null and arrays.
pub fn add_missing_defaults(
    settings: &mut serde_json::Map<String, Value>,
    defaults: &serde_json::Map<String, Value>,
)
    ensures
        Json::Object(json::entries(*final(settings))) == filled(
            Json::Object(json::entries(*old(settings))),
            Json::Object(json::entries(*defaults)),
        ),
    decreases json::entries(*defaults),
{
    let keys = json::keys(defaults);
    let ghost e = json::entries(*settings);
    let ghost d = json::entries(*defaults);
    let ghost names = text::texts(keys@);
    assert(d.dom().finite()) by {
        assert(d.dom() =~= names.to_set());
        vstd::seq_lib::seq_to_set_is_finite(names);
    }
    let mut i: usize = 0;
    while i < keys.len()
        invariant
            i <= keys.len(),
            d == json::entries(*defaults),
            e == json::entries(*old(settings)),
            d.dom().finite(),
            names == text::texts(keys@),
            names.no_duplicates(),
            forall|key: Seq<char>| names.contains(key) <==> #[trigger] d.dom().contains(key),
            forall|key: Seq<char>| #[trigger]
                json::entries(*settings).dom().contains(key) <==> e.dom().contains(key) || names.take(
                    i as int,
                ).contains(key),
            forall|key: Seq<char>|
                names.take(i as int).contains(key) ==> #[trigger] json::entries(*settings)[key] == (
                if e.dom().contains(key) {
                    filled(e[key], d[key])
                } else {
                    d[key]
                }),
            forall|key: Seq<char>|
                e.dom().contains(key) && !names.take(i as int).contains(key)
                    ==> #[trigger] json::entries(*settings)[key] == e[key],
        decreases keys.len() - i,
    {
        let key = keys[i].as_str();
        let ghost before = json::entries(*settings);
        assert(names[i as int] == key@);
        assert(names.contains(key@));
        assert(!names.take(i as int).contains(key@)) by {
            if names.take(i as int).contains(key@) {
                let j = choose|j: int| 0 <= j < i && names.take(i as int)[j] == key@;
                assert(names[j] == names[i as int]);
            }
        }
        assert(names.take(i + 1) =~= names.take(i as int).push(key@));
        match json::get(defaults, key) {
            Some(default) => {
                match json::get_mut(settings, key) {
                    None => {
                        json::insert(settings, keys[i].clone(), json::clone_value(default));
                    },
                    Some(existing) => {
                        match json::as_object(default) {
                            Some(default) => {
                                match json::as_object_mut(existing) {
                                    Some(existing) => {
                                        assert(decreases_to!(d => d[key@]));
                                        assert(decreases_to!(d[key@] => d[key@]->Object_0));
                                        add_missing_defaults(existing, default);
                                    },
                                    None => {},
                                }
                            },
                            None => {},
                        }
                    },
                }
            },
            None => {},
        }
        i = i + 1;
        assert forall|k: Seq<char>| #[trigger]
            json::entries(*settings).dom().contains(k) <==> e.dom().contains(k) || names.take(
                i as int,
            ).contains(k) by {
            assert(before.dom().contains(k) <==> e.dom().contains(k) || names.take(i - 1).contains(k));
            text::lemma_push_contains(names.take(i - 1), key@, k);
        }
        assert forall|k: Seq<char>|
            e.dom().contains(k) && !names.take(i as int).contains(k) implies #[trigger] json::entries(
            *settings,
        )[k] == e[k] by {
            text::lemma_push_contains(names.take(i - 1), key@, k);
            assert(before[k] == e[k]);
        }
    }
    assert(names.take(keys@.len() as int) =~= names);
    assert(json::entries(*settings) =~= filled(Json::Object(e), Json::Object(d))->Object_0);
}

/// The version that settings carry. A missing or unreadable version is zero, as in the DLL.
pub open spec fn version_of(settings: Map<Seq<char>, Json>) -> u32 {
    if settings.dom().contains("version"@) {
        match settings["version"@] {
            Json::Unsigned(number) if number <= u32::MAX => number as u32,
            _ => 0,
        }
    } else {
        0
    }
}

/// The object at a key, if there is one.
pub open spec fn section(settings: Map<Seq<char>, Json>, key: Seq<char>) -> Option<
    Map<Seq<char>, Json>,
> {
    if settings.dom().contains(key) {
        match settings[key] {
            Json::Object(object) => Some(object),
            _ => None,
        }
    } else {
        None
    }
}

/// The language that settings name, if they name one.
pub open spec fn language_of(settings: Map<Seq<char>, Json>) -> Option<Seq<char>> {
    match section(settings, "steam"@) {
        Some(steam) => if steam.dom().contains("language"@) {
            match steam["language"@] {
                Json::Text(language) => Some(language),
                _ => None,
            }
        } else {
            None
        },
        None => None,
    }
}

/// What new settings are made from: the existing ones with what they lack, unless there are none
/// or they are older than the defaults.
pub open spec fn merge_base(
    defaults: Map<Seq<char>, Json>,
    existing: Option<Map<Seq<char>, Json>>,
) -> Map<Seq<char>, Json> {
    match existing {
        Some(existing) if version_of(existing) >= version_of(defaults) => filled(
            Json::Object(existing),
            Json::Object(defaults),
        )->Object_0,
        _ => defaults,
    }
}

/// `settings` with the Steam language set, if they have a Steam section.
pub open spec fn with_language(settings: Map<Seq<char>, Json>, language: Seq<char>) -> Option<
    Map<Seq<char>, Json>,
> {
    match section(settings, "steam"@) {
        Some(steam) => Some(
            settings.insert(
                "steam"@,
                Json::Object(steam.insert("language"@, Json::Text(language))),
            ),
        ),
        None => None,
    }
}

/// The new settings, if what they are made from has a Steam section.
pub open spec fn merged(
    defaults: Map<Seq<char>, Json>,
    existing: Option<Map<Seq<char>, Json>>,
    language: Seq<char>,
) -> Option<Map<Seq<char>, Json>> {
    with_language(merge_base(defaults, existing), language)
}

/// The entries of an object that may be absent.
pub open spec fn entries_of(object: Option<serde_json::Map<String, Value>>) -> Option<
    Map<Seq<char>, Json>,
> {
    match object {
        Some(object) => Some(json::entries(object)),
        None => None,
    }
}

/// The version that settings carry.
pub fn settings_version(settings: &serde_json::Map<String, Value>) -> (r: u32)
    ensures
        r == version_of(json::entries(*settings)),
{
    match json::get(settings, "version") {
        Some(value) => match json::as_u64(value) {
            Some(number) => if number <= u32::MAX as u64 {
                number as u32
            } else {
                0
            },
            None => 0,
        },
        None => 0,
    }
}

/// The settings to write: the existing ones with what they lack, or the defaults where there are
/// none or they are older; with the Steam language set. The DLL replaces a file older than its
/// settings version, which drops the language.
pub fn merge_settings(
    defaults: serde_json::Map<String, Value>,
    existing: Option<serde_json::Map<String, Value>>,
    steam_language: &str,
) -> (r: AppResult<serde_json::Map<String, Value>>)
    ensures
        match merged(json::entries(defaults), entries_of(existing), steam_language@) {
            Some(settings) => r matches Ok(object) && json::entries(object) == settings,
            None => r matches Err(error) && crate::error::is_message(
                error,
                "Sunrise settings.json has no valid Steam section."@,
            ),
        },
{
    let mut settings = match existing {
        Some(existing) => if settings_version(&existing) >= settings_version(&defaults) {
            let mut existing = existing;
            add_missing_defaults(&mut existing, &defaults);
            existing
        } else {
            defaults
        },
        None => defaults,
    };
    let ghost base = json::entries(settings);
    assert(base == merge_base(json::entries(defaults), entries_of(existing)));
    let is_set = match json::get_mut(&mut settings, "steam") {
        Some(value) => match json::as_object_mut(value) {
            Some(steam) => {
                json::insert(
                    steam,
                    "language".to_owned(),
                    json::text_value(steam_language.to_owned()),
                );
                true
            },
            None => false,
        },
        None => false,
    };
    if is_set {
        Ok(settings)
    } else {
        Err(AppError::message("Sunrise settings.json has no valid Steam section.".to_owned()))
    }
}

/// The bytes of a text file without the byte order mark that it may start with.
pub open spec fn without_mark(bytes: Seq<u8>) -> Seq<u8> {
    if seq![0xEFu8, 0xBBu8, 0xBFu8].is_prefix_of(bytes) {
        bytes.skip(3)
    } else {
        bytes
    }
}

/// The settings that a file with these bytes holds, if it holds a JSON object.
pub open spec fn settings_in(bytes: Seq<u8>) -> Option<Map<Seq<char>, Json>> {
    match json::parsed_json(without_mark(bytes)) {
        Some(Json::Object(settings)) => Some(settings),
        _ => None,
    }
}

/// The bytes without the byte order mark that they may start with.
pub fn without_byte_order_mark(bytes: &[u8]) -> (r: &[u8])
    ensures
        r@ == without_mark(bytes@),
{
    if bytes.len() >= 3 && bytes[0] == 0xEF && bytes[1] == 0xBB && bytes[2] == 0xBF {
        assert(bytes@.subrange(0, 3) =~= seq![0xEFu8, 0xBBu8, 0xBFu8]);
        let r = vstd::slice::slice_subrange(bytes, 3, bytes.len());
        assert(r@ =~= bytes@.skip(3));
        r
    } else {
        proof {
            if seq![0xEFu8, 0xBBu8, 0xBFu8].is_prefix_of(bytes@) {
                let mark = seq![0xEFu8, 0xBBu8, 0xBFu8];
                assert(bytes@.subrange(0, 3) == mark);
                assert(bytes@[0] == bytes@.subrange(0, 3)[0]);
                assert(bytes@[1] == bytes@.subrange(0, 3)[1]);
                assert(bytes@[2] == bytes@.subrange(0, 3)[2]);
            }
        }
        bytes
    }
}

/// The settings that a file with these bytes holds, if it holds a JSON object.
pub fn read_settings(bytes: &[u8]) -> (r: Option<serde_json::Map<String, Value>>)
    ensures
        entries_of(r) == settings_in(bytes@),
        r matches Some(settings) ==> json::is_within_depth(
            Json::Object(json::entries(settings)),
            127,
        ),
{
    match json::parse_json(without_byte_order_mark(bytes)) {
        Ok(value) => json::into_object(value),
        Err(_) => None,
    }
}

/// The type and the number of the resource in which the Sunrise DLL embeds its default settings.
pub const RT_RCDATA: u32 = 10;

pub const DEFAULT_SETTINGS_RESOURCE: u32 = 101;

/// Settings that can be defaults: they carry a version and have a Steam section.
pub open spec fn are_defaults(settings: Map<Seq<char>, Json>) -> bool {
    version_of(settings) != 0 && section(settings, "steam"@) is Some
}

/// The default settings that a document holds, if it holds any.
pub open spec fn defaults_in(document: Seq<u8>) -> Option<Map<Seq<char>, Json>> {
    match settings_in(document) {
        Some(settings) if are_defaults(settings) => Some(settings),
        _ => None,
    }
}

/// The default settings that the resource of a DLL holds, if the DLL has the resource and it
/// holds any.
pub open spec fn bundled_defaults(dll: Seq<u8>) -> Option<Map<Seq<char>, Json>> {
    match pe::pe_resource(dll, RT_RCDATA, DEFAULT_SETTINGS_RESOURCE) {
        Some(document) => defaults_in(document),
        None => None,
    }
}

/// The default settings in what was found in a DLL, if anything was found and it holds any.
pub open spec fn found_defaults(found: Option<Seq<u8>>) -> Option<Map<Seq<char>, Json>> {
    match found {
        Some(document) => defaults_in(document),
        None => None,
    }
}

/// `error` says that a DLL holds no default settings.
pub open spec fn is_dll_error(error: AppError) -> bool {
    crate::error::is_message(error, "The Sunrise DLL does not contain valid default settings."@)
}

/// The default settings in the document that was found in a DLL, or the error where none was
/// found or it does not hold any.
pub fn document_settings(document: Option<Vec<u8>>) -> (r: AppResult<serde_json::Map<String, Value>>)
    ensures
        match r {
            Ok(settings) => {
                &&& found_defaults(pe::found_view(document)) == Some(json::entries(settings))
                &&& json::is_within_depth(Json::Object(json::entries(settings)), 127)
            },
            Err(error) => found_defaults(pe::found_view(document)) is None && is_dll_error(error),
        },
{
    if let Some(document) = document {
        if let Some(settings) = read_settings(document.as_slice()) {
            let has_steam = match json::get(&settings, "steam") {
                Some(value) => json::as_object(value).is_some(),
                None => false,
            };
            if settings_version(&settings) != 0 && has_steam {
                return Ok(settings);
            }
        }
    }
    Err(AppError::message("The Sunrise DLL does not contain valid default settings.".to_owned()))
}

/// The default settings inside a DLL. A DLL that is not aligned as it should be is not looked at; in
/// any other, what the search finds decides.
pub fn bundled_settings(dll: &[u8]) -> (r: AppResult<serde_json::Map<String, Value>>)
    ensures
        match r {
            Ok(settings) => {
                &&& pe::is_aligned_image(dll@)
                &&& bundled_defaults(dll@) == Some(json::entries(settings))
                &&& json::is_within_depth(Json::Object(json::entries(settings)), 127)
            },
            Err(error) => is_dll_error(error),
        },
        pe::is_aligned_image(dll@) ==> exists|found: Option<Seq<u8>>| #[trigger]
            pe::may_find(dll@, RT_RCDATA, DEFAULT_SETTINGS_RESOURCE, found) && match r {
                Ok(settings) => found_defaults(found) == Some(json::entries(settings)),
                Err(_) => found_defaults(found) is None,
            },
{
    let document = if pe::is_aligned(dll) {
        pe::find_resource(dll, RT_RCDATA, DEFAULT_SETTINGS_RESOURCE)
    } else {
        None
    };
    document_settings(document)
}

/// The settings that the existing file contributes: none on a reset or where there is no file.
pub open spec fn kept_settings(existing: Option<Seq<u8>>, reset: bool) -> Option<
    Map<Seq<char>, Json>,
> {
    match existing {
        Some(bytes) if !reset => settings_in(bytes),
        _ => None,
    }
}

/// The existing file is to be kept and cannot be read.
pub open spec fn is_unreadable(existing: Option<Seq<u8>>, reset: bool) -> bool {
    !reset && existing is Some && settings_in(existing->0) is None
}

/// The view of bytes that may be absent.
pub open spec fn bytes_view(bytes: Option<&[u8]>) -> Option<Seq<u8>> {
    match bytes {
        Some(bytes) => Some(bytes@),
        None => None,
    }
}

/// What is read of settings that were written is an object and names the same language.
proof fn lemma_written_settings_are_read(settings: Map<Seq<char>, Json>, bytes: Seq<u8>)
    requires
        bytes.len() > 0,
        bytes[0] == 0x7B,
        json::parsed_json(bytes) matches Some(document) ==> json::same_but_floats(
            Json::Object(settings),
            document,
        ),
        language_of(settings) is Some,
    ensures
        settings_in(bytes) is Some <==> json::parsed_json(bytes) is Some,
        settings_in(bytes) matches Some(read) ==> json::same_but_floats(
            Json::Object(settings),
            Json::Object(read),
        ) && file_language(bytes) == language_of(settings),
{
    let mark = seq![0xEFu8, 0xBBu8, 0xBFu8];
    if mark.is_prefix_of(bytes) {
        assert(bytes[0] == bytes.subrange(0, 3)[0]);
    }
    assert(without_mark(bytes) == bytes);
    reveal_with_fuel(json::same_but_floats, 3);
    if let Some(Json::Object(read)) = json::parsed_json(bytes) {
        let steam = section(settings, "steam"@)->0;
        assert(settings.dom().contains("steam"@) && read.dom().contains("steam"@));
        assert(json::same_but_floats(settings["steam"@], read["steam"@]));
        let read_steam = section(read, "steam"@)->0;
        assert(steam.dom().contains("language"@) && read_steam.dom().contains("language"@));
        assert(json::same_but_floats(steam["language"@], read_steam["language"@]));
    }
}

/// `r` is what a build of settings.json from these defaults and the bytes of the existing file
/// answers: the new settings, which are read back as they are but for floating point numbers, or
/// the error where the file cannot be read or there is no Steam section.
pub open spec fn is_build_answer(
    defaults: Map<Seq<char>, Json>,
    existing: Option<Seq<u8>>,
    language: Seq<char>,
    reset: bool,
    r: AppResult<Vec<u8>>,
) -> bool {
    let new = merged(defaults, kept_settings(existing, reset), language);
    match r {
        Ok(bytes) => {
            &&& !is_unreadable(existing, reset)
            &&& new is Some
            &&& bytes@ == json::pretty_json(new->0)
            &&& json::parsed_json(bytes@) matches Some(document) ==> json::same_but_floats(
                Json::Object(new->0),
                document,
            )
            &&& settings_in(bytes@) matches Some(read) ==> json::same_but_floats(
                Json::Object(new->0),
                Json::Object(read),
            ) && file_language(bytes@) == Some(language)
            &&& json::is_within_depth(Json::Object(defaults), 127) && json::has_no_float(
                Json::Object(new->0),
            ) ==> settings_in(bytes@) is Some && json::parsed_json(bytes@) is Some
        },
        Err(error) => if is_unreadable(existing, reset) {
            crate::error::is_message(error, "Sunrise settings.json could not be read."@)
        } else {
            &&& new is None
            &&& crate::error::is_message(
                error,
                "Sunrise settings.json has no valid Steam section."@,
            )
        },
    }
}

/// The bytes of settings.json, made from the defaults and the bytes of the existing file.
pub fn build_settings(
    defaults: serde_json::Map<String, Value>,
    existing: Option<&[u8]>,
    steam_language: &str,
    reset: bool,
) -> (r: AppResult<Vec<u8>>)
    ensures
        is_build_answer(
            json::entries(defaults),
            bytes_view(existing),
            steam_language@,
            reset,
            r,
        ),
{
    let kept = match existing {
        Some(bytes) => if reset {
            None
        } else {
            match read_settings(bytes) {
                Some(settings) => Some(settings),
                None => return Err(
                    AppError::message("Sunrise settings.json could not be read.".to_owned()),
                ),
            }
        },
        None => None,
    };
    match merge_settings(defaults, kept, steam_language) {
        Ok(settings) => match json::to_vec_pretty(&settings) {
            Ok(bytes) => {
                proof {
                    let given = json::entries(defaults);
                    let existing = kept_settings(bytes_view(existing), reset);
                    if json::is_within_depth(Json::Object(given), 127) {
                        lemma_merging_keeps_the_depth(given, existing, steam_language@, 127);
                    }
                    lemma_written_settings_are_read(json::entries(settings), bytes@);
                }
                Ok(bytes)
            },
            Err(error) => Err(AppError::from(error)),
        },
        Err(error) => Err(error),
    }
}

/// Builds settings.json from the defaults inside `dll`, with the Steam language set. `existing`
/// is what the present file holds, where there is one; a reset does not look at it. Where the
/// search in the DLL finds defaults, they are those of [`bundled_defaults`], and the answer is the
/// one that [`build_settings`] gives for them.
pub fn prepare_sunrise_settings(
    dll: &[u8],
    existing: Option<&[u8]>,
    steam_language: &str,
    reset: bool,
) -> (r: AppResult<Vec<u8>>)
    ensures
        pe::is_aligned_image(dll@) ==> exists|found: Option<Seq<u8>>| #[trigger]
            pe::may_find(dll@, RT_RCDATA, DEFAULT_SETTINGS_RESOURCE, found) && match found_defaults(
                found,
            ) {
                Some(defaults) => {
                    &&& bundled_defaults(dll@) == Some(defaults)
                    &&& json::is_within_depth(Json::Object(defaults), 127)
                    &&& is_build_answer(
                        defaults,
                        bytes_view(existing),
                        steam_language@,
                        reset,
                        r,
                    )
                },
                None => r matches Err(error) && is_dll_error(error),
            },
        !pe::is_aligned_image(dll@) ==> (r matches Err(error) && is_dll_error(error)),
{
    match bundled_settings(dll) {
        Ok(defaults) => build_settings(defaults, existing, steam_language, reset),
        Err(error) => Err(error),
    }
}

/// The language that the settings file names, if it names one.
pub open spec fn file_language(bytes: Seq<u8>) -> Option<Seq<char>> {
    match settings_in(bytes) {
        Some(settings) => language_of(settings),
        None => None,
    }
}

/// The language that the settings file names, if it names one.
pub fn settings_language(bytes: &[u8]) -> (r: Option<String>)
    ensures
        match r {
            Some(language) => file_language(bytes@) == Some(language@),
            None => file_language(bytes@) is None,
        },
{
    let settings = read_settings(bytes)?;
    let steam = json::as_object(json::get(&settings, "steam")?)?;
    let language = json::as_str(json::get(steam, "language")?)?;
    Some(language.to_owned())
}

/// The value that a path of keys leads to, if it leads to one.
pub open spec fn lookup(document: Json, path: Seq<Seq<char>>) -> Option<Json>
    decreases path.len(),
{
    if path.len() == 0 {
        Some(document)
    } else {
        match document {
            Json::Object(object) if object.dom().contains(path.first()) => lookup(
                object[path.first()],
                path.drop_first(),
            ),
            _ => None,
        }
    }
}

/// Settings that are filled up keep every value that they have, at any depth: only objects gain
/// anything.
pub proof fn law_existing_values_stay(existing: Json, defaults: Json, path: Seq<Seq<char>>)
    requires
        lookup(existing, path) is Some,
        lookup(existing, path)->0 !is Object,
    ensures
        lookup(filled(existing, defaults), path) == lookup(existing, path),
    decreases path.len(),
{
    if path.len() > 0 {
        if let (Json::Object(e), Json::Object(d)) = (existing, defaults) {
            let key = path.first();
            if d.dom().contains(key) {
                law_existing_values_stay(e[key], d[key], path.drop_first());
            }
        }
    }
}

/// Settings that are filled up gain each default whose key they lack, at any depth.
pub proof fn law_missing_values_take_the_default(
    existing: Json,
    defaults: Json,
    path: Seq<Seq<char>>,
    key: Seq<char>,
)
    requires
        lookup(existing, path) matches Some(Json::Object(object)) && !object.dom().contains(key),
        lookup(defaults, path.push(key)) is Some,
    ensures
        lookup(filled(existing, defaults), path.push(key)) == lookup(defaults, path.push(key)),
    decreases path.len(),
{
    let whole = path.push(key);
    if path.len() == 0 {
        assert(whole.first() == key);
    } else {
        let first = path.first();
        assert(whole.first() == first);
        assert(whole.drop_first() =~= path.drop_first().push(key));
        if let (Json::Object(e), Json::Object(d)) = (existing, defaults) {
            law_missing_values_take_the_default(e[first], d[first], path.drop_first(), key);
        }
    }
}

/// Settings that are filled up hold nothing that neither they nor the defaults held.
pub proof fn law_filling_invents_nothing(existing: Json, defaults: Json, path: Seq<Seq<char>>)
    requires
        lookup(filled(existing, defaults), path) is Some,
    ensures
        lookup(existing, path) is Some || lookup(defaults, path) is Some,
    decreases path.len(),
{
    if path.len() > 0 {
        if let (Json::Object(e), Json::Object(d)) = (existing, defaults) {
            let key = path.first();
            if e.dom().contains(key) && d.dom().contains(key) {
                law_filling_invents_nothing(e[key], d[key], path.drop_first());
            }
        }
    }
}

/// Filling up twice is the same as filling up once.
pub proof fn law_filling_again_changes_nothing(existing: Json, defaults: Json)
    ensures
        filled(filled(existing, defaults), defaults) == filled(existing, defaults),
    decreases defaults,
{
    if let (Json::Object(e), Json::Object(d)) = (existing, defaults) {
        let once = filled(existing, defaults)->Object_0;
        let twice = filled(Json::Object(once), defaults)->Object_0;
        assert forall|key: Seq<char>| once.dom().contains(key) implies #[trigger] twice[key]
            == once[key] by {
            if d.dom().contains(key) {
                if e.dom().contains(key) {
                    law_filling_again_changes_nothing(e[key], d[key]);
                } else {
                    law_defaults_are_filled(d[key]);
                }
            }
        }
        assert(twice =~= once);
    }
}

/// The defaults lack nothing of themselves.
pub proof fn law_defaults_are_filled(defaults: Json)
    ensures
        filled(defaults, defaults) == defaults,
    decreases defaults,
{
    if let Json::Object(d) = defaults {
        let full = filled(defaults, defaults)->Object_0;
        assert forall|key: Seq<char>| d.dom().contains(key) implies #[trigger] full[key]
            == d[key] by {
            law_defaults_are_filled(d[key]);
        }
        assert(full =~= d);
    }
}

/// The version and the Steam section have different names.
proof fn lemma_keys_differ()
    ensures
        "version"@ != "steam"@,
{
    reveal_strlit("version");
    reveal_strlit("steam");
    assert("version"@.len() != "steam"@.len());
}

/// The new settings name the language.
pub proof fn law_merging_sets_the_language(
    defaults: Map<Seq<char>, Json>,
    existing: Option<Map<Seq<char>, Json>>,
    language: Seq<char>,
)
    ensures
        merged(defaults, existing, language) matches Some(new) ==> language_of(new) == Some(
            language,
        ),
{
}

/// But for the language, the new settings are what they are made from.
pub proof fn law_merging_changes_only_the_language(
    defaults: Map<Seq<char>, Json>,
    existing: Option<Map<Seq<char>, Json>>,
    language: Seq<char>,
    path: Seq<Seq<char>>,
)
    requires
        merged(defaults, existing, language) is Some,
        path.len() > 0,
        path[0] == "steam"@ ==> path.len() > 1 && path[1] != "language"@,
    ensures
        lookup(Json::Object(merged(defaults, existing, language)->0), path) == lookup(
            Json::Object(merge_base(defaults, existing)),
            path,
        ),
{
    let base = merge_base(defaults, existing);
    let steam = section(base, "steam"@)->0;
    let new = merged(defaults, existing, language)->0;
    if path.first() == "steam"@ {
        let rest = path.drop_first();
        assert(rest.first() == path[1]);
        let changed = steam.insert("language"@, Json::Text(language));
        assert(lookup(Json::Object(changed), rest) == lookup(Json::Object(steam), rest));
    } else {
        assert(new[path.first()] == base[path.first()] || !base.dom().contains(path.first()));
    }
}

/// Settings that are as new as the defaults keep every value that they have, but for the language.
pub proof fn law_current_settings_keep_their_values(
    defaults: Map<Seq<char>, Json>,
    existing: Map<Seq<char>, Json>,
    language: Seq<char>,
    path: Seq<Seq<char>>,
)
    requires
        version_of(existing) >= version_of(defaults),
        merged(defaults, Some(existing), language) is Some,
        lookup(Json::Object(existing), path) is Some,
        lookup(Json::Object(existing), path)->0 !is Object,
        path.len() > 1 && path[0] == "steam"@ ==> path[1] != "language"@,
    ensures
        lookup(Json::Object(merged(defaults, Some(existing), language)->0), path) == lookup(
            Json::Object(existing),
            path,
        ),
{
    let base = merge_base(defaults, Some(existing));
    law_existing_values_stay(Json::Object(existing), Json::Object(defaults), path);
    assert(filled(Json::Object(existing), Json::Object(defaults)) == Json::Object(base));
    if path.len() == 1 && path[0] == "steam"@ {
        reveal_with_fuel(lookup, 2);
        assert(lookup(Json::Object(base), path) == Some(base["steam"@]));
    }
    law_merging_changes_only_the_language(defaults, Some(existing), language, path);
}

/// Settings that are as new as the defaults gain each default whose key they lack, but for the
/// language.
pub proof fn law_current_settings_gain_new_defaults(
    defaults: Map<Seq<char>, Json>,
    existing: Map<Seq<char>, Json>,
    language: Seq<char>,
    path: Seq<Seq<char>>,
    key: Seq<char>,
)
    requires
        version_of(existing) >= version_of(defaults),
        merged(defaults, Some(existing), language) is Some,
        lookup(Json::Object(existing), path) matches Some(Json::Object(object))
            && !object.dom().contains(key),
        lookup(Json::Object(defaults), path.push(key)) is Some,
        path.push(key)[0] == "steam"@ ==> path.len() > 0 && path.push(key)[1] != "language"@,
    ensures
        lookup(Json::Object(merged(defaults, Some(existing), language)->0), path.push(key))
            == lookup(Json::Object(defaults), path.push(key)),
{
    let base = merge_base(defaults, Some(existing));
    law_missing_values_take_the_default(Json::Object(existing), Json::Object(defaults), path, key);
    assert(filled(Json::Object(existing), Json::Object(defaults)) == Json::Object(base));
    law_merging_changes_only_the_language(defaults, Some(existing), language, path.push(key));
}

/// Settings that are missing, or older than the defaults, are rebuilt from the defaults.
pub proof fn law_old_settings_are_rebuilt(
    defaults: Map<Seq<char>, Json>,
    existing: Option<Map<Seq<char>, Json>>,
    language: Seq<char>,
)
    requires
        existing matches Some(existing) ==> version_of(existing) < version_of(defaults),
    ensures
        merged(defaults, existing, language) == with_language(defaults, language),
{
}

/// A reset starts from the defaults, whatever the existing file holds.
pub proof fn law_a_reset_starts_from_the_defaults(
    defaults: Map<Seq<char>, Json>,
    existing: Option<Seq<u8>>,
    language: Seq<char>,
)
    ensures
        !is_unreadable(existing, true),
        merged(defaults, kept_settings(existing, true), language) == with_language(
            defaults,
            language,
        ),
{
}

/// A file that starts with a byte order mark holds the same settings as without it.
pub proof fn law_the_byte_order_mark_is_ignored(bytes: Seq<u8>)
    requires
        !seq![0xEFu8, 0xBBu8, 0xBFu8].is_prefix_of(bytes),
    ensures
        settings_in(seq![0xEFu8, 0xBBu8, 0xBFu8] + bytes) == settings_in(bytes),
        file_language(seq![0xEFu8, 0xBBu8, 0xBFu8] + bytes) == file_language(bytes),
{
    let mark = seq![0xEFu8, 0xBBu8, 0xBFu8];
    assert((mark + bytes).subrange(0, 3) =~= mark);
    assert((mark + bytes).skip(3) =~= bytes);
}

/// The new settings are never older than the defaults.
pub proof fn law_merging_keeps_up_with_the_defaults(
    defaults: Map<Seq<char>, Json>,
    existing: Option<Map<Seq<char>, Json>>,
    language: Seq<char>,
)
    ensures
        merged(defaults, existing, language) matches Some(new) ==> version_of(new) >= version_of(
            defaults,
        ),
{
    lemma_keys_differ();
    reveal_with_fuel(filled, 2);
}

/// Merging the new settings once more, with the same defaults and language, changes nothing.
pub proof fn law_merging_again_changes_nothing(
    defaults: Map<Seq<char>, Json>,
    existing: Option<Map<Seq<char>, Json>>,
    language: Seq<char>,
)
    requires
        merged(defaults, existing, language) is Some,
    ensures
        merged(defaults, merged(defaults, existing, language), language) == merged(
            defaults,
            existing,
            language,
        ),
{
    let base = merge_base(defaults, existing);
    let new = merged(defaults, existing, language)->0;
    let steam = section(base, "steam"@)->0;
    let changed = steam.insert("language"@, Json::Text(language));
    law_merging_keeps_up_with_the_defaults(defaults, existing, language);
    assert(filled(Json::Object(base), Json::Object(defaults)) == Json::Object(base)) by {
        law_defaults_are_filled(Json::Object(defaults));
        match existing {
            Some(e) => {
                law_filling_again_changes_nothing(Json::Object(e), Json::Object(defaults));
            },
            None => {},
        }
    }
    let full = filled(Json::Object(base), Json::Object(defaults))->Object_0;
    let again = filled(Json::Object(new), Json::Object(defaults))->Object_0;
    assert forall|key: Seq<char>| new.dom().contains(key) implies #[trigger] again[key]
        == new[key] by {
        assert(full[key] == base[key]);
        if key == "steam"@ && defaults.dom().contains(key) {
            if let Json::Object(d) = defaults[key] {
                let f = filled(Json::Object(steam), Json::Object(d))->Object_0;
                assert(f == steam);
                let a = filled(Json::Object(changed), Json::Object(d))->Object_0;
                assert forall|k: Seq<char>| changed.dom().contains(k) implies #[trigger] a[k]
                    == changed[k] by {
                    reveal_with_fuel(filled, 2);
                    if k != "language"@ {
                        assert(f[k] == steam[k]);
                    }
                }
                assert forall|k: Seq<char>| #[trigger]
                    a.dom().contains(k) implies changed.dom().contains(k) by {
                    assert(f.dom().contains(k) == steam.dom().contains(k));
                }
                assert(a =~= changed);
            }
        }
    }
    assert forall|key: Seq<char>| #[trigger] again.dom().contains(key) implies new.dom().contains(
        key,
    ) by {
        assert(full.dom().contains(key) == base.dom().contains(key));
    }
    assert(again =~= new);
    assert(new.insert("steam"@, Json::Object(changed.insert("language"@, Json::Text(language))))
        =~= new) by {
        assert(changed.insert("language"@, Json::Text(language)) =~= changed);
    }
}

/// Filling up settings makes them no deeper than the settings and the defaults are.
proof fn lemma_filling_keeps_the_depth(existing: Json, defaults: Json, depth: nat)
    requires
        json::is_within_depth(existing, depth),
        json::is_within_depth(defaults, depth),
    ensures
        json::is_within_depth(filled(existing, defaults), depth),
    decreases defaults,
{
    if let (Json::Object(e), Json::Object(d)) = (existing, defaults) {
        let full = filled(existing, defaults)->Object_0;
        assert forall|key: Seq<char>| full.dom().contains(key) implies json::is_within_depth(
            #[trigger] full[key],
            (depth - 1) as nat,
        ) by {
            if e.dom().contains(key) && d.dom().contains(key) {
                lemma_filling_keeps_the_depth(e[key], d[key], (depth - 1) as nat);
            }
        }
    }
}

/// The new settings are no deeper than the existing ones and the defaults are.
proof fn lemma_merging_keeps_the_depth(
    defaults: Map<Seq<char>, Json>,
    existing: Option<Map<Seq<char>, Json>>,
    language: Seq<char>,
    depth: nat,
)
    requires
        json::is_within_depth(Json::Object(defaults), depth),
        existing matches Some(e) ==> json::is_within_depth(Json::Object(e), depth),
        merged(defaults, existing, language) is Some,
    ensures
        json::is_within_depth(Json::Object(merged(defaults, existing, language)->0), depth),
{
    let base = merge_base(defaults, existing);
    match existing {
        Some(e) => {
            lemma_filling_keeps_the_depth(Json::Object(e), Json::Object(defaults), depth);
        },
        None => {},
    }
    assert(json::is_within_depth(Json::Object(base), depth));
    let steam = section(base, "steam"@)->0;
    let changed = steam.insert("language"@, Json::Text(language));
    let new = merged(defaults, existing, language)->0;
    assert(json::is_within_depth(base["steam"@], (depth - 1) as nat));
    assert forall|key: Seq<char>| changed.dom().contains(key) implies json::is_within_depth(
        #[trigger] changed[key],
        (depth - 2) as nat,
    ) by {
        if key != "language"@ {
            assert(changed[key] == steam[key]);
        }
    }
    assert(json::is_within_depth(Json::Object(changed), (depth - 1) as nat));
    assert forall|key: Seq<char>| new.dom().contains(key) implies json::is_within_depth(
        #[trigger] new[key],
        (depth - 1) as nat,
    ) by {
        if key != "steam"@ {
            assert(new[key] == base[key]);
        }
    }
}

} // verus!
