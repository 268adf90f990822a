//! Laws of settings.json.
use vstd::prelude::*;
use serde_json::Value;
use crate::error;
use crate::error::AppResult;
use crate::json;
use crate::json::Json;
use crate::settings;

verus! {

/// Two documents that differ in floating point numbers at most are the same where the first has
/// none.
pub proof fn law_documents_without_floats_are_the_same(a: Json, b: Json)
    requires
        json::same_but_floats(a, b),
        json::has_no_float(a),
    ensures
        a == b,
    decreases a,
{
    match (a, b) {
        (Json::Array(x), Json::Array(y)) => {
            assert forall|i: int| 0 <= i < x.len() implies x[i] == y[i] by {
                law_documents_without_floats_are_the_same(x[i], y[i]);
            }
            assert(x =~= y);
        },
        (Json::Object(x), Json::Object(y)) => {
            assert forall|key: Seq<char>| x.dom().contains(key) implies x[key] == y[key] by {
                law_documents_without_floats_are_the_same(x[key], y[key]);
            }
            assert(x =~= y);
        },
        _ => {},
    }
}

/// A document is the same as itself.
pub proof fn law_documents_are_the_same_as_themselves(a: Json)
    ensures
        json::same_but_floats(a, a),
    decreases a,
{
    match a {
        Json::Array(x) => {
            assert forall|i: int| 0 <= i < x.len() implies json::same_but_floats(
                #[trigger] x[i],
                x[i],
            ) by {
                law_documents_are_the_same_as_themselves(x[i]);
            }
        },
        Json::Object(x) => {
            assert forall|key: Seq<char>| x.dom().contains(key) implies json::same_but_floats(
                #[trigger] x[key],
                x[key],
            ) by {
                law_documents_are_the_same_as_themselves(x[key]);
            }
        },
        _ => {},
    }
}

/// A path of keys leads to the document itself where it is empty, and otherwise on from the value
/// at its first key.
pub proof fn law_paths(document: Json, key: Seq<char>, path: Seq<Seq<char>>)
    ensures
        settings::lookup(document, seq![]) == Some(document),
        document matches Json::Object(object) && object.dom().contains(key) ==> settings::lookup(
            document,
            seq![key] + path,
        ) == settings::lookup(document->Object_0[key], path),
        !(document matches Json::Object(object) && object.dom().contains(key)) ==> settings::lookup(
            document,
            seq![key] + path,
        ) is None,
{
    let whole = seq![key] + path;
    assert(whole.first() == key);
    assert(whole.drop_first() =~= path);
}

/// What a path leads to is the same in two documents that are.
pub proof fn lemma_same_at(a: Json, b: Json, path: Seq<Seq<char>>)
    requires
        json::same_but_floats(a, b),
        settings::lookup(a, path) is Some,
    ensures
        settings::lookup(b, path) is Some,
        json::same_but_floats(settings::lookup(a, path)->0, settings::lookup(b, path)->0),
    decreases path.len(),
{
    if path.len() > 0 {
        let key = path.first();
        if let (Json::Object(x), Json::Object(y)) = (a, b) {
            assert(x.dom().contains(key) && y.dom().contains(key));
            assert(json::same_but_floats(x[key], y[key]));
            lemma_same_at(x[key], y[key], path.drop_first());
        }
    }
}

/// The version of settings is the number that they carry as their version, where it fits in 32
/// bits, and zero otherwise.
pub proof fn law_versions(settings: serde_json::Map<String, Value>, r: u32, n: int)
    requires
        call_ensures(settings::settings_version, (&settings,), r),
    ensures
        carries(json::entries(settings), n) ==> r == n,
        carries_none(json::entries(settings)) ==> r == 0,
{
    lemma_carried(json::entries(settings));
}

/// The value at a key.
proof fn lemma_at(object: Map<Seq<char>, Json>, key: Seq<char>)
    ensures
        settings::lookup(Json::Object(object), seq![key]) == (if object.dom().contains(key) {
            Some(object[key])
        } else {
            None
        }),
{
    reveal_with_fuel(settings::lookup, 2);
    assert(seq![key].first() == key);
    assert(seq![key].drop_first().len() == 0);
}

/// The value at a key in a section.
proof fn lemma_at_section(object: Map<Seq<char>, Json>, first: Seq<char>, second: Seq<char>)
    ensures
        settings::lookup(Json::Object(object), seq![first, second]) == (match settings::section(
            object,
            first,
        ) {
            Some(inner) => if inner.dom().contains(second) {
                Some(inner[second])
            } else {
                None
            },
            None => None,
        }),
{
    reveal_with_fuel(settings::lookup, 3);
    let path = seq![first, second];
    assert(path.first() == first);
    assert(path.drop_first() =~= seq![second]);
    assert(seq![second].first() == second);
    assert(seq![second].drop_first().len() == 0);
}

/// The settings carry `n` as their version.
pub open spec fn carries(settings: Map<Seq<char>, Json>, n: int) -> bool {
    0 <= n <= 4294967295 && settings::lookup(Json::Object(settings), seq!["version"@]) == Some(
        Json::Unsigned(n as u64),
    )
}

/// The settings carry no version.
pub open spec fn carries_none(settings: Map<Seq<char>, Json>) -> bool {
    forall|n: int| !#[trigger] carries(settings, n)
}

/// `existing` is as new as `defaults`: it carries a version that is no less, or the defaults carry
/// none or zero.
pub open spec fn is_current(
    existing: Map<Seq<char>, Json>,
    defaults: Map<Seq<char>, Json>,
) -> bool {
    ||| carries_none(defaults) || carries(defaults, 0)
    ||| exists|n: int, m: int| #[trigger]
        carries(existing, n) && #[trigger] carries(defaults, m) && n >= m
}

/// The path leads to the Steam language or below it.
pub open spec fn is_at_language(path: Seq<Seq<char>>) -> bool {
    path.len() >= 2 && path[0] == "steam"@ && path[1] == "language"@
}

/// Being as new is a matter of the versions.
proof fn lemma_current(existing: Map<Seq<char>, Json>, defaults: Map<Seq<char>, Json>)
    ensures
        is_current(existing, defaults) <==> settings::version_of(existing) >= settings::version_of(
            defaults,
        ),
{
    lemma_carried(existing);
    lemma_carried(defaults);
}

/// The version that settings carry is what is read of them.
proof fn lemma_carried(settings: Map<Seq<char>, Json>)
    ensures
        forall|n: int| #[trigger] carries(settings, n) ==> settings::version_of(settings) == n,
        carries_none(settings) ==> settings::version_of(settings) == 0,
        carries(settings, settings::version_of(settings) as int) || carries_none(settings),
{
    lemma_at(settings, "version"@);
    if settings.dom().contains("version"@) {
        if let Json::Unsigned(n) = settings["version"@] {
            if n <= u32::MAX {
                assert(carries(settings, n as int));
            }
        }
    }
}

/// Filling up keeps every value that is not an object, adds what is missing and nothing else, at
/// any depth.
pub proof fn law_filling_up(
    object: &mut serde_json::Map<String, Value>,
    defaults: serde_json::Map<String, Value>,
    path: Seq<Seq<char>>,
    key: Seq<char>,
)
    requires
        call_ensures(settings::add_missing_defaults, (object, &defaults), ()),
    ensures
        ({
            let before = Json::Object(json::entries(*old(object)));
            let after = Json::Object(json::entries(*final(object)));
            let given = Json::Object(json::entries(defaults));
            &&& (settings::lookup(before, path) matches Some(value) && value !is Object)
                ==> settings::lookup(after, path) == settings::lookup(before, path)
            &&& (settings::lookup(before, path) matches Some(Json::Object(inner))
                && !inner.dom().contains(key)) && settings::lookup(given, path.push(key)) is Some
                ==> settings::lookup(after, path.push(key)) == settings::lookup(
                given,
                path.push(key),
            )
            &&& settings::lookup(after, path) is Some ==> settings::lookup(before, path) is Some
                || settings::lookup(given, path) is Some
            &&& settings::lookup(before, path) is Some ==> settings::lookup(after, path) is Some
        }),
{
    let before = Json::Object(json::entries(*old(object)));
    let after = Json::Object(json::entries(*final(object)));
    let given = Json::Object(json::entries(defaults));
    assert(after == settings::filled(before, given));
    if settings::lookup(before, path) matches Some(value) && value !is Object {
        settings::law_existing_values_stay(before, given, path);
    }
    if settings::lookup(before, path) matches Some(Json::Object(inner)) && !inner.dom().contains(
        key,
    ) && settings::lookup(given, path.push(key)) is Some {
        settings::law_missing_values_take_the_default(before, given, path, key);
    }
    if settings::lookup(after, path) is Some {
        settings::law_filling_invents_nothing(before, given, path);
    }
    if settings::lookup(before, path) is Some {
        lemma_nothing_goes(before, given, path);
    }
}

/// Nothing that was there goes when settings are filled up.
proof fn lemma_nothing_goes(existing: Json, defaults: Json, path: Seq<Seq<char>>)
    requires
        settings::lookup(existing, path) is Some,
    ensures
        settings::lookup(settings::filled(existing, defaults), path) is Some,
        settings::lookup(existing, path)->0 is Object ==> settings::lookup(
            settings::filled(existing, defaults),
            path,
        )->0 is Object,
    decreases path.len(),
{
    if path.len() > 0 {
        if let (Json::Object(e), Json::Object(d)) = (existing, defaults) {
            let key = path.first();
            if d.dom().contains(key) {
                lemma_nothing_goes(e[key], d[key], path.drop_first());
            }
        }
    }
}

/// The sections of the settings that new ones are made from.
proof fn lemma_base_section(
    defaults: Map<Seq<char>, Json>,
    existing: Map<Seq<char>, Json>,
    key: Seq<char>,
)
    ensures
        ({
            let full = settings::filled(Json::Object(existing), Json::Object(defaults))->Object_0;
            settings::section(full, key) is Some <==> (if existing.dom().contains(key) {
                existing[key] is Object
            } else {
                defaults.dom().contains(key) && defaults[key] is Object
            })
        }),
{
    reveal_with_fuel(settings::filled, 2);
}

/// What holds of settings that were made from current ones: they keep every value but the language,
/// gain what they lack and hold nothing else.
pub open spec fn is_update(
    new: Map<Seq<char>, Json>,
    defaults: Map<Seq<char>, Json>,
    existing: Map<Seq<char>, Json>,
    language: Seq<char>,
    path: Seq<Seq<char>>,
    key: Seq<char>,
) -> bool {
    let was = Json::Object(existing);
    let is = Json::Object(new);
    let default = Json::Object(defaults);
    &&& settings::lookup(is, seq!["steam"@, "language"@]) == Some(Json::Text(language))
    &&& !is_at_language(path) && (settings::lookup(was, path) matches Some(value)
        && value !is Object) ==> settings::lookup(is, path) == settings::lookup(was, path)
    &&& !is_at_language(path.push(key)) && path.push(key) != seq!["steam"@] && (settings::lookup(
        was,
        path,
    ) matches Some(Json::Object(inner)) && !inner.dom().contains(key)) && settings::lookup(
        default,
        path.push(key),
    ) is Some ==> settings::lookup(is, path.push(key)) == settings::lookup(default, path.push(key))
    &&& !is_at_language(path) && settings::lookup(is, path) is Some ==> settings::lookup(
        was,
        path,
    ) is Some || settings::lookup(default, path) is Some
    &&& !is_at_language(path) && (settings::lookup(was, path) matches Some(value) && value is Object)
        ==> (settings::lookup(is, path) matches Some(value) && value is Object)
    &&& !existing.dom().contains("steam"@) && path.len() > 1 && path[0] == "steam"@
        && !is_at_language(path) ==> settings::lookup(is, path) == settings::lookup(default, path)
}

/// What holds of settings that were made from the defaults: they are the defaults but for the
/// language.
pub open spec fn is_rebuild(
    new: Map<Seq<char>, Json>,
    defaults: Map<Seq<char>, Json>,
    language: Seq<char>,
    path: Seq<Seq<char>>,
) -> bool {
    let is = Json::Object(new);
    let default = Json::Object(defaults);
    &&& settings::lookup(is, seq!["steam"@, "language"@]) == Some(Json::Text(language))
    &&& !is_at_language(path) && (settings::lookup(default, path) matches Some(value)
        && value !is Object) ==> settings::lookup(is, path) == settings::lookup(default, path)
    &&& !is_at_language(path) && settings::lookup(is, path) is Some ==> settings::lookup(
        default,
        path,
    ) is Some
    &&& !is_at_language(path) && (settings::lookup(default, path) matches Some(value)
        && value is Object) ==> (settings::lookup(is, path) matches Some(value) && value is Object)
}

/// The Steam section is an object after the language is set.
proof fn lemma_steam_object(base: Map<Seq<char>, Json>, language: Seq<char>)
    requires
        settings::with_language(base, language) is Some,
    ensures
        settings::lookup(
            Json::Object(settings::with_language(base, language)->0),
            seq!["steam"@],
        ) matches Some(value) && value is Object,
{
    lemma_at(settings::with_language(base, language)->0, "steam"@);
}

/// Setting the language changes nothing else.
proof fn lemma_language(base: Map<Seq<char>, Json>, language: Seq<char>, path: Seq<Seq<char>>)
    requires
        settings::with_language(base, language) is Some,
    ensures
        ({
            let new = settings::with_language(base, language)->0;
            &&& settings::lookup(Json::Object(new), seq!["steam"@, "language"@]) == Some(
                Json::Text(language),
            )
            &&& !is_at_language(path) && path.len() > 0 && path != seq!["steam"@]
                ==> settings::lookup(Json::Object(new), path) == settings::lookup(
                Json::Object(base),
                path,
            )
            &&& settings::lookup(Json::Object(base), seq!["steam"@]) matches Some(Json::Object(_))
        }),
{
    let new = settings::with_language(base, language)->0;
    lemma_at_section(new, "steam"@, "language"@);
    lemma_at(base, "steam"@);
    if !is_at_language(path) && path.len() > 0 && path != seq!["steam"@] {
        if path[0] == "steam"@ {
            if path.len() == 1 {
                assert(path =~= seq!["steam"@]);
            }
        }
        settings::law_merging_changes_only_the_language(base, None, language, path);
    }
}

/// Current settings are kept: the new ones have every value that the existing ones have, but the
/// language, gain what those lack and hold nothing else. They can be made exactly if there is a
/// Steam section.
pub proof fn law_merging_current_settings(
    defaults: serde_json::Map<String, Value>,
    existing: serde_json::Map<String, Value>,
    language: &str,
    r: AppResult<serde_json::Map<String, Value>>,
    path: Seq<Seq<char>>,
    key: Seq<char>,
)
    requires
        call_ensures(settings::merge_settings, (defaults, Some(existing), language), r),
        is_current(json::entries(existing), json::entries(defaults)),
    ensures
        r matches Ok(new) ==> is_update(
            json::entries(new),
            json::entries(defaults),
            json::entries(existing),
            language@,
            path,
            key,
        ),
        r matches Err(error) ==> error::is_message(
            error,
            "Sunrise settings.json has no valid Steam section."@,
        ),
        r is Ok <==> (match settings::lookup(
            Json::Object(json::entries(existing)),
            seq!["steam"@],
        ) {
            Some(value) => value is Object,
            None => settings::lookup(
                Json::Object(json::entries(defaults)),
                seq!["steam"@],
            ) matches Some(Json::Object(_)),
        }),
{
    let d = json::entries(defaults);
    let e = json::entries(existing);
    lemma_current(e, d);
    lemma_update(d, e, language@, path, key);
}

/// Merging current settings, over their entries.
proof fn lemma_update(
    defaults: Map<Seq<char>, Json>,
    existing: Map<Seq<char>, Json>,
    language: Seq<char>,
    path: Seq<Seq<char>>,
    key: Seq<char>,
)
    requires
        settings::version_of(existing) >= settings::version_of(defaults),
    ensures
        settings::merged(defaults, Some(existing), language) matches Some(new) ==> is_update(
            new,
            defaults,
            existing,
            language,
            path,
            key,
        ),
        settings::merged(defaults, Some(existing), language) is Some <==> (match settings::lookup(
            Json::Object(existing),
            seq!["steam"@],
        ) {
            Some(value) => value is Object,
            None => settings::lookup(Json::Object(defaults), seq!["steam"@]) matches Some(
                Json::Object(_),
            ),
        }),
{
    let was = Json::Object(existing);
    let default = Json::Object(defaults);
    let base = settings::merge_base(defaults, Some(existing));
    assert(settings::filled(was, default) == Json::Object(base));
    lemma_at(existing, "steam"@);
    lemma_at(defaults, "steam"@);
    lemma_base_section(defaults, existing, "steam"@);
    if let Some(new) = settings::merged(defaults, Some(existing), language) {
        lemma_language(base, language, path);
        lemma_language(base, language, path.push(key));
        if !is_at_language(path) && (settings::lookup(was, path) matches Some(value)
            && value !is Object) {
            settings::law_existing_values_stay(was, default, path);
            if path.len() == 0 {
                assert(settings::lookup(was, path) == Some(was));
            }
            assert(path != seq!["steam"@]);
        }
        if settings::lookup(was, path) matches Some(Json::Object(inner)) && !inner.dom().contains(
            key,
        ) && settings::lookup(default, path.push(key)) is Some {
            settings::law_missing_values_take_the_default(was, default, path, key);
        }
        lemma_steam_object(base, language);
        if settings::lookup(was, path) is Some {
            lemma_nothing_goes(was, default, path);
        }
        if path.len() == 0 {
            assert(settings::lookup(Json::Object(new), path) == Some(Json::Object(new)));
        }
        if !existing.dom().contains("steam"@) && path.len() > 1 && path[0] == "steam"@
            && !is_at_language(path) {
            assert(path != seq!["steam"@]);
            assert(base.dom().contains("steam"@) ==> base["steam"@] == defaults["steam"@]);
            assert(settings::lookup(Json::Object(base), path) == settings::lookup(default, path));
        }
        if !is_at_language(path) && settings::lookup(Json::Object(new), path) is Some {
            if path.len() > 0 {
                assert(settings::lookup(Json::Object(base), path) is Some);
                settings::law_filling_invents_nothing(was, default, path);
            }
        }
    }
}

/// Settings that are missing or older than the defaults are rebuilt: the new ones are the defaults
/// but for the language. They can be made exactly if the defaults have a Steam section.
pub proof fn law_merging_other_settings(
    defaults: serde_json::Map<String, Value>,
    existing: Option<serde_json::Map<String, Value>>,
    language: &str,
    r: AppResult<serde_json::Map<String, Value>>,
    path: Seq<Seq<char>>,
)
    requires
        call_ensures(settings::merge_settings, (defaults, existing, language), r),
        existing matches Some(existing) ==> !is_current(
            json::entries(existing),
            json::entries(defaults),
        ),
    ensures
        r matches Ok(new) ==> is_rebuild(
            json::entries(new),
            json::entries(defaults),
            language@,
            path,
        ),
        r matches Err(error) ==> error::is_message(
            error,
            "Sunrise settings.json has no valid Steam section."@,
        ),
        r is Ok <==> (settings::lookup(
            Json::Object(json::entries(defaults)),
            seq!["steam"@],
        ) matches Some(Json::Object(_))),
{
    let d = json::entries(defaults);
    match existing {
        Some(existing) => {
            lemma_current(json::entries(existing), d);
        },
        None => {},
    }
    lemma_rebuild(d, language@, path);
}

/// Rebuilding settings, over their entries.
proof fn lemma_rebuild(
    defaults: Map<Seq<char>, Json>,
    language: Seq<char>,
    path: Seq<Seq<char>>,
)
    ensures
        settings::with_language(defaults, language) matches Some(new) ==> is_rebuild(
            new,
            defaults,
            language,
            path,
        ),
        settings::with_language(defaults, language) is Some <==> (settings::lookup(
            Json::Object(defaults),
            seq!["steam"@],
        ) matches Some(Json::Object(_))),
{
    lemma_at(defaults, "steam"@);
    if let Some(new) = settings::with_language(defaults, language) {
        lemma_language(defaults, language, path);
        lemma_steam_object(defaults, language);
        if path.len() == 0 {
            assert(settings::lookup(Json::Object(defaults), path) == Some(Json::Object(defaults)));
            assert(settings::lookup(Json::Object(new), path) == Some(Json::Object(new)));
        }
    }
}

/// `bytes` are `document`, with or without a byte order mark before it.
pub open spec fn is_file_of(bytes: Seq<u8>, document: Seq<u8>) -> bool {
    ||| bytes == document && !seq![0xEFu8, 0xBBu8, 0xBFu8].is_prefix_of(bytes)
    ||| bytes == seq![0xEFu8, 0xBBu8, 0xBFu8] + document
}

/// What a file holds is what its document holds.
proof fn lemma_file(bytes: Seq<u8>, document: Seq<u8>)
    requires
        is_file_of(bytes, document),
    ensures
        settings::without_mark(bytes) == document,
        settings::settings_in(bytes) == (match json::parsed_json(document) {
            Some(Json::Object(object)) => Some(object),
            _ => None,
        }),
{
    let mark = seq![0xEFu8, 0xBBu8, 0xBFu8];
    assert((mark + document).subrange(0, 3) =~= mark);
    assert((mark + document).skip(3) =~= document);
}

/// A byte order mark is taken off and nothing else.
pub proof fn law_byte_order_marks(bytes: &[u8], r: &[u8], document: Seq<u8>)
    requires
        call_ensures(settings::without_byte_order_mark, (bytes,), r),
        is_file_of(bytes@, document),
    ensures
        r@ == document,
{
    lemma_file(bytes@, document);
}

/// The language of a settings file is the text at its Steam language, with or without a byte order
/// mark; a file that is no JSON object or has no text there names none.
pub proof fn law_the_language_of_a_file(
    bytes: &[u8],
    r: Option<String>,
    document: Seq<u8>,
    language: Seq<char>,
)
    requires
        call_ensures(settings::settings_language, (bytes,), r),
        is_file_of(bytes@, document),
    ensures
        (r matches Some(found) && found@ == language) <==> (json::parsed_json(document) matches Some(
            root,
        ) && settings::lookup(root, seq!["steam"@, "language"@]) == Some(Json::Text(language))),
        r is Some ==> json::parsed_json(document) matches Some(Json::Object(_)),
{
    lemma_file(bytes@, document);
    match json::parsed_json(document) {
        Some(Json::Object(object)) => {
            lemma_at_section(object, "steam"@, "language"@);
        },
        Some(other) => {
            assert(seq!["steam"@, "language"@].len() > 0);
            assert(settings::lookup(other, seq!["steam"@, "language"@]) is None);
        },
        None => {},
    }
}

/// What was written holds what was to be written: where it can be read again, each value that is
/// no floating point number and holds none is there, and any other is there but for such numbers.
pub open spec fn is_written(
    bytes: Seq<u8>,
    value: Json,
    path: Seq<Seq<char>>,
) -> bool {
    json::parsed_json(bytes) matches Some(written) ==> {
        &&& settings::lookup(written, path) is Some
        &&& json::same_but_floats(value, settings::lookup(written, path)->0)
        &&& json::has_no_float(value) ==> settings::lookup(written, path) == Some(value)
    }
}

/// What is at a path of the settings is written.
proof fn lemma_written(
    bytes: Seq<u8>,
    new: Map<Seq<char>, Json>,
    path: Seq<Seq<char>>,
)
    requires
        json::parsed_json(bytes) matches Some(document) ==> json::same_but_floats(
            Json::Object(new),
            document,
        ),
        settings::lookup(Json::Object(new), path) is Some,
    ensures
        is_written(bytes, settings::lookup(Json::Object(new), path)->0, path),
{
    if let Some(written) = json::parsed_json(bytes) {
        lemma_same_at(Json::Object(new), written, path);
        let value = settings::lookup(Json::Object(new), path)->0;
        if json::has_no_float(value) {
            law_documents_without_floats_are_the_same(
                value,
                settings::lookup(written, path)->0,
            );
        }
    }
}

/// A build with current settings, over what it answers.
pub proof fn lemma_build_updates(
    defaults: Map<Seq<char>, Json>,
    existing: Option<Seq<u8>>,
    language: Seq<char>,
    reset: bool,
    r: AppResult<Vec<u8>>,
    document: Seq<u8>,
    object: Map<Seq<char>, Json>,
    path: Seq<Seq<char>>,
    key: Seq<char>,
)
    requires
        settings::is_build_answer(defaults, existing, language, reset, r),
        !reset,
        existing is Some,
        is_file_of(existing->0, document),
        json::parsed_json(document) == Some(Json::Object(object)),
        is_current(object, defaults),
    ensures
        builds_update(defaults, object, language, r, path, key),
{
    lemma_file(existing->0, document);
    lemma_current(object, defaults);
    lemma_update(defaults, object, language, path, key);
    if let Ok(bytes) = r {
        let new = settings::merged(defaults, Some(object), language)->0;
        lemma_written(bytes@, new, seq!["steam"@, "language"@]);
        if settings::lookup(Json::Object(new), path) is Some {
            lemma_written(bytes@, new, path);
        }
        if settings::lookup(Json::Object(new), path.push(key)) is Some {
            lemma_written(bytes@, new, path.push(key));
        }
        if let Some(written) = json::parsed_json(bytes@) {
            if settings::lookup(written, path) is Some {
                lemma_same_back(Json::Object(new), written, path);
            }
        }
    }
}

/// What a build answers where the existing file holds current settings: the bytes of settings that
/// keep the file's values, with the new language.
pub open spec fn builds_update(
    defaults: Map<Seq<char>, Json>,
    object: Map<Seq<char>, Json>,
    language: Seq<char>,
    r: AppResult<Vec<u8>>,
    path: Seq<Seq<char>>,
    key: Seq<char>,
) -> bool {
    let was = Json::Object(object);
    let default = Json::Object(defaults);
    &&& r is Ok <==> (match settings::lookup(was, seq!["steam"@]) {
        Some(value) => value is Object,
        None => settings::lookup(default, seq!["steam"@]) matches Some(Json::Object(_)),
    })
    &&& r matches Err(error) ==> error::is_message(
        error,
        "Sunrise settings.json has no valid Steam section."@,
    )
    &&& r matches Ok(bytes) ==> {
        &&& is_written(bytes@, Json::Text(language), seq!["steam"@, "language"@])
        &&& !is_at_language(path) && (settings::lookup(was, path) matches Some(value)
            && value !is Object) ==> is_written(bytes@, settings::lookup(was, path)->0, path)
        &&& !is_at_language(path.push(key)) && path.push(key) != seq!["steam"@] && (
        settings::lookup(was, path) matches Some(Json::Object(inner)) && !inner.dom().contains(key))
            && settings::lookup(default, path.push(key)) is Some ==> is_written(
            bytes@,
            settings::lookup(default, path.push(key))->0,
            path.push(key),
        )
        &&& !object.dom().contains("steam"@) && path.len() > 1 && path[0] == "steam"@
            && !is_at_language(path) && settings::lookup(default, path) is Some ==> is_written(
            bytes@,
            settings::lookup(default, path)->0,
            path,
        )
        &&& json::parsed_json(bytes@) matches Some(written) ==> (!is_at_language(path)
            && settings::lookup(written, path) is Some ==> settings::lookup(was, path) is Some
            || settings::lookup(default, path) is Some)
    }
}

/// Without a reset, current settings in the existing file are kept: every value of the file but the
/// language is in the bytes that are written, and so is each default that the file lacks and the
/// new language. Nothing that the file holds, a language neither, makes it count as missing.
pub proof fn law_building_keeps_current_settings(
    defaults: serde_json::Map<String, Value>,
    existing: &[u8],
    language: &str,
    r: AppResult<Vec<u8>>,
    document: Seq<u8>,
    object: Map<Seq<char>, Json>,
    path: Seq<Seq<char>>,
    key: Seq<char>,
)
    requires
        call_ensures(settings::build_settings, (defaults, Some(existing), language, false), r),
        is_file_of(existing@, document),
        json::parsed_json(document) == Some(Json::Object(object)),
        is_current(object, json::entries(defaults)),
    ensures
        builds_update(json::entries(defaults), object, language@, r, path, key),
{
    lemma_build_updates(
        json::entries(defaults),
        Some(existing@),
        language@,
        false,
        r,
        document,
        object,
        path,
        key,
    );
}

/// What a build answers where it starts from the defaults: their bytes, with the new language.
pub open spec fn builds_anew(
    defaults: Map<Seq<char>, Json>,
    language: Seq<char>,
    r: AppResult<Vec<u8>>,
    path: Seq<Seq<char>>,
) -> bool {
    let default = Json::Object(defaults);
    &&& r is Ok <==> (settings::lookup(default, seq!["steam"@]) matches Some(Json::Object(_)))
    &&& r matches Err(error) ==> error::is_message(
        error,
        "Sunrise settings.json has no valid Steam section."@,
    )
    &&& r matches Ok(bytes) ==> {
        &&& is_written(bytes@, Json::Text(language), seq!["steam"@, "language"@])
        &&& !is_at_language(path) && (settings::lookup(default, path) matches Some(value)
            && value !is Object) ==> is_written(bytes@, settings::lookup(default, path)->0, path)
        &&& json::parsed_json(bytes@) matches Some(written) ==> (!is_at_language(path)
            && settings::lookup(written, path) is Some ==> settings::lookup(default, path) is Some)
    }
}

/// A build that starts from the defaults, over what it answers.
proof fn lemma_build_anew(
    defaults: Map<Seq<char>, Json>,
    existing: Option<Seq<u8>>,
    language: Seq<char>,
    reset: bool,
    r: AppResult<Vec<u8>>,
    document: Seq<u8>,
    object: Map<Seq<char>, Json>,
    path: Seq<Seq<char>>,
)
    requires
        settings::is_build_answer(defaults, existing, language, reset, r),
        reset || existing is None || is_file_of(existing->0, document) && json::parsed_json(
            document,
        ) == Some(Json::Object(object)) && !is_current(object, defaults),
    ensures
        builds_anew(defaults, language, r, path),
{
    if !reset && existing is Some {
        lemma_file(existing->0, document);
        lemma_current(object, defaults);
    }
    lemma_rebuild(defaults, language, path);
    if let Ok(bytes) = r {
        let new = settings::with_language(defaults, language)->0;
        lemma_written(bytes@, new, seq!["steam"@, "language"@]);
        if settings::lookup(Json::Object(new), path) is Some {
            lemma_written(bytes@, new, path);
        }
        if let Some(written) = json::parsed_json(bytes@) {
            if settings::lookup(written, path) is Some {
                lemma_same_back(Json::Object(new), written, path);
            }
        }
    }
}

/// What a path leads to in the second of two documents that are the same, it leads to in the first.
proof fn lemma_same_back(a: Json, b: Json, path: Seq<Seq<char>>)
    requires
        json::same_but_floats(a, b),
        settings::lookup(b, path) is Some,
    ensures
        settings::lookup(a, path) is Some,
    decreases path.len(),
{
    if path.len() > 0 {
        let key = path.first();
        if let (Json::Object(x), Json::Object(y)) = (a, b) {
            assert(x.dom().contains(key) && y.dom().contains(key));
            assert(json::same_but_floats(x[key], y[key]));
            lemma_same_back(x[key], y[key], path.drop_first());
        }
    }
}

/// On a reset, without a file, and where the file holds settings older than the defaults, what is
/// written are the defaults with the new language, and nothing of the file.
pub proof fn law_building_anew(
    defaults: serde_json::Map<String, Value>,
    existing: Option<&[u8]>,
    language: &str,
    reset: bool,
    r: AppResult<Vec<u8>>,
    document: Seq<u8>,
    object: Map<Seq<char>, Json>,
    path: Seq<Seq<char>>,
)
    requires
        call_ensures(settings::build_settings, (defaults, existing, language, reset), r),
        reset || existing is None || is_file_of(existing->0@, document) && json::parsed_json(
            document,
        ) == Some(Json::Object(object)) && !is_current(object, json::entries(defaults)),
    ensures
        builds_anew(json::entries(defaults), language@, r, path),
{
    lemma_build_anew(
        json::entries(defaults),
        settings::bytes_view(existing),
        language@,
        reset,
        r,
        document,
        object,
        path,
    );
}

/// Without a reset, a file that holds no JSON object is refused, whatever the defaults are.
pub proof fn law_unreadable_files_are_refused(
    defaults: serde_json::Map<String, Value>,
    existing: &[u8],
    language: &str,
    r: AppResult<Vec<u8>>,
    document: Seq<u8>,
)
    requires
        call_ensures(settings::build_settings, (defaults, Some(existing), language, false), r),
        is_file_of(existing@, document),
        !(json::parsed_json(document) matches Some(Json::Object(_))),
    ensures
        r matches Err(error) && error::is_message(
            error,
            "Sunrise settings.json could not be read."@,
        ),
{
    lemma_file(existing@, document);
}

/// What is written can be read again where neither the defaults nor the existing file hold a
/// floating point number and the defaults have at most 127 levels.
pub proof fn law_written_settings_can_be_read(
    defaults: serde_json::Map<String, Value>,
    existing: Option<&[u8]>,
    language: &str,
    reset: bool,
    r: AppResult<Vec<u8>>,
)
    requires
        call_ensures(settings::build_settings, (defaults, existing, language, reset), r),
        r is Ok,
        json::is_within_depth(Json::Object(json::entries(defaults)), 127),
        json::has_no_float(Json::Object(json::entries(defaults))),
        settings::kept_settings(settings::bytes_view(existing), reset) matches Some(kept)
            ==> json::has_no_float(Json::Object(kept)),
    ensures
        json::parsed_json(r->Ok_0@) is Some,
{
    let d = json::entries(defaults);
    let kept = settings::kept_settings(settings::bytes_view(existing), reset);
    let base = settings::merge_base(d, kept);
    match kept {
        Some(kept) => {
            lemma_filling_adds_no_float(Json::Object(kept), Json::Object(d));
        },
        None => {},
    }
    assert(json::has_no_float(Json::Object(base)));
    let new = settings::merged(d, kept, language@)->0;
    let steam = settings::section(base, "steam"@)->0;
    let changed = steam.insert("language"@, Json::Text(language@));
    assert(json::has_no_float(base["steam"@]));
    assert forall|key: Seq<char>| changed.dom().contains(key) implies json::has_no_float(
        #[trigger] changed[key],
    ) by {
        if key != "language"@ {
            assert(changed[key] == steam[key]);
        }
    }
    assert(json::has_no_float(Json::Object(changed)));
    assert forall|key: Seq<char>| new.dom().contains(key) implies json::has_no_float(
        #[trigger] new[key],
    ) by {
        if key != "steam"@ {
            assert(new[key] == base[key]);
        }
    }
}

/// Filling up settings brings in no floating point number that neither they nor the defaults hold.
proof fn lemma_filling_adds_no_float(existing: Json, defaults: Json)
    requires
        json::has_no_float(existing),
        json::has_no_float(defaults),
    ensures
        json::has_no_float(settings::filled(existing, defaults)),
    decreases defaults,
{
    if let (Json::Object(e), Json::Object(d)) = (existing, defaults) {
        let full = settings::filled(existing, defaults)->Object_0;
        assert forall|key: Seq<char>| full.dom().contains(key) implies json::has_no_float(
            #[trigger] full[key],
        ) by {
            if e.dom().contains(key) && d.dom().contains(key) {
                lemma_filling_adds_no_float(e[key], d[key]);
            }
        }
    }
}

/// What was found in a DLL, over its document.
pub proof fn lemma_found_defaults(found: Seq<u8>, document: Seq<u8>)
    requires
        is_file_of(found, document),
    ensures
        settings::found_defaults(Some(found)) == (match json::parsed_json(document) {
            Some(Json::Object(object)) if settings::are_defaults(object) => Some(object),
            _ => None,
        }),
        json::parsed_json(document) matches Some(Json::Object(object)) ==> (settings::are_defaults(
            object,
        ) <==> !carries_none(object) && !carries(object, 0) && (settings::lookup(
            Json::Object(object),
            seq!["steam"@],
        ) matches Some(Json::Object(_)))),
        json::parsed_json(document) matches Some(Json::Object(object)) ==> forall|n: int| #[trigger]
            carries(object, n) && n > 0 ==> !carries_none(object) && !carries(object, 0),
{
    lemma_file(found, document);
    match json::parsed_json(document) {
        Some(Json::Object(object)) => {
            lemma_carried(object);
            lemma_at(object, "steam"@);
        },
        _ => {},
    }
}

/// A document in a DLL gives its settings exactly if it is a JSON object that carries a version
/// other than zero and has a Steam section, and then as they are.
pub proof fn law_default_documents(
    found: Option<Vec<u8>>,
    r: AppResult<serde_json::Map<String, Value>>,
    document: Seq<u8>,
    n: int,
)
    requires
        call_ensures(settings::document_settings, (found,), r),
        found matches Some(found) ==> is_file_of(found@, document),
    ensures
        found is None ==> r is Err,
        found is Some && (json::parsed_json(document) matches Some(Json::Object(object)) && carries(
            object,
            n,
        ) && n > 0 && (settings::lookup(
            Json::Object(object),
            seq!["steam"@],
        ) matches Some(Json::Object(_)))) ==> (r matches Ok(settings) && Some(
            Json::Object(json::entries(settings)),
        ) == json::parsed_json(document)),
        r matches Ok(settings) ==> found is Some && json::parsed_json(document) == Some(
            Json::Object(json::entries(settings)),
        ) && !carries_none(json::entries(settings)) && !carries(json::entries(settings), 0)
            && settings::lookup(
            Json::Object(json::entries(settings)),
            seq!["steam"@],
        ) matches Some(Json::Object(_)),
        r matches Err(error) ==> error::is_message(
            error,
            "The Sunrise DLL does not contain valid default settings."@,
        ),
{
    match found {
        Some(found) => {
            lemma_file(found@, document);
            match json::parsed_json(document) {
                Some(Json::Object(object)) => {
                    lemma_carried(object);
                    lemma_at(object, "steam"@);
                },
                _ => {},
            }
        },
        None => {},
    }
}

/// The settings in a file are the JSON object that its document holds, if it holds one.
pub proof fn law_reading_settings(
    bytes: &[u8],
    r: Option<serde_json::Map<String, Value>>,
    document: Seq<u8>,
)
    requires
        call_ensures(settings::read_settings, (bytes,), r),
        is_file_of(bytes@, document),
    ensures
        r matches Some(object) ==> json::parsed_json(document) == Some(
            Json::Object(json::entries(object)),
        ),
        r is None ==> !(json::parsed_json(document) matches Some(Json::Object(_))),
{
    lemma_file(bytes@, document);
}

/// The views of what may be absent are those of what is there.
pub proof fn law_views_of_optional_values(bytes: &[u8], object: serde_json::Map<String, Value>)
    ensures
        settings::bytes_view(Some(bytes)) == Some(bytes@),
        settings::bytes_view(None) is None,
        settings::entries_of(Some(object)) == Some(json::entries(object)),
        settings::entries_of(None) is None,
{
}

} // verus!
