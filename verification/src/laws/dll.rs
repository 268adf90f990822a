//! Laws of the settings inside a DLL.
use vstd::prelude::*;
use serde_json::Value;
use crate::error;
use crate::error::AppResult;
use crate::json;
use crate::json::Json;
use crate::laws::settings as laws;
use crate::pe;
use crate::settings;

verus! {

/// The number in two bytes, the low one first.
pub open spec fn half(image: Seq<u8>, at: int) -> int {
    image[at] as int + 256 * image[at + 1] as int
}

/// The number in four bytes, the low one first.
pub open spec fn word(image: Seq<u8>, at: int) -> int {
    image[at] as int + 256 * image[at + 1] as int + 65536 * image[at + 2] as int + 16777216
        * image[at + 3] as int
}

/// Where the header of section number `i` starts in an image whose NT headers start at `nt`.
pub open spec fn section_header(image: Seq<u8>, nt: int, i: int) -> int {
    nt + 24 + half(image, nt + 20) + 40 * i
}

/// An image in which the resource directory, by each of its sections that holds it, stands at a
/// multiple of four.
pub open spec fn is_directory_aligned(image: Seq<u8>, nt: int) -> bool {
    forall|i: int|
        0 <= i < half(image, nt + 6) ==> {
            let header = #[trigger] section_header(image, nt, i);
            let directory = word(image, nt + 152);
            let start = word(image, header + 12);
            let raw = word(image, header + 20);
            let size = if word(image, header + 8) > word(image, header + 16) {
                word(image, header + 8)
            } else {
                word(image, header + 16)
            };
            start <= directory && directory < (start + size) % 4294967296 ==> (raw + directory
                - start) % 4 == 0
        }
}

/// An image with its NT headers at a multiple of eight, a multiple of four as the size of its
/// optional header and its resource directory at a multiple of four is searched, whatever else it
/// holds and however many sections it has. One that is too short for its headers is searched too.
/// No other is.
pub proof fn law_aligned_images_are_searched(image: &[u8], r: bool)
    requires
        call_ensures(pe::is_aligned, (image,), r),
    ensures
        image@.len() < 64 ==> r,
        image@.len() >= 64 ==> {
            let nt = word(image@, 60);
            &&& nt % 8 != 0 ==> !r
            &&& nt % 8 == 0 && nt + 136 > image@.len() ==> r
            &&& nt + 136 <= image@.len() && half(image@, nt + 20) % 4 != 0 ==> !r
            &&& nt % 8 == 0 && nt + 136 <= image@.len() && half(image@, nt + 20) % 4 == 0
                && is_directory_aligned(image@, nt) ==> r
            &&& nt + 156 <= image@.len() && section_header(image@, nt, half(image@, nt + 6))
                <= image@.len() && !is_directory_aligned(image@, nt) ==> !r
        },
{
    let s = image@;
    lemma_numbers(s);
    if s.len() >= 64 {
        let nt = word(s, 60);
        assert(nt == pe::nt_headers_at(s));
        assert(forall|i: int|
            section_header(s, nt, i) == #[trigger] pe::section_header_at(s, i));
        if is_directory_aligned(s, nt) {
            assert forall|i: int|
                0 <= i < pe::section_count(s) && #[trigger] pe::holds_address(
                    s,
                    pe::section_header_at(s, i),
                    pe::resource_address(s),
                ) implies pe::file_offset(
                s,
                pe::section_header_at(s, i),
                pe::resource_address(s),
            ) % 4 == 0 by {
                assert(section_header(s, nt, i) == pe::section_header_at(s, i));
            }
        }
        if pe::is_aligned_image(s) && nt + 156 <= s.len() && section_header(
            s,
            nt,
            half(s, nt + 6),
        ) <= s.len() {
            assert forall|i: int| 0 <= i < half(s, nt + 6) implies {
                let header = #[trigger] section_header(s, nt, i);
                let directory = word(s, nt + 152);
                let start = word(s, header + 12);
                let raw = word(s, header + 20);
                let size = if word(s, header + 8) > word(s, header + 16) {
                    word(s, header + 8)
                } else {
                    word(s, header + 16)
                };
                start <= directory && directory < (start + size) % 4294967296 ==> (raw + directory
                    - start) % 4 == 0
            } by {
                let header = section_header(s, nt, i);
                assert(header == pe::section_header_at(s, i));
                assert(pe::holds_address(s, header, pe::resource_address(s)) ==> pe::file_offset(
                    s,
                    header,
                    pe::resource_address(s),
                ) % 4 == 0);
            }
        }
    }
}

/// An image whose sections all start at multiples of four, in memory and in the file, and whose
/// resource directory does in memory, is searched, for any number of sections.
pub proof fn law_images_with_aligned_sections_are_searched(image: &[u8], r: bool)
    requires
        call_ensures(pe::is_aligned, (image,), r),
        image@.len() >= 64,
        word(image@, 60) % 8 == 0,
        half(image@, word(image@, 60) + 20) % 4 == 0,
        word(image@, word(image@, 60) + 152) % 4 == 0,
        forall|i: int|
            0 <= i < half(image@, word(image@, 60) + 6) ==> word(
                image@,
                #[trigger] section_header(image@, word(image@, 60), i) + 12,
            ) % 4 == 0 && word(image@, section_header(image@, word(image@, 60), i) + 20) % 4 == 0,
    ensures
        r,
{
    let s = image@;
    let nt = word(s, 60);
    assert(is_directory_aligned(s, nt)) by {
        assert forall|i: int| 0 <= i < half(s, nt + 6) implies {
            let header = #[trigger] section_header(s, nt, i);
            let directory = word(s, nt + 152);
            let start = word(s, header + 12);
            let raw = word(s, header + 20);
            let size = if word(s, header + 8) > word(s, header + 16) {
                word(s, header + 8)
            } else {
                word(s, header + 16)
            };
            start <= directory && directory < (start + size) % 4294967296 ==> (raw + directory
                - start) % 4 == 0
        } by {
            let header = section_header(s, nt, i);
            assert(word(s, header + 12) % 4 == 0 && word(s, header + 20) % 4 == 0);
            lemma_multiples(word(s, header + 20), word(s, nt + 152), word(s, header + 12));
        }
    }
    law_aligned_images_are_searched(image, r);
}

/// Sums and differences of multiples of four are multiples of four.
proof fn lemma_multiples(a: int, b: int, c: int)
    requires
        a % 4 == 0,
        b % 4 == 0,
        c % 4 == 0,
    ensures
        (a + b - c) % 4 == 0,
{
}

/// Both ways to read a number are the same.
proof fn lemma_numbers(image: Seq<u8>)
    ensures
        forall|at: int| half(image, at) == #[trigger] pe::u16_at(image, at),
        forall|at: int| word(image, at) == #[trigger] pe::u32_at(image, at),
{
}

/// The settings inside a DLL are the defaults in what a search for its resource 101 of type 10
/// comes back with, for every image that is searched, and an error where there are none in it; no
/// other image gives any. Settings that are given are those of the DLL.
pub proof fn law_bundled_settings(
    dll: &[u8],
    is_aligned: bool,
    r: AppResult<serde_json::Map<String, Value>>,
)
    requires
        call_ensures(pe::is_aligned, (dll,), is_aligned),
        call_ensures(settings::bundled_settings, (dll,), r),
    ensures
        is_aligned ==> exists|found: Option<Seq<u8>>| #[trigger]
            pe::may_find(dll@, 10, 101, found) && match r {
                Ok(settings) => settings::found_defaults(found) == Some(json::entries(settings)),
                Err(_) => settings::found_defaults(found) is None,
            },
        !is_aligned ==> r is Err,
        r matches Ok(settings) ==> settings::found_defaults(pe::pe_resource(dll@, 10, 101)) == Some(
            json::entries(settings),
        ),
        r matches Err(error) ==> error::is_message(
            error,
            "The Sunrise DLL does not contain valid default settings."@,
        ),
{
}

/// What was found holds defaults exactly if it is a JSON object, with or without a byte order mark,
/// that carries a version other than zero and has a Steam section; they are that object.
pub proof fn law_found_defaults(found: Seq<u8>, document: Seq<u8>, n: int)
    requires
        laws::is_file_of(found, document),
    ensures
        settings::found_defaults(None) is None,
        (json::parsed_json(document) matches Some(Json::Object(object)) && laws::carries(object, n) && n > 0
            && (settings::lookup(Json::Object(object), seq!["steam"@]) matches Some(Json::Object(_))))
            ==> settings::found_defaults(Some(found)) == Some(
            json::parsed_json(document)->0->Object_0,
        ),
        settings::found_defaults(Some(found)) matches Some(object) ==> json::parsed_json(document)
            == Some(Json::Object(object)) && !laws::carries_none(object) && !laws::carries(object, 0) && (
        settings::lookup(Json::Object(object), seq!["steam"@]) matches Some(Json::Object(_))),
{
    laws::lemma_found_defaults(found, document);
}

/// Settings for a DLL are built from the defaults in what a search in it comes back with and from
/// the existing file, for every image that is searched, and there is an error where there are no
/// defaults in it. The defaults are those of the DLL.
pub proof fn law_preparing_is_building(
    dll: &[u8],
    existing: Option<&[u8]>,
    language: &str,
    reset: bool,
    is_aligned: bool,
    r: AppResult<Vec<u8>>,
)
    requires
        call_ensures(pe::is_aligned, (dll,), is_aligned),
        call_ensures(settings::prepare_sunrise_settings, (dll, existing, language, reset), r),
    ensures
        is_aligned ==> exists|found: Option<Seq<u8>>| #[trigger]
            pe::may_find(dll@, 10, 101, found) && match settings::found_defaults(found) {
                Some(defaults) => settings::found_defaults(pe::pe_resource(dll@, 10, 101)) == Some(
                    defaults,
                ) && settings::is_build_answer(
                    defaults,
                    settings::bytes_view(existing),
                    language@,
                    reset,
                    r,
                ),
                None => r matches Err(error) && error::is_message(
                    error,
                    "The Sunrise DLL does not contain valid default settings."@,
                ),
            },
        !is_aligned ==> (r matches Err(error) && error::is_message(
            error,
            "The Sunrise DLL does not contain valid default settings."@,
        )),
{
    if is_aligned {
        let found = choose|found: Option<Seq<u8>>| #[trigger]
            pe::may_find(dll@, 10, 101, found) && match settings::found_defaults(found) {
                Some(defaults) => {
                    &&& settings::bundled_defaults(dll@) == Some(defaults)
                    &&& json::is_within_depth(Json::Object(defaults), 127)
                    &&& settings::is_build_answer(
                        defaults,
                        settings::bytes_view(existing),
                        language@,
                        reset,
                        r,
                    )
                },
                None => r matches Err(error) && settings::is_dll_error(error),
            };
        assert(pe::may_find(dll@, 10, 101, found));
    }
}

/// Where a DLL is prepared for with current settings in the existing file, those settings are kept:
/// what is written, if anything is, holds every value of the file but the language, and the new
/// language.
pub proof fn law_preparing_keeps_current_settings(
    dll: &[u8],
    existing: &[u8],
    language: &str,
    r: AppResult<Vec<u8>>,
    document: Seq<u8>,
    object: Map<Seq<char>, Json>,
    path: Seq<Seq<char>>,
    key: Seq<char>,
)
    requires
        call_ensures(
            settings::prepare_sunrise_settings,
            (dll, Some(existing), language, false),
            r,
        ),
        r is Ok,
        laws::is_file_of(existing@, document),
        json::parsed_json(document) == Some(Json::Object(object)),
        settings::found_defaults(pe::pe_resource(dll@, 10, 101)) matches Some(defaults)
            ==> laws::is_current(object, defaults),
    ensures
        settings::found_defaults(pe::pe_resource(dll@, 10, 101)) matches Some(defaults)
            && laws::builds_update(defaults, object, language@, r, path, key),
{
    let defaults = settings::bundled_defaults(dll@)->0;
    laws::lemma_build_updates(
        defaults,
        Some(existing@),
        language@,
        false,
        r,
        document,
        object,
        path,
        key,
    );
}

} // verus!
