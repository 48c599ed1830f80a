//! Language resolution: picks the display language from, in order, the
//! explicit request, the environment override, and the system locale hint,
//! falling back to English. The host reads the environment and the browser
//! and hands the raw values in; this module holds the decision logic.

use vstd::prelude::*;
use vstd::string::StringExecFns;
use vstd::string::StrSliceExecFns;

verus! {

/// The string begins with the two given characters.
pub open spec fn starts_with_pair(s: Seq<char>, a: char, b: char) -> bool {
    s.len() >= 2 && s[0] == a && s[1] == b
}

fn has_prefix_pair(s: &str, a: char, b: char) -> (r: bool)
    ensures
        r == starts_with_pair(s@, a, b),
{
    let n = s.unicode_len();
    if n < 2 {
        false
    } else {
        let c0 = s.get_char(0);
        let c1 = s.get_char(1);
        c0 == a && c1 == b
    }
}

/// The system-locale hint: a locale value such as `zh_CN.UTF-8` selects
/// simplified Chinese; any other value, or none, gives no hint.
pub fn detect_system_locale(lang_var: Option<&str>) -> (r: Option<&'static str>)
    ensures
        match lang_var {
            Some(l) => if starts_with_pair(l@, 'z', 'h') {
                r is Some && r->0@ == "zh-CN"@
            } else {
                r is None
            },
            None => r is None,
        },
{
    match lang_var {
        Some(l) => if has_prefix_pair(l, 'z', 'h') {
            Some("zh-CN")
        } else {
            None
        },
        None => None,
    }
}

/// Resolves the display language, by priority: the explicit request (command
/// line or URL), then the environment override, then the system locale hint,
/// then English.
pub fn detect_language(cli_lang: Option<&str>, env_lang: Option<&str>, system_lang: Option<&str>) -> (r:
    String)
    ensures
        cli_lang is Some ==> r@ == cli_lang->0@,
        cli_lang is None && env_lang is Some ==> r@ == env_lang->0@,
        cli_lang is None && env_lang is None && system_lang is Some && starts_with_pair(
            system_lang->0@,
            'z',
            'h',
        ) ==> r@ == "zh-CN"@,
        cli_lang is None && env_lang is None && !(system_lang is Some && starts_with_pair(
            system_lang->0@,
            'z',
            'h',
        )) ==> r@ == "en"@,
{
    if let Some(l) = cli_lang {
        return String::from_str(l);
    }
    if let Some(l) = env_lang {
        return String::from_str(l);
    }
    match detect_system_locale(system_lang) {
        Some(l) => String::from_str(l),
        None => String::from_str("en"),
    }
}

/// Normalizes a browser-style language hint: any `zh` variant maps to
/// simplified Chinese; anything else, English variants included, maps to
/// English.
pub fn normalize_browser_language(raw: &str) -> (r: String)
    ensures
        starts_with_pair(raw@, 'z', 'h') ==> r@ == "zh-CN"@,
        !starts_with_pair(raw@, 'z', 'h') ==> r@ == "en"@,
{
    if has_prefix_pair(raw, 'z', 'h') {
        String::from_str("zh-CN")
    } else {
        String::from_str("en")
    }
}

} // verus!
