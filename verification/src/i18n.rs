use vstd::prelude::*;

use crate::shared::i18n::{lowercase_of, system_locale, to_lowercase};
use crate::shared::text::{opt_str_eq, opt_view, starts_with, str_eq};

verus! {

/// The language of the settings-and-quit tray menu.
#[derive(Clone, Copy, PartialEq, Eq, Debug, Structural)]
pub enum ResolvedLanguage {
    ZhCn,
    En,
}

/// The language for a configured value: `"zh-CN"` and `"en"` choose one, anything else none.
pub open spec fn explicit_language(raw: Option<Seq<char>>) -> Option<ResolvedLanguage> {
    match raw {
        Some(r) => if r == "zh-CN"@ {
            Some(ResolvedLanguage::ZhCn)
        } else if r == "en"@ {
            Some(ResolvedLanguage::En)
        } else {
            None
        },
        None => None,
    }
}

/// The language for a system locale: Chinese when its lowercase form begins with `zh`.
pub open spec fn spec_language_for_locale(locale: Option<Seq<char>>) -> ResolvedLanguage {
    if locale is Some && seq!['z', 'h'].is_prefix_of(lowercase_of(locale->0)) {
        ResolvedLanguage::ZhCn
    } else {
        ResolvedLanguage::En
    }
}

/// The language that a system locale selects.
pub fn language_for_locale(locale: Option<&str>) -> (r: ResolvedLanguage)
    ensures
        r == spec_language_for_locale(opt_view(locale)),
{
    match locale {
        Some(l) => {
            let lower = to_lowercase(l);
            proof {
                reveal_strlit("zh");
            }
            assert("zh"@ =~= seq!['z', 'h']);
            if starts_with(lower.as_str(), "zh") {
                ResolvedLanguage::ZhCn
            } else {
                ResolvedLanguage::En
            }
        },
        None => ResolvedLanguage::En,
    }
}

/// The language that the system locale selects. The locale comes from the environment,
/// so the contract says only that the result is the language of some locale.
fn detect_system_language() -> (r: ResolvedLanguage)
    ensures
        exists|locale: Option<Seq<char>>| #[trigger] spec_language_for_locale(locale) == r,
{
    let locale = system_locale();
    match &locale {
        Some(l) => {
            let r = language_for_locale(Some(l.as_str()));
            assert(spec_language_for_locale(Some(l@)) == r);
            r
        },
        None => {
            let r = language_for_locale(None);
            assert(spec_language_for_locale(None) == r);
            r
        },
    }
}

/// The language for a configured value, with the system locale `locale` deciding
/// when the value names no language.
pub fn resolve_with_locale(raw: Option<&str>, locale: Option<&str>) -> (r: ResolvedLanguage)
    ensures
        r == match explicit_language(opt_view(raw)) {
            Some(l) => l,
            None => spec_language_for_locale(opt_view(locale)),
        },
{
    if opt_str_eq(raw, "zh-CN") {
        ResolvedLanguage::ZhCn
    } else if opt_str_eq(raw, "en") {
        ResolvedLanguage::En
    } else {
        language_for_locale(locale)
    }
}

/// The language for a configured value. `"zh-CN"` and `"en"` decide; anything else
/// falls back to the system locale, which is read only in that case. Which locale the
/// system reports is not known here, so the fallback is stated as the language of
/// some locale.
pub fn resolve(raw: Option<&str>) -> (r: ResolvedLanguage)
    ensures
        explicit_language(opt_view(raw)) matches Some(l) ==> r == l,
        exists|locale: Option<Seq<char>>|
            r == match explicit_language(opt_view(raw)) {
                Some(l) => l,
                None => #[trigger] spec_language_for_locale(locale),
            },
{
    if opt_str_eq(raw, "zh-CN") || opt_str_eq(raw, "en") {
        let r = resolve_with_locale(raw, None);
        assert(spec_language_for_locale(None) == spec_language_for_locale(None));
        r
    } else {
        let r = detect_system_language();
        let ghost locale = choose|locale: Option<Seq<char>>| #[trigger] spec_language_for_locale(locale) == r;
        assert(spec_language_for_locale(locale) == r);
        r
    }
}

/// The menu text for `key` in `lang`; empty for a key without text.
pub open spec fn spec_menu_text(lang: ResolvedLanguage, key: Seq<char>) -> Seq<char> {
    let zh = lang == ResolvedLanguage::ZhCn;
    if key == "settings"@ {
        if zh { "系统设置"@ } else { "Settings"@ }
    } else if key == "quit"@ {
        if zh { "退出"@ } else { "Quit"@ }
    } else {
        Seq::empty()
    }
}

/// The menu text for `key` in `lang` (empty for a key without text).
pub fn menu_text(lang: ResolvedLanguage, key: &str) -> (r: &'static str)
    ensures
        r@ == spec_menu_text(lang, key@),
{
    let zh = lang == ResolvedLanguage::ZhCn;
    if str_eq(key, "settings") {
        if zh { "系统设置" } else { "Settings" }
    } else if str_eq(key, "quit") {
        if zh { "退出" } else { "Quit" }
    } else {
        proof {
            reveal_strlit("");
        }
        ""
    }
}

} // verus!
