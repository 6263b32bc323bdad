use vstd::prelude::*;

use crate::shared::text::{opt_str_eq, opt_view, starts_with, str_eq};

verus! {

/// The language the tray menu is shown in.
#[derive(Clone, Copy, PartialEq, Eq, Debug, Structural)]
pub enum ResolvedLanguage {
    ZhCn,
    En,
}

/// What `str::to_lowercase` returns for `s` (Unicode lowercase mapping).
pub uninterp spec fn lowercase_of(s: Seq<char>) -> Seq<char>;

/// `str::to_lowercase`: the Unicode lowercase form of `s`. The contract only names the
/// result, a function of `s` alone; it says nothing of the mapping itself.
#[verifier::external_body]
pub(crate) fn to_lowercase(s: &str) -> (r: String)
    ensures
        r@ == lowercase_of(s@),
{
    s.to_lowercase()
}

/// `sys_locale::get_locale`: the system's preferred locale, if it can be read. The result
/// depends on the environment, so nothing is promised of it.
#[verifier::external_body]
pub(crate) fn system_locale() -> Option<String> {
    sys_locale::get_locale()
}

/// The language for a configured value: `"zh-CN"` and `"en"` choose one, anything else none.
pub open spec fn explicit_language(raw: Option<Seq<char>>) -> Option<ResolvedLanguage> {
    match raw {
        Some(r) => if r == "zh-CN"@ {
            Some(ResolvedLanguage::ZhCn)
        } else if r == "en"@ {
            Some(ResolvedLanguage::En)
        } else {
            None
        },
        None => None,
    }
}

/// The language for a system locale: Chinese when its lowercase form begins with `zh`.
pub open spec fn spec_language_for_locale(locale: Option<Seq<char>>) -> ResolvedLanguage {
    if locale is Some && seq!['z', 'h'].is_prefix_of(lowercase_of(locale->0)) {
        ResolvedLanguage::ZhCn
    } else {
        ResolvedLanguage::En
    }
}

/// The language that a system locale selects.
pub fn language_for_locale(locale: Option<&str>) -> (r: ResolvedLanguage)
    ensures
        r == spec_language_for_locale(opt_view(locale)),
{
    match locale {
        Some(l) => {
            let lower = to_lowercase(l);
            proof {
                reveal_strlit("zh");
            }
            assert("zh"@ =~= seq!['z', 'h']);
            if starts_with(lower.as_str(), "zh") {
                ResolvedLanguage::ZhCn
            } else {
                ResolvedLanguage::En
            }
        },
        None => ResolvedLanguage::En,
    }
}

/// The language that the system locale selects. The locale comes from the environment,
/// so the contract says only that the result is the language of some locale.
fn detect_system_language() -> (r: ResolvedLanguage)
    ensures
        exists|locale: Option<Seq<char>>| #[trigger] spec_language_for_locale(locale) == r,
{
    let locale = system_locale();
    match &locale {
        Some(l) => {
            let r = language_for_locale(Some(l.as_str()));
            assert(spec_language_for_locale(Some(l@)) == r);
            r
        },
        None => {
            let r = language_for_locale(None);
            assert(spec_language_for_locale(None) == r);
            r
        },
    }
}

/// The language for a configured value, with the system locale `locale` deciding
/// when the value names no language.
pub fn resolve_with_locale(raw: Option<&str>, locale: Option<&str>) -> (r: ResolvedLanguage)
    ensures
        r == match explicit_language(opt_view(raw)) {
            Some(l) => l,
            None => spec_language_for_locale(opt_view(locale)),
        },
{
    if opt_str_eq(raw, "zh-CN") {
        ResolvedLanguage::ZhCn
    } else if opt_str_eq(raw, "en") {
        ResolvedLanguage::En
    } else {
        language_for_locale(locale)
    }
}

/// The language for a configured value. `"zh-CN"` and `"en"` decide; anything else
/// falls back to the system locale, which is read only in that case. Which locale the
/// system reports is not known here, so the fallback is stated as the language of
/// some locale.
pub fn resolve(raw: Option<&str>) -> (r: ResolvedLanguage)
    ensures
        explicit_language(opt_view(raw)) matches Some(l) ==> r == l,
        exists|locale: Option<Seq<char>>|
            r == match explicit_language(opt_view(raw)) {
                Some(l) => l,
                None => #[trigger] spec_language_for_locale(locale),
            },
{
    if opt_str_eq(raw, "zh-CN") || opt_str_eq(raw, "en") {
        let r = resolve_with_locale(raw, None);
        assert(spec_language_for_locale(None) == spec_language_for_locale(None));
        r
    } else {
        let r = detect_system_language();
        let ghost locale = choose|locale: Option<Seq<char>>| #[trigger] spec_language_for_locale(locale) == r;
        assert(spec_language_for_locale(locale) == r);
        r
    }
}

/// The tray menu text for `key` in `lang`; empty for a key without text.
pub open spec fn spec_menu_text(lang: ResolvedLanguage, key: Seq<char>) -> Seq<char> {
    let zh = lang == ResolvedLanguage::ZhCn;
    if key == "monitor"@ {
        if zh { "终端监听"@ } else { "Terminal Monitor"@ }
    } else if key == "settings"@ {
        if zh { "系统设置"@ } else { "Settings"@ }
    } else if key == "pet-show"@ {
        if zh { "显示桌宠"@ } else { "Show Pet"@ }
    } else if key == "pet-hide"@ {
        if zh { "隐藏桌宠"@ } else { "Hide Pet"@ }
    } else if key == "quit"@ {
        if zh { "退出"@ } else { "Quit"@ }
    } else if key == "panel"@ {
        if zh { "控制台"@ } else { "Console"@ }
    } else if key == "drag-on"@ {
        if zh { "开启拖拽"@ } else { "Enable Dragging"@ }
    } else if key == "drag-off"@ {
        if zh { "关闭拖拽"@ } else { "Disable Dragging"@ }
    } else if key == "restart"@ {
        if zh { "重启"@ } else { "Restart"@ }
    } else {
        Seq::empty()
    }
}

/// The tray menu text for `key` in `lang` (empty for a key without text).
pub fn menu_text(lang: ResolvedLanguage, key: &str) -> (r: &'static str)
    ensures
        r@ == spec_menu_text(lang, key@),
{
    let zh = lang == ResolvedLanguage::ZhCn;
    if str_eq(key, "monitor") {
        if zh { "终端监听" } else { "Terminal Monitor" }
    } else if str_eq(key, "settings") {
        if zh { "系统设置" } else { "Settings" }
    } else if str_eq(key, "pet-show") {
        if zh { "显示桌宠" } else { "Show Pet" }
    } else if str_eq(key, "pet-hide") {
        if zh { "隐藏桌宠" } else { "Hide Pet" }
    } else if str_eq(key, "quit") {
        if zh { "退出" } else { "Quit" }
    } else if str_eq(key, "panel") {
        if zh { "控制台" } else { "Console" }
    } else if str_eq(key, "drag-on") {
        if zh { "开启拖拽" } else { "Enable Dragging" }
    } else if str_eq(key, "drag-off") {
        if zh { "关闭拖拽" } else { "Disable Dragging" }
    } else if str_eq(key, "restart") {
        if zh { "重启" } else { "Restart" }
    } else {
        proof {
            reveal_strlit("");
        }
        ""
    }
}

} // verus!

verus! {

/// Every key that the tray menu shows has a text in both languages: the menu texts
/// cover the whole tray menu.
pub proof fn lemma_tray_keys_have_text(lang: ResolvedLanguage, key: Seq<char>)
    requires
        key == "panel"@ || key == "settings"@ || key == "pet-show"@ || key == "pet-hide"@
            || key == "drag-on"@ || key == "drag-off"@ || key == "restart"@ || key == "quit"@,
    ensures
        spec_menu_text(lang, key).len() > 0,
{
    if key == "panel"@ {
        reveal_strlit("panel");
        reveal_strlit("monitor");
        assert("panel"@.len() != "monitor"@.len());
        reveal_strlit("settings");
        assert("panel"@.len() != "settings"@.len());
        reveal_strlit("pet-show");
        assert("panel"@.len() != "pet-show"@.len());
        reveal_strlit("pet-hide");
        assert("panel"@.len() != "pet-hide"@.len());
        reveal_strlit("quit");
        assert("panel"@.len() != "quit"@.len());
        reveal_strlit("控制台");
        reveal_strlit("Console");
    }
    if key == "settings"@ {
        reveal_strlit("settings");
        reveal_strlit("monitor");
        assert("settings"@.len() != "monitor"@.len());
        reveal_strlit("系统设置");
        reveal_strlit("Settings");
    }
    if key == "pet-show"@ {
        reveal_strlit("pet-show");
        reveal_strlit("monitor");
        assert("pet-show"@.len() != "monitor"@.len());
        reveal_strlit("settings");
        assert("pet-show"@[0] != "settings"@[0]);
        reveal_strlit("显示桌宠");
        reveal_strlit("Show Pet");
    }
    if key == "pet-hide"@ {
        reveal_strlit("pet-hide");
        reveal_strlit("monitor");
        assert("pet-hide"@.len() != "monitor"@.len());
        reveal_strlit("settings");
        assert("pet-hide"@[0] != "settings"@[0]);
        reveal_strlit("pet-show");
        assert("pet-hide"@[4] != "pet-show"@[4]);
        reveal_strlit("隐藏桌宠");
        reveal_strlit("Hide Pet");
    }
    if key == "drag-on"@ {
        reveal_strlit("drag-on");
        reveal_strlit("monitor");
        assert("drag-on"@[0] != "monitor"@[0]);
        reveal_strlit("settings");
        assert("drag-on"@.len() != "settings"@.len());
        reveal_strlit("pet-show");
        assert("drag-on"@.len() != "pet-show"@.len());
        reveal_strlit("pet-hide");
        assert("drag-on"@.len() != "pet-hide"@.len());
        reveal_strlit("quit");
        assert("drag-on"@.len() != "quit"@.len());
        reveal_strlit("panel");
        assert("drag-on"@.len() != "panel"@.len());
        reveal_strlit("开启拖拽");
        reveal_strlit("Enable Dragging");
    }
    if key == "drag-off"@ {
        reveal_strlit("drag-off");
        reveal_strlit("monitor");
        assert("drag-off"@.len() != "monitor"@.len());
        reveal_strlit("settings");
        assert("drag-off"@[0] != "settings"@[0]);
        reveal_strlit("pet-show");
        assert("drag-off"@[0] != "pet-show"@[0]);
        reveal_strlit("pet-hide");
        assert("drag-off"@[0] != "pet-hide"@[0]);
        reveal_strlit("quit");
        assert("drag-off"@.len() != "quit"@.len());
        reveal_strlit("panel");
        assert("drag-off"@.len() != "panel"@.len());
        reveal_strlit("drag-on");
        assert("drag-off"@.len() != "drag-on"@.len());
        reveal_strlit("关闭拖拽");
        reveal_strlit("Disable Dragging");
    }
    if key == "restart"@ {
        reveal_strlit("restart");
        reveal_strlit("monitor");
        assert("restart"@[0] != "monitor"@[0]);
        reveal_strlit("settings");
        assert("restart"@.len() != "settings"@.len());
        reveal_strlit("pet-show");
        assert("restart"@.len() != "pet-show"@.len());
        reveal_strlit("pet-hide");
        assert("restart"@.len() != "pet-hide"@.len());
        reveal_strlit("quit");
        assert("restart"@.len() != "quit"@.len());
        reveal_strlit("panel");
        assert("restart"@.len() != "panel"@.len());
        reveal_strlit("drag-on");
        assert("restart"@[0] != "drag-on"@[0]);
        reveal_strlit("drag-off");
        assert("restart"@.len() != "drag-off"@.len());
        reveal_strlit("重启");
        reveal_strlit("Restart");
    }
    if key == "quit"@ {
        reveal_strlit("quit");
        reveal_strlit("monitor");
        assert("quit"@.len() != "monitor"@.len());
        reveal_strlit("settings");
        assert("quit"@.len() != "settings"@.len());
        reveal_strlit("pet-show");
        assert("quit"@.len() != "pet-show"@.len());
        reveal_strlit("pet-hide");
        assert("quit"@.len() != "pet-hide"@.len());
        reveal_strlit("退出");
        reveal_strlit("Quit");
    }
}

} // verus!
