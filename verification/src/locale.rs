//! The languages of the backend's own messages, and their texts.

use vstd::prelude::*;
use crate::key_state::{lowercase, to_lowercase};
use crate::text::{has_prefix, starts_with, str_eq};

verus! {

/// The languages the backend's messages come in.
#[derive(Debug, Clone, Copy, PartialEq, Eq, Structural)]
pub enum BackendLocale {
    ZhCN,
    En,
}

/// The language a locale name selects: Chinese when its lower-cased form
/// begins with `zh`, English otherwise.
pub open spec fn spec_locale_from_str(s: Seq<char>) -> BackendLocale {
    if has_prefix(lowercase(s), "zh"@) {
        BackendLocale::ZhCN
    } else {
        BackendLocale::En
    }
}

/// The locale tag of a language: `zh-CN` or `en`.
pub open spec fn spec_locale_tag(l: BackendLocale) -> Seq<char> {
    match l {
        BackendLocale::ZhCN => "zh-CN"@,
        BackendLocale::En => "en"@,
    }
}

/// The message text of `key` in language `l`; an unknown key reads as
/// itself.
pub open spec fn spec_tr(l: BackendLocale, key: Seq<char>) -> Seq<char> {
    if key == "target_window_required"@ {
        match l {
            BackendLocale::ZhCN => "未选择目标窗口"@,
            BackendLocale::En => "No target window selected"@,
        }
    } else if key == "png_filter"@ {
        match l {
            BackendLocale::ZhCN => "PNG 图片"@,
            BackendLocale::En => "PNG images"@,
        }
    } else if key == "tray.config"@ {
        match l {
            BackendLocale::ZhCN => "配置"@,
            BackendLocale::En => "Config"@,
        }
    } else if key == "tray.settings"@ {
        match l {
            BackendLocale::ZhCN => "设置"@,
            BackendLocale::En => "Settings"@,
        }
    } else if key == "tray.quit"@ {
        match l {
            BackendLocale::ZhCN => "退出"@,
            BackendLocale::En => "Quit"@,
        }
    } else if key == "tray.window_mode"@ {
        match l {
            BackendLocale::ZhCN => "窗口模式"@,
            BackendLocale::En => "Window Mode"@,
        }
    } else {
        key
    }
}

/// The language an explicit setting selects: the saved setting when it is
/// `zh-CN` or `en`, the system's language otherwise (`auto`).
pub open spec fn spec_resolve_locale(saved: Seq<char>, system: BackendLocale) -> BackendLocale {
    if saved == "zh-CN"@ || saved == "en"@ {
        spec_locale_from_str(saved)
    } else {
        spec_locale_from_str(spec_locale_tag(system))
    }
}

impl BackendLocale {
    /// The language a locale name selects.
    pub fn from_str(s: &str) -> (l: Self)
        ensures
            l == spec_locale_from_str(s@),
    {
        let lowered = to_lowercase(s);
        let zh = "zh";
        proof {
            reveal_strlit("zh");
        }
        if starts_with(lowered.as_str(), zh) {
            BackendLocale::ZhCN
        } else {
            BackendLocale::En
        }
    }

    /// The system's language from the system locale name (the user default
    /// locale on Windows, `LANG` or `LC_ALL` elsewhere, with trailing NULs
    /// removed); English when there is none.
    pub fn detect(system_locale: Option<&str>) -> (l: Self)
        ensures
            system_locale is None ==> l == BackendLocale::En,
            system_locale is Some ==> l == spec_locale_from_str(system_locale->0@),
    {
        match system_locale {
            None => BackendLocale::En,
            Some(s) => Self::from_str(s),
        }
    }
}

/// The locale tag of the system's language.
pub fn detect_locale(system: BackendLocale) -> (s: &'static str)
    ensures
        s@ == spec_locale_tag(system),
{
    match system {
        BackendLocale::ZhCN => {
            proof {
                reveal_strlit("zh-CN");
            }
            "zh-CN"
        },
        BackendLocale::En => {
            proof {
                reveal_strlit("en");
            }
            "en"
        },
    }
}

/// The message text of `key` in language `l`.
pub fn tr(l: BackendLocale, key: &str) -> (s: String)
    ensures
        s@ == spec_tr(l, key@),
{
    proof {
        reveal_strlit("target_window_required");
        reveal_strlit("png_filter");
        reveal_strlit("tray.config");
        reveal_strlit("tray.settings");
        reveal_strlit("tray.quit");
        reveal_strlit("tray.window_mode");
        reveal_strlit("未选择目标窗口");
        reveal_strlit("No target window selected");
        reveal_strlit("PNG 图片");
        reveal_strlit("PNG images");
        reveal_strlit("配置");
        reveal_strlit("Config");
        reveal_strlit("设置");
        reveal_strlit("Settings");
        reveal_strlit("退出");
        reveal_strlit("Quit");
        reveal_strlit("窗口模式");
        reveal_strlit("Window Mode");
    }
    let zh = l == BackendLocale::ZhCN;
    let text = if str_eq(key, "target_window_required") {
        if zh { "未选择目标窗口" } else { "No target window selected" }
    } else if str_eq(key, "png_filter") {
        if zh { "PNG 图片" } else { "PNG images" }
    } else if str_eq(key, "tray.config") {
        if zh { "配置" } else { "Config" }
    } else if str_eq(key, "tray.settings") {
        if zh { "设置" } else { "Settings" }
    } else if str_eq(key, "tray.quit") {
        if zh { "退出" } else { "Quit" }
    } else if str_eq(key, "tray.window_mode") {
        if zh { "窗口模式" } else { "Window Mode" }
    } else {
        key
    };
    text.to_owned()
}

/// The language of the backend's messages for the saved locale setting.
pub fn current_locale(saved: &str, system: BackendLocale) -> (l: BackendLocale)
    ensures
        l == spec_resolve_locale(saved@, system),
{
    proof {
        reveal_strlit("zh-CN");
        reveal_strlit("en");
    }
    let resolved = if str_eq(saved, "zh-CN") || str_eq(saved, "en") {
        saved
    } else {
        detect_locale(system)
    };
    BackendLocale::from_str(resolved)
}

} // verus!
