use genact::i18n::{detect_language, detect_system_locale, normalize_browser_language};

#[test]
fn test_detect_with_cli_arg() {
    let lang = detect_language(Some("zh-CN"), None, None);
    assert_eq!(lang, "zh-CN");
}

#[test]
fn test_detect_default() {
    let lang = detect_language(None, None, None);
    assert!(!lang.is_empty());
}

#[test]
fn test_detect_default_is_english() {
    let lang = detect_language(None, None, None);
    assert_eq!(lang, "en");
}

#[test]
fn test_detect_env_override() {
    let lang = detect_language(None, Some("de"), Some("zh_CN.UTF-8"));
    assert_eq!(lang, "de");
}

#[test]
fn test_detect_system_locale_chinese() {
    let lang = detect_language(None, None, Some("zh_CN.UTF-8"));
    assert_eq!(lang, "zh-CN");
}

#[test]
fn test_detect_system_locale_other() {
    let lang = detect_language(None, None, Some("fr_FR.UTF-8"));
    assert_eq!(lang, "en");
}

#[test]
fn test_system_locale_hint() {
    assert_eq!(detect_system_locale(Some("zh_TW.UTF-8")), Some("zh-CN"));
    assert_eq!(detect_system_locale(Some("en_US.UTF-8")), None);
    assert_eq!(detect_system_locale(Some("z")), None);
    assert_eq!(detect_system_locale(None), None);
}

#[test]
fn test_normalize_browser_language() {
    assert_eq!(normalize_browser_language("zh-CN"), "zh-CN");
    assert_eq!(normalize_browser_language("zh"), "zh-CN");
    assert_eq!(normalize_browser_language("en-US"), "en");
    assert_eq!(normalize_browser_language("en"), "en");
    assert_eq!(normalize_browser_language("fr"), "en");
    assert_eq!(normalize_browser_language(""), "en");
}
