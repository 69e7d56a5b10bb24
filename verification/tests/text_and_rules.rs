use masir::rules::allow_listed;
use masir::rules::deny_listed;
use masir::rules::external_eligible;
use masir::rules::has_filtered_style;
use masir::rules::has_match;
use masir::rules::heuristic_eligible;
use masir::rules::paired_classes;
use masir::rules::pause_listed;
use masir::rules::MatchingStrategy;
use masir::rules::STYLE_NO_ACTIVATE;
use masir::rules::STYLE_TOOL_WINDOW;
use masir::text::contains_chars;
use masir::text::decimal_chars;
use masir::text::str_chars;
use masir::text::str_contains;
use masir::text::str_eq;

#[test]
fn equals_strategy_is_exact() {
    assert!(has_match("SDL_app", "SDL_app", &MatchingStrategy::Equals));
    assert!(!has_match("SDL_app2", "SDL_app", &MatchingStrategy::Equals));
    assert!(!has_match("SDL_ap", "SDL_app", &MatchingStrategy::Equals));
    assert!(!has_match("", "SDL_app", &MatchingStrategy::Equals));
}

#[test]
fn contains_strategy_finds_substrings() {
    assert!(has_match("Flow.Launcher.Window", "Flow.Launcher", &MatchingStrategy::Contains));
    assert!(has_match("Flow.Launcher", "Flow.Launcher", &MatchingStrategy::Contains));
    assert!(!has_match("Flow Launcher", "Flow.Launcher", &MatchingStrategy::Contains));
    assert!(!has_match("Flow", "Flow.Launcher", &MatchingStrategy::Contains));
}

#[test]
fn contains_with_empty_needle_always_holds() {
    assert!(has_match("anything", "", &MatchingStrategy::Contains));
    assert!(has_match("", "", &MatchingStrategy::Contains));
}

#[test]
fn string_helpers_agree_with_std() {
    assert!(str_eq("abc", "abc"));
    assert!(!str_eq("abc", "abd"));
    assert!(!str_eq("abc", "ab"));
    assert!(str_contains("xabcx", "abc"));
    assert!(str_contains("abc", "abc"));
    assert!(!str_contains("ab", "abc"));
    assert!(str_contains("aaab", "aab"));
    assert_eq!(str_chars("ab"), vec!['a', 'b']);
    assert!(contains_chars("komorebi", &vec!['r', 'e']));
    assert!(!contains_chars("komorebi", &vec!['r', 'a']));
}

#[test]
fn decimal_rendering_is_exact() {
    assert_eq!(decimal_chars(0), vec!['0']);
    assert_eq!(decimal_chars(7), vec!['7']);
    assert_eq!(decimal_chars(105), vec!['1', '0', '5']);
    let max: Vec<char> = "18446744073709551615".chars().collect();
    assert_eq!(decimal_chars(u64::MAX), max);
}

#[test]
fn deny_list_matches_shell_surfaces() {
    assert!(deny_listed("SHELLDLL_DefView"));
    assert!(deny_listed("Shell_TrayWnd"));
    assert!(deny_listed("TrayNotifyWnd"));
    assert!(deny_listed("MSTaskSwWClass"));
    assert!(deny_listed("Windows.UI.Core.CoreWindow"));
    assert!(deny_listed("XamlExplorerHostIslandWindow"));
    assert!(deny_listed("ForegroundStaging"));
    assert!(deny_listed("Flow.Launcher.SomeSurface"));
    assert!(deny_listed("Host.PowerToys.PowerLauncher"));
    assert!(!deny_listed("MozillaWindowClass"));
    assert!(!deny_listed("Shell_TrayWnd2"));
}

#[test]
fn allow_list_matches_known_applications() {
    assert!(allow_listed("MozillaWindowClass"));
    assert!(allow_listed("Chrome_WidgetWin_1"));
    assert!(allow_listed("CASCADIA_HOSTING_WINDOW_CLASS"));
    assert!(allow_listed("ConsoleWindowClass"));
    assert!(allow_listed("ApplicationFrameWindow"));
    assert!(allow_listed("Notepad"));
    assert!(allow_listed("SDL_app"));
    assert!(!allow_listed("SomeUnknownClass"));
}

#[test]
fn pause_list_matches_transient_surfaces() {
    assert!(pause_listed("Windows.UI.Core.CoreWindow"));
    assert!(pause_listed("XamlExplorerHostIslandWindow"));
    assert!(pause_listed("ForegroundStaging"));
    assert!(pause_listed("MultitaskingViewFrame"));
    assert!(!pause_listed("Notepad"));
}

#[test]
fn pairing_table_matches_embedded_surfaces() {
    assert!(paired_classes("Chrome_RenderWidgetHostHWND", "SDL_app"));
    assert!(paired_classes("DirectUIHWND", "CabinetWClass"));
    assert!(!paired_classes("SDL_app", "Chrome_RenderWidgetHostHWND"));
    assert!(!paired_classes("Chrome_RenderWidgetHostHWND", "Notepad"));
}

#[test]
fn style_signal_reads_the_two_bits() {
    assert!(!has_filtered_style(0));
    assert!(has_filtered_style(STYLE_TOOL_WINDOW));
    assert!(has_filtered_style(STYLE_NO_ACTIVATE));
    assert!(has_filtered_style(STYLE_TOOL_WINDOW | STYLE_NO_ACTIVATE | 0x1));
    assert!(!has_filtered_style(0x40));
}

#[test]
fn deny_listed_class_is_ineligible_without_style_flags() {
    // A block-listed class is ineligible even with no style bits set.
    assert!(!heuristic_eligible("Shell_TrayWnd", 0));
    assert!(!heuristic_eligible("ForegroundStaging", 0));
}

#[test]
fn allow_listed_class_overrides_the_style_signal() {
    assert!(heuristic_eligible("MozillaWindowClass", 0));
    assert!(heuristic_eligible("MozillaWindowClass", STYLE_TOOL_WINDOW));
    assert!(heuristic_eligible("Chrome_WidgetWin_1", STYLE_NO_ACTIVATE));
}

#[test]
fn unlisted_class_fails_closed() {
    assert!(!heuristic_eligible("SomeUnknownClass", 0));
    assert!(!heuristic_eligible("SomeUnknownClass", STYLE_TOOL_WINDOW));
}

#[test]
fn external_list_checks_the_decimal_handle() {
    assert!(external_eligible("[197460, 263822]", 197460));
    assert!(external_eligible("[197460, 263822]", 263822));
    assert!(!external_eligible("[197460, 263822]", 1974601));
    assert!(!external_eligible("", 5));
    // Substring containment: a handle whose digits appear inside a longer
    // number is treated as present.
    assert!(external_eligible("[197460]", 9746));
}
