//! The eligibility classifier: the fixed class tables, the window-style
//! signal, and the two eligibility modes (heuristic and external list).
//!
//! The tables are deliberately data, evaluated in a fixed priority order:
//! a class on the deny list is never eligible; a class on the allow list is
//! eligible, overriding the style signal; a window whose extended style marks
//! it as a tool window or as non-activatable is ineligible; and anything the
//! rules do not mention is ineligible by default — unknown windows are not
//! raised.

use vstd::prelude::*;

use crate::text::contains_seq;
use crate::text::decimal_chars;
use crate::text::contains_chars;
use crate::text::spec_decimal;
use crate::text::str_contains;
use crate::text::str_eq;

verus! {

/// How a class-table entry is compared with a window class name.
#[derive(Clone, Copy, Debug, PartialEq, Eq, Structural)]
pub enum MatchingStrategy {
    /// The entry matches anywhere inside the class name.
    Contains,
    /// The entry matches the whole class name exactly.
    Equals,
}

/// What `has_match` returns: an exact or substring comparison, chosen by the
/// strategy.
pub open spec fn spec_has_match(s: Seq<char>, pattern: Seq<char>, strategy: MatchingStrategy) -> bool {
    match strategy {
        MatchingStrategy::Equals => s == pattern,
        MatchingStrategy::Contains => contains_seq(s, pattern),
    }
}

/// Compare a class name with one table entry under the entry's strategy.
pub fn has_match(str1: &str, str2: &str, matching_strategy: &MatchingStrategy) -> (r: bool)
    ensures
        r == spec_has_match(str1@, str2@, *matching_strategy),
{
    match matching_strategy {
        MatchingStrategy::Equals => str_eq(str1, str2),
        MatchingStrategy::Contains => str_contains(str1, str2),
    }
}

/// Extended-style bit that marks a tool window.
pub const STYLE_TOOL_WINDOW: u32 = 0x0000_0080;

/// Extended-style bit that marks a window as never taking activation.
pub const STYLE_NO_ACTIVATE: u32 = 0x0800_0000;

/// The style signal: the window is a tool window or refuses activation.
pub open spec fn spec_has_filtered_style(ex_style: u32) -> bool {
    ex_style & STYLE_TOOL_WINDOW != 0 || ex_style & STYLE_NO_ACTIVATE != 0
}

/// Whether an extended window style carries one of the filtered bits.
pub fn has_filtered_style(ex_style: u32) -> (r: bool)
    ensures
        r == spec_has_filtered_style(ex_style),
{
    ex_style & STYLE_TOOL_WINDOW != 0 || ex_style & STYLE_NO_ACTIVATE != 0
}

/// The deny list: desktop shell surfaces, tray and task-switcher windows,
/// and launcher overlays. A window whose class matches is never raised and
/// never counts as an eligible foreground window.
pub open spec fn spec_deny_listed(class: Seq<char>) -> bool {
    ||| class == "SHELLDLL_DefView"@  // the desktop window
    ||| class == "Shell_TrayWnd"@  // the tray
    ||| class == "TrayNotifyWnd"@  // the tray notification area
    ||| class == "MSTaskSwWClass"@  // start-bar icons
    ||| class == "Windows.UI.Core.CoreWindow"@  // the start menu
    ||| class == "XamlExplorerHostIslandWindow"@  // the task switcher
    ||| class == "ForegroundStaging"@  // also the task switcher
    ||| contains_seq(class, "Flow.Launcher"@)
    ||| contains_seq(class, "PowerToys.PowerLauncher"@)
}

/// Whether a class name is on the deny list.
pub fn deny_listed(class: &str) -> (r: bool)
    ensures
        r == spec_deny_listed(class@),
{
    has_match(class, "SHELLDLL_DefView", &MatchingStrategy::Equals)
        || has_match(class, "Shell_TrayWnd", &MatchingStrategy::Equals)
        || has_match(class, "TrayNotifyWnd", &MatchingStrategy::Equals)
        || has_match(class, "MSTaskSwWClass", &MatchingStrategy::Equals)
        || has_match(class, "Windows.UI.Core.CoreWindow", &MatchingStrategy::Equals)
        || has_match(class, "XamlExplorerHostIslandWindow", &MatchingStrategy::Equals)
        || has_match(class, "ForegroundStaging", &MatchingStrategy::Equals)
        || has_match(class, "Flow.Launcher", &MatchingStrategy::Contains)
        || has_match(class, "PowerToys.PowerLauncher", &MatchingStrategy::Contains)
}

/// The allow list: top-level classes of well-behaved applications. A match
/// makes the window eligible, overriding the style signal.
pub open spec fn spec_allow_listed(class: Seq<char>) -> bool {
    ||| contains_seq(class, "Chrome_WidgetWin"@)  // Chromium-based top-level windows
    ||| class == "MozillaWindowClass"@
    ||| class == "CASCADIA_HOSTING_WINDOW_CLASS"@  // the terminal host
    ||| class == "ConsoleWindowClass"@
    ||| class == "ApplicationFrameWindow"@  // store-app frames
    ||| class == "Notepad"@
    ||| class == "SDL_app"@  // game clients
}

/// Whether a class name is on the allow list.
pub fn allow_listed(class: &str) -> (r: bool)
    ensures
        r == spec_allow_listed(class@),
{
    has_match(class, "Chrome_WidgetWin", &MatchingStrategy::Contains)
        || has_match(class, "MozillaWindowClass", &MatchingStrategy::Equals)
        || has_match(class, "CASCADIA_HOSTING_WINDOW_CLASS", &MatchingStrategy::Equals)
        || has_match(class, "ConsoleWindowClass", &MatchingStrategy::Equals)
        || has_match(class, "ApplicationFrameWindow", &MatchingStrategy::Equals)
        || has_match(class, "Notepad", &MatchingStrategy::Equals)
        || has_match(class, "SDL_app", &MatchingStrategy::Equals)
}

/// The pause list: transient system surfaces that own the interaction while
/// they are in the foreground. When the foreground class matches, the engine
/// takes no action at all — focus must not be stolen away from them.
pub open spec fn spec_pause_listed(class: Seq<char>) -> bool {
    ||| class == "Windows.UI.Core.CoreWindow"@  // the start menu
    ||| class == "XamlExplorerHostIslandWindow"@  // the task switcher
    ||| class == "ForegroundStaging"@  // also the task switcher
    ||| class == "MultitaskingViewFrame"@  // the task view
}

/// Whether a class name is on the pause list.
pub fn pause_listed(class: &str) -> (r: bool)
    ensures
        r == spec_pause_listed(class@),
{
    has_match(class, "Windows.UI.Core.CoreWindow", &MatchingStrategy::Equals)
        || has_match(class, "XamlExplorerHostIslandWindow", &MatchingStrategy::Equals)
        || has_match(class, "ForegroundStaging", &MatchingStrategy::Equals)
        || has_match(class, "MultitaskingViewFrame", &MatchingStrategy::Equals)
}

/// The pairing-discovery table: (cursor class, foreground class) pairs known
/// to belong to one logical window — an embedded renderer surface under the
/// cursor while its owning application is already foreground, or a
/// file-manager content panel inside its containing window. Such a pair is
/// recorded in the pair cache and the event is ignored.
pub open spec fn spec_paired_classes(cursor_class: Seq<char>, foreground_class: Seq<char>) -> bool {
    ||| (cursor_class == "Chrome_RenderWidgetHostHWND"@ && foreground_class == "SDL_app"@)
    ||| (cursor_class == "DirectUIHWND"@ && foreground_class == "CabinetWClass"@)
}

/// Whether the two classes are a known false-positive pair.
pub fn paired_classes(cursor_class: &str, foreground_class: &str) -> (r: bool)
    ensures
        r == spec_paired_classes(cursor_class@, foreground_class@),
{
    (has_match(cursor_class, "Chrome_RenderWidgetHostHWND", &MatchingStrategy::Equals)
        && has_match(foreground_class, "SDL_app", &MatchingStrategy::Equals))
        || (has_match(cursor_class, "DirectUIHWND", &MatchingStrategy::Equals)
            && has_match(foreground_class, "CabinetWClass", &MatchingStrategy::Equals))
}

/// The heuristic verdict for one window, evaluated in priority order: deny
/// list, then allow list (which overrides the style signal), then the style
/// signal, then the fail-closed default — a class no rule mentions is
/// ineligible.
pub open spec fn spec_heuristic_eligible(class: Seq<char>, ex_style: u32) -> bool {
    if spec_deny_listed(class) {
        false
    } else if spec_allow_listed(class) {
        true
    } else if spec_has_filtered_style(ex_style) {
        false
    } else {
        false
    }
}

/// Classify one window from its class name and extended style.
pub fn heuristic_eligible(class: &str, ex_style: u32) -> (r: bool)
    ensures
        r == spec_heuristic_eligible(class@, ex_style),
{
    if deny_listed(class) {
        false
    } else if allow_listed(class) {
        true
    } else if has_filtered_style(ex_style) {
        false
    } else {
        false
    }
}

/// The external verdict for one window: its decimal handle value occurs
/// somewhere in the contents of the external eligibility list.
pub open spec fn spec_external_eligible(contents: Seq<char>, handle: u64) -> bool {
    contains_seq(contents, spec_decimal(handle as int))
}

/// Check a handle against the contents of the external eligibility list.
pub fn external_eligible(contents: &str, handle: u64) -> (r: bool)
    ensures
        r == spec_external_eligible(contents@, handle),
{
    let digits = decimal_chars(handle);
    contains_chars(contents, &digits)
}

/// A deny-listed class is ineligible under the heuristic whatever the style
/// flags say.
pub proof fn lemma_deny_list_wins(class: Seq<char>, ex_style: u32)
    ensures
        spec_deny_listed(class) ==> !spec_heuristic_eligible(class, ex_style),
{
}

/// An allow-listed class that is not deny-listed is eligible under the
/// heuristic whatever the style flags say: the allow list overrides the
/// style signal.
pub proof fn lemma_allow_list_overrides_style(class: Seq<char>, ex_style: u32)
    ensures
        spec_allow_listed(class) && !spec_deny_listed(class) ==> spec_heuristic_eligible(
            class,
            ex_style,
        ),
{
}

} // verus!
