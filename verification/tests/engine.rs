use masir::engine::Action;
use masir::engine::Engine;
use masir::engine::Reply;
use masir::rules::STYLE_TOOL_WINDOW;

fn class(s: &str) -> Reply {
    Reply::Class(Some(s.to_string()))
}

/// Drive one movement event in heuristic mode all the way to a raise:
/// cursor handle 10 under the cursor, its root 11, foreground 20, both
/// classes allow-listed, clean styles.
fn raise_event(engine: &mut Engine) -> Action {
    let act = engine.begin_move(Some(10), Some(20));
    assert_eq!(act, Action::AskRoot(10));
    let act = engine.step(Reply::Root(Some(11)));
    assert_eq!(act, Action::AskClass(11));
    let act = engine.step(class("MozillaWindowClass"));
    assert_eq!(act, Action::AskClass(20));
    let act = engine.step(class("Notepad"));
    assert_eq!(act, Action::AskStyle(11));
    let act = engine.step(Reply::Style(Some(0)));
    assert_eq!(act, Action::AskStyle(20));
    engine.step(Reply::Style(Some(0)))
}

#[test]
fn allow_listed_event_raises_the_top_level_handle() {
    // Allow-listed cursor class, eligible foreground, no drag, roots
    // differ: exactly one raise, aimed at the root, not the raw handle.
    let mut engine = Engine::new(false, 0);
    let act = raise_event(&mut engine);
    assert_eq!(act, Action::Raise(11));
}

#[test]
fn memoized_verdicts_skip_all_queries() {
    let mut engine = Engine::new(false, 0);
    assert_eq!(raise_event(&mut engine), Action::Raise(11));
    // Same event again within the generation: every verdict is memoized,
    // so the very first action is the decision — no root, class or style
    // query is asked again.
    let act = engine.begin_move(Some(10), Some(20));
    assert_eq!(act, Action::Raise(11));
}

#[test]
fn memoized_true_verdict_is_not_requeried_for_that_handle() {
    let mut engine = Engine::new(false, 0);
    assert_eq!(raise_event(&mut engine), Action::Raise(11));
    // A new foreground handle 30 appears: the engine may classify 30, but
    // must not ask for handle 11's style again — its verdict is memoized.
    let act = engine.begin_move(Some(10), Some(30));
    assert_eq!(act, Action::AskClass(30));
    let act = engine.step(class("ConsoleWindowClass"));
    assert_eq!(act, Action::AskStyle(30));
    let act = engine.step(Reply::Style(Some(0)));
    assert_eq!(act, Action::Raise(11));
}

#[test]
fn expired_generation_requeries_from_scratch() {
    let mut engine = Engine::new(false, 0);
    assert_eq!(raise_event(&mut engine), Action::Raise(11));

    // Within the time-to-live nothing is discarded: the memoized verdicts
    // still decide the event at once.
    engine.refresh(600);
    assert_eq!(engine.begin_move(Some(10), Some(20)), Action::Raise(11));

    // Once the generation age exceeds the time-to-live, the very next
    // evaluation starts from scratch: the root is queried again.
    engine.refresh(601);
    let act = engine.begin_move(Some(10), Some(20));
    assert_eq!(act, Action::AskRoot(10));
}

#[test]
fn clock_readings_before_the_birth_do_not_expire_the_caches() {
    let mut engine = Engine::new(false, 100);
    assert_eq!(raise_event(&mut engine), Action::Raise(11));
    // A reading before the generation's creation time cannot age it.
    engine.refresh(50);
    assert_eq!(engine.begin_move(Some(10), Some(20)), Action::Raise(11));
}

#[test]
fn button_event_abandons_an_evaluation_in_flight() {
    let mut engine = Engine::new(false, 0);
    let act = engine.begin_move(Some(10), Some(20));
    assert_eq!(act, Action::AskRoot(10));
    // A button event arrives before the reply: the evaluation is abandoned
    // and the late reply does nothing.
    engine.on_button(false);
    assert_eq!(engine.step(Reply::Root(Some(11))), Action::Idle);
}

#[test]
fn learned_pair_suppresses_the_raise() {
    let mut engine = Engine::new(false, 0);
    // An embedded renderer surface (root 11) under the cursor while its
    // owning application (20) is foreground: the pair is learned and the
    // event is ignored.
    let act = engine.begin_move(Some(10), Some(20));
    assert_eq!(act, Action::AskRoot(10));
    let act = engine.step(Reply::Root(Some(11)));
    assert_eq!(act, Action::AskClass(11));
    let act = engine.step(class("Chrome_RenderWidgetHostHWND"));
    assert_eq!(act, Action::AskClass(20));
    let act = engine.step(class("SDL_app"));
    assert_eq!(act, Action::Idle);

    // A later event with the same pair ends right after root resolution:
    // no class or style is consulted, whatever it would have said.
    let act = engine.begin_move(Some(10), Some(20));
    assert_eq!(act, Action::Idle);
}

#[test]
fn drag_blocks_every_event() {
    let mut engine = Engine::new(false, 0);
    assert_eq!(raise_event(&mut engine), Action::Raise(11));
    // With the button held, the same event that just raised is dropped
    // outright.
    engine.on_button(true);
    assert_eq!(engine.begin_move(Some(10), Some(20)), Action::Idle);
    // Releasing the button lets events through again.
    engine.on_button(false);
    assert_eq!(engine.begin_move(Some(10), Some(20)), Action::Raise(11));
}

#[test]
fn equal_raw_handles_drop_the_event() {
    let mut engine = Engine::new(false, 0);
    assert_eq!(engine.begin_move(Some(20), Some(20)), Action::Idle);
}

#[test]
fn root_equal_to_foreground_drops_the_event() {
    let mut engine = Engine::new(false, 0);
    // The raw cursor handle 10 differs from the foreground 11, but its
    // top-level ancestor is the foreground itself: no raise.
    let act = engine.begin_move(Some(10), Some(11));
    assert_eq!(act, Action::AskRoot(10));
    let act = engine.step(Reply::Root(Some(11)));
    assert_eq!(act, Action::Idle);
    // Same event with the root now memoized: dropped at once.
    let act = engine.begin_move(Some(10), Some(11));
    assert_eq!(act, Action::Idle);
}

#[test]
fn failed_handle_queries_drop_the_event() {
    let mut engine = Engine::new(false, 0);
    assert_eq!(engine.begin_move(None, Some(20)), Action::Idle);
    assert_eq!(engine.begin_move(Some(10), None), Action::Idle);
    let act = engine.begin_move(Some(10), Some(20));
    assert_eq!(act, Action::AskRoot(10));
    // The root query fails: the event is dropped and nothing is cached.
    assert_eq!(engine.step(Reply::Root(None)), Action::Idle);
    // The next event must query the root again.
    assert_eq!(engine.begin_move(Some(10), Some(20)), Action::AskRoot(10));
}

#[test]
fn pause_listed_foreground_takes_no_action() {
    let mut engine = Engine::new(false, 0);
    let act = engine.begin_move(Some(10), Some(20));
    assert_eq!(act, Action::AskRoot(10));
    let act = engine.step(Reply::Root(Some(11)));
    assert_eq!(act, Action::AskClass(11));
    let act = engine.step(class("MozillaWindowClass"));
    assert_eq!(act, Action::AskClass(20));
    // The task switcher owns the foreground: no action at all.
    let act = engine.step(class("XamlExplorerHostIslandWindow"));
    assert_eq!(act, Action::Idle);
}

#[test]
fn tool_window_foreground_blocks_the_raise() {
    let mut engine = Engine::new(false, 0);
    let act = engine.begin_move(Some(10), Some(20));
    assert_eq!(act, Action::AskRoot(10));
    let act = engine.step(Reply::Root(Some(11)));
    assert_eq!(act, Action::AskClass(11));
    let act = engine.step(class("MozillaWindowClass"));
    assert_eq!(act, Action::AskClass(20));
    let act = engine.step(class("SomeUnknownClass"));
    assert_eq!(act, Action::AskStyle(11));
    let act = engine.step(Reply::Style(Some(0)));
    assert_eq!(act, Action::AskStyle(20));
    // The foreground window is an unlisted tool window: ineligible, so no
    // raise even though the cursor side is eligible.
    let act = engine.step(Reply::Style(Some(STYLE_TOOL_WINDOW)));
    assert_eq!(act, Action::Idle);
}

#[test]
fn external_list_decides_when_configured() {
    let mut engine = Engine::new(true, 0);
    let act = engine.begin_move(Some(10), Some(20));
    assert_eq!(act, Action::AskRoot(10));
    let act = engine.step(Reply::Root(Some(11)));
    assert_eq!(act, Action::AskClass(11));
    let act = engine.step(class("UnmanagedClassA"));
    assert_eq!(act, Action::AskClass(20));
    let act = engine.step(class("UnmanagedClassB"));
    // External mode replaces the heuristic: the list is read instead of
    // any style query.
    assert_eq!(act, Action::AskExternal);
    // The file holds both decimal ids: raise.
    let act = engine.step(Reply::External(Some("[11, 20]".to_string())));
    assert_eq!(act, Action::Raise(11));
}

#[test]
fn external_list_missing_entry_blocks_the_raise() {
    let mut engine = Engine::new(true, 0);
    engine.begin_move(Some(10), Some(20));
    engine.step(Reply::Root(Some(11)));
    engine.step(class("UnmanagedClassA"));
    let act = engine.step(class("UnmanagedClassB"));
    assert_eq!(act, Action::AskExternal);
    // Only the cursor-side root is listed: the foreground is not known to
    // be managed, so no raise.
    let act = engine.step(Reply::External(Some("[11]".to_string())));
    assert_eq!(act, Action::Idle);
}

#[test]
fn failed_external_read_drops_the_event_and_the_engine_continues() {
    let mut engine = Engine::new(true, 0);
    engine.begin_move(Some(10), Some(20));
    engine.step(Reply::Root(Some(11)));
    engine.step(class("UnmanagedClassA"));
    let act = engine.step(class("UnmanagedClassB"));
    assert_eq!(act, Action::AskExternal);
    // The file was deleted: the read fails, the event is dropped, and no
    // verdict is memoized.
    let act = engine.step(Reply::External(None));
    assert_eq!(act, Action::Idle);
    // The engine keeps processing: the next event gets as far again (root
    // and classes are cached) and this time the read succeeds.
    let act = engine.begin_move(Some(10), Some(20));
    assert_eq!(act, Action::AskExternal);
    let act = engine.step(Reply::External(Some("[11, 20]".to_string())));
    assert_eq!(act, Action::Raise(11));
}

#[test]
fn memoized_true_verdict_skips_the_external_recheck() {
    let mut engine = Engine::new(true, 0);
    engine.begin_move(Some(10), Some(20));
    engine.step(Reply::Root(Some(11)));
    engine.step(class("UnmanagedClassA"));
    engine.step(class("UnmanagedClassB"));
    let act = engine.step(Reply::External(Some("[11, 20]".to_string())));
    assert_eq!(act, Action::Raise(11));
    // A new foreground appears; the root's `true` verdict is memoized, so
    // the list read only decides the newcomer.
    let act = engine.begin_move(Some(10), Some(30));
    assert_eq!(act, Action::AskClass(30));
    let act = engine.step(class("UnmanagedClassC"));
    assert_eq!(act, Action::AskExternal);
    // The list no longer names 11, but its memoized verdict is trusted for
    // the rest of the generation: the raise still happens.
    let act = engine.step(Reply::External(Some("[30]".to_string())));
    assert_eq!(act, Action::Raise(11));
}

#[test]
fn heuristic_mode_memoizes_false_verdicts_too() {
    let mut engine = Engine::new(false, 0);
    engine.begin_move(Some(10), Some(20));
    engine.step(Reply::Root(Some(11)));
    engine.step(class("SomeUnknownClassA"));
    let act = engine.step(class("SomeUnknownClassB"));
    assert_eq!(act, Action::AskStyle(11));
    let act = engine.step(Reply::Style(Some(0)));
    assert_eq!(act, Action::AskStyle(20));
    // Both unlisted with clean styles: ineligible, memoized as such.
    let act = engine.step(Reply::Style(Some(0)));
    assert_eq!(act, Action::Idle);
    // The same event again decides from the memoized verdicts: no style is
    // queried a second time.
    let act = engine.begin_move(Some(10), Some(20));
    assert_eq!(act, Action::Idle);
}

#[test]
fn external_mode_does_not_memoize_false_verdicts() {
    let mut engine = Engine::new(true, 0);
    engine.begin_move(Some(10), Some(20));
    engine.step(Reply::Root(Some(11)));
    engine.step(class("UnmanagedClassA"));
    let act = engine.step(class("UnmanagedClassB"));
    assert_eq!(act, Action::AskExternal);
    // Only the root is listed: no raise, and the foreground's negative
    // verdict is not memoized — the list may simply not be written yet.
    let act = engine.step(Reply::External(Some("[11]".to_string())));
    assert_eq!(act, Action::Idle);
    // The next event re-reads the list and self-corrects.
    let act = engine.begin_move(Some(10), Some(20));
    assert_eq!(act, Action::AskExternal);
    let act = engine.step(Reply::External(Some("[11, 20]".to_string())));
    assert_eq!(act, Action::Raise(11));
}

#[test]
fn mismatched_reply_drops_the_event() {
    let mut engine = Engine::new(false, 0);
    let act = engine.begin_move(Some(10), Some(20));
    assert_eq!(act, Action::AskRoot(10));
    // A reply that does not fit the question: the event is dropped.
    assert_eq!(engine.step(Reply::Style(Some(0))), Action::Idle);
    // With nothing in flight, a stray reply does nothing.
    assert_eq!(engine.step(Reply::Root(Some(11))), Action::Idle);
}
