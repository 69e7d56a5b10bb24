use masir::raiser::FocusModel;
use masir::raiser::RaiseError;

#[test]
fn raise_transfers_the_foreground() {
    let mut model = FocusModel::new(7);
    assert_eq!(model.raise(5, true), Ok(()));
    assert_eq!(model.foreground, 5);
    assert_eq!(model.top_of_z_order, 5);
}

#[test]
fn raise_succeeds_even_when_the_z_order_step_is_rejected() {
    let mut model = FocusModel::new(7);
    assert_eq!(model.raise(5, false), Ok(()));
    assert_eq!(model.foreground, 5);
    // The Z-order change was rejected harmlessly.
    assert_eq!(model.top_of_z_order, 7);
}

#[test]
fn raising_twice_is_idempotent() {
    // Raising a handle twice in immediate succession — the second time it
    // is the foreground window already — errors neither time and leaves
    // that same window foreground.
    let mut model = FocusModel::new(7);
    assert_eq!(model.raise(5, true), Ok(()));
    assert_eq!(model.foreground, 5);
    assert_eq!(model.raise(5, true), Ok(()));
    assert_eq!(model.foreground, 5);
}

#[test]
fn foreground_transfer_needs_recent_input_or_the_foreground_itself() {
    let mut model = FocusModel::new(7);
    // No recent input and another window: the window manager refuses.
    assert_eq!(model.set_foreground(5), Err(RaiseError::FocusRefused));
    assert_eq!(model.foreground, 7);
    // Refocusing the current foreground window succeeds on its own.
    assert_eq!(model.set_foreground(7), Ok(()));
    assert_eq!(model.foreground, 7);
    // With the self-directed input injected, the transfer goes through.
    model.inject_self_input();
    assert_eq!(model.set_foreground(5), Ok(()));
    assert_eq!(model.foreground, 5);
}
