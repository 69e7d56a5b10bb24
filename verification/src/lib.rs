//! Focus-follows-mouse decision engine.
//!
//! As the pointer moves across a desktop, the engine decides whether the
//! window beneath the cursor should be raised and given input focus. The
//! decision logic — eligibility classification, a generation-based cache over
//! window handles, learned handle pairing, and drag gating — is verified
//! here. The operating-system binding (window queries, input hooks, the
//! actual focus calls) is deliberately outside the library: callers perform
//! those queries and feed the results back to the engine.

pub mod cache;
pub mod engine;
pub mod raiser;
pub mod rules;
pub mod text;
