//! The focus engine: a state machine that turns pointer events into raise
//! decisions.
//!
//! The engine owns the cache store and the drag flag, but performs no
//! operating-system query itself. Each movement event is driven to
//! completion through a request/reply protocol: `begin_move` starts an
//! evaluation and returns an [`Action`]; while the action is a query, the
//! caller performs it and hands the result to `step`, until the action is
//! `Raise` or `Idle`. Button events only toggle the drag flag. Every
//! transition is pinned down by a specification-level transition function
//! over the engine's model.
//!
//! Per movement event, in priority order: the drag guard; the identity
//! short-circuit on the raw handles; the root resolution (cached); the
//! identity short-circuit on the root; the known-pair short-circuit; the
//! class resolution (cached); the foreground pause check; pairing
//! discovery; then eligibility — memoized verdicts are trusted for the
//! rest of the cache generation, and missing ones are computed either from
//! the external eligibility list or from the heuristic classifier, and
//! memoized. A raise requires both the cursor-side root and the foreground
//! window to be eligible, so focus is never pulled from one legitimate
//! application into an ineligible one. Any failed query drops the event:
//! transient failures are common and must never poison the cache.

use vstd::prelude::*;

use crate::cache::CACHE_TTL_SECONDS;
use crate::cache::CacheStore;
use crate::rules::external_eligible;
use crate::rules::heuristic_eligible;
use crate::rules::paired_classes;
use crate::rules::pause_listed;
use crate::rules::spec_external_eligible;
use crate::rules::spec_heuristic_eligible;
use crate::rules::spec_paired_classes;
use crate::rules::spec_pause_listed;

verus! {

/// What the engine asks of its surroundings, or how an evaluation ended.
#[derive(Clone, Copy, Debug, PartialEq, Eq, Structural)]
pub enum Action {
    /// Query the root ancestor of this handle and reply with `Reply::Root`.
    AskRoot(u64),
    /// Query the class name of this handle and reply with `Reply::Class`.
    AskClass(u64),
    /// Query the extended style of this handle and reply with `Reply::Style`.
    AskStyle(u64),
    /// Read the external eligibility list and reply with `Reply::External`.
    AskExternal,
    /// The evaluation decided to raise this top-level handle; the event is
    /// over.
    Raise(u64),
    /// The event is dropped or decided without a raise.
    Idle,
}

/// The result of a query the engine asked for. `None` means the query
/// failed; the engine then drops the event.
#[derive(Debug)]
pub enum Reply {
    /// The root ancestor of the handle the engine asked about.
    Root(Option<u64>),
    /// The class name of the handle the engine asked about.
    Class(Option<String>),
    /// The extended style flags of the handle the engine asked about.
    Style(Option<u32>),
    /// The contents of the external eligibility list.
    External(Option<String>),
}

/// Where an evaluation stands between a query and its reply.
pub enum Phase {
    /// No evaluation is in flight.
    Idle,
    /// Waiting for the root ancestor of the handle under the cursor.
    AwaitRoot { cursor: u64, foreground: u64 },
    /// Waiting for the class name of the cursor-side root.
    AwaitCursorClass { root: u64, foreground: u64 },
    /// Waiting for the class name of the foreground handle.
    AwaitForegroundClass { root: u64, foreground: u64, root_class: String },
    /// Waiting for the extended style of the cursor-side root.
    AwaitRootStyle {
        root: u64,
        foreground: u64,
        root_class: String,
        foreground_class: String,
        foreground_known: Option<bool>,
    },
    /// Waiting for the extended style of the foreground handle.
    AwaitForegroundStyle { root: u64, foreground: u64, foreground_class: String, root_eligible: bool },
    /// Waiting for the contents of the external eligibility list.
    AwaitExternal { root: u64, foreground: u64, root_known: Option<bool>, foreground_known: Option<bool> },
}

/// The model of a phase: class names as character sequences.
#[verifier::ext_equal]
pub enum PhaseModel {
    Idle,
    AwaitRoot { cursor: u64, foreground: u64 },
    AwaitCursorClass { root: u64, foreground: u64 },
    AwaitForegroundClass { root: u64, foreground: u64, root_class: Seq<char> },
    AwaitRootStyle {
        root: u64,
        foreground: u64,
        root_class: Seq<char>,
        foreground_class: Seq<char>,
        foreground_known: Option<bool>,
    },
    AwaitForegroundStyle {
        root: u64,
        foreground: u64,
        foreground_class: Seq<char>,
        root_eligible: bool,
    },
    AwaitExternal { root: u64, foreground: u64, root_known: Option<bool>, foreground_known: Option<bool> },
}

impl View for Phase {
    type V = PhaseModel;

    open spec fn view(&self) -> PhaseModel {
        match self {
            Phase::Idle => PhaseModel::Idle,
            Phase::AwaitRoot { cursor, foreground } => PhaseModel::AwaitRoot {
                cursor: *cursor,
                foreground: *foreground,
            },
            Phase::AwaitCursorClass { root, foreground } => PhaseModel::AwaitCursorClass {
                root: *root,
                foreground: *foreground,
            },
            Phase::AwaitForegroundClass { root, foreground, root_class } => PhaseModel::AwaitForegroundClass {
                root: *root,
                foreground: *foreground,
                root_class: root_class@,
            },
            Phase::AwaitRootStyle {
                root,
                foreground,
                root_class,
                foreground_class,
                foreground_known,
            } => PhaseModel::AwaitRootStyle {
                root: *root,
                foreground: *foreground,
                root_class: root_class@,
                foreground_class: foreground_class@,
                foreground_known: *foreground_known,
            },
            Phase::AwaitForegroundStyle {
                root,
                foreground,
                foreground_class,
                root_eligible,
            } => PhaseModel::AwaitForegroundStyle {
                root: *root,
                foreground: *foreground,
                foreground_class: foreground_class@,
                root_eligible: *root_eligible,
            },
            Phase::AwaitExternal { root, foreground, root_known, foreground_known } => PhaseModel::AwaitExternal {
                root: *root,
                foreground: *foreground,
                root_known: *root_known,
                foreground_known: *foreground_known,
            },
        }
    }
}

/// The model of a reply: strings as character sequences.
pub enum ReplyModel {
    Root(Option<u64>),
    Class(Option<Seq<char>>),
    Style(Option<u32>),
    External(Option<Seq<char>>),
}

impl View for Reply {
    type V = ReplyModel;

    open spec fn view(&self) -> ReplyModel {
        match self {
            Reply::Root(r) => ReplyModel::Root(*r),
            Reply::Class(Some(s)) => ReplyModel::Class(Some(s@)),
            Reply::Class(None) => ReplyModel::Class(None),
            Reply::Style(r) => ReplyModel::Style(*r),
            Reply::External(Some(s)) => ReplyModel::External(Some(s@)),
            Reply::External(None) => ReplyModel::External(None),
        }
    }
}

/// The mathematical model of the whole engine: the four cache mappings, the
/// generation creation time, the drag flag, the configured mode, and the
/// phase of the evaluation in flight.
#[verifier::ext_equal]
pub struct EngineModel {
    pub eligibility: Map<u64, bool>,
    pub classes: Map<u64, Seq<char>>,
    pub pairs: Map<u64, u64>,
    pub roots: Map<u64, u64>,
    pub birth: u64,
    pub drag: bool,
    pub external_mode: bool,
    pub phase: PhaseModel,
}

/// End the evaluation with or without a raise. Nothing else changes.
pub open spec fn spec_decide(m: EngineModel, root: u64, raise: bool) -> (EngineModel, Action) {
    let m2 = EngineModel { phase: PhaseModel::Idle, ..m };
    if raise {
        (m2, Action::Raise(root))
    } else {
        (m2, Action::Idle)
    }
}

/// The evaluation once both class names are known: the foreground pause
/// check, pairing discovery, then eligibility — memoized verdicts first,
/// then the configured mode for whatever is missing.
pub open spec fn spec_classified(
    m: EngineModel,
    root: u64,
    foreground: u64,
    root_class: Seq<char>,
    foreground_class: Seq<char>,
) -> (EngineModel, Action) {
    if spec_pause_listed(foreground_class) {
        (EngineModel { phase: PhaseModel::Idle, ..m }, Action::Idle)
    } else if spec_paired_classes(root_class, foreground_class) {
        (
            EngineModel { phase: PhaseModel::Idle, pairs: m.pairs.insert(root, foreground), ..m },
            Action::Idle,
        )
    } else {
        let root_known = if m.eligibility.contains_key(root) {
            Some(m.eligibility[root])
        } else {
            None
        };
        let foreground_known = if m.eligibility.contains_key(foreground) {
            Some(m.eligibility[foreground])
        } else {
            None
        };
        match (root_known, foreground_known) {
            (Some(re), Some(fe)) => spec_decide(m, root, re && fe),
            _ => {
                if m.external_mode {
                    (
                        EngineModel {
                            phase: PhaseModel::AwaitExternal {
                                root,
                                foreground,
                                root_known,
                                foreground_known,
                            },
                            ..m
                        },
                        Action::AskExternal,
                    )
                } else {
                    match root_known {
                        None => (
                            EngineModel {
                                phase: PhaseModel::AwaitRootStyle {
                                    root,
                                    foreground,
                                    root_class,
                                    foreground_class,
                                    foreground_known,
                                },
                                ..m
                            },
                            Action::AskStyle(root),
                        ),
                        Some(re) => (
                            EngineModel {
                                phase: PhaseModel::AwaitForegroundStyle {
                                    root,
                                    foreground,
                                    foreground_class,
                                    root_eligible: re,
                                },
                                ..m
                            },
                            Action::AskStyle(foreground),
                        ),
                    }
                }
            },
        }
    }
}

/// The evaluation once the cursor-side root is known: the identity
/// short-circuit on the root, the known-pair short-circuit, then class
/// resolution through the cache.
pub open spec fn spec_have_root(m: EngineModel, root: u64, foreground: u64) -> (
    EngineModel,
    Action,
) {
    if root == foreground {
        (EngineModel { phase: PhaseModel::Idle, ..m }, Action::Idle)
    } else if m.pairs.contains_key(root) && m.pairs[root] == foreground {
        (EngineModel { phase: PhaseModel::Idle, ..m }, Action::Idle)
    } else if !m.classes.contains_key(root) {
        (
            EngineModel { phase: PhaseModel::AwaitCursorClass { root, foreground }, ..m },
            Action::AskClass(root),
        )
    } else if !m.classes.contains_key(foreground) {
        (
            EngineModel {
                phase: PhaseModel::AwaitForegroundClass {
                    root,
                    foreground,
                    root_class: m.classes[root],
                },
                ..m
            },
            Action::AskClass(foreground),
        )
    } else {
        spec_classified(m, root, foreground, m.classes[root], m.classes[foreground])
    }
}

/// A movement event arrives: the drag guard, the identity short-circuit on
/// the raw handles, then root resolution through the cache. A `None` handle
/// is a failed query and drops the event.
pub open spec fn spec_begin_move(
    m: EngineModel,
    cursor: Option<u64>,
    foreground: Option<u64>,
) -> (EngineModel, Action) {
    let mi = EngineModel { phase: PhaseModel::Idle, ..m };
    if m.drag {
        (mi, Action::Idle)
    } else {
        match (cursor, foreground) {
            (Some(c), Some(f)) => {
                if c == f {
                    (mi, Action::Idle)
                } else if m.roots.contains_key(c) {
                    spec_have_root(mi, m.roots[c], f)
                } else {
                    (
                        EngineModel { phase: PhaseModel::AwaitRoot { cursor: c, foreground: f }, ..m },
                        Action::AskRoot(c),
                    )
                }
            },
            _ => (mi, Action::Idle),
        }
    }
}

/// A reply arrives for the evaluation in flight. A failed query or a reply
/// that does not fit the phase drops the event.
pub open spec fn spec_step(m: EngineModel, reply: ReplyModel) -> (EngineModel, Action) {
    match (m.phase, reply) {
        (PhaseModel::AwaitRoot { cursor, foreground }, ReplyModel::Root(Some(root))) => {
            let m2 = EngineModel {
                roots: m.roots.insert(cursor, root),
                phase: PhaseModel::Idle,
                ..m
            };
            spec_have_root(m2, root, foreground)
        },
        (PhaseModel::AwaitCursorClass { root, foreground }, ReplyModel::Class(Some(class))) => {
            let m2 = EngineModel {
                classes: m.classes.insert(root, class),
                phase: PhaseModel::Idle,
                ..m
            };
            if !m2.classes.contains_key(foreground) {
                (
                    EngineModel {
                        phase: PhaseModel::AwaitForegroundClass { root, foreground, root_class: class },
                        ..m2
                    },
                    Action::AskClass(foreground),
                )
            } else {
                spec_classified(m2, root, foreground, class, m2.classes[foreground])
            }
        },
        (
            PhaseModel::AwaitForegroundClass { root, foreground, root_class },
            ReplyModel::Class(Some(class)),
        ) => {
            let m2 = EngineModel {
                classes: m.classes.insert(foreground, class),
                phase: PhaseModel::Idle,
                ..m
            };
            spec_classified(m2, root, foreground, root_class, class)
        },
        (
            PhaseModel::AwaitRootStyle { root, foreground, root_class, foreground_class, foreground_known },
            ReplyModel::Style(Some(style)),
        ) => {
            let re = spec_heuristic_eligible(root_class, style);
            let m2 = EngineModel {
                eligibility: m.eligibility.insert(root, re),
                phase: PhaseModel::Idle,
                ..m
            };
            match foreground_known {
                Some(fe) => spec_decide(m2, root, re && fe),
                None => (
                    EngineModel {
                        phase: PhaseModel::AwaitForegroundStyle {
                            root,
                            foreground,
                            foreground_class,
                            root_eligible: re,
                        },
                        ..m2
                    },
                    Action::AskStyle(foreground),
                ),
            }
        },
        (
            PhaseModel::AwaitForegroundStyle { root, foreground, foreground_class, root_eligible },
            ReplyModel::Style(Some(style)),
        ) => {
            let fe = spec_heuristic_eligible(foreground_class, style);
            let m2 = EngineModel { eligibility: m.eligibility.insert(foreground, fe), ..m };
            spec_decide(m2, root, root_eligible && fe)
        },
        (
            PhaseModel::AwaitExternal { root, foreground, root_known, foreground_known },
            ReplyModel::External(Some(contents)),
        ) => {
            let re = match root_known {
                Some(b) => b,
                None => spec_external_eligible(contents, root),
            };
            let fe = match foreground_known {
                Some(b) => b,
                None => spec_external_eligible(contents, foreground),
            };
            let e1 = if root_known is None && re {
                m.eligibility.insert(root, true)
            } else {
                m.eligibility
            };
            let e2 = if foreground_known is None && fe {
                e1.insert(foreground, true)
            } else {
                e1
            };
            spec_decide(EngineModel { eligibility: e2, ..m }, root, re && fe)
        },
        _ => (EngineModel { phase: PhaseModel::Idle, ..m }, Action::Idle),
    }
}

/// The cache generation check, once per dispatch-loop iteration: an expired
/// generation is discarded whole.
pub open spec fn spec_refresh(m: EngineModel, now: u64) -> EngineModel {
    if now - m.birth > CACHE_TTL_SECONDS {
        EngineModel {
            eligibility: Map::empty(),
            classes: Map::empty(),
            pairs: Map::empty(),
            roots: Map::empty(),
            birth: now,
            ..m
        }
    } else {
        m
    }
}

/// The focus engine.
pub struct Engine {
    caches: CacheStore,
    drag: bool,
    external_mode: bool,
    phase: Phase,
}

impl View for Engine {
    type V = EngineModel;

    closed spec fn view(&self) -> EngineModel {
        EngineModel {
            eligibility: self.caches.eligibility_map(),
            classes: self.caches.class_map(),
            pairs: self.caches.pair_map(),
            roots: self.caches.root_map(),
            birth: self.caches.birth_time(),
            drag: self.drag,
            external_mode: self.external_mode,
            phase: self.phase@,
        }
    }
}

impl Engine {
    /// A fresh engine: empty caches created at clock reading `now`, no drag,
    /// no evaluation in flight. `external_mode` selects the eligibility
    /// source: the external list when true, the heuristic classifier when
    /// false.
    pub fn new(external_mode: bool, now: u64) -> (r: Engine)
        ensures
            r@ == (EngineModel {
                eligibility: Map::<u64, bool>::empty(),
                classes: Map::<u64, Seq<char>>::empty(),
                pairs: Map::<u64, u64>::empty(),
                roots: Map::<u64, u64>::empty(),
                birth: now,
                drag: false,
                external_mode: external_mode,
                phase: PhaseModel::Idle,
            }),
    {
        let r = Engine {
            caches: CacheStore::new(now),
            drag: false,
            external_mode,
            phase: Phase::Idle,
        };
        proof {
            assert(r@ =~= (EngineModel {
                eligibility: Map::<u64, bool>::empty(),
                classes: Map::<u64, Seq<char>>::empty(),
                pairs: Map::<u64, u64>::empty(),
                roots: Map::<u64, u64>::empty(),
                birth: now,
                drag: false,
                external_mode: external_mode,
                phase: PhaseModel::Idle,
            }));
        }
        r
    }

    /// Discard the caches if the generation has outlived its time-to-live.
    /// To be called once per dispatch-loop iteration, before the event.
    pub fn refresh(&mut self, now: u64)
        ensures
            final(self)@ == spec_refresh(old(self)@, now),
    {
        self.caches.refresh(now);
        proof {
            assert(self@ =~= spec_refresh(old(self)@, now));
        }
    }

    /// A button was pressed or released: update the drag flag and abandon
    /// any evaluation in flight. Button events never trigger classification.
    pub fn on_button(&mut self, pressed: bool)
        ensures
            final(self)@ == (EngineModel {
                drag: pressed,
                phase: PhaseModel::Idle,
                ..old(self)@
            }),
    {
        self.drag = pressed;
        self.phase = Phase::Idle;
        proof {
            assert(self@ =~= (EngineModel { drag: pressed, phase: PhaseModel::Idle, ..old(self)@ }));
        }
    }

    /// End the evaluation.
    fn decide(&mut self, root: u64, raise: bool) -> (act: Action)
        ensures
            (final(self)@, act) == spec_decide(old(self)@, root, raise),
    {
        self.phase = Phase::Idle;
        proof {
            assert(self@ =~= spec_decide(old(self)@, root, raise).0);
        }
        if raise {
            Action::Raise(root)
        } else {
            Action::Idle
        }
    }

    /// Both class names are known; run the class rules and the eligibility
    /// stage.
    fn classified(
        &mut self,
        root: u64,
        foreground: u64,
        root_class: &String,
        foreground_class: &String,
    ) -> (act: Action)
        ensures
            (final(self)@, act) == spec_classified(
                old(self)@,
                root,
                foreground,
                root_class@,
                foreground_class@,
            ),
    {
        if pause_listed(foreground_class.as_str()) {
            self.phase = Phase::Idle;
            proof {
                assert(self@ =~= spec_classified(
                    old(self)@,
                    root,
                    foreground,
                    root_class@,
                    foreground_class@,
                ).0);
            }
            return Action::Idle;
        }
        if paired_classes(root_class.as_str(), foreground_class.as_str()) {
            self.caches.put_pair(root, foreground);
            self.phase = Phase::Idle;
            proof {
                assert(self@ =~= spec_classified(
                    old(self)@,
                    root,
                    foreground,
                    root_class@,
                    foreground_class@,
                ).0);
            }
            return Action::Idle;
        }
        let root_known = self.caches.get_eligibility(root);
        let foreground_known = self.caches.get_eligibility(foreground);
        match (root_known, foreground_known) {
            (Some(re), Some(fe)) => self.decide(root, re && fe),
            _ => {
                if self.external_mode {
                    self.phase = Phase::AwaitExternal { root, foreground, root_known, foreground_known };
                    proof {
                        assert(self@ =~= spec_classified(
                            old(self)@,
                            root,
                            foreground,
                            root_class@,
                            foreground_class@,
                        ).0);
                    }
                    Action::AskExternal
                } else {
                    match root_known {
                        None => {
                            self.phase = Phase::AwaitRootStyle {
                                root,
                                foreground,
                                root_class: root_class.clone(),
                                foreground_class: foreground_class.clone(),
                                foreground_known,
                            };
                            proof {
                                assert(self@ =~= spec_classified(
                                    old(self)@,
                                    root,
                                    foreground,
                                    root_class@,
                                    foreground_class@,
                                ).0);
                            }
                            Action::AskStyle(root)
                        },
                        Some(re) => {
                            self.phase = Phase::AwaitForegroundStyle {
                                root,
                                foreground,
                                foreground_class: foreground_class.clone(),
                                root_eligible: re,
                            };
                            proof {
                                assert(self@ =~= spec_classified(
                                    old(self)@,
                                    root,
                                    foreground,
                                    root_class@,
                                    foreground_class@,
                                ).0);
                            }
                            Action::AskStyle(foreground)
                        },
                    }
                }
            },
        }
    }

    /// The cursor-side root is known; run the root short-circuits and the
    /// class resolution.
    fn have_root(&mut self, root: u64, foreground: u64) -> (act: Action)
        requires
            old(self)@.phase == PhaseModel::Idle,
        ensures
            (final(self)@, act) == spec_have_root(old(self)@, root, foreground),
    {
        if root == foreground {
            return Action::Idle;
        }
        match self.caches.get_pair(root) {
            Some(paired) if paired == foreground => {
                return Action::Idle;
            },
            _ => {},
        }
        let root_class = match self.caches.get_class(root) {
            Some(class) => class,
            None => {
                self.phase = Phase::AwaitCursorClass { root, foreground };
                proof {
                    assert(self@ =~= spec_have_root(old(self)@, root, foreground).0);
                }
                return Action::AskClass(root);
            },
        };
        let foreground_class = match self.caches.get_class(foreground) {
            Some(class) => class,
            None => {
                self.phase = Phase::AwaitForegroundClass { root, foreground, root_class };
                proof {
                    assert(self@ =~= spec_have_root(old(self)@, root, foreground).0);
                }
                return Action::AskClass(foreground);
            },
        };
        self.classified(root, foreground, &root_class, &foreground_class)
    }

    /// A movement event arrives, with the handle under the cursor and the
    /// foreground handle as resolved by the caller — `None` for a failed
    /// query. The returned action is a query to answer through `step`, or
    /// the decision.
    pub fn begin_move(&mut self, cursor: Option<u64>, foreground: Option<u64>) -> (act: Action)
        ensures
            (final(self)@, act) == spec_begin_move(old(self)@, cursor, foreground),
    {
        self.phase = Phase::Idle;
        proof {
            assert(self@ =~= (EngineModel { phase: PhaseModel::Idle, ..old(self)@ }));
        }
        if self.drag {
            return Action::Idle;
        }
        let (c, f) = match (cursor, foreground) {
            (Some(c), Some(f)) => (c, f),
            _ => {
                return Action::Idle;
            },
        };
        if c == f {
            return Action::Idle;
        }
        match self.caches.get_root(c) {
            Some(root) => self.have_root(root, f),
            None => {
                self.phase = Phase::AwaitRoot { cursor: c, foreground: f };
                proof {
                    assert(self@ =~= spec_begin_move(old(self)@, cursor, foreground).0);
                }
                Action::AskRoot(c)
            },
        }
    }

    /// A reply arrives for the query the engine asked last. A failed query
    /// or a reply that does not fit the phase drops the event.
    pub fn step(&mut self, reply: Reply) -> (act: Action)
        ensures
            (final(self)@, act) == spec_step(old(self)@, reply@),
    {
        let mut ph = Phase::Idle;
        core::mem::swap(&mut ph, &mut self.phase);
        match (ph, reply) {
            (Phase::AwaitRoot { cursor, foreground }, Reply::Root(Some(root))) => {
                self.caches.put_root(cursor, root);
                proof {
                    assert(self@ =~= (EngineModel {
                        roots: old(self)@.roots.insert(cursor, root),
                        phase: PhaseModel::Idle,
                        ..old(self)@
                    }));
                }
                self.have_root(root, foreground)
            },
            (Phase::AwaitCursorClass { root, foreground }, Reply::Class(Some(class))) => {
                self.caches.put_class(root, class.clone());
                proof {
                    assert(self@ =~= (EngineModel {
                        classes: old(self)@.classes.insert(root, class@),
                        phase: PhaseModel::Idle,
                        ..old(self)@
                    }));
                }
                match self.caches.get_class(foreground) {
                    Some(foreground_class) => self.classified(
                        root,
                        foreground,
                        &class,
                        &foreground_class,
                    ),
                    None => {
                        self.phase = Phase::AwaitForegroundClass {
                            root,
                            foreground,
                            root_class: class,
                        };
                        proof {
                            assert(self@ =~= spec_step(old(self)@, reply@).0);
                        }
                        Action::AskClass(foreground)
                    },
                }
            },
            (
                Phase::AwaitForegroundClass { root, foreground, root_class },
                Reply::Class(Some(class)),
            ) => {
                self.caches.put_class(foreground, class.clone());
                proof {
                    assert(self@ =~= (EngineModel {
                        classes: old(self)@.classes.insert(foreground, class@),
                        phase: PhaseModel::Idle,
                        ..old(self)@
                    }));
                }
                self.classified(root, foreground, &root_class, &class)
            },
            (
                Phase::AwaitRootStyle {
                    root,
                    foreground,
                    root_class,
                    foreground_class,
                    foreground_known,
                },
                Reply::Style(Some(style)),
            ) => {
                let re = heuristic_eligible(root_class.as_str(), style);
                self.caches.put_eligibility(root, re);
                match foreground_known {
                    Some(fe) => self.decide(root, re && fe),
                    None => {
                        self.phase = Phase::AwaitForegroundStyle {
                            root,
                            foreground,
                            foreground_class,
                            root_eligible: re,
                        };
                        proof {
                            assert(self@ =~= spec_step(old(self)@, reply@).0);
                        }
                        Action::AskStyle(foreground)
                    },
                }
            },
            (
                Phase::AwaitForegroundStyle { root, foreground, foreground_class, root_eligible },
                Reply::Style(Some(style)),
            ) => {
                let fe = heuristic_eligible(foreground_class.as_str(), style);
                self.caches.put_eligibility(foreground, fe);
                self.decide(root, root_eligible && fe)
            },
            (
                Phase::AwaitExternal { root, foreground, root_known, foreground_known },
                Reply::External(Some(contents)),
            ) => {
                let re = match root_known {
                    Some(b) => b,
                    None => {
                        let v = external_eligible(contents.as_str(), root);
                        if v {
                            self.caches.put_eligibility(root, true);
                        }
                        v
                    },
                };
                let fe = match foreground_known {
                    Some(b) => b,
                    None => {
                        let v = external_eligible(contents.as_str(), foreground);
                        if v {
                            self.caches.put_eligibility(foreground, true);
                        }
                        v
                    },
                };
                self.decide(root, re && fe)
            },
            _ => {
                proof {
                    assert(self@ =~= spec_step(old(self)@, reply@).0);
                }
                Action::Idle
            },
        }
    }
}

/// The evaluation in flight still intends to classify handle `h` itself:
/// it waits for `h`'s style, or for the external list while `h`'s verdict
/// is not memoized.
pub open spec fn phase_queries_handle(p: PhaseModel, h: u64) -> bool {
    match p {
        PhaseModel::AwaitRootStyle { root, foreground, foreground_known, .. } => root == h || (
        foreground == h && foreground_known is None),
        PhaseModel::AwaitForegroundStyle { foreground, .. } => foreground == h,
        PhaseModel::AwaitExternal { root, foreground, root_known, foreground_known } => (root == h
            && root_known is None) || (foreground == h && foreground_known is None),
        _ => false,
    }
}

/// A memoized eligibility verdict — `true` or `false` — is not recomputed:
/// once the class stage is reached with `h`'s verdict in the cache, the
/// evaluation never asks for `h`'s style and never pends a recomputation of
/// `h`'s verdict. (The external list may still be read for the other handle
/// of the event; `h`'s memoized verdict is the one used.)
pub proof fn lemma_memoized_not_requeried_classified(
    m: EngineModel,
    root: u64,
    foreground: u64,
    root_class: Seq<char>,
    foreground_class: Seq<char>,
    h: u64,
)
    requires
        m.eligibility.contains_key(h),
    ensures
        ({
            let (m2, a) = spec_classified(m, root, foreground, root_class, foreground_class);
            a != Action::AskStyle(h) && !phase_queries_handle(m2.phase, h)
        }),
{
}

/// The same, from the moment the cursor-side root is known.
pub proof fn lemma_memoized_not_requeried_have_root(
    m: EngineModel,
    root: u64,
    foreground: u64,
    h: u64,
)
    requires
        m.eligibility.contains_key(h),
    ensures
        ({
            let (m2, a) = spec_have_root(m, root, foreground);
            a != Action::AskStyle(h) && !phase_queries_handle(m2.phase, h)
        }),
{
    if root != foreground && !(m.pairs.contains_key(root) && m.pairs[root] == foreground)
        && m.classes.contains_key(root) && m.classes.contains_key(foreground) {
        lemma_memoized_not_requeried_classified(
            m,
            root,
            foreground,
            m.classes[root],
            m.classes[foreground],
            h,
        );
    }
}

/// The same, for a movement event as it begins. Beginning an event never
/// writes an eligibility verdict, so the memoized ones survive it.
pub proof fn lemma_memoized_not_requeried_begin(
    m: EngineModel,
    cursor: Option<u64>,
    foreground: Option<u64>,
    h: u64,
)
    requires
        m.eligibility.contains_key(h),
    ensures
        ({
            let (m2, a) = spec_begin_move(m, cursor, foreground);
            &&& a != Action::AskStyle(h)
            &&& !phase_queries_handle(m2.phase, h)
            &&& m2.eligibility == m.eligibility
        }),
{
    let mi = EngineModel { phase: PhaseModel::Idle, ..m };
    if !m.drag {
        match (cursor, foreground) {
            (Some(c), Some(f)) => {
                if c != f && m.roots.contains_key(c) {
                    lemma_memoized_not_requeried_have_root(mi, m.roots[c], f, h);
                }
            },
            _ => {},
        }
    }
}

/// The same, across every reply step: while `h`'s verdict is memoized and
/// the evaluation does not already pend a query for `h`, a step never asks
/// for `h`'s style, never comes to pend one, and leaves `h`'s memoized
/// verdict in place.
pub proof fn lemma_memoized_not_requeried_step(m: EngineModel, reply: ReplyModel, h: u64)
    requires
        m.eligibility.contains_key(h),
        m.eligibility[h] == true,
        !phase_queries_handle(m.phase, h),
    ensures
        ({
            let (m2, a) = spec_step(m, reply);
            &&& a != Action::AskStyle(h)
            &&& !phase_queries_handle(m2.phase, h)
            &&& m2.eligibility.contains_key(h)
            &&& m2.eligibility[h] == true
        }),
{
    match (m.phase, reply) {
        (PhaseModel::AwaitRoot { cursor, foreground }, ReplyModel::Root(Some(root))) => {
            let m2 = EngineModel {
                roots: m.roots.insert(cursor, root),
                phase: PhaseModel::Idle,
                ..m
            };
            lemma_memoized_not_requeried_have_root(m2, root, foreground, h);
        },
        (PhaseModel::AwaitCursorClass { root, foreground }, ReplyModel::Class(Some(class))) => {
            let m2 = EngineModel {
                classes: m.classes.insert(root, class),
                phase: PhaseModel::Idle,
                ..m
            };
            if m2.classes.contains_key(foreground) {
                lemma_memoized_not_requeried_classified(
                    m2,
                    root,
                    foreground,
                    class,
                    m2.classes[foreground],
                    h,
                );
            }
        },
        (
            PhaseModel::AwaitForegroundClass { root, foreground, root_class },
            ReplyModel::Class(Some(class)),
        ) => {
            let m2 = EngineModel {
                classes: m.classes.insert(foreground, class),
                phase: PhaseModel::Idle,
                ..m
            };
            lemma_memoized_not_requeried_classified(m2, root, foreground, root_class, class, h);
        },
        _ => {},
    }
}

/// The action asks the caller for a query; a reply is expected.
pub open spec fn is_query(act: Action) -> bool {
    match act {
        Action::AskRoot(_) => true,
        Action::AskClass(_) => true,
        Action::AskStyle(_) => true,
        Action::AskExternal => true,
        Action::Raise(_) => false,
        Action::Idle => false,
    }
}

/// The actions the engine emits after `act`, as the given replies are
/// consumed one per step; the run ends when the action is a decision or the
/// replies run out.
pub open spec fn spec_run(m: EngineModel, act: Action, replies: Seq<ReplyModel>) -> Seq<Action>
    decreases replies.len(),
{
    if replies.len() == 0 || !is_query(act) {
        seq![]
    } else {
        let (m2, a2) = spec_step(m, replies[0]);
        seq![a2] + spec_run(m2, a2, replies.drop_first())
    }
}

/// Every action a movement event emits, from its beginning through the given
/// replies.
pub open spec fn spec_event_actions(
    m: EngineModel,
    cursor: Option<u64>,
    foreground: Option<u64>,
    replies: Seq<ReplyModel>,
) -> Seq<Action> {
    let (m1, a1) = spec_begin_move(m, cursor, foreground);
    seq![a1] + spec_run(m1, a1, replies)
}

/// The induction behind the event-level statement: while `h`'s `true`
/// verdict is memoized and no query for `h` is pending, no later step of the
/// run asks for `h`'s style.
pub proof fn lemma_run_never_styles_memoized(
    m: EngineModel,
    act: Action,
    replies: Seq<ReplyModel>,
    h: u64,
)
    requires
        m.eligibility.contains_key(h),
        m.eligibility[h] == true,
        !phase_queries_handle(m.phase, h),
    ensures
        forall|k: int|
            0 <= k < spec_run(m, act, replies).len() ==> spec_run(m, act, replies)[k]
                != Action::AskStyle(h),
    decreases replies.len(),
{
    if replies.len() > 0 && is_query(act) {
        let (m2, a2) = spec_step(m, replies[0]);
        lemma_memoized_not_requeried_step(m, replies[0], h);
        lemma_run_never_styles_memoized(m2, a2, replies.drop_first(), h);
    }
}

/// Within one cache generation, a handle whose eligibility is memoized as
/// `true` is never re-classified: over a whole movement event, however its
/// queries are answered, no emitted action asks for that handle's style, and
/// in external-list mode the memoized verdict stands in for a fresh
/// containment check.
pub proof fn lemma_memoized_true_never_requeried(
    m: EngineModel,
    cursor: Option<u64>,
    foreground: Option<u64>,
    replies: Seq<ReplyModel>,
    h: u64,
)
    requires
        m.eligibility.contains_key(h),
        m.eligibility[h] == true,
    ensures
        forall|k: int|
            0 <= k < spec_event_actions(m, cursor, foreground, replies).len()
                ==> spec_event_actions(m, cursor, foreground, replies)[k] != Action::AskStyle(h),
{
    let (m1, a1) = spec_begin_move(m, cursor, foreground);
    lemma_memoized_not_requeried_begin(m, cursor, foreground, h);
    lemma_run_never_styles_memoized(m1, a1, replies, h);
}

/// An event whose very first action is already a decision emits nothing
/// else, whatever replies would have followed.
pub proof fn lemma_event_decided_at_once(
    m: EngineModel,
    cursor: Option<u64>,
    foreground: Option<u64>,
    replies: Seq<ReplyModel>,
)
    requires
        !is_query(spec_begin_move(m, cursor, foreground).1),
    ensures
        spec_event_actions(m, cursor, foreground, replies) =~= seq![
            spec_begin_move(m, cursor, foreground).1,
        ],
{
}

/// While a drag is in progress, a movement event is dropped outright:
/// nothing is raised, nothing is queried, and no cache changes.
pub proof fn lemma_drag_blocks_event(m: EngineModel, cursor: Option<u64>, foreground: Option<u64>)
    requires
        m.drag,
    ensures
        spec_begin_move(m, cursor, foreground).1 == Action::Idle,
        spec_begin_move(m, cursor, foreground).0 == (EngineModel {
            phase: PhaseModel::Idle,
            ..m
        }),
{
}

/// While a drag is in progress, a whole movement event emits exactly one
/// action, and it is `Idle`: no event can produce a raise during a drag,
/// even if every other condition for one is satisfied.
pub proof fn lemma_drag_event_never_raises(
    m: EngineModel,
    cursor: Option<u64>,
    foreground: Option<u64>,
    replies: Seq<ReplyModel>,
)
    requires
        m.drag,
    ensures
        spec_event_actions(m, cursor, foreground, replies) =~= seq![Action::Idle],
{
    lemma_drag_blocks_event(m, cursor, foreground);
    lemma_event_decided_at_once(m, cursor, foreground, replies);
}

/// With no evaluation in flight, a reply does nothing: in particular, after
/// a button event (which abandons any evaluation), no stray reply can
/// produce a raise.
pub proof fn lemma_idle_phase_never_raises(m: EngineModel, reply: ReplyModel)
    requires
        m.phase == PhaseModel::Idle,
    ensures
        spec_step(m, reply).1 == Action::Idle,
        spec_step(m, reply).0 == m,
{
    assert(spec_step(m, reply).0 =~= m);
}

/// A learned pair suppresses the raise: when the pair cache maps the
/// cursor-side root to the current foreground handle, the event ends at
/// once, whatever the classes and styles would have said.
pub proof fn lemma_known_pair_never_raises(m: EngineModel, root: u64, foreground: u64)
    requires
        m.pairs.contains_key(root),
        m.pairs[root] == foreground,
    ensures
        spec_have_root(m, root, foreground).1 == Action::Idle,
        spec_have_root(m, root, foreground).0 == (EngineModel { phase: PhaseModel::Idle, ..m }),
{
}

/// The same, for a whole movement event whose cursor handle has a memoized
/// root that the pair cache maps to the foreground handle: the event emits
/// exactly one action, `Idle`, whatever classes and styles would have said.
pub proof fn lemma_known_pair_event(
    m: EngineModel,
    cursor: u64,
    foreground: u64,
    replies: Seq<ReplyModel>,
)
    requires
        m.roots.contains_key(cursor),
        m.pairs.contains_key(m.roots[cursor]),
        m.pairs[m.roots[cursor]] == foreground,
    ensures
        spec_event_actions(m, Some(cursor), Some(foreground), replies) =~= seq![Action::Idle],
{
    lemma_event_decided_at_once(m, Some(cursor), Some(foreground), replies);
}

/// When the resolved top-level ancestor of the cursor handle is the
/// foreground handle itself, no raise occurs — the child-vs-parent case.
pub proof fn lemma_root_is_foreground_never_raises(m: EngineModel, root: u64, foreground: u64)
    requires
        root == foreground,
    ensures
        spec_have_root(m, root, foreground).1 == Action::Idle,
        spec_have_root(m, root, foreground).0 == (EngineModel { phase: PhaseModel::Idle, ..m }),
{
}

/// The same, for a whole movement event whose cursor handle has a memoized
/// root equal to the foreground handle: even though the raw cursor handle
/// differs from the foreground one, the event emits exactly one action,
/// `Idle`.
pub proof fn lemma_root_is_foreground_event(
    m: EngineModel,
    cursor: u64,
    foreground: u64,
    replies: Seq<ReplyModel>,
)
    requires
        m.roots.contains_key(cursor),
        m.roots[cursor] == foreground,
    ensures
        spec_event_actions(m, Some(cursor), Some(foreground), replies) =~= seq![Action::Idle],
{
    lemma_event_decided_at_once(m, Some(cursor), Some(foreground), replies);
}

/// A raise always targets the evaluation's resolved top-level root — never
/// the raw handle under the cursor — and never the foreground handle
/// itself. Here for an event decided as it begins, from memoized caches.
pub proof fn lemma_begin_raise_targets_the_root(
    m: EngineModel,
    cursor: u64,
    foreground: u64,
    raised: u64,
)
    requires
        spec_begin_move(m, Some(cursor), Some(foreground)).1 == Action::Raise(raised),
    ensures
        m.roots.contains_key(cursor),
        m.roots[cursor] == raised,
        raised != foreground,
{
}

/// The same, for an evaluation decided at a reply: the raised handle is the
/// root the evaluation resolved — for a root reply, the replied root itself —
/// and never the foreground handle.
pub proof fn lemma_step_raise_targets_the_root(m: EngineModel, reply: ReplyModel, raised: u64)
    requires
        spec_step(m, reply).1 == Action::Raise(raised),
    ensures
        !(m.phase is Idle),
        m.phase matches PhaseModel::AwaitRoot { cursor, foreground } ==> reply == ReplyModel::Root(
            Some(raised),
        ) && raised != foreground,
        m.phase matches PhaseModel::AwaitCursorClass { root, .. } ==> raised == root,
        m.phase matches PhaseModel::AwaitForegroundClass { root, .. } ==> raised == root,
        m.phase matches PhaseModel::AwaitRootStyle { root, .. } ==> raised == root,
        m.phase matches PhaseModel::AwaitForegroundStyle { root, .. } ==> raised == root,
        m.phase matches PhaseModel::AwaitExternal { root, .. } ==> raised == root,
{
}

/// The action asks for a window's extended style.
pub open spec fn is_style_query(act: Action) -> bool {
    match act {
        Action::AskStyle(_) => true,
        _ => false,
    }
}

/// The evaluation in flight waits for a style reply.
pub open spec fn phase_awaits_style(p: PhaseModel) -> bool {
    match p {
        PhaseModel::AwaitRootStyle { .. } => true,
        PhaseModel::AwaitForegroundStyle { .. } => true,
        _ => false,
    }
}

/// One step of the replacement argument: in external-list mode, a step never
/// asks for a style and never comes to wait for one.
pub proof fn lemma_external_mode_step_never_styles(m: EngineModel, reply: ReplyModel)
    requires
        m.external_mode,
        !phase_awaits_style(m.phase),
    ensures
        ({
            let (m2, a) = spec_step(m, reply);
            &&& !is_style_query(a)
            &&& !phase_awaits_style(m2.phase)
            &&& m2.external_mode
        }),
{
}

proof fn lemma_external_mode_run_never_styles(
    m: EngineModel,
    act: Action,
    replies: Seq<ReplyModel>,
)
    requires
        m.external_mode,
        !phase_awaits_style(m.phase),
    ensures
        forall|k: int|
            0 <= k < spec_run(m, act, replies).len() ==> !is_style_query(
                #[trigger] spec_run(m, act, replies)[k],
            ),
    decreases replies.len(),
{
    if replies.len() > 0 && is_query(act) {
        let (m2, a2) = spec_step(m, replies[0]);
        lemma_external_mode_step_never_styles(m, replies[0]);
        lemma_external_mode_run_never_styles(m2, a2, replies.drop_first());
        let run = spec_run(m, act, replies);
        let rest = spec_run(m2, a2, replies.drop_first());
        assert forall|k: int| 0 <= k < run.len() implies !is_style_query(run[k]) by {
            if k > 0 {
                assert(run[k] == rest[k - 1]);
            }
        }
    }
}

/// When the external eligibility list is configured, it replaces the
/// heuristic classifier as the source of truth: over a whole movement
/// event, however its queries are answered, the engine never asks for any
/// window's extended style.
pub proof fn lemma_external_mode_never_styles(
    m: EngineModel,
    cursor: Option<u64>,
    foreground: Option<u64>,
    replies: Seq<ReplyModel>,
)
    requires
        m.external_mode,
        !phase_awaits_style(m.phase),
    ensures
        forall|k: int|
            0 <= k < spec_event_actions(m, cursor, foreground, replies).len() ==> !is_style_query(
                #[trigger] spec_event_actions(m, cursor, foreground, replies)[k],
            ),
{
    let (m1, a1) = spec_begin_move(m, cursor, foreground);
    lemma_external_mode_run_never_styles(m1, a1, replies);
}

/// Once the generation's age exceeds the time-to-live, the refresh discards
/// all four caches as one unit and restarts the generation clock: the very
/// next evaluation starts from scratch.
pub proof fn lemma_expired_generation_discards_all(m: EngineModel, now: u64)
    requires
        now - m.birth > CACHE_TTL_SECONDS,
    ensures
        spec_refresh(m, now).eligibility == Map::<u64, bool>::empty(),
        spec_refresh(m, now).classes == Map::<u64, Seq<char>>::empty(),
        spec_refresh(m, now).pairs == Map::<u64, u64>::empty(),
        spec_refresh(m, now).roots == Map::<u64, u64>::empty(),
        spec_refresh(m, now).birth == now,
{
}

} // verus!
