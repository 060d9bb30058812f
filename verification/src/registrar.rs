//! The registration machine. Given a configuration, it decides the exact
//! sequence of framework calls a hotkey refresh makes: clear the old bindings
//! where the platform supports it, bind each configured slot in a fixed order,
//! store the selection switch, and shut the selection window when the feature
//! is off. A driver performs each decided action and reports its outcome; the
//! machine records the attempt and decides what comes next. The first rejected
//! call ends the run in failure — no later slot is tried — but the selection
//! switch is still stored first, so the shared flag matches the configuration
//! after every run, failed ones included.

use vstd::prelude::*;

use crate::config::{flag_or_disabled, text_or_empty, ShortcutConfig};

verus! {

/// The three configurable shortcut purposes, in the order they are bound.
#[derive(Clone, Copy, PartialEq, Eq, Structural, Debug)]
pub enum Slot {
    /// Opens the quick-ask prompt window.
    QuickAsk,
    /// Opens the search window.
    Search,
    /// Opens the chat window.
    Chat,
}

/// One framework call the driver is asked to perform.
#[derive(Clone, Copy, PartialEq, Eq, Structural, Debug)]
pub enum Action {
    /// Remove every global shortcut registered earlier. Fallible.
    UnregisterAll,
    /// Bind the slot's configured key combination to its callback. Fallible.
    Register { slot: Slot },
    /// Store the selection switch into the shared flag, with sequentially
    /// consistent ordering. Never fails.
    StoreSelectFlag { enabled: bool },
    /// Look the selection window up by its well-known identifier.
    LookupSelectWindow,
    /// Ask the selection window to close; its result is ignored.
    CloseSelectWindow,
}

/// The driver's report on the action it was asked to perform.
#[derive(Clone, Copy, PartialEq, Eq, Structural, Debug)]
pub enum Event {
    /// The action ran; for a fallible action, it succeeded.
    Completed,
    /// A fallible action was rejected by the framework.
    Failed,
    /// The selection window lookup found an open window.
    WindowFound,
    /// The selection window lookup found nothing.
    WindowNotFound,
}

/// Where the machine stands: the action it is about to ask for, or how the
/// run ended.
#[derive(Clone, Copy, PartialEq, Eq, Structural, Debug)]
pub enum Phase {
    /// About to clear the previously registered shortcuts.
    ClearAll,
    /// About to bind the quick-ask shortcut.
    RegisterQuickAsk,
    /// About to bind the search shortcut.
    RegisterSearch,
    /// About to bind the chat shortcut.
    RegisterChat,
    /// About to store the selection switch.
    StoreFlag,
    /// About to look the selection window up.
    LookupWindow,
    /// About to ask the open selection window to close.
    CloseWindow,
    /// A fallible action was rejected; the switch store is still owed before
    /// the run ends.
    StoreFlagAfterFailure,
    /// The run finished with every attempt issued.
    Done,
    /// A fallible action was rejected; the switch has been stored and the run
    /// stopped there.
    Failed,
}

/// The machine as contracts see it: the normalized configuration, the current
/// phase, and the trace of every action attempted so far.
pub struct Model {
    /// Quick-ask key combination; empty means unconfigured.
    pub quick_ask: Seq<char>,
    /// Search key combination; empty means unconfigured.
    pub search: Seq<char>,
    /// Chat key combination; empty means unconfigured.
    pub chat: Seq<char>,
    /// Whether the text-selection feature is to be enabled.
    pub enable_select: bool,
    /// Whether this platform can clear all previous registrations.
    pub clears_on_start: bool,
    /// Where the run stands.
    pub phase: Phase,
    /// Every action asked of the driver so far, oldest first, the failed one
    /// included.
    pub performed: Seq<Action>,
}

/// The key combination configured for a slot, empty when unconfigured.
pub open spec fn accelerator_of(m: Model, slot: Slot) -> Seq<char> {
    match slot {
        Slot::QuickAsk => m.quick_ask,
        Slot::Search => m.search,
        Slot::Chat => m.chat,
    }
}

/// Whether a slot has a key combination to bind.
pub open spec fn slot_configured(m: Model, slot: Slot) -> bool {
    accelerator_of(m, slot).len() > 0
}

/// A slot's position in the fixed binding order.
pub open spec fn slot_rank(slot: Slot) -> int {
    match slot {
        Slot::QuickAsk => 0,
        Slot::Search => 1,
        Slot::Chat => 2,
    }
}

/// An action whose outcome can be a framework rejection.
pub open spec fn fallible(action: Action) -> bool {
    action is UnregisterAll || action is Register
}

/// The phase that binds the first configured slot at or after quick-ask,
/// or the flag store when none is configured.
pub open spec fn phase_from_quick_ask(qa: Seq<char>, se: Seq<char>, ch: Seq<char>) -> Phase {
    if qa.len() > 0 {
        Phase::RegisterQuickAsk
    } else {
        phase_from_search(se, ch)
    }
}

/// The phase that binds the first configured slot at or after search.
pub open spec fn phase_from_search(se: Seq<char>, ch: Seq<char>) -> Phase {
    if se.len() > 0 {
        Phase::RegisterSearch
    } else {
        phase_from_chat(ch)
    }
}

/// The phase that binds the chat slot when configured, else the flag store.
pub open spec fn phase_from_chat(ch: Seq<char>) -> Phase {
    if ch.len() > 0 {
        Phase::RegisterChat
    } else {
        Phase::StoreFlag
    }
}

/// The phase a fresh machine starts in.
pub open spec fn start_phase(m: Model) -> Phase {
    if m.clears_on_start {
        Phase::ClearAll
    } else {
        phase_from_quick_ask(m.quick_ask, m.search, m.chat)
    }
}

/// The clearing step of the plan: present exactly on platforms that support it.
pub open spec fn clear_part(m: Model) -> Seq<Action> {
    if m.clears_on_start {
        seq![Action::UnregisterAll]
    } else {
        Seq::<Action>::empty()
    }
}

/// The chat registration, when configured.
pub open spec fn regs_from_chat(m: Model) -> Seq<Action> {
    if m.chat.len() > 0 {
        seq![Action::Register { slot: Slot::Chat }]
    } else {
        Seq::<Action>::empty()
    }
}

/// The registrations from the search slot on, in binding order.
pub open spec fn regs_from_search(m: Model) -> Seq<Action> {
    (if m.search.len() > 0 {
        seq![Action::Register { slot: Slot::Search }]
    } else {
        Seq::<Action>::empty()
    }) + regs_from_chat(m)
}

/// Every registration of the plan, in binding order: quick-ask, search, chat.
pub open spec fn regs_from_quick_ask(m: Model) -> Seq<Action> {
    (if m.quick_ask.len() > 0 {
        seq![Action::Register { slot: Slot::QuickAsk }]
    } else {
        Seq::<Action>::empty()
    }) + regs_from_search(m)
}

/// The closing steps of the plan: store the switch, and when the feature is
/// off, look the selection window up.
pub open spec fn tail_part(m: Model) -> Seq<Action> {
    seq![Action::StoreSelectFlag { enabled: m.enable_select }] + (if !m.enable_select {
        seq![Action::LookupSelectWindow]
    } else {
        Seq::<Action>::empty()
    })
}

/// The whole plan a run works through when nothing fails. The close request
/// is not part of it: whether one is made depends on what the lookup finds.
pub open spec fn planned_actions(m: Model) -> Seq<Action> {
    clear_part(m) + regs_from_quick_ask(m) + tail_part(m)
}

/// Where the switch store stands in the plan: right after the last
/// registration.
pub open spec fn flag_index(m: Model) -> int {
    clear_part(m).len() + regs_from_quick_ask(m).len() as int
}

/// The plan entries still ahead of the machine, the current one first.
pub open spec fn pending_actions(m: Model) -> Seq<Action> {
    match m.phase {
        Phase::ClearAll => seq![Action::UnregisterAll] + regs_from_quick_ask(m) + tail_part(m),
        Phase::RegisterQuickAsk => seq![Action::Register { slot: Slot::QuickAsk }]
            + regs_from_search(m) + tail_part(m),
        Phase::RegisterSearch => seq![Action::Register { slot: Slot::Search }]
            + regs_from_chat(m) + tail_part(m),
        Phase::RegisterChat => seq![Action::Register { slot: Slot::Chat }] + tail_part(m),
        Phase::StoreFlag => tail_part(m),
        Phase::LookupWindow => seq![Action::LookupSelectWindow],
        Phase::CloseWindow => seq![Action::CloseSelectWindow],
        Phase::StoreFlagAfterFailure => seq![
            Action::StoreSelectFlag { enabled: m.enable_select },
        ],
        Phase::Done => Seq::<Action>::empty(),
        Phase::Failed => Seq::<Action>::empty(),
    }
}

/// Whether the run has ended, in success or in failure.
pub open spec fn run_finished(m: Model) -> bool {
    m.phase is Done || m.phase is Failed
}

/// The action the machine asks for in its current phase.
pub open spec fn current_action(m: Model) -> Action
    recommends
        !run_finished(m),
{
    pending_actions(m)[0]
}

/// The phase can only name a step the configuration calls for.
pub open spec fn phase_fits(m: Model) -> bool {
    &&& m.phase is ClearAll ==> m.clears_on_start
    &&& m.phase is RegisterQuickAsk ==> m.quick_ask.len() > 0
    &&& m.phase is RegisterSearch ==> m.search.len() > 0
    &&& m.phase is RegisterChat ==> m.chat.len() > 0
    &&& m.phase is LookupWindow ==> !m.enable_select
    &&& m.phase is CloseWindow ==> !m.enable_select
}

/// The machine's invariant: the phase fits the configuration, and the trace
/// of attempted actions agrees with the plan — a run on the plan, the plan
/// plus one close request after a found window, or a plan prefix ending in
/// the rejected action, with the switch store still appended before the run
/// counts as failed.
pub open spec fn inv(m: Model) -> bool {
    &&& phase_fits(m)
    &&& match m.phase {
        Phase::ClearAll | Phase::RegisterQuickAsk | Phase::RegisterSearch
        | Phase::RegisterChat | Phase::StoreFlag | Phase::LookupWindow => m.performed
            + pending_actions(m) == planned_actions(m),
        Phase::CloseWindow => m.performed == planned_actions(m),
        Phase::Done => m.performed == planned_actions(m) || (!m.enable_select && m.performed
            == planned_actions(m).push(Action::CloseSelectWindow)),
        Phase::StoreFlagAfterFailure => {
            &&& 0 < m.performed.len() <= planned_actions(m).len()
            &&& m.performed == planned_actions(m).take(m.performed.len() as int)
            &&& fallible(m.performed.last())
        },
        Phase::Failed => {
            &&& 2 <= m.performed.len()
            &&& m.performed.len() - 1 <= planned_actions(m).len()
            &&& m.performed.last() == (Action::StoreSelectFlag { enabled: m.enable_select })
            &&& m.performed.drop_last() == planned_actions(m).take(m.performed.len() - 1)
            &&& fallible(m.performed[m.performed.len() - 2])
        },
    }
}

/// Which outcomes the driver may report in the current phase: success or
/// failure for the fallible calls, the lookup's two answers, and plain
/// completion for the rest.
pub open spec fn accepts(m: Model, event: Event) -> bool {
    match m.phase {
        Phase::ClearAll | Phase::RegisterQuickAsk | Phase::RegisterSearch
        | Phase::RegisterChat => event is Completed || event is Failed,
        Phase::StoreFlag => event is Completed,
        Phase::LookupWindow => event is WindowFound || event is WindowNotFound,
        Phase::CloseWindow => event is Completed,
        Phase::StoreFlagAfterFailure => event is Completed,
        Phase::Done => false,
        Phase::Failed => false,
    }
}

/// The phase an accepted outcome moves the machine to.
pub open spec fn next_phase(m: Model, event: Event) -> Phase
    recommends
        accepts(m, event),
{
    match (m.phase, event) {
        (Phase::ClearAll, Event::Completed) => phase_from_quick_ask(m.quick_ask, m.search, m.chat),
        (Phase::ClearAll, Event::Failed) => Phase::StoreFlagAfterFailure,
        (Phase::RegisterQuickAsk, Event::Completed) => phase_from_search(m.search, m.chat),
        (Phase::RegisterQuickAsk, Event::Failed) => Phase::StoreFlagAfterFailure,
        (Phase::RegisterSearch, Event::Completed) => phase_from_chat(m.chat),
        (Phase::RegisterSearch, Event::Failed) => Phase::StoreFlagAfterFailure,
        (Phase::RegisterChat, Event::Completed) => Phase::StoreFlag,
        (Phase::RegisterChat, Event::Failed) => Phase::StoreFlagAfterFailure,
        (Phase::StoreFlag, Event::Completed) => if m.enable_select {
            Phase::Done
        } else {
            Phase::LookupWindow
        },
        (Phase::LookupWindow, Event::WindowFound) => Phase::CloseWindow,
        (Phase::LookupWindow, Event::WindowNotFound) => Phase::Done,
        (Phase::CloseWindow, Event::Completed) => Phase::Done,
        (Phase::StoreFlagAfterFailure, Event::Completed) => Phase::Failed,
        _ => m.phase,
    }
}

/// The model after an accepted outcome: the attempted action joins the trace
/// and the phase moves on.
pub open spec fn stepped(m: Model, event: Event) -> Model
    recommends
        accepts(m, event),
{
    Model { phase: next_phase(m, event), performed: m.performed.push(current_action(m)), ..m }
}

/// The registration machine. Built from a configuration, it hands the driver
/// one action at a time and takes the outcome back, so that the whole
/// framework-facing run is decided — and accounted for — here.
pub struct Registrar {
    quick_ask: String,
    search: String,
    chat: String,
    enable_select: bool,
    clears_on_start: bool,
    phase: Phase,
    performed: Ghost<Seq<Action>>,
}

impl View for Registrar {
    type V = Model;

    closed spec fn view(&self) -> Model {
        Model {
            quick_ask: self.quick_ask@,
            search: self.search@,
            chat: self.chat@,
            enable_select: self.enable_select,
            clears_on_start: self.clears_on_start,
            phase: self.phase,
            performed: self.performed@,
        }
    }
}

/// Picks the first configured slot at or after quick-ask to bind next, or
/// the flag store when none is configured.
fn scan_from_quick_ask(quick_ask: &String, search: &String, chat: &String) -> (phase: Phase)
    ensures
        phase == phase_from_quick_ask(quick_ask@, search@, chat@),
{
    if !quick_ask.as_str().is_empty() {
        Phase::RegisterQuickAsk
    } else {
        scan_from_search(search, chat)
    }
}

/// Picks the first configured slot at or after search to bind next.
fn scan_from_search(search: &String, chat: &String) -> (phase: Phase)
    ensures
        phase == phase_from_search(search@, chat@),
{
    if !search.as_str().is_empty() {
        Phase::RegisterSearch
    } else {
        scan_from_chat(chat)
    }
}

/// Picks the chat slot when configured, else the flag store.
fn scan_from_chat(chat: &String) -> (phase: Phase)
    ensures
        phase == phase_from_chat(chat@),
{
    if !chat.as_str().is_empty() {
        Phase::RegisterChat
    } else {
        Phase::StoreFlag
    }
}

impl Registrar {
    /// Starts a run for the given configuration. A missing shortcut field
    /// reads as "no hotkey for this action"; a missing switch as disabled.
    /// `clears_on_start` says whether this platform first clears every
    /// previous registration.
    pub fn new(config: ShortcutConfig, clears_on_start: bool) -> (registrar: Registrar)
        ensures
            inv(registrar@),
            registrar@.performed == Seq::<Action>::empty(),
            registrar@.phase == start_phase(registrar@),
            registrar@.quick_ask == text_or_empty(config.quick_ask_shortcut),
            registrar@.search == text_or_empty(config.search_shortcut),
            registrar@.chat == text_or_empty(config.chat_shortcut),
            registrar@.enable_select == flag_or_disabled(config.enable_select),
            registrar@.clears_on_start == clears_on_start,
            !run_finished(registrar@),
    {
        let quick_ask = match config.quick_ask_shortcut {
            Some(text) => text,
            None => String::new(),
        };
        let search = match config.search_shortcut {
            Some(text) => text,
            None => String::new(),
        };
        let chat = match config.chat_shortcut {
            Some(text) => text,
            None => String::new(),
        };
        let enable_select = match config.enable_select {
            Some(value) => value,
            None => false,
        };
        let phase = if clears_on_start {
            Phase::ClearAll
        } else {
            scan_from_quick_ask(&quick_ask, &search, &chat)
        };
        let registrar = Registrar {
            quick_ask,
            search,
            chat,
            enable_select,
            clears_on_start,
            phase,
            performed: Ghost(Seq::<Action>::empty()),
        };
        proof {
            assert(registrar@.performed + pending_actions(registrar@) =~= planned_actions(
                registrar@,
            ));
        }
        registrar
    }

    /// The action the driver is to perform next, or nothing once the run has
    /// ended.
    pub fn next_action(&self) -> (action: Option<Action>)
        ensures
            run_finished(self@) ==> action is None,
            !run_finished(self@) ==> action == Some(current_action(self@)),
    {
        match self.phase {
            Phase::ClearAll => Some(Action::UnregisterAll),
            Phase::RegisterQuickAsk => Some(Action::Register { slot: Slot::QuickAsk }),
            Phase::RegisterSearch => Some(Action::Register { slot: Slot::Search }),
            Phase::RegisterChat => Some(Action::Register { slot: Slot::Chat }),
            Phase::StoreFlag => Some(Action::StoreSelectFlag { enabled: self.enable_select }),
            Phase::LookupWindow => Some(Action::LookupSelectWindow),
            Phase::CloseWindow => Some(Action::CloseSelectWindow),
            Phase::StoreFlagAfterFailure => Some(
                Action::StoreSelectFlag { enabled: self.enable_select },
            ),
            Phase::Done => None,
            Phase::Failed => None,
        }
    }

    /// The key combination configured for a slot; empty when the slot is
    /// unconfigured.
    pub fn accelerator(&self, slot: Slot) -> (text: &String)
        ensures
            text@ == accelerator_of(self@, slot),
    {
        match slot {
            Slot::QuickAsk => &self.quick_ask,
            Slot::Search => &self.search,
            Slot::Chat => &self.chat,
        }
    }

    /// Takes the driver's outcome for the current action: the attempt joins
    /// the trace, and the machine moves to the step the outcome calls for —
    /// the next configured slot after a successful binding, the close request
    /// only after a found window. A rejection skips every remaining binding
    /// and window step, but the switch store is still asked for before the
    /// run ends as failed.
    pub fn step(&mut self, event: Event)
        requires
            inv(old(self)@),
            accepts(old(self)@, event),
        ensures
            final(self)@ == stepped(old(self)@, event),
            inv(final(self)@),
    {
        let ghost pre = self@;
        self.performed = Ghost(self.performed@.push(current_action(pre)));
        let phase = match (self.phase, event) {
            (Phase::ClearAll, Event::Completed) => scan_from_quick_ask(
                &self.quick_ask,
                &self.search,
                &self.chat,
            ),
            (Phase::ClearAll, Event::Failed) => Phase::StoreFlagAfterFailure,
            (Phase::RegisterQuickAsk, Event::Completed) => scan_from_search(
                &self.search,
                &self.chat,
            ),
            (Phase::RegisterQuickAsk, Event::Failed) => Phase::StoreFlagAfterFailure,
            (Phase::RegisterSearch, Event::Completed) => scan_from_chat(&self.chat),
            (Phase::RegisterSearch, Event::Failed) => Phase::StoreFlagAfterFailure,
            (Phase::RegisterChat, Event::Completed) => Phase::StoreFlag,
            (Phase::RegisterChat, Event::Failed) => Phase::StoreFlagAfterFailure,
            (Phase::StoreFlag, Event::Completed) => if self.enable_select {
                Phase::Done
            } else {
                Phase::LookupWindow
            },
            (Phase::LookupWindow, Event::WindowFound) => Phase::CloseWindow,
            (Phase::LookupWindow, Event::WindowNotFound) => Phase::Done,
            (Phase::CloseWindow, Event::Completed) => Phase::Done,
            (Phase::StoreFlagAfterFailure, Event::Completed) => Phase::Failed,
            (_, _) => self.phase,
        };
        self.phase = phase;
        proof {
            crate::laws::lemma_step_preserves_inv(pre, event);
        }
    }

    /// Where the run stands.
    pub fn phase(&self) -> (phase: Phase)
        ensures
            phase == self@.phase,
    {
        self.phase
    }

    /// Whether the run has ended, in success or in failure.
    pub fn is_finished(&self) -> (finished: bool)
        ensures
            finished == run_finished(self@),
    {
        match self.phase {
            Phase::Done => true,
            Phase::Failed => true,
            _ => false,
        }
    }

    /// Whether the run ended with every attempt issued.
    pub fn succeeded(&self) -> (succeeded: bool)
        ensures
            succeeded == (self@.phase is Done),
    {
        match self.phase {
            Phase::Done => true,
            _ => false,
        }
    }

    /// Whether the run stopped at a rejected framework call.
    pub fn failed(&self) -> (failed: bool)
        ensures
            failed == (self@.phase is Failed),
    {
        match self.phase {
            Phase::Failed => true,
            _ => false,
        }
    }

    /// The selection switch this run stores.
    pub fn select_enabled(&self) -> (enabled: bool)
        ensures
            enabled == self@.enable_select,
    {
        self.enable_select
    }
}

} // verus!
