//! What holds of every run of the registration machine: the invariant is kept
//! by every step, the trace never strays from the plan, and the behaviours
//! the design promises — nothing registered from an all-empty configuration,
//! one binding per configured slot in a fixed order, a failure that cuts the
//! run short, a close request only for a found window — are proved here.

use vstd::prelude::*;

use crate::registrar::{
    accepts, clear_part, current_action, flag_index, inv, pending_actions, planned_actions,
    regs_from_quick_ask, run_finished, slot_configured, slot_rank, stepped, tail_part, Action,
    Event, Model, Phase, Slot,
};

verus! {

/// In every reachable state, the trace is pointwise a prefix of the plan,
/// except for one final extra action: the close request a completed run may
/// carry, or the switch store a failed run always carries.
pub proof fn lemma_trace_follows_plan(m: Model)
    requires
        inv(m),
    ensures
        m.performed.len() <= planned_actions(m).len() + 1,
        forall|i: int|
            0 <= i < m.performed.len() && i < planned_actions(m).len() && !(m.phase is Failed && i
                == m.performed.len() - 1) ==> m.performed[i] == planned_actions(m)[i],
        forall|i: int|
            planned_actions(m).len() <= i < m.performed.len() && !(m.phase is Failed)
                ==> m.performed[i] == Action::CloseSelectWindow,
        m.performed.len() > planned_actions(m).len() && !(m.phase is Failed) ==> m.phase is Done,
        m.phase is Failed ==> 2 <= m.performed.len() && m.performed.last()
            == (Action::StoreSelectFlag { enabled: m.enable_select }),
{
    match m.phase {
        Phase::ClearAll | Phase::RegisterQuickAsk | Phase::RegisterSearch | Phase::RegisterChat
        | Phase::StoreFlag | Phase::LookupWindow => {
            assert(m.performed.len() + pending_actions(m).len() == planned_actions(m).len());
            assert(forall|i: int|
                0 <= i < m.performed.len() ==> m.performed[i] == (m.performed + pending_actions(
                    m,
                ))[i]);
        },
        Phase::Failed => {
            assert(forall|i: int|
                0 <= i < m.performed.len() - 1 ==> m.performed[i] == m.performed.drop_last()[i]);
        },
        Phase::CloseWindow | Phase::StoreFlagAfterFailure | Phase::Done => {
        },
    }
}

/// What stands where in the plan: one optional clearing step first, then one
/// binding per configured slot in the order quick-ask, search, chat, then the
/// switch store, and — only with the feature off — the window lookup last.
/// No close request is ever planned.
pub proof fn lemma_plan_content(m: Model)
    ensures
        planned_actions(m).len() == flag_index(m) + 1 + (if !m.enable_select {
            1int
        } else {
            0
        }),
        0 <= clear_part(m).len() <= flag_index(m),
        planned_actions(m)[flag_index(m)] == (Action::StoreSelectFlag {
            enabled: m.enable_select,
        }),
        forall|i: int|
            0 <= i < planned_actions(m).len() && (#[trigger] planned_actions(m)[i])
                is StoreSelectFlag ==> i == flag_index(m),
        forall|i: int|
            0 <= i < planned_actions(m).len() ==> !((#[trigger] planned_actions(m)[i])
                is CloseSelectWindow),
        forall|i: int|
            0 <= i < planned_actions(m).len() && (#[trigger] planned_actions(m)[i])
                is LookupSelectWindow ==> i == flag_index(m) + 1 && !m.enable_select,
        !m.enable_select ==> planned_actions(m)[flag_index(m) + 1]
            == Action::LookupSelectWindow,
        forall|i: int|
            0 <= i < planned_actions(m).len() && (#[trigger] planned_actions(m)[i])
                is UnregisterAll ==> i == 0 && m.clears_on_start,
        m.clears_on_start ==> planned_actions(m)[0] == Action::UnregisterAll,
        forall|i: int|
            0 <= i < planned_actions(m).len() && (#[trigger] planned_actions(m)[i]) is Register
                ==> clear_part(m).len() <= i < flag_index(m) && slot_configured(
                m,
                planned_actions(m)[i]->slot,
            ),
        forall|slot: Slot| #[trigger]
            slot_configured(m, slot) ==> planned_actions(m).contains(Action::Register { slot }),
        forall|i: int, j: int|
            0 <= i < j < planned_actions(m).len() && (#[trigger] planned_actions(m)[i]) is Register
                && (#[trigger] planned_actions(m)[j]) is Register ==> slot_rank(
                planned_actions(m)[i]->slot,
            ) < slot_rank(planned_actions(m)[j]->slot),
{
    let c = clear_part(m);
    let r = regs_from_quick_ask(m);
    let t = tail_part(m);
    let p = planned_actions(m);
    let la: int = if m.quick_ask.len() > 0 {
        1
    } else {
        0
    };
    let lb: int = if m.search.len() > 0 {
        1
    } else {
        0
    };
    let lc: int = if m.chat.len() > 0 {
        1
    } else {
        0
    };
    assert(r.len() == la + lb + lc);
    assert(forall|i: int|
        0 <= i < la ==> #[trigger] r[i] == (Action::Register { slot: Slot::QuickAsk }));
    assert(forall|i: int|
        la <= i < la + lb ==> #[trigger] r[i] == (Action::Register { slot: Slot::Search }));
    assert(forall|i: int|
        la + lb <= i < la + lb + lc ==> #[trigger] r[i] == (Action::Register { slot: Slot::Chat }));
    assert(forall|i: int| 0 <= i < c.len() ==> #[trigger] c[i] == Action::UnregisterAll);
    assert(t[0] == (Action::StoreSelectFlag { enabled: m.enable_select }));
    assert(t.len() == 1 + (if !m.enable_select {
        1int
    } else {
        0
    }));
    assert(forall|i: int|
        0 <= i < p.len() ==> #[trigger] p[i] == (if i < c.len() {
            c[i]
        } else if i < c.len() + r.len() {
            r[i - c.len()]
        } else {
            t[i - c.len() - r.len()]
        }));
    if m.quick_ask.len() > 0 {
        assert(p[c.len() as int] == (Action::Register { slot: Slot::QuickAsk }));
        assert(p.contains(Action::Register { slot: Slot::QuickAsk }));
    }
    if m.search.len() > 0 {
        assert(p[c.len() + la] == (Action::Register { slot: Slot::Search }));
        assert(p.contains(Action::Register { slot: Slot::Search }));
    }
    if m.chat.len() > 0 {
        assert(p[c.len() + la + lb] == (Action::Register { slot: Slot::Chat }));
        assert(p.contains(Action::Register { slot: Slot::Chat }));
    }
    assert(forall|slot: Slot| #[trigger]
        slot_configured(m, slot) ==> p.contains(Action::Register { slot })) by {
        assert forall|slot: Slot| #[trigger]
            slot_configured(m, slot) implies p.contains(Action::Register { slot }) by {
            match slot {
                Slot::QuickAsk => {},
                Slot::Search => {},
                Slot::Chat => {},
            }
        }
    }
}

/// An all-empty, all-disabled configuration binds nothing: no run of it ever
/// asks for a registration, a finished run has stored the disabled switch,
/// and a close request comes only straight after a lookup that found the
/// window.
pub proof fn lemma_all_disabled_registers_nothing(m: Model)
    requires
        inv(m),
        m.quick_ask.len() == 0,
        m.search.len() == 0,
        m.chat.len() == 0,
        !m.enable_select,
    ensures
        forall|i: int| 0 <= i < m.performed.len() ==> !((#[trigger] m.performed[i]) is Register),
        run_finished(m) ==> m.performed.contains(Action::StoreSelectFlag { enabled: false }),
        forall|i: int|
            0 <= i < m.performed.len() && (#[trigger] m.performed[i]) is CloseSelectWindow ==> i > 0
                && m.performed[i - 1] is LookupSelectWindow,
{
    lemma_trace_follows_plan(m);
    lemma_plan_content(m);
    if m.phase is Done {
        assert(m.performed[flag_index(m)] == (Action::StoreSelectFlag { enabled: false }));
        assert(m.performed.contains(Action::StoreSelectFlag { enabled: false }));
    }
    if m.phase is Failed {
        assert(m.performed[m.performed.len() - 1] == (Action::StoreSelectFlag {
            enabled: false,
        }));
        assert(m.performed.contains(Action::StoreSelectFlag { enabled: false }));
    }
}

/// A configuration with exactly one configured slot plans exactly one
/// binding, for that slot, and a run never asks for any other binding; a
/// completed run has asked for it.
pub proof fn lemma_single_slot_registers_once(m: Model, slot: Slot)
    requires
        inv(m),
        slot_configured(m, slot),
        forall|other: Slot| other != slot ==> !(#[trigger] slot_configured(m, other)),
    ensures
        planned_actions(m).contains(Action::Register { slot }),
        forall|i: int|
            0 <= i < planned_actions(m).len() && (#[trigger] planned_actions(m)[i]) is Register
                ==> planned_actions(m)[i] == (Action::Register { slot }),
        forall|i: int, j: int|
            0 <= i < j < planned_actions(m).len() && (#[trigger] planned_actions(m)[i]) is Register
                && (#[trigger] planned_actions(m)[j]) is Register ==> false,
        forall|i: int|
            0 <= i < m.performed.len() && (#[trigger] m.performed[i]) is Register ==> m.performed[i]
                == (Action::Register { slot }),
        forall|i: int, j: int|
            0 <= i < j < m.performed.len() && (#[trigger] m.performed[i]) is Register && (
            #[trigger] m.performed[j]) is Register ==> false,
        m.phase is Done ==> m.performed.contains(Action::Register { slot }),
{
    lemma_trace_follows_plan(m);
    lemma_plan_content(m);
    assert forall|i: int|
        0 <= i < planned_actions(m).len() && (#[trigger] planned_actions(m)[i])
            is Register implies planned_actions(m)[i] == (Action::Register { slot }) by {
        assert(slot_configured(m, planned_actions(m)[i]->slot));
    }
    if m.phase is Done {
        let at = choose|i: int|
            0 <= i < planned_actions(m).len() && planned_actions(m)[i] == (Action::Register {
                slot,
            });
        assert(m.performed[at] == (Action::Register { slot }));
        assert(m.performed.contains(Action::Register { slot }));
    }
}

/// A rejected clearing step ends the run before any binding is attempted: the
/// driver is asked for the switch store and for nothing else after it.
pub proof fn lemma_clear_failure_registers_nothing(m: Model)
    requires
        inv(m),
        m.phase is ClearAll,
    ensures
        ({
            let after = stepped(m, Event::Failed);
            let ended = stepped(after, Event::Completed);
            &&& after.phase is StoreFlagAfterFailure
            &&& current_action(after) == (Action::StoreSelectFlag { enabled: m.enable_select })
            &&& after.performed =~= seq![Action::UnregisterAll]
            &&& ended.phase is Failed
            &&& run_finished(ended)
            &&& ended.performed =~= seq![
                Action::UnregisterAll,
                Action::StoreSelectFlag { enabled: m.enable_select },
            ]
            &&& forall|i: int|
                0 <= i < ended.performed.len() ==> !((#[trigger] ended.performed[i]) is Register)
        }),
{
    assert(pending_actions(m) =~= planned_actions(m));
    assert(m.performed =~= Seq::<Action>::empty());
    let after = stepped(m, Event::Failed);
    assert(after.performed =~= seq![Action::UnregisterAll]);
    assert(stepped(after, Event::Completed).performed =~= seq![
        Action::UnregisterAll,
        Action::StoreSelectFlag { enabled: m.enable_select },
    ]);
}

/// A rejected binding ends the run at once: the failed slot's attempt is the
/// last framework call before the switch store, no later slot is tried, no
/// window work happens, and the bindings attempted up to it came in the fixed
/// order quick-ask, search, chat.
pub proof fn lemma_register_failure_short_circuits(m: Model)
    requires
        inv(m),
        m.phase is RegisterQuickAsk || m.phase is RegisterSearch || m.phase is RegisterChat,
    ensures
        ({
            let after = stepped(m, Event::Failed);
            let ended = stepped(after, Event::Completed);
            &&& after.phase is StoreFlagAfterFailure
            &&& current_action(after) == (Action::StoreSelectFlag { enabled: m.enable_select })
            &&& current_action(m) is Register
            &&& after.performed.len() > 0
            &&& after.performed.last() == current_action(m)
            &&& ended.phase is Failed
            &&& run_finished(ended)
            &&& ended.performed.last() == (Action::StoreSelectFlag { enabled: m.enable_select })
            &&& forall|i: int|
                0 <= i < ended.performed.len() - 1 ==> !((#[trigger] ended.performed[i])
                    is StoreSelectFlag)
            &&& forall|i: int|
                0 <= i < ended.performed.len() ==> !((#[trigger] ended.performed[i])
                    is LookupSelectWindow) && !(ended.performed[i] is CloseSelectWindow)
            &&& forall|i: int|
                0 <= i < ended.performed.len() && (#[trigger] ended.performed[i]) is Register
                    ==> slot_rank(ended.performed[i]->slot) <= slot_rank(current_action(m)->slot)
            &&& forall|i: int, j: int|
                0 <= i < j < ended.performed.len() && (#[trigger] ended.performed[i]) is Register
                    && (#[trigger] ended.performed[j]) is Register ==> slot_rank(
                    ended.performed[i]->slot,
                ) < slot_rank(ended.performed[j]->slot)
        }),
{
    let after = stepped(m, Event::Failed);
    let ended = stepped(after, Event::Completed);
    lemma_plan_content(m);
    lemma_step_preserves_inv(m, Event::Failed);
    lemma_step_preserves_inv(after, Event::Completed);
    assert(planned_actions(m)[m.performed.len() as int] == current_action(m));
    assert(after.performed.len() <= flag_index(m));
    assert(ended.performed.drop_last() =~= after.performed);
    assert(forall|i: int|
        0 <= i < ended.performed.len() - 1 ==> ended.performed[i] == after.performed[i]);
    assert(forall|i: int|
        0 <= i < after.performed.len() ==> after.performed[i] == planned_actions(m)[i]);
}

/// With the selection feature off, the close decision follows the lookup
/// exactly: a found window gets exactly one close request and the run then
/// completes; an absent window gets none and the run completes at once,
/// without an error.
pub proof fn lemma_select_window_close(m: Model)
    requires
        inv(m),
        m.phase is LookupWindow,
    ensures
        ({
            let found_then_closed = stepped(stepped(m, Event::WindowFound), Event::Completed);
            let absent = stepped(m, Event::WindowNotFound);
            &&& stepped(m, Event::WindowFound).phase is CloseWindow
            &&& current_action(stepped(m, Event::WindowFound)) == Action::CloseSelectWindow
            &&& found_then_closed.phase is Done
            &&& found_then_closed.performed.len() > 0
            &&& found_then_closed.performed.last() == Action::CloseSelectWindow
            &&& forall|i: int|
                0 <= i < found_then_closed.performed.len() - 1 ==> !((
                #[trigger] found_then_closed.performed[i]) is CloseSelectWindow)
            &&& absent.phase is Done
            &&& forall|i: int|
                0 <= i < absent.performed.len() ==> !((#[trigger] absent.performed[i])
                    is CloseSelectWindow)
        }),
{
    lemma_plan_content(m);
    let found = stepped(m, Event::WindowFound);
    lemma_step_preserves_inv(m, Event::WindowFound);
    assert(found.performed =~= planned_actions(m));
    assert(stepped(found, Event::Completed).performed =~= planned_actions(m).push(
        Action::CloseSelectWindow,
    ));
    assert(stepped(m, Event::WindowNotFound).performed =~= planned_actions(m));
}

/// Every switch store a run asks for carries exactly the configured value.
pub proof fn lemma_flag_store_matches_config(m: Model)
    requires
        inv(m),
    ensures
        forall|i: int|
            0 <= i < m.performed.len() && (#[trigger] m.performed[i]) is StoreSelectFlag
                ==> m.performed[i] == (Action::StoreSelectFlag { enabled: m.enable_select }),
{
    lemma_trace_follows_plan(m);
    lemma_plan_content(m);
}

/// Every finished run — failed ones included — has stored the switch, with
/// exactly the configured value.
pub proof fn lemma_flag_stored_on_finish(m: Model)
    requires
        inv(m),
        run_finished(m),
    ensures
        m.performed.contains(Action::StoreSelectFlag { enabled: m.enable_select }),
        forall|i: int|
            0 <= i < m.performed.len() && (#[trigger] m.performed[i]) is StoreSelectFlag
                ==> m.performed[i] == (Action::StoreSelectFlag { enabled: m.enable_select }),
{
    lemma_trace_follows_plan(m);
    lemma_plan_content(m);
    if m.phase is Done {
        assert(m.performed[flag_index(m)] == (Action::StoreSelectFlag {
            enabled: m.enable_select,
        }));
    } else {
        assert(m.performed[m.performed.len() - 1] == (Action::StoreSelectFlag {
            enabled: m.enable_select,
        }));
    }
    assert(m.performed.contains(Action::StoreSelectFlag { enabled: m.enable_select }));
}

/// With the selection feature enabled, no run ever touches the selection
/// window: neither a lookup nor a close request is asked for.
pub proof fn lemma_enabled_selection_no_window_work(m: Model)
    requires
        inv(m),
        m.enable_select,
    ensures
        forall|i: int|
            0 <= i < m.performed.len() ==> !((#[trigger] m.performed[i]) is LookupSelectWindow)
                && !(m.performed[i] is CloseSelectWindow),
{
    lemma_trace_follows_plan(m);
    lemma_plan_content(m);
}

/// Every accepted outcome keeps the machine's invariant.
#[verifier::rlimit(50)]
pub proof fn lemma_step_preserves_inv(m: Model, event: Event)
    requires
        inv(m),
        accepts(m, event),
    ensures
        inv(stepped(m, event)),
{
    let m2 = stepped(m, event);
    match m.phase {
        Phase::ClearAll => {
            assert(pending_actions(m) =~= planned_actions(m));
            assert(m.performed =~= Seq::<Action>::empty());
            if event is Completed {
                assert(m2.performed + pending_actions(m2) =~= planned_actions(m2));
            } else {
                assert(m2.performed =~= planned_actions(m2).take(m2.performed.len() as int));
            }
        },
        Phase::RegisterQuickAsk | Phase::RegisterSearch | Phase::RegisterChat => {
            if event is Completed {
                assert(m2.performed + pending_actions(m2) =~= planned_actions(m2));
            } else {
                assert(m2.performed =~= planned_actions(m2).take(m2.performed.len() as int));
            }
        },
        Phase::StoreFlag => {
            if m.enable_select {
                assert(m2.performed =~= planned_actions(m2));
            } else {
                assert(m2.performed + pending_actions(m2) =~= planned_actions(m2));
            }
        },
        Phase::LookupWindow => {
            assert(m2.performed =~= planned_actions(m2));
        },
        Phase::CloseWindow => {
            assert(m2.performed =~= planned_actions(m2).push(Action::CloseSelectWindow));
        },
        Phase::StoreFlagAfterFailure => {
            assert(m2.performed.drop_last() =~= m.performed);
            assert(m2.performed.drop_last() =~= planned_actions(m2).take(
                m2.performed.len() - 1,
            ));
            assert(m2.performed[m2.performed.len() - 2] == m.performed.last());
        },
        Phase::Done | Phase::Failed => {
        },
    }
}

} // verus!
