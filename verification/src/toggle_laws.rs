//! What handling a "toggled" signal does as a whole, and the laws it keeps.
//!
//! `toggled` states, directly, the effect of one signal: the state that it
//! leaves and the outside actions that it performs, in order, given what the
//! outside world answers.  `handle_toggle` runs the state machine of
//! `shell_view` against the same answers; the first law says that the two
//! agree.  The other laws are stated over `toggled`, `toggles` (a series of
//! signals, with `state_before` and `signal_actions` naming the state and the
//! actions of each signal of a series) and the machine's single steps.
use vstd::prelude::*;
use crate::gtype::{gboolean_holds, GBoolean};
use crate::shell_view::{
    action_spec, answers, begin_spec, detected, model_wf, step_spec, initial_model,
    ui_definition_spec, ShellViewModel, SupportedView, ToggleAction, ToggleEvent, ToggleStep,
    CALENDAR_UI_DEF, MAIL_UI_DEF,
};

verus! {

/// What the outside world answers while one signal is handled: whether the
/// view is active, whether it is a mail view, whether it is a calendar view,
/// and the merge id that merging UI returns.
pub struct ToggleReplies {
    pub active: GBoolean,
    pub is_mail: GBoolean,
    pub is_calendar: GBoolean,
    pub merge_id: u32,
}

/// The answer that the world `r` gives to an action.
pub open spec fn reply(r: ToggleReplies, a: ToggleAction) -> ToggleEvent {
    match a {
        ToggleAction::QueryActive => ToggleEvent::Active(r.active),
        ToggleAction::CheckIsMailView => ToggleEvent::IsA(r.is_mail),
        ToggleAction::CheckIsCalendarView => ToggleEvent::IsA(r.is_calendar),
        ToggleAction::MergeUi(_) => ToggleEvent::Merged(r.merge_id),
        _ => ToggleEvent::Performed,
    }
}

/// Runs the machine from `step` for at most `fuel` transitions, answering
/// each action as `r` does; gives the final state and the actions asked for.
pub open spec fn drive(m: ShellViewModel, step: ToggleStep, r: ToggleReplies, fuel: nat) -> (
    ShellViewModel,
    Seq<ToggleAction>,
)
    decreases fuel,
{
    let a = action_spec(step);
    if fuel == 0 || step is Done {
        (m, seq![a])
    } else {
        let (m1, s1) = step_spec(m, step, reply(r, a));
        let (m2, acts) = drive(m1, s1, r, (fuel - 1) as nat);
        (m2, seq![a] + acts)
    }
}

/// The machine's handling of one signal, from `begin_toggle` to `Done`.
pub open spec fn handle_toggle(m: ShellViewModel, r: ToggleReplies) -> (ShellViewModel, Seq<ToggleAction>) {
    let (m0, s0) = begin_spec(m);
    drive(m0, s0, r, 8)
}

/// Removing the UI merged before, where there is one.
pub open spec fn removal(m: ShellViewModel) -> Seq<ToggleAction> {
    if m.current_ui_id != 0 {
        seq![ToggleAction::RemoveUi(m.current_ui_id)]
    } else {
        seq![]
    }
}

/// On a first activation: the kind of the view, and the questions asked to
/// learn it.  A mail view is recognised first; the calendar is asked about
/// only where the view is not a mail view.
pub open spec fn detection(r: ToggleReplies) -> (Option<SupportedView>, Seq<ToggleAction>) {
    if gboolean_holds(r.is_mail) {
        (Some(SupportedView::Mail), seq![ToggleAction::CheckIsMailView])
    } else if gboolean_holds(r.is_calendar) {
        (
            Some(SupportedView::Calendar),
            seq![ToggleAction::CheckIsMailView, ToggleAction::CheckIsCalendarView],
        )
    } else {
        (None, seq![ToggleAction::CheckIsMailView, ToggleAction::CheckIsCalendarView])
    }
}

/// The effect of one "toggled" signal on state `m` in world `r`: the previous
/// UI is removed; an inactive view is left without UI (the UI manager is
/// updated only where something was removed); an active view is, on its first
/// activation, classified and given its actions, and then gets its UI merged
/// where it has a UI definition, after which the UI manager is updated.
pub open spec fn toggled(m: ShellViewModel, r: ToggleReplies) -> (ShellViewModel, Seq<ToggleAction>) {
    let cleared = ShellViewModel { current_ui_id: 0, ..m };
    if !gboolean_holds(r.active) {
        let update = if m.current_ui_id != 0 {
            seq![ToggleAction::EnsureUpdate]
        } else {
            seq![]
        };
        (cleared, removal(m) + seq![ToggleAction::QueryActive] + update + seq![ToggleAction::Finish])
    } else {
        let (view, checks) = detection(r);
        let m1 = if m.actions_initialized {
            cleared
        } else {
            detected(cleared, view)
        };
        let setup = if m.actions_initialized {
            Seq::<ToggleAction>::empty()
        } else {
            checks + match view {
                Some(v) => seq![ToggleAction::RegisterActions(v)],
                None => Seq::<ToggleAction>::empty(),
            }
        };
        let (m2, merge) = match m1.view_ui_def {
            Some(d) => (
                ShellViewModel { current_ui_id: r.merge_id, ..m1 },
                seq![ToggleAction::MergeUi(d)],
            ),
            None => (m1, Seq::<ToggleAction>::empty()),
        };
        (
            m2,
            removal(m) + seq![ToggleAction::QueryActive] + setup + merge + seq![
                ToggleAction::EnsureUpdate,
                ToggleAction::Finish,
            ],
        )
    }
}

/// The effect of a series of signals, one world per signal.
pub open spec fn toggles(m: ShellViewModel, rs: Seq<ToggleReplies>) -> (ShellViewModel, Seq<ToggleAction>)
    decreases rs.len(),
{
    if rs.len() == 0 {
        (m, Seq::<ToggleAction>::empty())
    } else {
        let (m1, a1) = toggled(m, rs[0]);
        let (m2, a2) = toggles(m1, rs.drop_first());
        (m2, a1 + a2)
    }
}

/// How many of the actions satisfy `p`.
pub open spec fn occurrences(acts: Seq<ToggleAction>, p: spec_fn(ToggleAction) -> bool) -> nat
    decreases acts.len(),
{
    if acts.len() == 0 {
        0
    } else {
        one_if(p(acts[0])) + occurrences(acts.drop_first(), p)
    }
}

/// 1 where `b` holds, else 0.
pub open spec fn one_if(b: bool) -> nat {
    if b {
        1
    } else {
        0
    }
}

/// Registering actions.
pub open spec fn is_registration() -> spec_fn(ToggleAction) -> bool {
    |a: ToggleAction| a is RegisterActions
}

/// Removing merged UI.
pub open spec fn is_removal() -> spec_fn(ToggleAction) -> bool {
    |a: ToggleAction| a is RemoveUi
}

/// Merging UI.
pub open spec fn is_merge() -> spec_fn(ToggleAction) -> bool {
    |a: ToggleAction| a is MergeUi
}

/// Every classification of the view begins by asking whether it is a mail view.
pub open spec fn is_classification() -> spec_fn(ToggleAction) -> bool {
    |a: ToggleAction| a is CheckIsMailView
}

/// How many of the actions register actions.
pub open spec fn registrations(acts: Seq<ToggleAction>) -> nat {
    occurrences(acts, is_registration())
}

/// How many of the actions remove merged UI.
pub open spec fn removals(acts: Seq<ToggleAction>) -> nat {
    occurrences(acts, is_removal())
}

/// How many of the actions merge UI.
pub open spec fn merges(acts: Seq<ToggleAction>) -> nat {
    occurrences(acts, is_merge())
}

/// How many times the actions start classifying the view.
pub open spec fn classifications(acts: Seq<ToggleAction>) -> nat {
    occurrences(acts, is_classification())
}

/// Whether a signal merges UI: the view is active and, classified now or
/// before, has a UI definition.
pub open spec fn merges_ui(m: ShellViewModel, r: ToggleReplies) -> bool {
    gboolean_holds(r.active) && toggled(m, r).0.view_ui_def is Some
}

/// A rank that every answered action lowers, so that the handling ends.
pub open spec fn rank(step: ToggleStep) -> nat {
    match step {
        ToggleStep::RemovingUi(_) => 7,
        ToggleStep::QueryingActive(_) => 6,
        ToggleStep::CheckingMail => 5,
        ToggleStep::CheckingCalendar => 4,
        ToggleStep::RegisteringActions(_) => 3,
        ToggleStep::MergingUi(_) => 2,
        ToggleStep::Updating => 1,
        ToggleStep::Done => 0,
    }
}

/// A step merges only one of the two UI definitions.
pub open spec fn step_wf(step: ToggleStep) -> bool {
    step matches ToggleStep::MergingUi(d) ==> d == MAIL_UI_DEF || d == CALENDAR_UI_DEF
}

proof fn lemma_occurrences_concat(a: Seq<ToggleAction>, b: Seq<ToggleAction>, p: spec_fn(ToggleAction) -> bool)
    ensures
        occurrences(a + b, p) == occurrences(a, p) + occurrences(b, p),
    decreases a.len(),
{
    if a.len() == 0 {
        assert(a + b =~= b);
    } else {
        assert((a + b).drop_first() =~= a.drop_first() + b);
        lemma_occurrences_concat(a.drop_first(), b, p);
    }
}

proof fn lemma_occurrences_of_one(a: ToggleAction, p: spec_fn(ToggleAction) -> bool)
    ensures
        occurrences(seq![a], p) == one_if(p(a)),
{
    assert(seq![a].drop_first() =~= Seq::<ToggleAction>::empty());
    reveal_with_fuel(occurrences, 2);
}

proof fn lemma_no_occurrence(acts: Seq<ToggleAction>, p: spec_fn(ToggleAction) -> bool, x: ToggleAction)
    requires
        occurrences(acts, p) == 0,
        p(x),
    ensures
        !acts.contains(x),
    decreases acts.len(),
{
    if acts.len() > 0 {
        lemma_no_occurrence(acts.drop_first(), p, x);
        if acts.contains(x) {
            let i = choose|i: int| 0 <= i < acts.len() && acts[i] == x;
            if i > 0 {
                assert(acts.drop_first()[i - 1] == x);
            }
        }
    }
}

proof fn lemma_contains_one(a: ToggleAction, x: ToggleAction)
    ensures
        seq![a].contains(x) <==> a == x,
{
    if a == x {
        assert(seq![a][0] == x);
    }
}

proof fn lemma_contains_two(a: ToggleAction, b: ToggleAction, x: ToggleAction)
    ensures
        seq![a, b].contains(x) <==> (a == x || b == x),
{
    assert(seq![a, b] =~= seq![a] + seq![b]);
    lemma_contains_one(a, x);
    lemma_contains_one(b, x);
    broadcast use vstd::seq_lib::lemma_seq_concat_contains_all_elements;
}

/// How many actions of one signal satisfy `p`, counted piece by piece.
proof fn lemma_toggled_occurrences(m: ShellViewModel, r: ToggleReplies, p: spec_fn(ToggleAction) -> bool)
    ensures
        occurrences(toggled(m, r).1, p) == one_if(
            m.current_ui_id != 0 && p(ToggleAction::RemoveUi(m.current_ui_id)),
        ) + one_if(p(ToggleAction::QueryActive)) + if !gboolean_holds(r.active) {
            one_if(m.current_ui_id != 0 && p(ToggleAction::EnsureUpdate)) + one_if(
                p(ToggleAction::Finish),
            )
        } else {
            (if m.actions_initialized {
                0nat
            } else {
                one_if(p(ToggleAction::CheckIsMailView)) + one_if(
                    !gboolean_holds(r.is_mail) && p(ToggleAction::CheckIsCalendarView),
                ) + match detection(r).0 {
                    Some(v) => one_if(p(ToggleAction::RegisterActions(v))),
                    None => 0nat,
                }
            }) + match toggled(m, r).0.view_ui_def {
                Some(d) => one_if(p(ToggleAction::MergeUi(d))),
                None => 0nat,
            } + one_if(p(ToggleAction::EnsureUpdate)) + one_if(p(ToggleAction::Finish))
        },
{
    let acts = toggled(m, r).1;
    let rem = removal(m);
    let none = Seq::<ToggleAction>::empty();
    assert(occurrences(none, p) == 0);
    lemma_occurrences_of_one(ToggleAction::QueryActive, p);
    lemma_occurrences_of_one(ToggleAction::Finish, p);
    lemma_occurrences_of_one(ToggleAction::EnsureUpdate, p);
    lemma_occurrences_of_one(ToggleAction::CheckIsMailView, p);
    lemma_occurrences_of_one(ToggleAction::CheckIsCalendarView, p);
    lemma_occurrences_of_one(ToggleAction::RemoveUi(m.current_ui_id), p);
    let pre = rem + seq![ToggleAction::QueryActive];
    lemma_occurrences_concat(rem, seq![ToggleAction::QueryActive], p);
    if !gboolean_holds(r.active) {
        let update = if m.current_ui_id != 0 {
            seq![ToggleAction::EnsureUpdate]
        } else {
            seq![]
        };
        lemma_occurrences_concat(pre, update, p);
        lemma_occurrences_concat(pre + update, seq![ToggleAction::Finish], p);
    } else {
        let (view, checks) = detection(r);
        assert(seq![ToggleAction::CheckIsMailView, ToggleAction::CheckIsCalendarView]
            =~= seq![ToggleAction::CheckIsMailView] + seq![ToggleAction::CheckIsCalendarView]);
        lemma_occurrences_concat(
            seq![ToggleAction::CheckIsMailView],
            seq![ToggleAction::CheckIsCalendarView],
            p,
        );
        let reg = match view {
            Some(v) => seq![ToggleAction::RegisterActions(v)],
            None => none,
        };
        match view {
            Some(v) => lemma_occurrences_of_one(ToggleAction::RegisterActions(v), p),
            None => {},
        }
        lemma_occurrences_concat(checks, reg, p);
        let setup = if m.actions_initialized {
            none
        } else {
            checks + reg
        };
        let m1 = toggled(m, r).0;
        let merge = match m1.view_ui_def {
            Some(d) => seq![ToggleAction::MergeUi(d)],
            None => none,
        };
        match m1.view_ui_def {
            Some(d) => lemma_occurrences_of_one(ToggleAction::MergeUi(d), p),
            None => {},
        }
        let tail = seq![ToggleAction::EnsureUpdate, ToggleAction::Finish];
        assert(tail =~= seq![ToggleAction::EnsureUpdate] + seq![ToggleAction::Finish]);
        lemma_occurrences_concat(seq![ToggleAction::EnsureUpdate], seq![ToggleAction::Finish], p);
        lemma_occurrences_concat(pre, setup, p);
        lemma_occurrences_concat(pre + setup, merge, p);
        lemma_occurrences_concat(pre + setup + merge, tail, p);
        assert(acts =~= pre + setup + merge + tail);
    }
}

/// What one signal does, counted: it removes UI exactly where some was merged
/// (as its first action), merges at most once, classifies the view and
/// registers actions only on the view's first activation, and leaves the
/// merge id of what it merged, or 0.
proof fn lemma_signal_counts(m: ShellViewModel, r: ToggleReplies)
    ensures
        registrations(toggled(m, r).1) == one_if(
            !m.actions_initialized && gboolean_holds(r.active) && detection(r).0 is Some,
        ),
        classifications(toggled(m, r).1) == one_if(
            !m.actions_initialized && gboolean_holds(r.active),
        ),
        removals(toggled(m, r).1) == one_if(m.current_ui_id != 0),
        merges(toggled(m, r).1) == one_if(merges_ui(m, r)),
        m.current_ui_id != 0 ==> toggled(m, r).1[0] == ToggleAction::RemoveUi(m.current_ui_id),
        toggled(m, r).0.current_ui_id == if merges_ui(m, r) {
            r.merge_id
        } else {
            0u32
        },
        toggled(m, r).0.actions_initialized == (m.actions_initialized || gboolean_holds(r.active)),
        m.actions_initialized || !gboolean_holds(r.active) ==> toggled(m, r).0.view_ui_def
            == m.view_ui_def,
{
    lemma_toggled_occurrences(m, r, is_registration());
    lemma_toggled_occurrences(m, r, is_classification());
    lemma_toggled_occurrences(m, r, is_removal());
    lemma_toggled_occurrences(m, r, is_merge());
}

/// The machine does what the signal handler does: run from `begin_toggle`
/// with the world's answers, it asks for the actions of `toggled`, in the same
/// order, and leaves the same state.
pub proof fn law_machine_handles_toggle(m: ShellViewModel, r: ToggleReplies)
    ensures
        handle_toggle(m, r) == toggled(m, r),
{
    reveal_with_fuel(drive, 9);
    let (ha, hb) = handle_toggle(m, r);
    let (ta, tb) = toggled(m, r);
    assert(ha == ta);
    assert(hb =~= tb);
}

/// Every answered action brings the handling closer to its end: the rank of
/// the step falls, so the handling of a signal takes at most seven answers.
pub proof fn law_answers_make_progress(m: ShellViewModel, step: ToggleStep, event: ToggleEvent)
    requires
        !(step is Done),
        answers(action_spec(step), event),
    ensures
        rank(step_spec(m, step, event).1) < rank(step),
{
}

/// A new instance is well formed, and beginning a handling and every step keep
/// it so: the state only ever holds one of the two UI definitions, none before
/// the first activation, and only those two are ever merged.
pub proof fn law_steps_keep_wf(m: ShellViewModel, step: ToggleStep, event: ToggleEvent)
    requires
        model_wf(m),
        step_wf(step),
    ensures
        model_wf(initial_model()),
        model_wf(begin_spec(m).0),
        step_wf(begin_spec(m).1),
        model_wf(step_spec(m, step, event).0),
        step_wf(step_spec(m, step, event).1),
{
}

/// Once the view has been activated it stays so: no step clears the flag that
/// keeps the actions from being registered again.
pub proof fn law_activation_is_kept(m: ShellViewModel, step: ToggleStep, event: ToggleEvent)
    requires
        m.actions_initialized,
    ensures
        begin_spec(m).0.actions_initialized,
        step_spec(m, step, event).0.actions_initialized,
{
}

/// A signal on a view that has been activated before neither asks for the
/// view's kind nor registers actions, and keeps the view's UI definition.
pub proof fn law_no_second_setup(m: ShellViewModel, r: ToggleReplies)
    requires
        m.actions_initialized,
    ensures
        toggled(m, r).0.actions_initialized,
        toggled(m, r).0.view_ui_def == m.view_ui_def,
        registrations(toggled(m, r).1) == 0,
        !toggled(m, r).1.contains(ToggleAction::CheckIsMailView),
        !toggled(m, r).1.contains(ToggleAction::CheckIsCalendarView),
{
    let asks_kind = |a: ToggleAction| a is CheckIsMailView || a is CheckIsCalendarView;
    lemma_signal_counts(m, r);
    lemma_toggled_occurrences(m, r, asks_kind);
    lemma_no_occurrence(toggled(m, r).1, asks_kind, ToggleAction::CheckIsMailView);
    lemma_no_occurrence(toggled(m, r).1, asks_kind, ToggleAction::CheckIsCalendarView);
}

/// Actions are registered at most once over the life of an instance: over any
/// series of signals, a view that has been activated registers none again, and
/// one that has not registers at most once.
pub proof fn law_actions_registered_at_most_once(m: ShellViewModel, rs: Seq<ToggleReplies>)
    ensures
        registrations(toggles(m, rs).1) <= if m.actions_initialized {
            0nat
        } else {
            1nat
        },
    decreases rs.len(),
{
    if rs.len() == 0 {
        assert(registrations(Seq::<ToggleAction>::empty()) == 0);
    } else {
        let (m1, a1) = toggled(m, rs[0]);
        lemma_signal_counts(m, rs[0]);
        law_actions_registered_at_most_once(m1, rs.drop_first());
        lemma_occurrences_concat(a1, toggles(m1, rs.drop_first()).1, is_registration());
    }
}

/// A view that goes inactive is left with no UI merged: the UI merged before,
/// if any, is removed first, nothing is merged, and the UI manager is updated
/// exactly where something was removed.  Such a signal neither classifies the
/// view nor registers actions.
pub proof fn law_inactive_view_has_no_ui(m: ShellViewModel, r: ToggleReplies)
    requires
        !gboolean_holds(r.active),
    ensures
        toggled(m, r).0.current_ui_id == 0,
        toggled(m, r).0.actions_initialized == m.actions_initialized,
        toggled(m, r).0.view_ui_def == m.view_ui_def,
        m.current_ui_id != 0 ==> toggled(m, r).1[0] == ToggleAction::RemoveUi(m.current_ui_id),
        forall|i: int| 0 <= i < toggled(m, r).1.len() ==> !(#[trigger] toggled(m, r).1[i] is MergeUi),
        toggled(m, r).1.contains(ToggleAction::EnsureUpdate) <==> m.current_ui_id != 0,
        classifications(toggled(m, r).1) == 0,
        registrations(toggled(m, r).1) == 0,
{
    lemma_signal_counts(m, r);
    broadcast use vstd::seq_lib::lemma_seq_concat_contains_all_elements;
    broadcast use vstd::seq_lib::lemma_seq_empty_contains_nothing;
    let rem = removal(m);
    let update = if m.current_ui_id != 0 {
        seq![ToggleAction::EnsureUpdate]
    } else {
        seq![]
    };
    let acts = toggled(m, r).1;
    assert forall|i: int| 0 <= i < acts.len() implies !(#[trigger] acts[i] is MergeUi) by {
        let x = acts[i];
        assert(acts.contains(x));
        lemma_contains_one(ToggleAction::RemoveUi(m.current_ui_id), x);
        lemma_contains_one(ToggleAction::QueryActive, x);
        lemma_contains_one(ToggleAction::EnsureUpdate, x);
        lemma_contains_one(ToggleAction::Finish, x);
    }
    let x = ToggleAction::EnsureUpdate;
    lemma_contains_one(ToggleAction::RemoveUi(m.current_ui_id), x);
    lemma_contains_one(ToggleAction::QueryActive, x);
    lemma_contains_one(ToggleAction::EnsureUpdate, x);
    lemma_contains_one(ToggleAction::Finish, x);
    assert(!rem.contains(x));
}

/// An active view ends up with its UI merged where it has a UI definition and
/// with none otherwise: the old UI is removed first, the state holds the merge
/// id of the new UI, and the UI manager is then updated.
pub proof fn law_active_view_gets_its_ui(m: ShellViewModel, r: ToggleReplies)
    requires
        gboolean_holds(r.active),
    ensures
        toggled(m, r).0.actions_initialized,
        m.current_ui_id != 0 ==> toggled(m, r).1[0] == ToggleAction::RemoveUi(m.current_ui_id),
        toggled(m, r).0.current_ui_id == match toggled(m, r).0.view_ui_def {
            Some(_) => r.merge_id,
            None => 0u32,
        },
        toggled(m, r).0.view_ui_def matches Some(d) ==> toggled(m, r).1.contains(
            ToggleAction::MergeUi(d),
        ),
        toggled(m, r).1.contains(ToggleAction::EnsureUpdate),
{
    broadcast use vstd::seq_lib::lemma_seq_concat_contains_all_elements;
    lemma_contains_two(ToggleAction::EnsureUpdate, ToggleAction::Finish, ToggleAction::EnsureUpdate);
    match toggled(m, r).0.view_ui_def {
        Some(d) => lemma_contains_one(ToggleAction::MergeUi(d), ToggleAction::MergeUi(d)),
        None => {},
    }
}

/// On a first activation a view that is a mail view is taken for one, whatever
/// the calendar check would say, which is then not asked: it gets the mail
/// actions and the mail UI.
pub proof fn law_mail_view_recognised_first(m: ShellViewModel, r: ToggleReplies)
    requires
        !m.actions_initialized,
        gboolean_holds(r.active),
        gboolean_holds(r.is_mail),
    ensures
        toggled(m, r).0.view_ui_def == Some(MAIL_UI_DEF),
        toggled(m, r).1.contains(ToggleAction::RegisterActions(SupportedView::Mail)),
        toggled(m, r).1.contains(ToggleAction::MergeUi(MAIL_UI_DEF)),
        !toggled(m, r).1.contains(ToggleAction::CheckIsCalendarView),
{
    broadcast use vstd::seq_lib::lemma_seq_concat_contains_all_elements;
    broadcast use vstd::seq_lib::lemma_seq_empty_contains_nothing;
    let x = ToggleAction::CheckIsCalendarView;
    lemma_contains_one(ToggleAction::RemoveUi(m.current_ui_id), x);
    lemma_contains_one(ToggleAction::QueryActive, x);
    lemma_contains_one(ToggleAction::CheckIsMailView, x);
    lemma_contains_one(ToggleAction::RegisterActions(SupportedView::Mail), x);
    lemma_contains_one(ToggleAction::MergeUi(MAIL_UI_DEF), x);
    lemma_contains_two(ToggleAction::EnsureUpdate, ToggleAction::Finish, x);
    assert(!removal(m).contains(x));
    lemma_contains_one(
        ToggleAction::RegisterActions(SupportedView::Mail),
        ToggleAction::RegisterActions(SupportedView::Mail),
    );
    lemma_contains_one(ToggleAction::MergeUi(MAIL_UI_DEF), ToggleAction::MergeUi(MAIL_UI_DEF));
}

/// On a first activation a view that is neither a mail nor a calendar view
/// (tasks, memos, contacts, ...) gets no actions and no UI, now or later.
pub proof fn law_unsupported_view_gets_nothing(m: ShellViewModel, r: ToggleReplies, rs: Seq<ToggleReplies>)
    requires
        !m.actions_initialized,
        model_wf(m),
        gboolean_holds(r.active),
        !gboolean_holds(r.is_mail),
        !gboolean_holds(r.is_calendar),
    ensures
        toggled(m, r).0.actions_initialized,
        toggled(m, r).0.view_ui_def is None,
        toggled(m, r).0.current_ui_id == 0,
        registrations(toggled(m, r).1) == 0,
        registrations(toggles(toggled(m, r).0, rs).1) == 0,
        toggles(toggled(m, r).0, rs).0.view_ui_def is None,
        toggles(toggled(m, r).0, rs).0.current_ui_id == 0,
{
    lemma_signal_counts(m, r);
    law_actions_registered_at_most_once(toggled(m, r).0, rs);
    lemma_no_ui_stays_none(toggled(m, r).0, rs);
}

proof fn lemma_no_ui_stays_none(m: ShellViewModel, rs: Seq<ToggleReplies>)
    requires
        m.actions_initialized,
        m.view_ui_def is None,
        m.current_ui_id == 0,
    ensures
        toggles(m, rs).0.view_ui_def is None,
        toggles(m, rs).0.current_ui_id == 0,
    decreases rs.len(),
{
    if rs.len() > 0 {
        lemma_no_ui_stays_none(toggled(m, rs[0]).0, rs.drop_first());
    }
}

/// The UI manager is updated at the end of a signal exactly where the view is
/// active or some UI was removed.
pub proof fn law_update_when_ui_may_change(m: ShellViewModel, r: ToggleReplies)
    ensures
        toggled(m, r).1.contains(ToggleAction::EnsureUpdate) <==> (gboolean_holds(r.active)
            || m.current_ui_id != 0),
        toggled(m, r).1.last() == ToggleAction::Finish,
{
    if gboolean_holds(r.active) {
        law_active_view_gets_its_ui(m, r);
    } else {
        law_inactive_view_has_no_ui(m, r);
    }
}

/// The state before the `k`-th signal (counting from 0) of a series of
/// signals on a new instance.
pub open spec fn state_before(rs: Seq<ToggleReplies>, k: int) -> ShellViewModel {
    toggles(initial_model(), rs.take(k)).0
}

/// The actions that the `k`-th signal of a series on a new instance asks for.
pub open spec fn signal_actions(rs: Seq<ToggleReplies>, k: int) -> Seq<ToggleAction> {
    toggled(state_before(rs, k), rs[k]).1
}

/// Whether the view is active in none of the first `k` signals.
pub open spec fn never_active_before(rs: Seq<ToggleReplies>, k: int) -> bool {
    forall|j: int| 0 <= j < k ==> !gboolean_holds(#[trigger] rs[j].active)
}

proof fn lemma_toggles_push(m: ShellViewModel, s: Seq<ToggleReplies>, r: ToggleReplies)
    ensures
        toggles(m, s.push(r)) == (
            toggled(toggles(m, s).0, r).0,
            toggles(m, s).1 + toggled(toggles(m, s).0, r).1,
        ),
    decreases s.len(),
{
    if s.len() == 0 {
        reveal_with_fuel(toggles, 2);
        assert(s.push(r).drop_first() =~= s);
        assert(s.push(r)[0] == r);
        assert(Seq::<ToggleAction>::empty() + toggled(m, r).1 =~= toggled(m, r).1);
        assert(toggled(m, r).1 + Seq::<ToggleAction>::empty() =~= toggled(m, r).1);
    } else {
        let (m1, a1) = toggled(m, s[0]);
        assert(s.push(r).drop_first() =~= s.drop_first().push(r));
        assert(s.push(r)[0] == s[0]);
        lemma_toggles_push(m1, s.drop_first(), r);
        let rest = toggles(m1, s.drop_first());
        let last = toggled(rest.0, r).1;
        assert(toggles(m, s) == (rest.0, a1 + rest.1));
        assert(a1 + (rest.1 + last) =~= (a1 + rest.1) + last);
    }
}

proof fn lemma_state_after(rs: Seq<ToggleReplies>, k: int)
    requires
        0 <= k < rs.len(),
    ensures
        state_before(rs, k + 1) == toggled(state_before(rs, k), rs[k]).0,
{
    assert(rs.take(k + 1) =~= rs.take(k).push(rs[k]));
    lemma_toggles_push(initial_model(), rs.take(k), rs[k]);
}

proof fn lemma_state_at_start(rs: Seq<ToggleReplies>)
    ensures
        state_before(rs, 0) == initial_model(),
{
    assert(rs.take(0) =~= Seq::<ToggleReplies>::empty());
}

proof fn lemma_activated_iff_active_before(rs: Seq<ToggleReplies>, k: int)
    requires
        0 <= k <= rs.len(),
    ensures
        state_before(rs, k).actions_initialized == !never_active_before(rs, k),
    decreases k,
{
    if k == 0 {
        lemma_state_at_start(rs);
    } else {
        lemma_activated_iff_active_before(rs, k - 1);
        lemma_state_after(rs, k - 1);
        lemma_signal_counts(state_before(rs, k - 1), rs[k - 1]);
        if gboolean_holds(rs[k - 1].active) {
            assert(!never_active_before(rs, k));
        } else {
            assert(never_active_before(rs, k) == never_active_before(rs, k - 1));
        }
    }
}

/// Over a series of signals on a new instance, the UI that a signal merges
/// under a non-zero id is removed by the next signal, as that signal's first
/// action (before it merges anything) and as its only removal; a signal with
/// nothing live removes nothing, and every signal merges at most once.  So at
/// most one of the extension's merges is live at any time: the one whose id
/// the state holds.
pub proof fn law_each_merge_removed_by_next_signal(rs: Seq<ToggleReplies>, k: int)
    requires
        0 <= k < rs.len(),
    ensures
        merges(signal_actions(rs, k)) == one_if(merges_ui(state_before(rs, k), rs[k])),
        merges(signal_actions(rs, k)) <= 1,
        state_before(rs, k + 1).current_ui_id == if merges_ui(state_before(rs, k), rs[k]) {
            rs[k].merge_id
        } else {
            0u32
        },
        k == 0 ==> removals(signal_actions(rs, k)) == 0,
        0 < k ==> removals(signal_actions(rs, k)) == one_if(
            merges_ui(state_before(rs, k - 1), rs[k - 1]) && rs[k - 1].merge_id != 0,
        ),
        0 < k && merges_ui(state_before(rs, k - 1), rs[k - 1]) && rs[k - 1].merge_id != 0
            ==> signal_actions(rs, k)[0] == ToggleAction::RemoveUi(rs[k - 1].merge_id),
{
    lemma_signal_counts(state_before(rs, k), rs[k]);
    lemma_state_after(rs, k);
    if k == 0 {
        lemma_state_at_start(rs);
    } else {
        lemma_state_after(rs, k - 1);
        lemma_signal_counts(state_before(rs, k - 1), rs[k - 1]);
    }
}

/// Over a series of signals on a new instance, the view is classified, and its
/// actions are registered, in at most one signal: the first in which the view
/// is active.  Before that signal the view counts as not activated, and from
/// it on as activated.
pub proof fn law_view_classified_in_first_active_signal(rs: Seq<ToggleReplies>, k: int)
    requires
        0 <= k < rs.len(),
    ensures
        classifications(signal_actions(rs, k)) == one_if(
            gboolean_holds(rs[k].active) && never_active_before(rs, k),
        ),
        registrations(signal_actions(rs, k)) <= classifications(signal_actions(rs, k)),
        state_before(rs, k).actions_initialized == !never_active_before(rs, k),
{
    lemma_activated_iff_active_before(rs, k);
    lemma_signal_counts(state_before(rs, k), rs[k]);
}

/// Once a signal of a series has found the view active, the view stays
/// activated and its UI definition never changes again.
pub proof fn law_ui_definition_fixed_after_activation(rs: Seq<ToggleReplies>, k: int, k2: int)
    requires
        0 <= k <= k2 <= rs.len(),
        state_before(rs, k).actions_initialized,
    ensures
        state_before(rs, k2).actions_initialized,
        state_before(rs, k2).view_ui_def == state_before(rs, k).view_ui_def,
    decreases k2 - k,
{
    if k2 > k {
        law_ui_definition_fixed_after_activation(rs, k, k2 - 1);
        lemma_state_after(rs, k2 - 1);
        lemma_signal_counts(state_before(rs, k2 - 1), rs[k2 - 1]);
    }
}

} // verus!
