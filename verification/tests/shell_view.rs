use lib::actions::ActionCallback;
use lib::shell_view::{
    ui_definition, view_actions, ShellViewState, SupportedView, ToggleAction, ToggleEvent,
    ToggleStep, CALENDAR_UI_DEF, MAIL_UI_DEF, TYPE_NAME,
};

/// Answers every action as a world with the given facts does, and records the
/// actions asked for.
fn run_toggle(
    state: &mut ShellViewState,
    active: i32,
    is_mail: i32,
    is_calendar: i32,
    merge_id: u32,
) -> Vec<ToggleAction> {
    let mut actions = Vec::new();
    let mut step = state.begin_toggle();
    for _ in 0..20 {
        let action = step.action();
        actions.push(action);
        if step.is_done() {
            return actions;
        }
        let event = match action {
            ToggleAction::QueryActive => ToggleEvent::Active(active),
            ToggleAction::CheckIsMailView => ToggleEvent::IsA(is_mail),
            ToggleAction::CheckIsCalendarView => ToggleEvent::IsA(is_calendar),
            ToggleAction::MergeUi(_) => ToggleEvent::Merged(merge_id),
            _ => ToggleEvent::Performed,
        };
        step = state.toggle_step(step, event);
    }
    panic!("the handling of a signal did not end");
}

fn registrations(actions: &[ToggleAction]) -> usize {
    actions.iter().filter(|a| matches!(a, ToggleAction::RegisterActions(_))).count()
}

#[test]
fn new_state_has_nothing_merged() {
    let s = ShellViewState::new();
    assert_eq!(s.current_ui_id(), 0);
    assert!(!s.actions_initialized());
    assert!(s.view_ui_def().is_none());
}

#[test]
fn first_activation_of_mail_view_step_by_step() {
    let mut s = ShellViewState::new();
    let step = s.begin_toggle();
    assert!(matches!(step, ToggleStep::QueryingActive(false)));
    assert!(matches!(step.action(), ToggleAction::QueryActive));
    let step = s.toggle_step(step, ToggleEvent::Active(1));
    assert!(matches!(step, ToggleStep::CheckingMail));
    assert!(matches!(step.action(), ToggleAction::CheckIsMailView));
    let step = s.toggle_step(step, ToggleEvent::IsA(1));
    assert!(matches!(step, ToggleStep::RegisteringActions(SupportedView::Mail)));
    assert!(s.actions_initialized());
    assert_eq!(s.view_ui_def(), Some(MAIL_UI_DEF));
    let step = s.toggle_step(step, ToggleEvent::Performed);
    match step {
        ToggleStep::MergingUi(d) => assert_eq!(d, MAIL_UI_DEF),
        other => panic!("unexpected step {:?}", other),
    }
    let step = s.toggle_step(step, ToggleEvent::Merged(42));
    assert!(matches!(step, ToggleStep::Updating));
    assert_eq!(s.current_ui_id(), 42);
    assert!(matches!(step.action(), ToggleAction::EnsureUpdate));
    let step = s.toggle_step(step, ToggleEvent::Performed);
    assert!(step.is_done());
    assert!(matches!(step.action(), ToggleAction::Finish));
}

#[test]
fn deactivation_removes_the_merged_ui() {
    let mut s = ShellViewState::new();
    run_toggle(&mut s, 1, 1, 0, 7);
    assert_eq!(s.current_ui_id(), 7);
    let step = s.begin_toggle();
    assert!(matches!(step, ToggleStep::RemovingUi(7)));
    assert!(matches!(step.action(), ToggleAction::RemoveUi(7)));
    assert_eq!(s.current_ui_id(), 0);
    let step = s.toggle_step(step, ToggleEvent::Performed);
    assert!(matches!(step, ToggleStep::QueryingActive(true)));
    let step = s.toggle_step(step, ToggleEvent::Active(0));
    assert!(matches!(step, ToggleStep::Updating));
    let step = s.toggle_step(step, ToggleEvent::Performed);
    assert!(step.is_done());
    assert_eq!(s.current_ui_id(), 0);
    assert!(s.actions_initialized());
    assert_eq!(s.view_ui_def(), Some(MAIL_UI_DEF));
}

#[test]
fn inactive_view_without_ui_needs_no_update() {
    let mut s = ShellViewState::new();
    let actions = run_toggle(&mut s, 0, 1, 1, 9);
    assert_eq!(actions.len(), 2);
    assert!(matches!(actions[0], ToggleAction::QueryActive));
    assert!(matches!(actions[1], ToggleAction::Finish));
    assert!(!s.actions_initialized());
    assert_eq!(s.current_ui_id(), 0);
}

#[test]
fn reactivation_merges_again_without_registering() {
    let mut s = ShellViewState::new();
    let first = run_toggle(&mut s, 1, 0, 1, 3);
    assert_eq!(registrations(&first), 1);
    assert_eq!(s.view_ui_def(), Some(CALENDAR_UI_DEF));
    let off = run_toggle(&mut s, 0, 0, 1, 3);
    assert!(matches!(off[0], ToggleAction::RemoveUi(3)));
    let on = run_toggle(&mut s, 1, 0, 1, 11);
    assert_eq!(registrations(&on), 0);
    assert!(!on.iter().any(|a| matches!(a, ToggleAction::CheckIsMailView)));
    assert!(matches!(on[0], ToggleAction::QueryActive));
    match on[1] {
        ToggleAction::MergeUi(d) => assert_eq!(d, CALENDAR_UI_DEF),
        other => panic!("unexpected action {:?}", other),
    }
    assert!(matches!(on[2], ToggleAction::EnsureUpdate));
    assert!(matches!(on[3], ToggleAction::Finish));
    assert_eq!(s.current_ui_id(), 11);
}

#[test]
fn actions_registered_once_over_many_signals() {
    let mut s = ShellViewState::new();
    let mut total = 0;
    for i in 0..10u32 {
        let actions = run_toggle(&mut s, (i % 2) as i32, 1, 0, i + 1);
        total += registrations(&actions);
    }
    assert_eq!(total, 1);
}

#[test]
fn calendar_view_is_checked_after_mail() {
    let mut s = ShellViewState::new();
    let actions = run_toggle(&mut s, 1, 0, 5, 8);
    assert!(matches!(actions[0], ToggleAction::QueryActive));
    assert!(matches!(actions[1], ToggleAction::CheckIsMailView));
    assert!(matches!(actions[2], ToggleAction::CheckIsCalendarView));
    assert!(matches!(actions[3], ToggleAction::RegisterActions(SupportedView::Calendar)));
    assert!(matches!(actions[4], ToggleAction::MergeUi(_)));
    assert_eq!(s.current_ui_id(), 8);
}

#[test]
fn mail_view_wins_over_calendar() {
    let mut s = ShellViewState::new();
    let actions = run_toggle(&mut s, 1, 1, 1, 2);
    assert!(!actions.iter().any(|a| matches!(a, ToggleAction::CheckIsCalendarView)));
    assert_eq!(s.view_ui_def(), Some(MAIL_UI_DEF));
}

#[test]
fn unsupported_view_gets_no_ui() {
    let mut s = ShellViewState::new();
    let actions = run_toggle(&mut s, 1, 0, 0, 5);
    assert_eq!(registrations(&actions), 0);
    assert!(!actions.iter().any(|a| matches!(a, ToggleAction::MergeUi(_))));
    assert!(actions.iter().any(|a| matches!(a, ToggleAction::EnsureUpdate)));
    assert!(s.actions_initialized());
    assert!(s.view_ui_def().is_none());
    assert_eq!(s.current_ui_id(), 0);
    let again = run_toggle(&mut s, 1, 1, 1, 5);
    assert_eq!(again.len(), 3);
    assert!(matches!(again[1], ToggleAction::EnsureUpdate));
    assert_eq!(s.current_ui_id(), 0);
}

#[test]
fn failed_merge_leaves_no_id() {
    let mut s = ShellViewState::new();
    run_toggle(&mut s, 1, 1, 0, 0);
    assert_eq!(s.current_ui_id(), 0);
    let next = run_toggle(&mut s, 0, 1, 0, 0);
    assert!(!next.iter().any(|a| matches!(a, ToggleAction::RemoveUi(_))));
}

#[test]
fn unexpected_event_changes_nothing() {
    let mut s = ShellViewState::new();
    let step = s.begin_toggle();
    let same = s.toggle_step(step, ToggleEvent::Merged(4));
    assert!(matches!(same, ToggleStep::QueryingActive(false)));
    assert_eq!(s.current_ui_id(), 0);
    assert!(!s.actions_initialized());
    let done = s.toggle_step(ToggleStep::Done, ToggleEvent::Performed);
    assert!(done.is_done());
}

#[test]
fn any_nonzero_gboolean_counts_as_true() {
    let mut s = ShellViewState::new();
    let step = s.begin_toggle();
    let step = s.toggle_step(step, ToggleEvent::Active(-1));
    assert!(matches!(step, ToggleStep::CheckingMail));
    let step = s.toggle_step(step, ToggleEvent::IsA(2));
    assert!(matches!(step, ToggleStep::RegisteringActions(SupportedView::Mail)));
}

#[test]
fn ui_definitions_per_view() {
    assert_eq!(ui_definition(SupportedView::Mail), MAIL_UI_DEF);
    assert_eq!(ui_definition(SupportedView::Calendar), CALENDAR_UI_DEF);
    assert!(MAIL_UI_DEF.contains("<menuitem action='my-mail-ui-message-action'/>"));
    assert!(MAIL_UI_DEF.contains("<popup name='mail-folder-popup'>"));
    assert!(CALENDAR_UI_DEF.contains("<menuitem action='my-calendar-ui-event-action'/>"));
    assert!(!MAIL_UI_DEF.contains('\0'));
    assert_eq!(TYPE_NAME, "MShellViewExtension");
}

#[test]
fn mail_actions() {
    let g = view_actions(SupportedView::Mail);
    assert_eq!(g.group, "mail");
    assert_eq!(g.domain, "example-module");
    assert_eq!(g.entries.len(), 2);
    assert_eq!(g.entries[0].name, "my-mail-ui-folder-action");
    assert_eq!(g.entries[0].stock_id, "folder-new");
    assert_eq!(g.entries[0].label, "M_y Maildir Folder Action...");
    assert_eq!(g.entries[0].accelerator, None);
    assert_eq!(g.entries[0].tooltip, "My Maildir Folder Action");
    assert_eq!(g.entries[0].callback, ActionCallback::MailFolder);
    assert_eq!(g.entries[1].name, "my-mail-ui-message-action");
    assert_eq!(g.entries[1].stock_id, "document-new");
    assert_eq!(g.entries[1].label, "M_y Message Action...");
    assert_eq!(g.entries[1].tooltip, "My Message Action");
    assert_eq!(g.entries[1].callback, ActionCallback::MailMessage);
}

#[test]
fn calendar_actions() {
    let g = view_actions(SupportedView::Calendar);
    assert_eq!(g.group, "calendar");
    assert_eq!(g.domain, "example-module");
    assert_eq!(g.entries.len(), 2);
    assert_eq!(g.entries[0].name, "my-calendar-ui-event-action");
    assert_eq!(g.entries[0].stock_id, "folder-new");
    assert_eq!(g.entries[0].label, "M_y Event Action...");
    assert_eq!(g.entries[0].tooltip, "My Event Action");
    assert_eq!(g.entries[0].callback, ActionCallback::CalendarEvent);
    assert_eq!(g.entries[1].name, "my-calendar-ui-action");
    assert_eq!(g.entries[1].stock_id, "document-new");
    assert_eq!(g.entries[1].label, "M_y Calendar Action...");
    assert_eq!(g.entries[1].tooltip, "My Calendar Action");
    assert_eq!(g.entries[1].callback, ActionCallback::CalendarMenu);
}

#[test]
fn shell_view_strings_hold_no_nul() {
    for s in [MAIL_UI_DEF, CALENDAR_UI_DEF, TYPE_NAME] {
        assert!(!s.contains('\0'));
    }
    for view in [SupportedView::Mail, SupportedView::Calendar] {
        let g = view_actions(view);
        assert!(!g.group.contains('\0'));
        assert!(!g.domain.contains('\0'));
        for e in &g.entries {
            for t in [e.name, e.stock_id, e.label, e.tooltip] {
                assert!(!t.contains('\0'));
            }
            assert!(e.accelerator.is_none());
        }
        assert!(!ui_definition(view).contains('\0'));
    }
}

#[test]
fn each_merge_is_removed_by_the_next_signal() {
    let mut s = ShellViewState::new();
    let mut live: Option<u32> = None;
    let pattern = [(1, 10u32), (1, 11), (0, 12), (0, 13), (1, 0), (1, 14), (0, 15)];
    for (active, merge_id) in pattern {
        let actions = run_toggle(&mut s, active, 1, 0, merge_id);
        let removed: Vec<u32> = actions
            .iter()
            .filter_map(|a| match a {
                ToggleAction::RemoveUi(id) => Some(*id),
                _ => None,
            })
            .collect();
        match live {
            Some(id) => {
                assert_eq!(removed, vec![id]);
                assert!(matches!(actions[0], ToggleAction::RemoveUi(x) if x == id));
            }
            None => assert!(removed.is_empty()),
        }
        let merged = actions.iter().filter(|a| matches!(a, ToggleAction::MergeUi(_))).count();
        assert!(merged <= 1);
        live = if merged == 1 && merge_id != 0 { Some(merge_id) } else { None };
        assert_eq!(s.current_ui_id(), live.unwrap_or(0));
    }
}

#[test]
fn view_classified_only_in_first_active_signal() {
    let mut s = ShellViewState::new();
    let pattern = [0, 0, 1, 0, 1, 1];
    let mut seen_active = false;
    for active in pattern {
        let actions = run_toggle(&mut s, active, 0, 1, 4);
        let classified = actions.iter().any(|a| matches!(a, ToggleAction::CheckIsMailView));
        assert_eq!(classified, active != 0 && !seen_active);
        assert_eq!(registrations(&actions), if classified { 1 } else { 0 });
        seen_active = seen_active || active != 0;
        assert_eq!(s.actions_initialized(), seen_active);
        if seen_active {
            assert_eq!(s.view_ui_def(), Some(CALENDAR_UI_DEF));
        }
    }
}
