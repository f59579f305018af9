//! The shell-view extension: one instance is attached to every `EShellView`
//! (mail, calendar, ...).  When its view is toggled active it adds the view's
//! menu and popup items; when the view goes inactive it removes them again.
//!
//! Handling a "toggled" signal alternates outside work (asking GTK and the
//! type system, merging and removing UI) with decisions.  The decisions stand
//! here as a state machine: `ShellViewState::begin_toggle` starts the handling,
//! `ToggleStep::action` says what to do next, and `ShellViewState::toggle_step`
//! takes the outcome of that action and gives the next step, until the step is
//! `ToggleStep::Done`.
use vstd::prelude::*;
use crate::actions::{entry_view, group_holds_no_nul, holds_no_nul, law_gettext_package_holds_no_nul, ActionCallback, ActionEntry, ActionGroup, ActionGroupView, GETTEXT_PACKAGE};
use crate::gtype::{gboolean_holds, GBoolean};

verus! {

/// The name under which the extension type is registered.
pub const TYPE_NAME: &'static str = "MShellViewExtension";

/// The items merged into a mail view: one in the message menu, one in the
/// folder popup.
pub const MAIL_UI_DEF: &'static str = "\
<menubar name='main-menu'>\
  <placeholder name='custom-menus'>\
    <menu action='mail-message-menu'>\
      <placeholder name='mail-message-custom-menus'>\
        <menuitem action='my-mail-ui-message-action'/>\
      </placeholder>\
    </menu>\
  </placeholder>\
</menubar>\
\n\
<popup name='mail-folder-popup'>\
  <placeholder name='mail-folder-popup-actions'>\
    <menuitem action='my-mail-ui-folder-action'/>\
  </placeholder>\
</popup>";

/// The items merged into a calendar view: one in the actions menu, one in the
/// event popup.
pub const CALENDAR_UI_DEF: &'static str = "\
<menubar name='main-menu'>\
  <placeholder name='custom-menus'>\
    <menu action='calendar-actions-menu'>\
      <menuitem action='my-calendar-ui-action'/>\
    </menu>\
  </placeholder>\
</menubar>\
\n\
<popup name='calendar-event-popup'>\
  <placeholder name='event-popup-actions'>\
    <menuitem action='my-calendar-ui-event-action'/>\
  </placeholder>\
</popup>";

/// The kinds of shell view that the extension adds UI to.  Tasks, memos,
/// contacts and other views get none.
#[derive(PartialEq, Eq, Structural, Clone, Copy, Debug)]
pub enum SupportedView {
    Mail,
    Calendar,
}

/// The UI definition merged into a view of the given kind.
pub open spec fn ui_definition_spec(view: SupportedView) -> &'static str {
    match view {
        SupportedView::Mail => MAIL_UI_DEF,
        SupportedView::Calendar => CALENDAR_UI_DEF,
    }
}

/// The texts that the shell-view extension hands to C hold no NUL character:
/// its type name, both UI definitions, and the group names and entry texts
/// of both views' actions.
pub proof fn law_shell_view_strings_hold_no_nul()
    ensures
        holds_no_nul(TYPE_NAME@),
        holds_no_nul(MAIL_UI_DEF@),
        holds_no_nul(CALENDAR_UI_DEF@),
        group_holds_no_nul(view_actions_spec(SupportedView::Mail)),
        group_holds_no_nul(view_actions_spec(SupportedView::Calendar)),
{
    law_gettext_package_holds_no_nul();
    reveal_strlit("MShellViewExtension");
    reveal_strlit("\
<menubar name='main-menu'>\
  <placeholder name='custom-menus'>\
    <menu action='mail-message-menu'>\
      <placeholder name='mail-message-custom-menus'>\
        <menuitem action='my-mail-ui-message-action'/>\
      </placeholder>\
    </menu>\
  </placeholder>\
</menubar>\
\n\
<popup name='mail-folder-popup'>\
  <placeholder name='mail-folder-popup-actions'>\
    <menuitem action='my-mail-ui-folder-action'/>\
  </placeholder>\
</popup>");
    reveal_strlit("\
<menubar name='main-menu'>\
  <placeholder name='custom-menus'>\
    <menu action='calendar-actions-menu'>\
      <menuitem action='my-calendar-ui-action'/>\
    </menu>\
  </placeholder>\
</menubar>\
\n\
<popup name='calendar-event-popup'>\
  <placeholder name='event-popup-actions'>\
    <menuitem action='my-calendar-ui-event-action'/>\
  </placeholder>\
</popup>");
    reveal_strlit("mail");
    reveal_strlit("my-mail-ui-folder-action");
    reveal_strlit("folder-new");
    reveal_strlit("M_y Maildir Folder Action...");
    reveal_strlit("My Maildir Folder Action");
    reveal_strlit("my-mail-ui-message-action");
    reveal_strlit("document-new");
    reveal_strlit("M_y Message Action...");
    reveal_strlit("My Message Action");
    reveal_strlit("calendar");
    reveal_strlit("my-calendar-ui-event-action");
    reveal_strlit("M_y Event Action...");
    reveal_strlit("My Event Action");
    reveal_strlit("my-calendar-ui-action");
    reveal_strlit("M_y Calendar Action...");
    reveal_strlit("My Calendar Action");
}

/// The UI definition merged into a view of the given kind.
pub fn ui_definition(view: SupportedView) -> (d: &'static str)
    ensures
        d == ui_definition_spec(view),
        holds_no_nul(d@),
{
    proof {
        law_shell_view_strings_hold_no_nul();
    }
    match view {
        SupportedView::Mail => MAIL_UI_DEF,
        SupportedView::Calendar => CALENDAR_UI_DEF,
    }
}

/// The actions registered for a view of the given kind, into the shell
/// window's action group of the same name.
pub open spec fn view_actions_spec(view: SupportedView) -> ActionGroupView {
    match view {
        SupportedView::Mail => ActionGroupView {
            group: "mail"@,
            domain: GETTEXT_PACKAGE@,
            entries: seq![
                entry_view(
                    "my-mail-ui-folder-action"@,
                    "folder-new"@,
                    "M_y Maildir Folder Action..."@,
                    "My Maildir Folder Action"@,
                    ActionCallback::MailFolder,
                ),
                entry_view(
                    "my-mail-ui-message-action"@,
                    "document-new"@,
                    "M_y Message Action..."@,
                    "My Message Action"@,
                    ActionCallback::MailMessage,
                ),
            ],
        },
        SupportedView::Calendar => ActionGroupView {
            group: "calendar"@,
            domain: GETTEXT_PACKAGE@,
            entries: seq![
                entry_view(
                    "my-calendar-ui-event-action"@,
                    "folder-new"@,
                    "M_y Event Action..."@,
                    "My Event Action"@,
                    ActionCallback::CalendarEvent,
                ),
                entry_view(
                    "my-calendar-ui-action"@,
                    "document-new"@,
                    "M_y Calendar Action..."@,
                    "My Calendar Action"@,
                    ActionCallback::CalendarMenu,
                ),
            ],
        },
    }
}

/// The actions registered for a view of the given kind.
pub fn view_actions(view: SupportedView) -> (g: ActionGroup)
    ensures
        g@ == view_actions_spec(view),
        group_holds_no_nul(g@),
{
    proof {
        law_shell_view_strings_hold_no_nul();
    }
    let mut entries: Vec<ActionEntry> = Vec::new();
    match view {
        SupportedView::Mail => {
            entries.push(ActionEntry {
                name: "my-mail-ui-folder-action",
                stock_id: "folder-new",
                label: "M_y Maildir Folder Action...",
                accelerator: None,
                tooltip: "My Maildir Folder Action",
                callback: ActionCallback::MailFolder,
            });
            entries.push(ActionEntry {
                name: "my-mail-ui-message-action",
                stock_id: "document-new",
                label: "M_y Message Action...",
                accelerator: None,
                tooltip: "My Message Action",
                callback: ActionCallback::MailMessage,
            });
            let g = ActionGroup { group: "mail", domain: GETTEXT_PACKAGE, entries };
            assert(g@.entries =~= view_actions_spec(view).entries);
            g
        },
        SupportedView::Calendar => {
            entries.push(ActionEntry {
                name: "my-calendar-ui-event-action",
                stock_id: "folder-new",
                label: "M_y Event Action...",
                accelerator: None,
                tooltip: "My Event Action",
                callback: ActionCallback::CalendarEvent,
            });
            entries.push(ActionEntry {
                name: "my-calendar-ui-action",
                stock_id: "document-new",
                label: "M_y Calendar Action...",
                accelerator: None,
                tooltip: "My Calendar Action",
                callback: ActionCallback::CalendarMenu,
            });
            let g = ActionGroup { group: "calendar", domain: GETTEXT_PACKAGE, entries };
            assert(g@.entries =~= view_actions_spec(view).entries);
            g
        },
    }
}

/// What an extension instance keeps between two "toggled" signals.
pub struct ShellViewState {
    /// The merge id of the UI currently merged, or 0 when none is.
    current_ui_id: u32,
    /// Whether the view has been activated once, and its actions registered
    /// where it is a supported view.
    actions_initialized: bool,
    /// The UI definition of the view; `None` for views that get no UI, and
    /// before the first activation.
    view_ui_def: Option<&'static str>,
}

/// The contents of a `ShellViewState`.
pub struct ShellViewModel {
    pub current_ui_id: u32,
    pub actions_initialized: bool,
    pub view_ui_def: Option<&'static str>,
}

impl View for ShellViewState {
    type V = ShellViewModel;

    closed spec fn view(&self) -> ShellViewModel {
        ShellViewModel {
            current_ui_id: self.current_ui_id,
            actions_initialized: self.actions_initialized,
            view_ui_def: self.view_ui_def,
        }
    }
}

/// The state of a newly made extension instance.
pub open spec fn initial_model() -> ShellViewModel {
    ShellViewModel { current_ui_id: 0, actions_initialized: false, view_ui_def: None }
}

/// What every reachable state satisfies: the UI definition is one of the two
/// definitions or none, and none before the first activation.
pub open spec fn model_wf(m: ShellViewModel) -> bool {
    &&& (m.view_ui_def matches Some(d) ==> d == MAIL_UI_DEF || d == CALENDAR_UI_DEF)
    &&& (!m.actions_initialized ==> m.view_ui_def is None)
}

/// Where the handling of one "toggled" signal stands.
#[derive(Clone, Copy, Debug)]
pub enum ToggleStep {
    /// The UI merged under this id is being removed.
    RemovingUi(u32),
    /// Asking whether the view is active; `true` where UI was removed, so that
    /// the UI manager must be updated even if the view is inactive.
    QueryingActive(bool),
    /// Asking whether the view is a mail view (first activation only).
    CheckingMail,
    /// Asking whether the view is a calendar view (first activation only).
    CheckingCalendar,
    /// Registering the actions of the view.
    RegisteringActions(SupportedView),
    /// Merging this UI definition.
    MergingUi(&'static str),
    /// Flushing the UI manager's pending changes.
    Updating,
    /// The signal has been handled.
    Done,
}

/// What the outside world answers to an action.
#[derive(Clone, Copy, Debug)]
pub enum ToggleEvent {
    /// The action was carried out; it has no result.
    Performed,
    /// Whether the view is active (`e_shell_view_is_active`).
    Active(GBoolean),
    /// Whether the view's type is the type asked about (`g_type_is_a`).
    IsA(GBoolean),
    /// The merge id that merging the UI returned (0 on error).
    Merged(u32),
}

/// What to do next.
#[derive(Clone, Copy, Debug)]
pub enum ToggleAction {
    /// Remove the UI merged under this id.
    RemoveUi(u32),
    /// Ask whether the view is active.
    QueryActive,
    /// Ask whether the view is a mail shell view.
    CheckIsMailView,
    /// Ask whether the view is a calendar shell view.
    CheckIsCalendarView,
    /// Register the view's actions (see `view_actions`).
    RegisterActions(SupportedView),
    /// Merge this UI definition into the UI manager; answer with the merge id.
    MergeUi(&'static str),
    /// Flush the UI manager's pending changes.
    EnsureUpdate,
    /// Nothing more: the signal has been handled.
    Finish,
}

/// The action that a step asks for.
pub open spec fn action_spec(step: ToggleStep) -> ToggleAction {
    match step {
        ToggleStep::RemovingUi(id) => ToggleAction::RemoveUi(id),
        ToggleStep::QueryingActive(_) => ToggleAction::QueryActive,
        ToggleStep::CheckingMail => ToggleAction::CheckIsMailView,
        ToggleStep::CheckingCalendar => ToggleAction::CheckIsCalendarView,
        ToggleStep::RegisteringActions(v) => ToggleAction::RegisterActions(v),
        ToggleStep::MergingUi(d) => ToggleAction::MergeUi(d),
        ToggleStep::Updating => ToggleAction::EnsureUpdate,
        ToggleStep::Done => ToggleAction::Finish,
    }
}

/// Whether an event is the kind of answer that an action gets.
pub open spec fn answers(action: ToggleAction, event: ToggleEvent) -> bool {
    match action {
        ToggleAction::QueryActive => event is Active,
        ToggleAction::CheckIsMailView => event is IsA,
        ToggleAction::CheckIsCalendarView => event is IsA,
        ToggleAction::MergeUi(_) => event is Merged,
        _ => event is Performed,
    }
}

/// The start of the handling: any merged UI is taken out of the state, to be
/// removed first.
pub open spec fn begin_spec(m: ShellViewModel) -> (ShellViewModel, ToggleStep) {
    let m0 = ShellViewModel { current_ui_id: 0, ..m };
    if m.current_ui_id != 0 {
        (m0, ToggleStep::RemovingUi(m.current_ui_id))
    } else {
        (m0, ToggleStep::QueryingActive(false))
    }
}

/// The state after the view's kind is known, on its first activation.
pub open spec fn detected(m: ShellViewModel, view: Option<SupportedView>) -> ShellViewModel {
    ShellViewModel {
        actions_initialized: true,
        view_ui_def: match view {
            Some(v) => Some(ui_definition_spec(v)),
            None => None,
        },
        ..m
    }
}

/// The step after a merged UI, if any, or else the update.
pub open spec fn merge_or_update(def: Option<&'static str>) -> ToggleStep {
    match def {
        Some(d) => ToggleStep::MergingUi(d),
        None => ToggleStep::Updating,
    }
}

/// One transition: the state and step after `event` answers the action of
/// `step`.  An event that does not answer that action changes nothing.
pub open spec fn step_spec(m: ShellViewModel, step: ToggleStep, event: ToggleEvent) -> (
    ShellViewModel,
    ToggleStep,
) {
    match (step, event) {
        (ToggleStep::RemovingUi(_), ToggleEvent::Performed) => (m, ToggleStep::QueryingActive(true)),
        (ToggleStep::QueryingActive(need_update), ToggleEvent::Active(active)) => {
            if !gboolean_holds(active) {
                (m, if need_update { ToggleStep::Updating } else { ToggleStep::Done })
            } else if !m.actions_initialized {
                (m, ToggleStep::CheckingMail)
            } else {
                (m, merge_or_update(m.view_ui_def))
            }
        },
        (ToggleStep::CheckingMail, ToggleEvent::IsA(is_mail)) => {
            if gboolean_holds(is_mail) {
                (
                    detected(m, Some(SupportedView::Mail)),
                    ToggleStep::RegisteringActions(SupportedView::Mail),
                )
            } else {
                (m, ToggleStep::CheckingCalendar)
            }
        },
        (ToggleStep::CheckingCalendar, ToggleEvent::IsA(is_calendar)) => {
            if gboolean_holds(is_calendar) {
                (
                    detected(m, Some(SupportedView::Calendar)),
                    ToggleStep::RegisteringActions(SupportedView::Calendar),
                )
            } else {
                (detected(m, None), ToggleStep::Updating)
            }
        },
        (ToggleStep::RegisteringActions(v), ToggleEvent::Performed) => (
            m,
            ToggleStep::MergingUi(ui_definition_spec(v)),
        ),
        (ToggleStep::MergingUi(_), ToggleEvent::Merged(id)) => (
            ShellViewModel { current_ui_id: id, ..m },
            ToggleStep::Updating,
        ),
        (ToggleStep::Updating, ToggleEvent::Performed) => (m, ToggleStep::Done),
        _ => (m, step),
    }
}

impl ToggleStep {
    /// The action that this step asks for.
    pub fn action(&self) -> (a: ToggleAction)
        ensures
            a == action_spec(*self),
    {
        match *self {
            ToggleStep::RemovingUi(id) => ToggleAction::RemoveUi(id),
            ToggleStep::QueryingActive(_) => ToggleAction::QueryActive,
            ToggleStep::CheckingMail => ToggleAction::CheckIsMailView,
            ToggleStep::CheckingCalendar => ToggleAction::CheckIsCalendarView,
            ToggleStep::RegisteringActions(v) => ToggleAction::RegisterActions(v),
            ToggleStep::MergingUi(d) => ToggleAction::MergeUi(d),
            ToggleStep::Updating => ToggleAction::EnsureUpdate,
            ToggleStep::Done => ToggleAction::Finish,
        }
    }

    /// Whether the signal has been handled.
    pub fn is_done(&self) -> (b: bool)
        ensures
            b == (*self is Done),
    {
        match *self {
            ToggleStep::Done => true,
            _ => false,
        }
    }
}

impl ShellViewState {
    /// The state of a new extension instance: no UI merged, not yet activated.
    pub fn new() -> (s: ShellViewState)
        ensures
            s@ == initial_model(),
    {
        ShellViewState { current_ui_id: 0, actions_initialized: false, view_ui_def: None }
    }

    /// The merge id of the UI currently merged, or 0 when none is.
    pub fn current_ui_id(&self) -> (id: u32)
        ensures
            id == self@.current_ui_id,
    {
        self.current_ui_id
    }

    /// Whether the view has been activated once.
    pub fn actions_initialized(&self) -> (b: bool)
        ensures
            b == self@.actions_initialized,
    {
        self.actions_initialized
    }

    /// The UI definition of the view, where it has one.
    pub fn view_ui_def(&self) -> (d: Option<&'static str>)
        ensures
            d == self@.view_ui_def,
    {
        self.view_ui_def
    }

    /// Starts handling a "toggled" signal.
    pub fn begin_toggle(&mut self) -> (step: ToggleStep)
        ensures
            (final(self)@, step) == begin_spec(old(self)@),
    {
        let id = self.current_ui_id;
        self.current_ui_id = 0;
        if id != 0 {
            ToggleStep::RemovingUi(id)
        } else {
            ToggleStep::QueryingActive(false)
        }
    }

    /// Takes the answer to the action of `step` and gives the next step.
    pub fn toggle_step(&mut self, step: ToggleStep, event: ToggleEvent) -> (next: ToggleStep)
        ensures
            (final(self)@, next) == step_spec(old(self)@, step, event),
    {
        match step {
            ToggleStep::RemovingUi(_) => match event {
                ToggleEvent::Performed => ToggleStep::QueryingActive(true),
                _ => step,
            },
            ToggleStep::QueryingActive(need_update) => match event {
                ToggleEvent::Active(active) => {
                    if active == 0 {
                        if need_update {
                            ToggleStep::Updating
                        } else {
                            ToggleStep::Done
                        }
                    } else if !self.actions_initialized {
                        ToggleStep::CheckingMail
                    } else {
                        match self.view_ui_def {
                            Some(d) => ToggleStep::MergingUi(d),
                            None => ToggleStep::Updating,
                        }
                    }
                },
                _ => step,
            },
            ToggleStep::CheckingMail => match event {
                ToggleEvent::IsA(is_mail) => {
                    if is_mail != 0 {
                        self.actions_initialized = true;
                        self.view_ui_def = Some(ui_definition(SupportedView::Mail));
                        ToggleStep::RegisteringActions(SupportedView::Mail)
                    } else {
                        ToggleStep::CheckingCalendar
                    }
                },
                _ => step,
            },
            ToggleStep::CheckingCalendar => match event {
                ToggleEvent::IsA(is_calendar) => {
                    self.actions_initialized = true;
                    if is_calendar != 0 {
                        self.view_ui_def = Some(ui_definition(SupportedView::Calendar));
                        ToggleStep::RegisteringActions(SupportedView::Calendar)
                    } else {
                        self.view_ui_def = None;
                        ToggleStep::Updating
                    }
                },
                _ => step,
            },
            ToggleStep::RegisteringActions(v) => match event {
                ToggleEvent::Performed => ToggleStep::MergingUi(ui_definition(v)),
                _ => step,
            },
            ToggleStep::MergingUi(_) => match event {
                ToggleEvent::Merged(id) => {
                    self.current_ui_id = id;
                    ToggleStep::Updating
                },
                _ => step,
            },
            ToggleStep::Updating => match event {
                ToggleEvent::Performed => ToggleStep::Done,
                _ => step,
            },
            ToggleStep::Done => step,
        }
    }
}

} // verus!
