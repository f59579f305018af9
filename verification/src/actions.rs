//! The menu and toolbar actions the extension installs, held as plain values.
use vstd::prelude::*;

verus! {

/// The translation domain under which the action labels are localised.
pub const GETTEXT_PACKAGE: &'static str = "example-module";

/// Which callback an action runs when the user triggers it.
#[derive(PartialEq, Eq, Structural, Clone, Copy, Debug)]
pub enum ActionCallback {
    MailFolder,
    MailMessage,
    CalendarEvent,
    CalendarMenu,
    MsgComposer,
}

/// One action entry (`GtkActionEntry`): its name, icon, label, accelerator,
/// tooltip and callback.
pub struct ActionEntry {
    pub name: &'static str,
    pub stock_id: &'static str,
    pub label: &'static str,
    pub accelerator: Option<&'static str>,
    pub tooltip: &'static str,
    pub callback: ActionCallback,
}

/// An action entry as text and callback, for contracts.
pub struct ActionEntryView {
    pub name: Seq<char>,
    pub stock_id: Seq<char>,
    pub label: Seq<char>,
    pub accelerator: Option<Seq<char>>,
    pub tooltip: Seq<char>,
    pub callback: ActionCallback,
}

impl View for ActionEntry {
    type V = ActionEntryView;

    open spec fn view(&self) -> ActionEntryView {
        ActionEntryView {
            name: self.name@,
            stock_id: self.stock_id@,
            label: self.label@,
            accelerator: match self.accelerator {
                Some(a) => Some(a@),
                None => None,
            },
            tooltip: self.tooltip@,
            callback: self.callback,
        }
    }
}

/// Entries to add, localised in `domain`, to the action group named `group`.
pub struct ActionGroup {
    pub group: &'static str,
    pub domain: &'static str,
    pub entries: Vec<ActionEntry>,
}

pub struct ActionGroupView {
    pub group: Seq<char>,
    pub domain: Seq<char>,
    pub entries: Seq<ActionEntryView>,
}

impl View for ActionGroup {
    type V = ActionGroupView;

    open spec fn view(&self) -> ActionGroupView {
        ActionGroupView {
            group: self.group@,
            domain: self.domain@,
            entries: self.entries@.map_values(|e: ActionEntry| e@),
        }
    }
}

/// An entry without accelerator, as every entry of this module is.
pub open spec fn entry_view(
    name: Seq<char>,
    stock_id: Seq<char>,
    label: Seq<char>,
    tooltip: Seq<char>,
    callback: ActionCallback,
) -> ActionEntryView {
    ActionEntryView { name, stock_id, label, accelerator: None, tooltip, callback }
}

/// Whether a text holds no NUL character, so that it can be handed to C as a
/// NUL-terminated string.
pub open spec fn holds_no_nul(s: Seq<char>) -> bool {
    !s.contains('\0')
}

/// Whether every text of an action entry holds no NUL character.
pub open spec fn entry_holds_no_nul(e: ActionEntryView) -> bool {
    &&& holds_no_nul(e.name)
    &&& holds_no_nul(e.stock_id)
    &&& holds_no_nul(e.label)
    &&& (e.accelerator matches Some(a) ==> holds_no_nul(a))
    &&& holds_no_nul(e.tooltip)
}

/// Whether the group name, the domain and every entry's texts hold no NUL
/// character.
pub open spec fn group_holds_no_nul(g: ActionGroupView) -> bool {
    &&& holds_no_nul(g.group)
    &&& holds_no_nul(g.domain)
    &&& forall|i: int| 0 <= i < g.entries.len() ==> entry_holds_no_nul(#[trigger] g.entries[i])
}

/// The translation domain holds no NUL character.
pub proof fn law_gettext_package_holds_no_nul()
    ensures
        holds_no_nul(GETTEXT_PACKAGE@),
{
    reveal_strlit("example-module");
}

} // verus!
