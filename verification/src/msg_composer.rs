//! The message-composer extension: the action and UI it adds to every composer.
use vstd::prelude::*;
use vstd::string::*;
use vstd::utf8::*;
use crate::actions::{entry_view, group_holds_no_nul, holds_no_nul, law_gettext_package_holds_no_nul, ActionCallback, ActionEntry, ActionGroup, ActionGroupView, GETTEXT_PACKAGE};

verus! {

/// The name under which the extension type is registered.
pub const TYPE_NAME: &'static str = "MMsgComposerExtension";

/// The composer's menu item and toolbar button, both running the composer action.
pub const COMPOSER_UI_DEF: &'static str = "\
<menubar name='main-menu'>\
  <placeholder name='pre-edit-menu'>\
    <menu action='file-menu'>\
      <placeholder name='external-editor-holder'>\
        <menuitem action='my-msg-composer-action'/>\
      </placeholder>\
    </menu>\
  </placeholder>\
</menubar>\
\n\
<toolbar name='main-toolbar'>\
  <toolitem action='my-msg-composer-action'/>\
</toolbar>";

/// The actions added to the composer's "core" group.
pub open spec fn composer_actions_spec() -> ActionGroupView {
    ActionGroupView {
        group: "core"@,
        domain: GETTEXT_PACKAGE@,
        entries: seq![
            entry_view(
                "my-msg-composer-action"@,
                "document-new"@,
                "M_y Message Composer Action..."@,
                "My Message Composer Action"@,
                ActionCallback::MsgComposer,
            ),
        ],
    }
}

/// The texts that the composer extension hands to C hold no NUL character:
/// its type name, its UI definition, and its group name and entry texts.
pub proof fn law_composer_strings_hold_no_nul()
    ensures
        holds_no_nul(TYPE_NAME@),
        holds_no_nul(COMPOSER_UI_DEF@),
        group_holds_no_nul(composer_actions_spec()),
{
    law_gettext_package_holds_no_nul();
    reveal_strlit("MMsgComposerExtension");
    reveal_strlit("\
<menubar name='main-menu'>\
  <placeholder name='pre-edit-menu'>\
    <menu action='file-menu'>\
      <placeholder name='external-editor-holder'>\
        <menuitem action='my-msg-composer-action'/>\
      </placeholder>\
    </menu>\
  </placeholder>\
</menubar>\
\n\
<toolbar name='main-toolbar'>\
  <toolitem action='my-msg-composer-action'/>\
</toolbar>");
    reveal_strlit("core");
    reveal_strlit("my-msg-composer-action");
    reveal_strlit("document-new");
    reveal_strlit("M_y Message Composer Action...");
    reveal_strlit("My Message Composer Action");
}

/// The action group that the composer extension fills.
pub fn composer_actions() -> (g: ActionGroup)
    ensures
        g@ == composer_actions_spec(),
        group_holds_no_nul(g@),
{
    proof {
        law_composer_strings_hold_no_nul();
    }
    let mut entries: Vec<ActionEntry> = Vec::new();
    entries.push(ActionEntry {
        name: "my-msg-composer-action",
        stock_id: "document-new",
        label: "M_y Message Composer Action...",
        accelerator: None,
        tooltip: "My Message Composer Action",
        callback: ActionCallback::MsgComposer,
    });
    let g = ActionGroup { group: "core", domain: GETTEXT_PACKAGE, entries };
    assert(g@.entries =~= composer_actions_spec().entries);
    g
}

/// `std::str::from_utf8`. Its documentation says that it fails exactly when the
/// bytes are not UTF-8, and that otherwise the string it returns is made of
/// those bytes; vstd's `valid_utf8` is that definition of UTF-8.
#[verifier::external_body]
fn str_from_utf8(bytes: &[u8]) -> (r: Option<&str>)
    ensures
        r is Some <==> valid_utf8(bytes@),
        r matches Some(s) ==> s.spec_bytes() == bytes@,
{
    std::str::from_utf8(bytes).ok()
}

/// The window title the composer action reports: "(null)" where the window
/// has none, "(invalid UTF-8)" where its bytes are not UTF-8, else its text.
pub open spec fn composer_title_spec(title: Option<Seq<u8>>) -> Seq<char> {
    match title {
        None => "(null)"@,
        Some(bytes) => if valid_utf8(bytes) {
            decode_utf8(bytes)
        } else {
            "(invalid UTF-8)"@
        },
    }
}

/// The title of a composer window, from the bytes of its C string (without
/// the terminating NUL), or `None` where the window has no title.
pub fn composer_title(title: Option<&[u8]>) -> (r: String)
    ensures
        r@ == composer_title_spec(
            match title {
                Some(b) => Some(b@),
                None => None,
            },
        ),
        title is None ==> r@ == "(null)"@,
        title matches Some(b) ==> (valid_utf8(b@) ==> r@ == decode_utf8(b@)),
        title matches Some(b) ==> (valid_utf8(b@) ==> encode_utf8(r@) == b@),
        title matches Some(b) ==> (!valid_utf8(b@) ==> r@ == "(invalid UTF-8)"@),
{
    match title {
        None => "(null)".to_owned(),
        Some(bytes) => match str_from_utf8(bytes) {
            Some(s) => {
                proof {
                    broadcast use encode_utf8_decode_utf8;
                    assert(decode_utf8(encode_utf8(s@)) == s@);
                    law_title_is_the_window_text(bytes@);
                }
                s.to_owned()
            },
            None => "(invalid UTF-8)".to_owned(),
        },
    }
}

/// A title is reported as the window's own text: where its bytes are valid
/// UTF-8, whatever their length, the report is the text they decode to, and
/// encoding the report in UTF-8 gives back exactly those bytes.  Only bytes
/// that are not UTF-8 are reported as "(invalid UTF-8)", and a window without
/// a title as "(null)".
pub proof fn law_title_is_the_window_text(bytes: Seq<u8>)
    ensures
        valid_utf8(bytes) ==> composer_title_spec(Some(bytes)) == decode_utf8(bytes),
        valid_utf8(bytes) ==> encode_utf8(composer_title_spec(Some(bytes))) == bytes,
        !valid_utf8(bytes) ==> composer_title_spec(Some(bytes)) == "(invalid UTF-8)"@,
        composer_title_spec(None) == "(null)"@,
{
    if valid_utf8(bytes) {
        decode_utf8_encode_utf8(bytes);
    }
}

/// Two different titles in UTF-8 are never reported alike.
pub proof fn law_distinct_titles_are_reported_distinctly(b1: Seq<u8>, b2: Seq<u8>)
    requires
        valid_utf8(b1),
        valid_utf8(b2),
        b1 != b2,
    ensures
        composer_title_spec(Some(b1)) != composer_title_spec(Some(b2)),
{
    law_title_is_the_window_text(b1);
    law_title_is_the_window_text(b2);
}

proof fn lemma_encode_utf8_concat(c1: Seq<char>, c2: Seq<char>)
    ensures
        encode_utf8(c1 + c2) == encode_utf8(c1) + encode_utf8(c2),
    decreases c1.len(),
{
    if c1.len() == 0 {
        assert(c1 + c2 =~= c2);
        assert(encode_utf8(c1) + encode_utf8(c2) =~= encode_utf8(c2));
    } else {
        assert((c1 + c2).drop_first() =~= c1.drop_first() + c2);
        assert((c1 + c2)[0] == c1[0]);
        lemma_encode_utf8_concat(c1.drop_first(), c2);
        let e = encode_scalar(c1[0] as u32);
        assert(e + (encode_utf8(c1.drop_first()) + encode_utf8(c2)) =~= (e + encode_utf8(
            c1.drop_first(),
        )) + encode_utf8(c2));
    }
}

/// A title made of two parts in UTF-8 is reported as the reports of its parts,
/// one after the other: how a valid title is reported does not depend on its
/// length or on where it is cut.
pub proof fn law_title_of_joined_parts(b1: Seq<u8>, b2: Seq<u8>)
    requires
        valid_utf8(b1),
        valid_utf8(b2),
    ensures
        composer_title_spec(Some(b1 + b2)) == composer_title_spec(Some(b1)) + composer_title_spec(
            Some(b2),
        ),
{
    broadcast use valid_utf8_concat;

    let d1 = decode_utf8(b1);
    let d2 = decode_utf8(b2);
    decode_utf8_encode_utf8(b1);
    decode_utf8_encode_utf8(b2);
    lemma_encode_utf8_concat(d1, d2);
    encode_utf8_decode_utf8(d1 + d2);
    assert(valid_utf8(b1 + b2));
    law_title_is_the_window_text(b1 + b2);
}

} // verus!
