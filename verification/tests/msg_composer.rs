use lib::actions::ActionCallback;
use lib::msg_composer::{composer_actions, composer_title, COMPOSER_UI_DEF, TYPE_NAME};

#[test]
fn title_of_window_without_title() {
    assert_eq!(composer_title(None), "(null)");
}

#[test]
fn title_in_utf8() {
    assert_eq!(composer_title(Some(b"Compose Message")), "Compose Message");
    assert_eq!(composer_title(Some("Réponse à Zoë".as_bytes())), "Réponse à Zoë");
    assert_eq!(composer_title(Some(b"")), "");
}

#[test]
fn title_not_in_utf8() {
    assert_eq!(composer_title(Some(&[0x66, 0x6f, 0xff])), "(invalid UTF-8)");
    // an overlong encoding of '/'
    assert_eq!(composer_title(Some(&[0xc0, 0xaf])), "(invalid UTF-8)");
    // a UTF-16 surrogate encoded in UTF-8
    assert_eq!(composer_title(Some(&[0xed, 0xa0, 0x80])), "(invalid UTF-8)");
    // a truncated sequence
    assert_eq!(composer_title(Some(&[0xe2, 0x82])), "(invalid UTF-8)");
}

#[test]
fn composer_action_group() {
    let g = composer_actions();
    assert_eq!(g.group, "core");
    assert_eq!(g.domain, "example-module");
    assert_eq!(g.entries.len(), 1);
    let e = &g.entries[0];
    assert_eq!(e.name, "my-msg-composer-action");
    assert_eq!(e.stock_id, "document-new");
    assert_eq!(e.label, "M_y Message Composer Action...");
    assert_eq!(e.accelerator, None);
    assert_eq!(e.tooltip, "My Message Composer Action");
    assert_eq!(e.callback, ActionCallback::MsgComposer);
}

#[test]
fn composer_ui_definition() {
    assert!(COMPOSER_UI_DEF.starts_with("<menubar name='main-menu'>"));
    assert!(COMPOSER_UI_DEF.contains("<menuitem action='my-msg-composer-action'/>"));
    assert!(COMPOSER_UI_DEF.contains("</menubar>\n<toolbar name='main-toolbar'>"));
    assert!(COMPOSER_UI_DEF.ends_with("</toolbar>"));
    assert_eq!(TYPE_NAME, "MMsgComposerExtension");
}

#[test]
fn composer_strings_hold_no_nul() {
    assert!(!COMPOSER_UI_DEF.contains('\0'));
    assert!(!TYPE_NAME.contains('\0'));
    let g = composer_actions();
    assert!(!g.group.contains('\0') && !g.domain.contains('\0'));
    for e in &g.entries {
        for t in [e.name, e.stock_id, e.label, e.tooltip] {
            assert!(!t.contains('\0'));
        }
    }
}
