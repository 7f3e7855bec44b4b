use groupme_tui::{clean_str, contains_user, image_urls, key_action, unescape_message_text,
    Attachment, Config, DispMode, DirectMessage, GroupInfo, InputAction, InputLine, Key, Lists,
    Modes};

#[test]
fn default_config_has_empty_secret() {
    let c = Config::default();
    assert_eq!(c.secret, "");
}

#[test]
fn clean_str_strips_the_quotes() {
    assert_eq!(clean_str("\"abc\"".to_string()), "abc");
    assert_eq!(clean_str("\"\"".to_string()), "");
    assert_eq!(clean_str("\"a\"".to_string()), "a");
}

#[test]
fn unescape_turns_pairs_into_characters() {
    assert_eq!(unescape_message_text("line\\nnext"), "line\nnext");
    assert_eq!(unescape_message_text("say \\\"hi\\\""), "say \"hi\"");
    assert_eq!(unescape_message_text("plain"), "plain");
    assert_eq!(unescape_message_text(""), "");
    assert_eq!(unescape_message_text("\\"), "\\");
    assert_eq!(unescape_message_text("\\\\n"), "\\\n");
}

#[test]
fn liked_when_the_subject_is_among_the_likers() {
    let likers = vec!["1".to_string(), "42".to_string()];
    assert!(contains_user(&likers, &"42".to_string()));
    assert!(!contains_user(&likers, &"7".to_string()));
    assert!(!contains_user(&Vec::new(), &"42".to_string()));
}

#[test]
fn only_image_attachments_keep_their_urls() {
    let attachments = vec![
        Attachment { kind: "image".to_string(), url: "https://example.com/a.png".to_string() },
        Attachment { kind: "emoji".to_string(), url: "x".to_string() },
        Attachment { kind: "image".to_string(), url: "https://example.com/b.png".to_string() },
    ];
    assert_eq!(
        image_urls(&attachments),
        vec!["https://example.com/a.png".to_string(), "https://example.com/b.png".to_string()]
    );
    assert!(image_urls(&Vec::new()).is_empty());
}

#[test]
fn list_selection_wraps_both_ways() {
    let items = vec![
        GroupInfo { name: "a".into(), id: "1".into(), lmid: "9".into(), message_count: 3 },
        GroupInfo { name: "b".into(), id: "2".into(), lmid: "8".into(), message_count: 0 },
        GroupInfo { name: "c".into(), id: "3".into(), lmid: "7".into(), message_count: 1 },
    ];
    let mut l = Lists::new(items, true);
    assert_eq!(l.selected, Some(0));
    l.next();
    assert_eq!(l.selected, Some(1));
    l.next();
    l.next();
    assert_eq!(l.selected, Some(0), "past the end the selection wraps to the first");
    l.previous();
    assert_eq!(l.selected, Some(2), "before the first the selection wraps to the last");
}

#[test]
fn unselected_list_lands_on_an_end() {
    let items = vec![
        DirectMessage { name: "a".into(), id: "1".into() },
        DirectMessage { name: "b".into(), id: "2".into() },
    ];
    let mut l = Lists::new(items, false);
    assert_eq!(l.selected, None);
    l.previous();
    assert_eq!(l.selected, Some(1));
    let mut l2 = Lists::new(
        vec![DirectMessage { name: "a".into(), id: "1".into() }],
        false,
    );
    l2.next();
    assert_eq!(l2.selected, Some(0));
}

#[test]
fn empty_list_starts_unselected() {
    let l = Lists::new(Vec::<u64>::new(), true);
    assert_eq!(l.selected, None);
    assert!(l.items.is_empty());
}

#[test]
fn set_items_clears_the_selection() {
    let mut l = Lists::new(vec![1u64, 2, 3], true);
    l.next();
    l.set_items(vec![7u64]);
    assert_eq!(l.selected, None);
    assert_eq!(l.items, vec![7u64]);
}

#[test]
fn key_dispatch_follows_the_mode() {
    assert!(key_action(Modes::GroupNav, DispMode::Main, Key::Char('j')) == InputAction::NextGroup);
    assert!(key_action(Modes::GroupNav, DispMode::Main, Key::Up) == InputAction::PrevGroup);
    assert!(key_action(Modes::GroupNav, DispMode::Main, Key::Enter) == InputAction::OpenGroup);
    assert!(key_action(Modes::GroupNav, DispMode::Main, Key::Char('q')) == InputAction::Quit);
    assert!(key_action(Modes::GroupNav, DispMode::Main, Key::Char('d'))
        == InputAction::ToDirectNav);
    assert!(key_action(Modes::DirectNav, DispMode::Main, Key::Char('g'))
        == InputAction::ToGroupNav);
    assert!(key_action(Modes::DirectNav, DispMode::Main, Key::Char('l'))
        == InputAction::OpenDirect);
    assert!(key_action(Modes::MessageNav, DispMode::Main, Key::Char('r'))
        == InputAction::Refresh);
    assert!(key_action(Modes::MessageNav, DispMode::Main, Key::Enter)
        == InputAction::LikeSelected);
    assert!(key_action(Modes::MessageNav, DispMode::Main, Key::Esc) == InputAction::BackToNav);
    assert!(key_action(Modes::Inputting, DispMode::Main, Key::Char('x'))
        == InputAction::InsertChar('x'));
    assert!(key_action(Modes::Inputting, DispMode::Main, Key::Enter) == InputAction::Submit);
    assert!(key_action(Modes::Inputting, DispMode::Main, Key::Esc) == InputAction::StopInput);
    assert!(key_action(Modes::GroupNav, DispMode::Main, Key::Char('z')) == InputAction::NoOp);
}

#[test]
fn help_screen_escape_wins_over_the_mode() {
    assert!(key_action(Modes::Inputting, DispMode::Help, Key::Esc) == InputAction::CloseHelp);
    assert!(key_action(Modes::GroupNav, DispMode::Help, Key::Esc) == InputAction::CloseHelp);
    assert!(key_action(Modes::GroupNav, DispMode::Help, Key::Char('j'))
        == InputAction::NextGroup);
}

#[test]
fn input_line_editing() {
    let mut line = InputLine::new();
    line.insert_char('h');
    line.insert_char('i');
    assert_eq!(line.text, vec!['h', 'i']);
    assert_eq!(line.cursor, 2);
    line.cursor_left();
    line.insert_char('e');
    assert_eq!(line.text, vec!['h', 'e', 'i']);
    line.cursor_right();
    line.insert_char('!');
    assert_eq!(line.text, vec!['h', 'e', 'i', '!']);
    line.backspace();
    assert_eq!(line.text, vec!['h', 'e', 'i']);
    let taken = line.take();
    assert_eq!(taken, vec!['h', 'e', 'i']);
    assert!(line.text.is_empty());
    assert_eq!(line.cursor, 0);
}

#[test]
fn input_line_edges_are_safe() {
    let mut line = InputLine::new();
    line.backspace();
    line.cursor_left();
    line.cursor_right();
    assert!(line.text.is_empty());
    assert_eq!(line.cursor, 0);
}
