use taskwarrior_tui::keyconfig::{
    DuplicateBindingError, KeyBinding, KeyConfig, ACTIONS, CONFIGURABLE, HELP,
};

fn key(c: char) -> KeyBinding {
    KeyBinding { code: c, modifiers: 0 }
}

#[test]
fn defaults_pass_check() {
    let kc = KeyConfig::default();
    assert_eq!(kc.check(), Ok(()));
    assert_eq!(kc.quit, key('q'));
    assert_eq!(kc.done, key('d'));
    assert_eq!(kc.delete, key('x'));
    assert_eq!(kc.next_tab, key(']'));
    assert_eq!(kc.help, key('?'));
    assert_eq!(kc.shortcut0, key('0'));
    assert_eq!(kc.shortcut9, key('9'));
}

#[test]
fn defaults_are_pairwise_distinct() {
    let kc = KeyConfig::default();
    for i in 0..ACTIONS {
        for j in (i + 1)..ACTIONS {
            assert_ne!(kc.binding(i), kc.binding(j), "slots {} and {}", i, j);
        }
    }
}

#[test]
fn new_without_text_gives_defaults() {
    let kc = KeyConfig::new("").unwrap();
    let d = KeyConfig::default();
    for i in 0..ACTIONS {
        assert_eq!(kc.binding(i), d.binding(i));
    }
}

#[test]
fn single_character_override_replaces_binding() {
    let kc = KeyConfig::new("uda.taskwarrior-tui.keyconfig.quit Q\n").unwrap();
    assert_eq!(kc.quit, key('Q'));
    assert_eq!(kc.refresh, key('r'));
}

#[test]
fn every_configurable_action_can_be_set() {
    let names = [
        "quit", "refresh", "go-to-bottom", "go-to-top", "down", "up", "page-down", "page-up",
        "delete", "done", "start-stop", "select", "select-all", "undo", "edit", "modify",
        "shell", "log", "add", "annotate", "filter", "zoom", "context-menu", "next-tab",
        "previous-tab",
    ];
    assert_eq!(names.len(), CONFIGURABLE);
    for (i, n) in names.iter().enumerate() {
        let mut kc = KeyConfig::default();
        let text = format!("uda.taskwarrior-tui.keyconfig.{} %\n", n);
        assert_eq!(kc.update(&text), Ok(()));
        assert_eq!(kc.binding(i), key('%'), "{}", n);
    }
}

#[test]
fn long_or_empty_value_is_ignored() {
    let kc = KeyConfig::new(
        "uda.taskwarrior-tui.keyconfig.quit QQ\nuda.taskwarrior-tui.keyconfig.done   \n",
    )
    .unwrap();
    assert_eq!(kc.quit, key('q'));
    assert_eq!(kc.done, key('d'));
}

#[test]
fn value_is_trimmed() {
    let kc = KeyConfig::new("uda.taskwarrior-tui.keyconfig.quit   Z  \t\n").unwrap();
    assert_eq!(kc.quit, key('Z'));
    let kc = KeyConfig::new("uda.taskwarrior-tui.keyconfig.quit\u{3000}Y\u{a0}").unwrap();
    assert_eq!(kc.quit, key('Y'));
}

#[test]
fn one_non_ascii_character_is_a_value() {
    let kc = KeyConfig::new("uda.taskwarrior-tui.keyconfig.quit é").unwrap();
    assert_eq!(kc.quit, key('é'));
}

#[test]
fn first_matching_line_wins() {
    let kc = KeyConfig::new(
        "uda.taskwarrior-tui.keyconfig.quit Q\nuda.taskwarrior-tui.keyconfig.quit W\n",
    )
    .unwrap();
    assert_eq!(kc.quit, key('Q'));
    let kc = KeyConfig::new(
        "uda.taskwarrior-tui.keyconfig.quit QQ\nuda.taskwarrior-tui.keyconfig.quit W\n",
    )
    .unwrap();
    assert_eq!(kc.quit, key('q'));
}

#[test]
fn unrecognized_lines_are_ignored() {
    let kc = KeyConfig::new(
        "color.active=blue\n# comment\nuda.taskwarrior-tui.keyconfig.jump Q\nuda.taskwarrior-tui.keyconfig.help H\n",
    )
    .unwrap();
    let d = KeyConfig::default();
    for i in 0..ACTIONS {
        assert_eq!(kc.binding(i), d.binding(i));
    }
}

#[test]
fn other_namespace_is_ignored() {
    let kc = KeyConfig::new("uda.foo.keyconfig.quit Z\n").unwrap();
    assert_eq!(kc.quit, key('q'));
    let kc = KeyConfig::new(
        "uda.foo.keyconfig.quit Z\nuda.taskwarrior-tui.keyconfig.quit Q\n",
    )
    .unwrap();
    assert_eq!(kc.quit, key('Q'));
    let kc = KeyConfig::new(
        "uda.foo.keyconfig.quit Z\nuda.taskwarrior-tui.keyconfig.quit QQ\n",
    )
    .unwrap();
    assert_eq!(kc.quit, key('q'));
}

#[test]
fn underscore_spelling_of_namespace_is_ignored() {
    let kc = KeyConfig::new("uda.taskwarrior_tui.keyconfig.quit Z\n").unwrap();
    assert_eq!(kc.quit, key('q'));
}

#[test]
fn hyphen_and_underscore_spellings_agree() {
    let a = KeyConfig::new("uda.taskwarrior-tui.keyconfig.go-to-bottom X").unwrap();
    let b = KeyConfig::new("uda.taskwarrior-tui.keyconfig.go_to_bottom X").unwrap();
    assert_eq!(a.go_to_bottom, key('X'));
    for i in 0..ACTIONS {
        assert_eq!(a.binding(i), b.binding(i));
    }
}

#[test]
fn colliding_override_fails() {
    let mut kc = KeyConfig::default();
    let r = kc.update("uda.taskwarrior-tui.keyconfig.quit d\n");
    assert_eq!(r, Err(DuplicateBindingError { first: 0, second: 9 }));
    // a retry from the defaults is not affected
    let kc = KeyConfig::new("uda.taskwarrior-tui.keyconfig.quit Q\n").unwrap();
    assert_eq!(kc.quit, key('Q'));
    assert_eq!(kc.check(), Ok(()));
}

#[test]
fn collision_with_a_shortcut_fails() {
    let r = KeyConfig::new("uda.taskwarrior-tui.keyconfig.zoom 5\n");
    assert_eq!(r.unwrap_err(), DuplicateBindingError { first: 21, second: 31 });
}

#[test]
fn help_key_is_exempt() {
    let kc = KeyConfig::new("uda.taskwarrior-tui.keyconfig.quit ?\n").unwrap();
    assert_eq!(kc.quit, key('?'));
    assert_eq!(kc.binding(HELP), key('?'));
}

#[test]
fn two_actions_set_to_one_key_fail() {
    let r = KeyConfig::new(
        "uda.taskwarrior-tui.keyconfig.quit Q\nuda.taskwarrior-tui.keyconfig.done Q\n",
    );
    assert_eq!(r.unwrap_err(), DuplicateBindingError { first: 0, second: 9 });
}

#[test]
fn swapping_two_keys_passes() {
    let kc = KeyConfig::new(
        "uda.taskwarrior-tui.keyconfig.up j\nuda.taskwarrior-tui.keyconfig.down k\n",
    )
    .unwrap();
    assert_eq!(kc.up, key('j'));
    assert_eq!(kc.down, key('k'));
}

#[test]
fn longer_key_does_not_mask_shorter_one() {
    let kc = KeyConfig::new(
        "uda.taskwarrior-tui.keyconfig.select-all S\nuda.taskwarrior-tui.keyconfig.select w\n",
    )
    .unwrap();
    assert_eq!(kc.select_all, key('S'));
    assert_eq!(kc.select, key('w'));
}

#[test]
fn key_must_end_before_value() {
    let kc = KeyConfig::new("uda.taskwarrior-tui.keyconfig.quitQ\n").unwrap();
    assert_eq!(kc.quit, key('q'));
}

#[test]
fn crlf_line_endings_are_trimmed() {
    let kc = KeyConfig::new("uda.taskwarrior-tui.keyconfig.log L\r\nuda.taskwarrior-tui.keyconfig.add P\r\n")
        .unwrap();
    assert_eq!(kc.log, key('L'));
    assert_eq!(kc.add, key('P'));
}

#[test]
fn spellings_agree_on_every_binding() {
    for (hy, us) in [
        ("uda.taskwarrior-tui.keyconfig.page-down N\nuda.taskwarrior-tui.keyconfig.undo U", "uda.taskwarrior-tui.keyconfig.page_down N\nuda.taskwarrior-tui.keyconfig.undo U"),
        ("uda.taskwarrior-tui.keyconfig.select-all  \t", "uda.taskwarrior-tui.keyconfig.select_all  \t"),
        ("uda.taskwarrior-tui.keyconfig.next-tab d", "uda.taskwarrior-tui.keyconfig.next_tab d"),
    ] {
        let mut a = KeyConfig::default();
        let mut b = KeyConfig::default();
        assert_eq!(a.update(hy), b.update(us));
        for i in 0..ACTIONS {
            assert_eq!(a.binding(i), b.binding(i));
        }
    }
}
