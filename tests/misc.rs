use jawn::{
    bundle_header, format_reply, join_lines, keep_entry, walk_depth, Cmd, Config,
    ConversationLocks, CreateConfig, ThreadId, DEEP_WALK, SHALLOW_WALK,
};

#[test]
fn commands_are_read_exactly() {
    assert_eq!(Cmd::from_input("/q".to_string()), Cmd::Quit);
    assert_eq!(Cmd::from_input("/r".to_string()), Cmd::RefreshAll);
    assert_eq!(Cmd::from_input("/ra".to_string()), Cmd::RefreshAll);
    assert_eq!(Cmd::from_input("/ri".to_string()), Cmd::REfreshInst);
    assert_eq!(Cmd::from_input("/rf".to_string()), Cmd::RefreshFiles);
    assert_eq!(Cmd::from_input("/rc".to_string()), Cmd::RefreshConv);
    assert_eq!(Cmd::from_input("/q ".to_string()), Cmd::Chat("/q ".to_string()));
    assert_eq!(Cmd::from_input("hello".to_string()), Cmd::Chat("hello".to_string()));
}

#[test]
fn replies_wrap_at_eighty_columns() {
    let word = "abcdefghi";
    let text = vec![word; 12].join(" ");
    let out = format_reply(&text);
    assert_ne!(out, text);
    let lines: Vec<&str> = out.split('\n').collect();
    assert_eq!(lines.len(), 2);
    assert!(lines.iter().all(|l| l.chars().count() <= 80));
    assert_eq!(lines.join(" "), text);
    assert_eq!(format_reply("short"), "short");
}

#[test]
fn lines_are_joined_with_line_feeds() {
    assert_eq!(join_lines(&vec![]), "");
    assert_eq!(join_lines(&vec!["a".to_string()]), "a");
    assert_eq!(join_lines(&vec!["a".to_string(), "".to_string(), "c".to_string()]), "a\n\nc");
}

#[test]
fn walk_depth_follows_double_star() {
    assert_eq!(walk_depth(None), SHALLOW_WALK);
    assert_eq!(walk_depth(Some(&vec!["*.rs".to_string()])), 1);
    assert_eq!(walk_depth(Some(&vec!["*.rs".to_string(), "src/**/*.rs".to_string()])), DEEP_WALK);
    assert_eq!(DEEP_WALK, 100);
    assert_eq!(walk_depth(Some(&vec!["*".to_string(), "a*b*".to_string()])), 1);
}

#[test]
fn entries_kept_by_walk() {
    assert!(keep_entry(true, false, true, Some(false)));
    assert!(!keep_entry(true, true, false, None));
    assert!(!keep_entry(false, false, true, Some(true)));
    assert!(keep_entry(false, false, false, None));
    assert!(!keep_entry(false, false, false, Some(false)));
}

#[test]
fn bundle_header_names_the_file() {
    assert_eq!(bundle_header("src/main.rs"), "\n// === file path: src/main.rs\n");
}

#[test]
fn create_config_from_settings() {
    let c = Config {
        name: "Jawn".to_string(),
        model: "gpt-x".to_string(),
        instruction_file: "inst.md".to_string(),
        file_bundles: vec![],
    };
    assert_eq!(
        CreateConfig::from(&c),
        CreateConfig { name: "Jawn".to_string(), model: "gpt-x".to_string() }
    );
}

#[test]
fn one_dispatch_per_conversation() {
    let mut locks = ConversationLocks::new();
    let t1 = ThreadId("T1".to_string());
    let t2 = ThreadId("T2".to_string());
    assert!(locks.try_acquire(&t1));
    assert!(!locks.try_acquire(&t1));
    assert!(locks.try_acquire(&t2));
    assert!(locks.is_busy(&t1));
    locks.release(&t1);
    assert!(!locks.is_busy(&t1));
    assert!(locks.is_busy(&t2));
    assert!(locks.try_acquire(&t1));
}
