use jawn::{find_by_name, AssistantSummary, AsstId, CreateConfig, ResolveAction, Resolver};

fn summary(id: &str, name: Option<&str>) -> AssistantSummary {
    AssistantSummary { id: id.to_string(), name: name.map(|n| n.to_string()) }
}

fn config(name: &str, model: &str) -> CreateConfig {
    CreateConfig { name: name.to_string(), model: model.to_string() }
}

#[test]
fn find_by_name_takes_first_exact_match() {
    let list = vec![
        summary("A0", None),
        summary("A1", Some("jawn")),
        summary("A2", Some("Jawn")),
        summary("A3", Some("Jawn")),
    ];
    assert_eq!(find_by_name(&list, "Jawn"), Some(AsstId("A2".to_string())));
    assert_eq!(find_by_name(&list, "Other"), None);
    assert_eq!(find_by_name(&Vec::new(), "Jawn"), None);
}

#[test]
fn resolve_creates_when_missing() {
    let mut lists = 0;
    let mut creates = 0;
    let (mut r, action) = Resolver::new(config("Jawn", "gpt-x"), false);
    assert_eq!(action, ResolveAction::ListAssistants);
    lists += 1;
    let action = r.on_listed(&Vec::new());
    assert_eq!(action, ResolveAction::CreateAssistant(config("Jawn", "gpt-x")));
    creates += 1;
    let action = r.on_created(AsstId("A1".to_string()));
    assert_eq!(action, ResolveAction::Done(AsstId("A1".to_string())));
    assert_eq!((lists, creates), (1, 1));
}

#[test]
fn resolve_twice_gives_same_identity() {
    let (mut r, _) = Resolver::new(config("Jawn", "gpt-x"), false);
    let first = r.on_listed(&Vec::new());
    assert!(matches!(first, ResolveAction::CreateAssistant(_)));
    let first = r.on_created(AsstId("A1".to_string()));
    let after = vec![summary("A1", Some("Jawn"))];
    let (mut r2, _) = Resolver::new(config("Jawn", "gpt-x"), false);
    let second = r2.on_listed(&after);
    assert_eq!(first, second);
    assert_eq!(second, ResolveAction::Done(AsstId("A1".to_string())));
}

#[test]
fn resolve_with_recreate_replaces_identity() {
    let list = vec![summary("A0", Some("Jawn")), summary("B0", Some("Other"))];
    let (mut r, _) = Resolver::new(config("Jawn", "gpt-x"), true);
    let action = r.on_listed(&list);
    assert_eq!(action, ResolveAction::DeleteAssistant(AsstId("A0".to_string())));
    let action = r.on_deleted();
    assert_eq!(action, ResolveAction::CreateAssistant(config("Jawn", "gpt-x")));
    let action = r.on_created(AsstId("A1".to_string()));
    assert_eq!(action, ResolveAction::Done(AsstId("A1".to_string())));
    assert_ne!(action, ResolveAction::Done(AsstId("A0".to_string())));
}

#[test]
fn resolve_with_recreate_and_nothing_listed_creates() {
    let (mut r, _) = Resolver::new(config("Jawn", "gpt-x"), true);
    let action = r.on_listed(&vec![summary("B0", Some("Other"))]);
    assert_eq!(action, ResolveAction::CreateAssistant(config("Jawn", "gpt-x")));
}
