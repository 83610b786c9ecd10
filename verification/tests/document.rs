use kube_switch::cli::{Action, Args};
use kube_switch::error::Error;
use kube_switch::handlers::{
    dispatch, dispatch_answer, handle_context, handle_context_answer, handle_namespace,
    handle_namespace_answer, handle_namespace_listed, Config, Context, ContextEntry,
};
use kube_switch::step::Next;
use kube_switch::ui::{handle_skim, labels, unmark, PromptOutput};
use serde_yaml::Value;
use std::collections::HashMap;

fn entry(name: &str, namespace: Option<&str>) -> ContextEntry {
    ContextEntry {
        name: name.to_string(),
        context: Context { namespace: namespace.map(String::from), other: HashMap::new() },
        other: HashMap::new(),
    }
}

fn document(contexts: Vec<(&str, Option<&str>)>, current: &str) -> Config {
    Config {
        current_context: current.to_string(),
        contexts: contexts.into_iter().map(|(name, ns)| entry(name, ns)).collect(),
        other: HashMap::new(),
    }
}

fn generic() -> Config {
    document(vec![("ctx1", Some("default")), ("ctx2", None)], "ctx1")
}

fn fields(text: &str) -> HashMap<String, Value> {
    let parsed: Value = serde_yaml::from_str(text).expect("the text is YAML");
    let mut fields = HashMap::new();
    for (key, value) in parsed.as_mapping().expect("the text is a mapping") {
        fields.insert(key.as_str().expect("the key is a string").to_string(), value.clone());
    }
    fields
}

fn rich() -> Config {
    Config {
        current_context: "ctx1".to_string(),
        contexts: vec![
            ContextEntry {
                name: "ctx1".to_string(),
                context: Context {
                    namespace: Some("default".to_string()),
                    other: fields("cluster: prod\nuser: alice\nextensions:\n  - name: x\n    extension: 1\n"),
                },
                other: fields("note: first\n"),
            },
            ContextEntry {
                name: "ctx2".to_string(),
                context: Context { namespace: None, other: fields("cluster: dev\nuser: bob\n") },
                other: fields("note: second\n"),
            },
        ],
        other: fields(
            "apiVersion: v1\nkind: Config\npreferences: {}\nclusters:\n  - name: prod\n    cluster:\n      server: https://prod\nusers:\n  - name: alice\n    user:\n      token: abc\n",
        ),
    }
}

#[test]
fn context_with_name_sets_the_current_context() {
    let (config, next) = handle_context(generic(), &Some("ctx2".to_string()));
    assert_eq!(next, Next::Store);
    assert_eq!(config.current_context, "ctx2");
    assert_eq!(config.contexts, generic().contexts);
    assert_eq!(config.other, generic().other);
}

#[test]
fn context_with_unknown_name_sets_it() {
    let (config, next) = handle_context(generic(), &Some("nowhere".to_string()));
    assert_eq!(next, Next::Store);
    assert_eq!(config, document(vec![("ctx1", Some("default")), ("ctx2", None)], "nowhere"));
}

#[test]
fn context_without_name_asks_the_user() {
    let (config, next) = handle_context(generic(), &None);
    assert_eq!(next, Next::Prompt("ctx1 *\nctx2".to_string()));
    assert_eq!(config, generic());
}

#[test]
fn context_without_entries_asks_with_an_empty_text() {
    let (config, next) = handle_context(document(vec![], "ctx1"), &None);
    assert_eq!(next, Next::Prompt(String::new()));
    assert_eq!(config, document(vec![], "ctx1"));
}

#[test]
fn context_answer_sets_the_picked_context() {
    let (config, next) = handle_context_answer(generic(), Some("ctx2".to_string()));
    assert_eq!(next, Next::Store);
    assert_eq!(config, document(vec![("ctx1", Some("default")), ("ctx2", None)], "ctx2"));
}

#[test]
fn context_answer_strips_the_mark() {
    let (config, next) = handle_context_answer(generic(), Some("ctx1 *".to_string()));
    assert_eq!(next, Next::Store);
    assert_eq!(config, generic());
}

#[test]
fn context_answer_takes_an_empty_line() {
    let (config, next) = handle_context_answer(generic(), Some(String::new()));
    assert_eq!(next, Next::Store);
    assert_eq!(config.current_context, "");
    assert_eq!(config.contexts, generic().contexts);
}

#[test]
fn context_answer_cancelled() {
    let (config, next) = handle_context_answer(generic(), None);
    assert_eq!(next, Next::Fail(Error::SelectionCancelled));
    assert_eq!(config, generic());
}

#[test]
fn context_answer_after_abort() {
    let output = PromptOutput { is_abort: true, selected_items: vec!["ctx2".to_string()] };
    let (config, next) = handle_context_answer(rich(), handle_skim(Some(output)));
    assert_eq!(next, Next::Fail(Error::SelectionCancelled));
    assert_eq!(config, rich());
}

#[test]
fn context_through_the_prompt() {
    let (config, next) = handle_context(generic(), &None);
    assert_eq!(next, Next::Prompt("ctx1 *\nctx2".to_string()));
    let output = PromptOutput { is_abort: false, selected_items: vec!["ctx2".to_string()] };
    let (config, next) = handle_context_answer(config, handle_skim(Some(output)));
    assert_eq!(next, Next::Store);
    assert_eq!(config.current_context, "ctx2");
}

#[test]
fn every_context_label_selects_its_context() {
    let start = document(vec![("dev", None), ("staging", None), ("prod", None)], "staging");
    let names = start.context_names();
    let shown = labels(&names, Some(&start.current_context));
    assert_eq!(shown, vec!["dev".to_string(), "staging *".to_string(), "prod".to_string()]);
    for (name, line) in names.iter().zip(shown.iter()) {
        assert_eq!(&unmark(line), name);
        let (config, next) = handle_context_answer(start.clone(), Some(line.clone()));
        assert_eq!(next, Next::Store);
        assert_eq!(&config.current_context, name);
    }
}

#[test]
fn namespace_with_name_sets_the_namespace_of_the_current_context() {
    let (config, next) = handle_namespace(generic(), &Some("given-ns".to_string()));
    assert_eq!(next, Next::Store);
    assert_eq!(config.contexts[0].context.namespace, Some("given-ns".to_string()));
    assert_eq!(config.contexts[1], entry("ctx2", None));
    assert_eq!(config, document(vec![("ctx1", Some("given-ns")), ("ctx2", None)], "ctx1"));
}

#[test]
fn namespace_with_name_gives_a_namespace_to_an_entry_without_one() {
    let start = document(vec![("ctx1", Some("default")), ("ctx2", None)], "ctx2");
    let (config, next) = handle_namespace(start, &Some("given-ns".to_string()));
    assert_eq!(next, Next::Store);
    assert_eq!(config, document(vec![("ctx1", Some("default")), ("ctx2", Some("given-ns"))], "ctx2"));
}

#[test]
fn namespace_with_name_and_no_matching_entry_changes_nothing() {
    let start = document(vec![("ctx1", Some("default")), ("ctx2", None)], "gone");
    let (config, next) = handle_namespace(start.clone(), &Some("given-ns".to_string()));
    assert_eq!(next, Next::Store);
    assert_eq!(config, start);
}

#[test]
fn namespace_with_name_writes_the_first_entry_that_bears_the_name() {
    let start = document(vec![("a", None), ("dup", Some("one")), ("dup", Some("two"))], "dup");
    let (config, next) = handle_namespace(start, &Some("given-ns".to_string()));
    assert_eq!(next, Next::Store);
    assert_eq!(
        config,
        document(vec![("a", None), ("dup", Some("given-ns")), ("dup", Some("two"))], "dup")
    );
}

#[test]
fn namespace_without_name_asks_the_cluster() {
    let (config, next) = handle_namespace(generic(), &None);
    assert_eq!(next, Next::ListNamespaces);
    assert_eq!(config, generic());
}

#[test]
fn namespace_listed_marks_the_configured_namespace() {
    let items = vec![Some("default".to_string()), Some("given-ns".to_string())];
    let (config, next) = handle_namespace_listed(generic(), &items);
    assert_eq!(next, Next::Prompt("default *\ngiven-ns".to_string()));
    assert_eq!(config, generic());
}

#[test]
fn namespace_listed_without_configured_namespace_marks_nothing() {
    let start = document(vec![("ctx1", Some("default")), ("ctx2", None)], "ctx2");
    let items = vec![Some("default".to_string()), Some("given-ns".to_string())];
    let (_, next) = handle_namespace_listed(start, &items);
    assert_eq!(next, Next::Prompt("default\ngiven-ns".to_string()));
    let start = document(vec![("ctx1", Some("default"))], "gone");
    let (_, next) = handle_namespace_listed(start, &items);
    assert_eq!(next, Next::Prompt("default\ngiven-ns".to_string()));
}

#[test]
fn namespace_listed_reads_the_first_entry_that_bears_the_name() {
    let start = document(vec![("dup", Some("b")), ("dup", Some("a"))], "dup");
    let items = vec![Some("a".to_string()), Some("b".to_string())];
    let (_, next) = handle_namespace_listed(start, &items);
    assert_eq!(next, Next::Prompt("a\nb *".to_string()));
}

#[test]
fn namespace_through_the_prompt() {
    let (config, next) = handle_namespace(generic(), &None);
    assert_eq!(next, Next::ListNamespaces);
    let items = vec![Some("default".to_string()), Some("given-ns".to_string())];
    let (config, next) = handle_namespace_listed(config, &items);
    assert_eq!(next, Next::Prompt("default *\ngiven-ns".to_string()));
    let output = PromptOutput { is_abort: false, selected_items: vec!["given-ns".to_string()] };
    let (config, next) = handle_namespace_answer(config, handle_skim(Some(output)));
    assert_eq!(next, Next::Store);
    assert_eq!(config, document(vec![("ctx1", Some("given-ns")), ("ctx2", None)], "ctx1"));
}

#[test]
fn namespace_answer_strips_the_mark() {
    let (config, next) = handle_namespace_answer(generic(), Some("default *".to_string()));
    assert_eq!(next, Next::Store);
    assert_eq!(config, generic());
}

#[test]
fn namespace_answer_empty_keeps_the_document() {
    let (config, next) = handle_namespace_answer(rich(), Some(String::new()));
    assert_eq!(next, Next::Keep);
    assert_eq!(config, rich());
    let (config, next) = handle_namespace_answer(rich(), Some(" *".to_string()));
    assert_eq!(next, Next::Keep);
    assert_eq!(config, rich());
}

#[test]
fn namespace_answer_cancelled() {
    let (config, next) = handle_namespace_answer(rich(), None);
    assert_eq!(next, Next::Fail(Error::SelectionCancelled));
    assert_eq!(config, rich());
}

#[test]
fn namespace_answer_after_abort() {
    let output = PromptOutput { is_abort: true, selected_items: vec!["given-ns".to_string()] };
    let (config, next) = handle_namespace_answer(generic(), handle_skim(Some(output)));
    assert_eq!(next, Next::Fail(Error::SelectionCancelled));
    assert_eq!(config, generic());
}

#[test]
fn context_switch_keeps_every_other_field() {
    let (config, next) = handle_context(rich(), &Some("ctx2".to_string()));
    assert_eq!(next, Next::Store);
    let mut expected = rich();
    expected.current_context = "ctx2".to_string();
    assert_eq!(config, expected);
    assert_eq!(config.other.get("kind"), Some(&Value::String("Config".to_string())));
    assert_eq!(config.other.len(), 5);
    assert_eq!(config.contexts[0].other.get("note"), Some(&Value::String("first".to_string())));
    assert_eq!(
        config.contexts[1].context.other.get("user"),
        Some(&Value::String("bob".to_string()))
    );
}

#[test]
fn namespace_switch_keeps_every_other_field() {
    let (config, next) = handle_namespace(rich(), &Some("given-ns".to_string()));
    assert_eq!(next, Next::Store);
    let mut expected = rich();
    expected.contexts[0].context.namespace = Some("given-ns".to_string());
    assert_eq!(config, expected);
    assert_eq!(
        config.contexts[0].context.other.get("cluster"),
        Some(&Value::String("prod".to_string()))
    );
    assert_eq!(config.contexts[0].context.other.len(), 3);
    assert_eq!(config.contexts[1], rich().contexts[1]);
    assert_eq!(config.other, rich().other);
}

#[test]
fn lookup_takes_the_first_match() {
    let config = document(vec![("a", None), ("b", Some("x")), ("b", Some("y"))], "b");
    assert_eq!(config.find_context(&"b".to_string()), Some(1));
    assert_eq!(config.find_context(&"a".to_string()), Some(0));
    assert_eq!(config.find_context(&"c".to_string()), None);
    assert_eq!(config.current_namespace(), Some("x".to_string()));
    assert_eq!(document(vec![], "b").find_context(&"b".to_string()), None);
}

#[test]
fn current_namespace_of_a_missing_context() {
    assert_eq!(document(vec![("a", Some("x"))], "b").current_namespace(), None);
    assert_eq!(document(vec![("a", None)], "a").current_namespace(), None);
}

#[test]
fn context_names_in_document_order() {
    let config = document(vec![("z", None), ("a", None), ("z", None)], "a");
    assert_eq!(config.context_names(), vec!["z".to_string(), "a".to_string(), "z".to_string()]);
}

#[test]
fn setters_change_one_field() {
    let mut config = rich();
    config.set_current_context("ctx2".to_string());
    config.set_current_namespace("other-ns".to_string());
    let mut expected = rich();
    expected.current_context = "ctx2".to_string();
    expected.contexts[1].context.namespace = Some("other-ns".to_string());
    assert_eq!(config, expected);
}

#[test]
fn dispatch_on_the_action() {
    let args = Args { action: Action::Context, item_name: Some("ctx2".to_string()) };
    let (config, next) = dispatch(generic(), &args);
    assert_eq!(next, Next::Store);
    assert_eq!(config.current_context, "ctx2");

    let args = Args { action: Action::Namespace, item_name: Some("given-ns".to_string()) };
    let (config, next) = dispatch(generic(), &args);
    assert_eq!(next, Next::Store);
    assert_eq!(config, document(vec![("ctx1", Some("given-ns")), ("ctx2", None)], "ctx1"));

    let args = Args { action: Action::Context, item_name: None };
    let (_, next) = dispatch(generic(), &args);
    assert_eq!(next, Next::Prompt("ctx1 *\nctx2".to_string()));

    let args = Args { action: Action::Namespace, item_name: None };
    let (_, next) = dispatch(generic(), &args);
    assert_eq!(next, Next::ListNamespaces);
}

#[test]
fn context_that_ends_in_the_mark_stays_current_when_picked() {
    let start = document(vec![("prod *", None)], "prod *");
    let (config, next) = handle_context(start.clone(), &None);
    assert_eq!(next, Next::Prompt("prod * *".to_string()));
    let (config, next) = handle_context_answer(config, Some("prod * *".to_string()));
    assert_eq!(next, Next::Store);
    assert_eq!(config.current_context, "prod *");
    assert_eq!(config, start);
}

#[test]
fn namespace_that_ends_in_the_mark_stays_when_picked() {
    let start = document(vec![("ctx1", Some("ns *"))], "ctx1");
    let items = vec![Some("default".to_string()), Some("ns *".to_string())];
    let (config, next) = handle_namespace_listed(start.clone(), &items);
    assert_eq!(next, Next::Prompt("default\nns * *".to_string()));
    let (config, next) = handle_namespace_answer(config, Some("ns * *".to_string()));
    assert_eq!(next, Next::Store);
    assert_eq!(config, start);
}

#[test]
fn dispatch_answer_on_the_action() {
    let args = Args { action: Action::Context, item_name: None };
    let (config, next) = dispatch_answer(generic(), &args, Some("ctx2".to_string()));
    assert_eq!(next, Next::Store);
    assert_eq!(config, document(vec![("ctx1", Some("default")), ("ctx2", None)], "ctx2"));

    let args = Args { action: Action::Namespace, item_name: None };
    let (config, next) = dispatch_answer(generic(), &args, Some("ctx2".to_string()));
    assert_eq!(next, Next::Store);
    assert_eq!(config, document(vec![("ctx1", Some("ctx2")), ("ctx2", None)], "ctx1"));
}

#[test]
fn dispatch_answer_tells_empty_from_cancelled_by_the_action() {
    let context = Args { action: Action::Context, item_name: None };
    let namespace = Args { action: Action::Namespace, item_name: None };

    let (config, next) = dispatch_answer(generic(), &context, Some(String::new()));
    assert_eq!(next, Next::Store);
    assert_eq!(config.current_context, "");
    let (config, next) = dispatch_answer(generic(), &namespace, Some(String::new()));
    assert_eq!(next, Next::Keep);
    assert_eq!(config, generic());

    let (config, next) = dispatch_answer(generic(), &context, None);
    assert_eq!(next, Next::Fail(Error::SelectionCancelled));
    assert_eq!(config, generic());
    let (config, next) = dispatch_answer(generic(), &namespace, None);
    assert_eq!(next, Next::Fail(Error::SelectionCancelled));
    assert_eq!(config, generic());
}
