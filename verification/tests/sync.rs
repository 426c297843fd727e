use secret_operators::objects::{Namespace, Secret};
use secret_operators::string_map::{ByteMap, FieldMap};
use secret_operators::sync::constants::{
    ANNOTATION_CLONED_FROM, ANNOTATION_ENABLED, ANNOTATION_NAMESPACES, ANNOTATION_NAMESPACES_DENY,
    ANNOTATION_PREFIX,
};
use secret_operators::sync::error::Error;
use secret_operators::sync::globlist::{fits, GlobList, MAX_NESTING, TOO_LARGE};
use secret_operators::sync::operator::{
    can_handle, copy_secret, get_globbers, receives_copy, reconcile_namespace, reconcile_secret,
    refused, remove_own_fields, sync_secret, written, SyncStep,
};
use secret_operators::store::StoreError;
use secret_operators::utils::{default_error_policy, error_policy, Action};
use std::collections::BTreeMap;
use std::sync::Arc;

fn fields(pairs: &[(&str, &str)]) -> FieldMap {
    let mut map = FieldMap::new();
    for (key, value) in pairs {
        map.insert(key.to_string(), value.to_string());
    }
    map
}

fn secret(namespace: &str, name: &str, annotations: Option<FieldMap>) -> Secret {
    let mut data = ByteMap::new();
    data.insert("password".to_string(), b"hunter2".to_vec());
    Secret {
        namespace: namespace.to_string(),
        name: name.to_string(),
        labels: None,
        annotations,
        data: Some(data),
        type_: Some("Opaque".to_string()),
        immutable: None,
        finalizers: None,
        owner_references: None,
        deletion_timestamp: None,
    }
}

fn namespace(name: &str, enabled: bool) -> Namespace {
    Namespace {
        name: name.to_string(),
        labels: None,
        annotations: if enabled { Some(fields(&[(ANNOTATION_ENABLED, "")])) } else { None },
    }
}

fn source(namespace: &str, name: &str, allow: &str) -> Secret {
    secret(
        namespace,
        name,
        Some(fields(&[(ANNOTATION_ENABLED, "true"), (ANNOTATION_NAMESPACES, allow)])),
    )
}

fn targets(writes: &[Secret]) -> Vec<(String, String)> {
    writes.iter().map(|w| (w.namespace.clone(), w.name.clone())).collect()
}

#[test]
fn constants_share_the_reserved_prefix() {
    assert_eq!(ANNOTATION_PREFIX, "dev.withlazers.operator.secret-sync-operator/");
    assert_eq!(ANNOTATION_ENABLED, format!("{}enabled", ANNOTATION_PREFIX));
    assert_eq!(ANNOTATION_CLONED_FROM, format!("{}cloned_from_namespace", ANNOTATION_PREFIX));
    assert_eq!(ANNOTATION_NAMESPACES, format!("{}namespace", ANNOTATION_PREFIX));
    assert_eq!(ANNOTATION_NAMESPACES_DENY, format!("{}namespace_deny", ANNOTATION_PREFIX));
}

#[test]
fn glob_list_matches_when_one_pattern_does() {
    let list = GlobList::new("team-* other").unwrap();
    assert!(list.is_match("team-b"));
    assert!(list.is_match("other"));
    assert!(!list.is_match("prod"));
    assert!(!list.is_match("team"));
}

#[test]
fn glob_list_matches_by_pattern_not_by_text() {
    let list = GlobList::new("a?c [xy]z").unwrap();
    assert!(list.is_match("abc"));
    assert!(list.is_match("xz"));
    assert!(!list.is_match("[xy]z"));
    assert!(!list.is_match("a"));
    assert!(!list.is_match("ac"));
}

#[test]
fn glob_list_of_no_pattern_matches_nothing() {
    let list = GlobList::new("").unwrap();
    assert!(!list.is_match(""));
    assert!(!list.is_match("anything"));
    let blank = GlobList::new("    ").unwrap();
    assert!(!blank.is_match("anything"));
}

#[test]
fn glob_list_ignores_repeated_spaces() {
    let list = GlobList::new("  alpha   beta ").unwrap();
    assert!(list.is_match("alpha"));
    assert!(list.is_match("beta"));
    assert!(!list.is_match(""));
    assert!(!list.is_match("alpha beta"));
}

#[test]
fn glob_list_order_does_not_matter() {
    let one = GlobList::new("a* *z").unwrap();
    let two = GlobList::new("*z a*").unwrap();
    for name in ["abc", "xyz", "az", "mid", ""] {
        assert_eq!(one.is_match(name), two.is_match(name));
    }
}

#[test]
fn glob_list_fails_on_the_first_bad_pattern() {
    let error = GlobList::new("good [bad {worse").unwrap_err();
    assert_eq!(error.glob, Some("[bad".to_string()));
    assert!(!error.message.is_empty());
    assert_ne!(error.message, TOO_LARGE);
    let other = GlobList::new("{worse [bad").unwrap_err();
    assert_eq!(other.glob, Some("{worse".to_string()));
}

#[test]
fn glob_list_compiles_long_and_wide_patterns() {
    let long = "a".repeat(300_000);
    assert!(fits(&long));
    assert!(GlobList::new(&long).unwrap().is_match(&long));
    assert!(GlobList::new(&"a".repeat(4097)).is_ok());
    let wide = "{a,b}".repeat(65);
    assert!(fits(&wide));
    assert!(GlobList::new(&wide).unwrap().is_match(&"a".repeat(65)));
    let many = "[xy]{a,b}".repeat(300);
    assert!(fits(&many));
    assert!(GlobList::new(&many).unwrap().is_match(&"xa".repeat(300)));
    let braces_in_classes = "[{]".repeat(300);
    assert!(fits(&braces_in_classes));
    assert!(GlobList::new(&braces_in_classes).unwrap().is_match(&"{".repeat(300)));
}

#[test]
fn glob_list_compiles_nested_patterns() {
    for depth in [1, 10, 100, 200] {
        let nested = format!("{}a{}", "{".repeat(depth), "}".repeat(depth));
        assert!(fits(&nested));
        assert!(GlobList::new(&nested).unwrap().is_match("a"));
    }
    let mut branches = String::from("z");
    for _ in 0..60 {
        branches = format!("{{a*b?,[c-d]**/{}x}}", branches);
    }
    assert!(fits(&branches));
    assert!(GlobList::new(&branches).is_ok());
}

#[test]
fn glob_list_reports_what_globset_cannot_compile() {
    let stars = "*a".repeat(200_000);
    assert!(fits(&stars));
    let error = GlobList::new(&stars).unwrap_err();
    assert_eq!(error.glob, Some(stars));
    assert_ne!(error.message, TOO_LARGE);
    let nested = format!("{}a{}", "{".repeat(MAX_NESTING), "}".repeat(MAX_NESTING));
    assert!(fits(&nested));
    let error = GlobList::new(&nested).unwrap_err();
    assert_eq!(error.glob, Some(nested));
    assert_ne!(error.message, TOO_LARGE);
}

#[test]
fn glob_list_refuses_nesting_beyond_the_limit() {
    let nested = format!("{}a{}", "{".repeat(MAX_NESTING + 1), "}".repeat(MAX_NESTING + 1));
    assert!(!fits(&nested));
    let error = GlobList::new(&nested).unwrap_err();
    assert_eq!(error.glob, Some(nested));
    assert_eq!(error.message, TOO_LARGE);
    let hollow = format!("{}{}", "{".repeat(MAX_NESTING + 1), "}".repeat(MAX_NESTING + 1));
    assert!(!fits(&hollow));
}

#[test]
fn fits_takes_escaped_characters_out_of_the_count() {
    let wide = format!("\\a{}", "{a}".repeat(MAX_NESTING + 1));
    assert!(fits(&wide));
    assert!(GlobList::new(&wide).unwrap().is_match(&"a".repeat(MAX_NESTING + 2)));
    let escaped = "\\{".repeat(300);
    assert!(fits(&escaped));
    assert!(GlobList::new(&escaped).unwrap().is_match(&"{".repeat(300)));
    let escaped_backslash =
        format!("\\\\{}a{}", "{".repeat(MAX_NESTING + 1), "}".repeat(MAX_NESTING + 1));
    assert!(!fits(&escaped_backslash));
    let member = format!("[\\]{}", "{".repeat(MAX_NESTING + 1));
    assert!(!fits(&member));
    assert!(fits(&format!("{}\\[}}]{{", "{".repeat(MAX_NESTING))));
    assert!(!fits(&format!("{}[}}]{{", "{".repeat(MAX_NESTING))));
    assert!(fits(&format!("{}\\}}{}", "{".repeat(MAX_NESTING), "}".repeat(MAX_NESTING))));
}

#[test]
fn fits_follows_braces_through_classes() {
    assert!(fits(""));
    assert!(fits(&"{}".repeat(1000)));
    assert!(fits(&format!("{}{}", "{".repeat(MAX_NESTING), "}".repeat(MAX_NESTING))));
    assert!(fits(&format!("[]{}]", "{".repeat(1000))));
    assert!(fits(&format!("[!]{}]", "{".repeat(1000))));
    assert!(fits(&format!("[^{}]", "{".repeat(1000))));
    assert!(!fits(&format!("[a]{}", "{".repeat(MAX_NESTING + 1))));
    assert!(!fits(&format!("[]]{}", "{".repeat(MAX_NESTING + 1))));
    assert!(fits(&format!("{}[}}]", "{".repeat(MAX_NESTING))));
    assert!(!fits(&format!("{}[}}]{{{{", "{".repeat(MAX_NESTING - 1))));
    assert!(fits(&format!("{}}}{{", "{".repeat(MAX_NESTING))));
}

#[test]
fn can_handle_needs_the_enabled_marker() {
    assert!(!can_handle(&None));
    assert!(!can_handle(&Some(FieldMap::new())));
    assert!(!can_handle(&Some(fields(&[("unrelated", "x")]))));
    assert!(can_handle(&Some(fields(&[(ANNOTATION_ENABLED, "")]))));
    assert!(can_handle(&Some(fields(&[(ANNOTATION_ENABLED, "false"), ("unrelated", "x")]))));
}

#[test]
fn can_handle_refuses_copies() {
    assert!(!can_handle(&Some(fields(&[
        (ANNOTATION_ENABLED, "true"),
        (ANNOTATION_CLONED_FROM, "team-a"),
    ]))));
    assert!(!can_handle(&Some(fields(&[(ANNOTATION_CLONED_FROM, "team-a")]))));
}

#[test]
fn get_globbers_returns_the_lists_that_are_there() {
    let (allow, deny) = get_globbers(&None).unwrap();
    assert!(allow.is_none() && deny.is_none());
    let (allow, deny) = get_globbers(&Some(fields(&[(ANNOTATION_ENABLED, "")]))).unwrap();
    assert!(allow.is_none() && deny.is_none());
    let (allow, deny) = get_globbers(&Some(fields(&[(ANNOTATION_NAMESPACES, "team-*")]))).unwrap();
    assert!(allow.unwrap().is_match("team-b"));
    assert!(deny.is_none());
    let (allow, deny) = get_globbers(&Some(fields(&[
        (ANNOTATION_NAMESPACES, "team-*"),
        (ANNOTATION_NAMESPACES_DENY, "team-archive *-old"),
    ])))
    .unwrap();
    let (allow, deny) = (allow.unwrap(), deny.unwrap());
    assert!(allow.is_match("team-archive") && deny.is_match("team-archive"));
    assert!(deny.is_match("x-old") && !allow.is_match("x-old"));
    assert!(!deny.is_match("team-b"));
}

#[test]
fn get_globbers_fails_when_a_pattern_is_bad() {
    match get_globbers(&Some(fields(&[(ANNOTATION_NAMESPACES, "ok [")]))) {
        Err(Error::Glob(refused)) => assert_eq!(refused.glob, Some("[".to_string())),
        other => panic!("unexpected: {:?}", other.map(|_| ())),
    }
    match get_globbers(&Some(fields(&[
        (ANNOTATION_NAMESPACES, "ok"),
        (ANNOTATION_NAMESPACES_DENY, "{a"),
    ]))) {
        Err(Error::Glob(refused)) => assert_eq!(refused.glob, Some("{a".to_string())),
        other => panic!("unexpected: {:?}", other.map(|_| ())),
    }
    match get_globbers(&Some(fields(&[
        (ANNOTATION_NAMESPACES, "[allow"),
        (ANNOTATION_NAMESPACES_DENY, "[deny"),
    ]))) {
        Err(Error::Glob(refused)) => assert_eq!(refused.glob, Some("[allow".to_string())),
        other => panic!("unexpected: {:?}", other.map(|_| ())),
    }
}

#[test]
fn remove_own_fields_keeps_foreign_keys() {
    assert!(remove_own_fields(None).is_none());
    let map = fields(&[
        (ANNOTATION_ENABLED, "true"),
        (ANNOTATION_NAMESPACES, "team-*"),
        ("dev.withlazers.operator.secret-sync-operator/anything", "x"),
        ("dev.withlazers.operator.secret-sync-operator", "no slash"),
        ("app", "db"),
    ]);
    let kept = remove_own_fields(Some(&map)).unwrap();
    assert_eq!(kept.len(), 2);
    assert_eq!(kept.get("app"), Some(&"db".to_string()));
    assert_eq!(
        kept.get("dev.withlazers.operator.secret-sync-operator"),
        Some(&"no slash".to_string())
    );
    assert_eq!(remove_own_fields(Some(&FieldMap::new())).unwrap().len(), 0);
}

#[test]
fn copy_secret_keeps_payload_and_marks_the_origin() {
    let mut first = source("team-a", "db-creds", "team-*");
    first.labels = Some(fields(&[("app", "db"), (ANNOTATION_ENABLED, "")]));
    first.annotations.as_mut().unwrap().insert("note".to_string(), "keep".to_string());
    first.immutable = Some(false);
    first.finalizers = Some(vec!["x".to_string()]);
    first.deletion_timestamp = Some("2024-01-01T00:00:00Z".to_string());
    let copy = copy_secret(&first, "team-b");
    assert_eq!(copy.namespace, "team-b");
    assert_eq!(copy.name, "db-creds");
    assert_eq!(copy.data.as_ref().unwrap().get("password"), Some(&b"hunter2".to_vec()));
    assert_eq!(copy.data.as_ref().unwrap().len(), 1);
    assert_eq!(copy.type_, Some("Opaque".to_string()));
    assert_eq!(copy.immutable, Some(false));
    assert!(copy.finalizers.is_none());
    assert!(copy.owner_references.is_none());
    assert!(copy.deletion_timestamp.is_none());
    let labels = copy.labels.unwrap();
    assert_eq!(labels.len(), 1);
    assert_eq!(labels.get("app"), Some(&"db".to_string()));
    let annotations = copy.annotations.unwrap();
    assert_eq!(annotations.len(), 2);
    assert_eq!(annotations.get("note"), Some(&"keep".to_string()));
    assert_eq!(annotations.get(ANNOTATION_CLONED_FROM), Some(&"team-a".to_string()));
}

#[test]
fn copy_of_a_secret_without_metadata_names_its_origin() {
    let copy = copy_secret(&secret("team-a", "plain", None), "team-b");
    assert!(copy.labels.is_none());
    let annotations = copy.annotations.unwrap();
    assert_eq!(annotations.len(), 1);
    assert_eq!(annotations.get(ANNOTATION_CLONED_FROM), Some(&"team-a".to_string()));
}

#[test]
fn a_copy_does_not_take_part() {
    let copy = copy_secret(&source("team-a", "db-creds", "*"), "team-b");
    assert!(!can_handle(&copy.annotations));
    let plan = sync_secret(&[copy], &[namespace("team-c", true)]);
    assert!(plan.writes.is_empty());
    assert!(matches!(plan.outcome, Ok(Action::AwaitChange)));
}

#[test]
fn a_namespace_receives_a_copy_when_all_four_answers_agree() {
    for takes_part in [false, true] {
        for own in [false, true] {
            for allowed in [false, true] {
                for denied in [false, true] {
                    assert_eq!(
                        receives_copy(takes_part, own, allowed, denied),
                        takes_part && !own && allowed && !denied
                    );
                }
            }
        }
    }
    assert!(receives_copy(true, false, true, false));
    assert!(!receives_copy(true, false, true, true));
}

#[test]
fn scenario_db_creds_reaches_team_b_only() {
    let db_creds = secret(
        "team-a",
        "db-creds",
        Some(fields(&[
            (ANNOTATION_ENABLED, "true"),
            (ANNOTATION_NAMESPACES, "team-*"),
            (ANNOTATION_NAMESPACES_DENY, "team-archive"),
        ])),
    );
    let namespaces =
        vec![namespace("team-b", true), namespace("team-archive", true), namespace("other", false)];
    let plan = sync_secret(&[db_creds], &namespaces);
    assert!(matches!(plan.outcome, Ok(Action::AwaitChange)));
    assert_eq!(plan.writes.len(), 1);
    let copy = &plan.writes[0];
    assert_eq!(copy.namespace, "team-b");
    assert_eq!(copy.name, "db-creds");
    assert_eq!(
        copy.annotations.as_ref().unwrap().get(ANNOTATION_CLONED_FROM),
        Some(&"team-a".to_string())
    );
    assert_eq!(copy.annotations.as_ref().unwrap().len(), 1);
    assert_eq!(copy.data.as_ref().unwrap().get("password"), Some(&b"hunter2".to_vec()));
}

#[test]
fn secret_without_enabled_marker_is_not_copied() {
    let unmarked = secret("team-a", "s", Some(fields(&[(ANNOTATION_NAMESPACES, "*")])));
    let plan = sync_secret(&[unmarked], &[namespace("team-b", true)]);
    assert!(plan.writes.is_empty());
    assert!(matches!(plan.outcome, Ok(Action::AwaitChange)));
    let bare = secret("team-a", "s", None);
    assert!(sync_secret(&[bare], &[namespace("team-b", true)]).writes.is_empty());
}

#[test]
fn secret_with_cloned_from_is_no_source() {
    let cloned = secret(
        "team-a",
        "s",
        Some(fields(&[
            (ANNOTATION_ENABLED, "true"),
            (ANNOTATION_NAMESPACES, "*"),
            (ANNOTATION_CLONED_FROM, "elsewhere"),
        ])),
    );
    let plan = sync_secret(&[cloned], &[namespace("team-b", true)]);
    assert!(plan.writes.is_empty());
    assert!(matches!(plan.outcome, Ok(Action::AwaitChange)));
}

#[test]
fn secret_is_not_copied_into_its_own_namespace() {
    let plan = sync_secret(
        &[source("team-a", "s", "*")],
        &[namespace("team-a", true), namespace("team-b", true)],
    );
    assert_eq!(targets(&plan.writes), vec![("team-b".to_string(), "s".to_string())]);
}

#[test]
fn deny_list_overrides_allow_list() {
    let denied = secret(
        "team-a",
        "s",
        Some(fields(&[
            (ANNOTATION_ENABLED, "true"),
            (ANNOTATION_NAMESPACES, "team-b team-c"),
            (ANNOTATION_NAMESPACES_DENY, "team-b"),
        ])),
    );
    let plan = sync_secret(&[denied], &[namespace("team-b", true), namespace("team-c", true)]);
    assert_eq!(targets(&plan.writes), vec![("team-c".to_string(), "s".to_string())]);
}

#[test]
fn deny_list_alone_selects_nothing() {
    let only_deny = secret(
        "team-a",
        "s",
        Some(fields(&[(ANNOTATION_ENABLED, "true"), (ANNOTATION_NAMESPACES_DENY, "team-c")])),
    );
    let plan = sync_secret(&[only_deny], &[namespace("team-b", true), namespace("team-c", true)]);
    assert!(plan.writes.is_empty());
    assert!(matches!(plan.outcome, Ok(Action::AwaitChange)));
}

#[test]
fn namespaces_that_do_not_take_part_get_no_copy() {
    let mut cloned_namespace = namespace("team-c", true);
    cloned_namespace
        .annotations
        .as_mut()
        .unwrap()
        .insert(ANNOTATION_CLONED_FROM.to_string(), "x".to_string());
    let plan = sync_secret(
        &[source("team-a", "s", "*")],
        &[namespace("team-b", false), cloned_namespace, namespace("team-d", true)],
    );
    assert_eq!(targets(&plan.writes), vec![("team-d".to_string(), "s".to_string())]);
}

#[test]
fn allow_list_must_match() {
    let plan = sync_secret(
        &[source("team-a", "s", "prod-* staging")],
        &[namespace("team-b", true), namespace("staging", true), namespace("prod-1", true)],
    );
    assert_eq!(
        targets(&plan.writes),
        vec![("staging".to_string(), "s".to_string()), ("prod-1".to_string(), "s".to_string())]
    );
}

#[test]
fn empty_candidate_sets_are_no_error() {
    let none = sync_secret(&[], &[namespace("team-b", true)]);
    assert!(none.writes.is_empty());
    assert!(matches!(none.outcome, Ok(Action::AwaitChange)));
    let nowhere = sync_secret(&[source("team-a", "s", "*")], &[]);
    assert!(nowhere.writes.is_empty());
    assert!(matches!(nowhere.outcome, Ok(Action::AwaitChange)));
}

#[test]
fn writes_follow_the_order_of_secrets_and_namespaces() {
    let plan = sync_secret(
        &[source("team-a", "one", "*"), source("team-b", "two", "*")],
        &[namespace("team-a", true), namespace("team-b", true), namespace("team-c", true)],
    );
    assert_eq!(
        targets(&plan.writes),
        vec![
            ("team-b".to_string(), "one".to_string()),
            ("team-c".to_string(), "one".to_string()),
            ("team-a".to_string(), "two".to_string()),
            ("team-c".to_string(), "two".to_string()),
        ]
    );
}

#[test]
fn a_secret_without_allow_list_is_passed_over() {
    let silent = secret("team-a", "silent", Some(fields(&[(ANNOTATION_ENABLED, "true")])));
    let plan = sync_secret(&[silent, source("team-a", "loud", "*")], &[namespace("team-b", true)]);
    assert_eq!(targets(&plan.writes), vec![("team-b".to_string(), "loud".to_string())]);
    assert!(matches!(plan.outcome, Ok(Action::AwaitChange)));
}

#[test]
fn a_secret_that_does_not_take_part_is_passed_over() {
    let plan = sync_secret(
        &[
            secret("team-a", "outsider", None),
            source("team-a", "first", "*"),
            copy_secret(&source("team-c", "copied", "*"), "team-a"),
            source("team-a", "last", "*"),
        ],
        &[namespace("team-b", true)],
    );
    assert_eq!(
        targets(&plan.writes),
        vec![("team-b".to_string(), "first".to_string()), ("team-b".to_string(), "last".to_string())]
    );
    assert!(matches!(plan.outcome, Ok(Action::AwaitChange)));
}

#[test]
fn a_bad_pattern_of_a_secret_that_does_not_take_part_is_no_error() {
    let outsider = secret("team-a", "outsider", Some(fields(&[(ANNOTATION_NAMESPACES, "[")])));
    let plan = sync_secret(&[outsider, source("team-a", "s", "*")], &[namespace("team-b", true)]);
    assert_eq!(targets(&plan.writes), vec![("team-b".to_string(), "s".to_string())]);
    assert!(matches!(plan.outcome, Ok(Action::AwaitChange)));
}

#[test]
fn a_bad_pattern_fails_the_run_and_keeps_earlier_writes() {
    let plan = sync_secret(
        &[source("team-a", "first", "*"), source("team-a", "broken", "ok ["), source("team-a", "last", "*")],
        &[namespace("team-b", true)],
    );
    assert_eq!(targets(&plan.writes), vec![("team-b".to_string(), "first".to_string())]);
    match plan.outcome {
        Err(Error::Glob(refused)) => assert_eq!(refused.glob, Some("[".to_string())),
        other => panic!("unexpected: {:?}", other),
    }
}

#[test]
fn a_bad_deny_pattern_fails_the_run() {
    let broken = secret(
        "team-a",
        "s",
        Some(fields(&[
            (ANNOTATION_ENABLED, "true"),
            (ANNOTATION_NAMESPACES, "*"),
            (ANNOTATION_NAMESPACES_DENY, "{x"),
        ])),
    );
    let plan = sync_secret(&[broken], &[namespace("team-b", true)]);
    assert!(plan.writes.is_empty());
    assert!(matches!(plan.outcome, Err(Error::Glob(_))));
}

#[test]
fn synchronizing_twice_changes_nothing_more() {
    let secrets = vec![source("team-a", "one", "team-*"), source("team-b", "two", "*")];
    let namespaces =
        vec![namespace("team-a", true), namespace("team-b", true), namespace("other", true)];
    let mut store: BTreeMap<(String, String), Vec<(String, String)>> = BTreeMap::new();
    let mut snapshots = Vec::new();
    for _ in 0..2 {
        let plan = sync_secret(&secrets, &namespaces);
        assert!(plan.outcome.is_ok());
        for write in &plan.writes {
            let mut annotations = write.annotations.as_ref().unwrap().entries().clone();
            annotations.sort();
            store.insert((write.namespace.clone(), write.name.clone()), annotations);
        }
        snapshots.push((targets(&plan.writes), store.clone()));
    }
    assert_eq!(snapshots[0], snapshots[1]);
    assert_eq!(store.len(), 3);
}

#[test]
fn reconcile_secret_plans_for_one_secret() {
    let plan = reconcile_secret(
        &source("team-a", "s", "team-*"),
        &[namespace("team-a", true), namespace("team-b", true), namespace("other", true)],
    );
    assert_eq!(targets(&plan.writes), vec![("team-b".to_string(), "s".to_string())]);
    assert!(matches!(plan.outcome, Ok(Action::AwaitChange)));
}

#[test]
fn reconcile_namespace_plans_for_one_namespace() {
    let plan = reconcile_namespace(
        &namespace("team-b", true),
        &[
            secret("kube-system", "token", None),
            source("team-a", "one", "team-*"),
            source("team-b", "own", "*"),
            source("x", "two", "other"),
        ],
    );
    assert_eq!(targets(&plan.writes), vec![("team-b".to_string(), "one".to_string())]);
    let ignored = reconcile_namespace(&namespace("team-b", false), &[source("team-a", "one", "*")]);
    assert!(ignored.writes.is_empty());
}

#[test]
fn failures_are_retried_after_five_seconds() {
    assert_eq!(default_error_policy(&"boom", Arc::new(())), Action::Requeue(5));
    assert_eq!(error_policy(&42, Arc::new("context")), Action::Requeue(5));
}

#[test]
fn plan_names_the_secrets_without_allow_list() {
    let silent = secret("team-a", "silent", Some(fields(&[(ANNOTATION_ENABLED, "true")])));
    let only_deny = secret(
        "team-a",
        "denying",
        Some(fields(&[(ANNOTATION_ENABLED, "true"), (ANNOTATION_NAMESPACES_DENY, "x")])),
    );
    let plan = sync_secret(
        &[
            silent,
            source("team-a", "loud", "*"),
            secret("team-a", "outsider", None),
            only_deny,
            source("team-a", "broken", "["),
            secret("team-a", "late", Some(fields(&[(ANNOTATION_ENABLED, "true")]))),
        ],
        &[namespace("team-b", true)],
    );
    assert_eq!(plan.passed_over, vec!["silent".to_string(), "denying".to_string()]);
    assert_eq!(targets(&plan.writes), vec![("team-b".to_string(), "loud".to_string())]);
    assert!(plan.outcome.is_err());
    let none = sync_secret(&[source("team-a", "loud", "*")], &[namespace("team-b", true)]);
    assert!(none.passed_over.is_empty());
}

#[test]
fn refused_write_is_a_failure_of_the_store() {
    assert!(written(Ok(())).is_ok());
    match written(Err(StoreError { code: Some(403), message: "forbidden".to_string() })) {
        Err(Error::Kube(error)) => {
            assert_eq!(error.code, Some(403));
            assert_eq!(error.message, "forbidden");
        },
        other => panic!("unexpected: {:?}", other),
    }
    match refused(StoreError { code: None, message: "timeout".to_string() }) {
        Error::Kube(error) => assert_eq!(error.message, "timeout"),
        other => panic!("unexpected: {:?}", other),
    }
}

#[test]
fn plan_is_carried_out_copy_by_copy() {
    let plan = sync_secret(
        &[source("team-a", "s", "*")],
        &[namespace("team-b", true), namespace("team-c", true)],
    );
    match plan.step(0, Ok(())) {
        SyncStep::Apply(copy) => assert_eq!(copy.namespace, "team-b"),
        other => panic!("unexpected: {:?}", other),
    }
    match plan.step(1, Ok(())) {
        SyncStep::Apply(copy) => assert_eq!(copy.namespace, "team-c"),
        other => panic!("unexpected: {:?}", other),
    }
    assert!(matches!(plan.step(2, Ok(())), SyncStep::Finish));
    assert!(matches!(plan.step(7, Ok(())), SyncStep::Finish));
}

#[test]
fn refused_write_ends_the_run() {
    let plan = sync_secret(
        &[source("team-a", "s", "*")],
        &[namespace("team-b", true), namespace("team-c", true)],
    );
    let refusal = StoreError { code: Some(500), message: "boom".to_string() };
    match plan.step(1, Err(refusal)) {
        SyncStep::Fail(Error::Kube(error)) => assert_eq!(error.code, Some(500)),
        other => panic!("unexpected: {:?}", other),
    }
    let empty = sync_secret(&[], &[]);
    let refusal = StoreError { code: None, message: "late".to_string() };
    assert!(matches!(empty.step(0, Err(refusal)), SyncStep::Fail(Error::Kube(_))));
    assert!(matches!(empty.step(0, Ok(())), SyncStep::Finish));
}
