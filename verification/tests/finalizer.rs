use secret_operators::objects::{OwnerReference, Secret};
use secret_operators::store::StoreError;
use secret_operators::string_map::ByteMap;
use secret_operators::template::crd::{
    DataTemplates, GenerateDefinition, SecretTemplate, SecretTemplateSpec,
};
use secret_operators::template::error::{Error, GeneratorError};
use secret_operators::template::finalizer::{
    advance, finalizer_released, owning_template, reconcile_secret, regenerated, Command, Event,
    FinalizerStep, Lifecycle, PatchOperation, FINALIZER_PATH,
};
use secret_operators::template::render::{reconcile_secret_template, RenderStep, Rendering, FINALIZER_NAME};
use secret_operators::utils::Action;

fn owner(api_version: &str, kind: &str, name: &str) -> OwnerReference {
    OwnerReference {
        api_version: api_version.to_string(),
        kind: kind.to_string(),
        name: name.to_string(),
        uid: "uid".to_string(),
        controller: Some(true),
        block_owner_deletion: Some(true),
    }
}

fn rendered(
    deleted: bool,
    finalizers: Option<Vec<&str>>,
    owners: Option<Vec<OwnerReference>>,
) -> Secret {
    let mut data = ByteMap::new();
    data.insert("password".to_string(), b"old".to_vec());
    Secret {
        namespace: "team-a".to_string(),
        name: "db-creds".to_string(),
        labels: None,
        annotations: None,
        data: Some(data),
        type_: None,
        immutable: Some(true),
        finalizers: finalizers.map(|list| list.into_iter().map(|f| f.to_string()).collect()),
        owner_references: owners,
        deletion_timestamp: if deleted { Some("2024-05-01T10:00:00Z".to_string()) } else { None },
    }
}

fn password_template() -> SecretTemplate {
    SecretTemplate {
        namespace: "team-a".to_string(),
        name: "db-creds".to_string(),
        uid: "uid".to_string(),
        spec: SecretTemplateSpec {
            labels: None,
            annotations: None,
            data: vec![(
                "password".to_string(),
                DataTemplates::Generate(GenerateDefinition {
                    length: 12,
                    must_digits: Some(true),
                    must_letters: Some(true),
                    ..GenerateDefinition::default()
                }),
            )],
            type_: None,
        },
    }
}

#[test]
fn active_secret_needs_nothing() {
    let secret = rendered(false, Some(vec![FINALIZER_NAME]), None);
    assert!(matches!(reconcile_secret(&secret), FinalizerStep::Done(Action::AwaitChange)));
    let bare = rendered(false, None, None);
    assert!(matches!(reconcile_secret(&bare), FinalizerStep::Done(Action::AwaitChange)));
}

#[test]
fn deleted_secret_with_other_finalizers_is_left_alone() {
    for finalizers in [
        None,
        Some(vec![]),
        Some(vec!["someone.else/finalizer"]),
        Some(vec![FINALIZER_NAME, "someone.else/finalizer"]),
        Some(vec!["someone.else/finalizer", FINALIZER_NAME]),
        Some(vec![FINALIZER_NAME, FINALIZER_NAME]),
    ] {
        let secret = rendered(true, finalizers, None);
        assert!(matches!(reconcile_secret(&secret), FinalizerStep::Done(Action::AwaitChange)));
    }
}

#[test]
fn deleted_secret_with_only_our_finalizer_is_released() {
    let secret = rendered(true, Some(vec![FINALIZER_NAME]), None);
    match reconcile_secret(&secret) {
        FinalizerStep::Release(patch) => {
            assert_eq!(patch.len(), 2);
            match &patch[0] {
                PatchOperation::Test { path, value } => {
                    assert_eq!(path, "/metadata/finalizers/0");
                    assert_eq!(value, "secret-template-operator.withlazers.dev/finalizer");
                },
                other => panic!("unexpected: {:?}", other),
            }
            match &patch[1] {
                PatchOperation::Remove { path } => assert_eq!(path, FINALIZER_PATH),
                other => panic!("unexpected: {:?}", other),
            }
        },
        other => panic!("unexpected: {:?}", other),
    }
}

#[test]
fn owning_template_is_found_among_other_owners() {
    let secret = rendered(
        true,
        None,
        Some(vec![
            owner("apps/v1", "Deployment", "web"),
            owner("crd.withlazers.dev/v2", "SecretTemplate", "newer"),
            owner("crd.withlazers.dev/v1", "SecretTemplate", "db-creds"),
            owner("crd.withlazers.dev/v1", "Other", "other"),
        ]),
    );
    assert_eq!(owning_template(&secret).unwrap(), "db-creds");
}

#[test]
fn secret_without_template_owner_cannot_be_regenerated() {
    assert!(matches!(owning_template(&rendered(true, None, None)), Err(Error::OwnerMissing)));
    assert!(matches!(owning_template(&rendered(true, None, Some(vec![]))), Err(Error::OwnerMissing)));
    let foreign = rendered(true, None, Some(vec![owner("apps/v1", "Deployment", "web")]));
    assert!(matches!(owning_template(&foreign), Err(Error::OwnerMissing)));
}

#[test]
fn secret_with_two_template_owners_cannot_be_regenerated() {
    let secret = rendered(
        true,
        None,
        Some(vec![
            owner("crd.withlazers.dev/v1", "SecretTemplate", "one"),
            owner("apps/v1", "Deployment", "web"),
            owner("crd.withlazers.dev/v1", "SecretTemplate", "two"),
        ]),
    );
    assert!(matches!(owning_template(&secret), Err(Error::OwnerAmbiguous)));
}

#[test]
fn refused_patch_fails_the_reconciliation() {
    let secret = rendered(
        true,
        Some(vec![FINALIZER_NAME]),
        Some(vec![owner("crd.withlazers.dev/v1", "SecretTemplate", "db-creds")]),
    );
    let refusal = StoreError { code: Some(422), message: "test failed".to_string() };
    match finalizer_released(&secret, Err(refusal)) {
        Err(Error::Kube(error)) => assert_eq!(error.code, Some(422)),
        other => panic!("unexpected: {:?}", other),
    }
    assert_eq!(finalizer_released(&secret, Ok(())).unwrap(), "db-creds");
}

#[test]
fn regeneration_reports_the_outcome_of_the_rendering() {
    assert!(matches!(regenerated(Ok(Action::AwaitChange)), Ok(Action::AwaitChange)));
    assert!(matches!(regenerated(Ok(Action::Requeue(1))), Ok(Action::AwaitChange)));
    assert!(matches!(
        regenerated(Err(Error::RandStr(GeneratorError::TooShort))),
        Err(Error::RandStr(GeneratorError::TooShort))
    ));
    assert!(matches!(regenerated(Err(Error::SecretNotFound)), Err(Error::SecretNotFound)));
}

#[test]
fn scenario_deleted_secret_is_regenerated_with_a_new_password() {
    let template = password_template();
    let first = loop {
        match reconcile_secret_template(&template, Rendering::new()) {
            RenderStep::Create(secret) => break secret,
            RenderStep::Failed(Error::RandStr(GeneratorError::ClassMissing)) => continue,
            other => panic!("unexpected: {:?}", other),
        }
    };
    assert_eq!(first.finalizers, Some(vec![FINALIZER_NAME.to_string()]));
    assert!(matches!(reconcile_secret(&first), FinalizerStep::Done(Action::AwaitChange)));

    let mut deleted = first.clone();
    deleted.deletion_timestamp = Some("2024-05-01T10:00:00Z".to_string());
    assert!(matches!(reconcile_secret(&deleted), FinalizerStep::Release(_)));
    let owner_name = finalizer_released(&deleted, Ok(())).unwrap();
    assert_eq!(owner_name, template.name);

    let second = loop {
        match reconcile_secret_template(&template, Rendering::new()) {
            RenderStep::Create(secret) => break secret,
            RenderStep::Failed(Error::RandStr(GeneratorError::ClassMissing)) => continue,
            other => panic!("unexpected: {:?}", other),
        }
    };
    assert_eq!(second.namespace, first.namespace);
    assert_eq!(second.name, first.name);
    assert!(second.deletion_timestamp.is_none());
    assert_eq!(second.finalizers, Some(vec![FINALIZER_NAME.to_string()]));
    let old = first.data.unwrap().get("password").unwrap().clone();
    let new = second.data.unwrap().get("password").unwrap().clone();
    assert_eq!(new.len(), 12);
    assert_ne!(old, new);
}

#[test]
fn lifecycle_leaves_an_active_secret_alone() {
    let secret = rendered(false, Some(vec![FINALIZER_NAME]), None);
    match advance(Lifecycle::Active, &secret, Event::Changed) {
        (Lifecycle::Active, Command::Report(Ok(Action::AwaitChange))) => {},
        other => panic!("unexpected: {:?}", other),
    }
    let blocked = rendered(true, Some(vec![FINALIZER_NAME, "someone.else/finalizer"]), None);
    match advance(Lifecycle::Active, &blocked, Event::Changed) {
        (Lifecycle::Active, Command::Report(Ok(Action::AwaitChange))) => {},
        other => panic!("unexpected: {:?}", other),
    }
}

#[test]
fn lifecycle_runs_from_deletion_to_regeneration() {
    let secret = rendered(
        true,
        Some(vec![FINALIZER_NAME]),
        Some(vec![owner("crd.withlazers.dev/v1", "SecretTemplate", "db-creds")]),
    );
    let state = match advance(Lifecycle::Active, &secret, Event::Changed) {
        (state, Command::Release(patch)) => {
            assert_eq!(patch.len(), 2);
            state
        },
        other => panic!("unexpected: {:?}", other),
    };
    assert_eq!(state, Lifecycle::DeletionRequested);
    let state = match advance(state, &secret, Event::Released(Ok(()))) {
        (state, Command::Regenerate(name)) => {
            assert_eq!(name, "db-creds");
            state
        },
        other => panic!("unexpected: {:?}", other),
    };
    assert_eq!(state, Lifecycle::FinalizerStripped);
    match advance(state, &secret, Event::Rendered(Ok(Action::AwaitChange))) {
        (Lifecycle::Regenerated, Command::Report(Ok(Action::AwaitChange))) => {},
        other => panic!("unexpected: {:?}", other),
    }
}

#[test]
fn lifecycle_stops_where_a_step_fails() {
    let secret = rendered(true, Some(vec![FINALIZER_NAME]), None);
    let refusal = StoreError { code: Some(422), message: "test failed".to_string() };
    match advance(Lifecycle::DeletionRequested, &secret, Event::Released(Err(refusal))) {
        (Lifecycle::DeletionRequested, Command::Report(Err(Error::Kube(error)))) => {
            assert_eq!(error.code, Some(422))
        },
        other => panic!("unexpected: {:?}", other),
    }
    match advance(Lifecycle::DeletionRequested, &secret, Event::Released(Ok(()))) {
        (Lifecycle::FinalizerStripped, Command::Report(Err(Error::OwnerMissing))) => {},
        other => panic!("unexpected: {:?}", other),
    }
    let gone = StoreError { code: Some(404), message: "not found".to_string() };
    match advance(Lifecycle::FinalizerStripped, &secret, Event::TemplateRefused(gone)) {
        (Lifecycle::FinalizerStripped, Command::Report(Err(Error::Kube(error)))) => {
            assert_eq!(error.code, Some(404))
        },
        other => panic!("unexpected: {:?}", other),
    }
    match advance(Lifecycle::FinalizerStripped, &secret, Event::Rendered(Err(Error::SecretNotFound))) {
        (Lifecycle::FinalizerStripped, Command::Report(Err(Error::SecretNotFound))) => {},
        other => panic!("unexpected: {:?}", other),
    }
}

#[test]
fn lifecycle_ignores_events_it_does_not_wait_for() {
    let secret = rendered(true, Some(vec![FINALIZER_NAME]), None);
    for state in [Lifecycle::Active, Lifecycle::FinalizerStripped, Lifecycle::Regenerated] {
        match advance(state, &secret, Event::Released(Ok(()))) {
            (after, Command::Report(Ok(Action::AwaitChange))) => assert_eq!(after, state),
            other => panic!("unexpected: {:?}", other),
        }
    }
    for state in [Lifecycle::DeletionRequested, Lifecycle::FinalizerStripped, Lifecycle::Regenerated] {
        match advance(state, &secret, Event::Changed) {
            (after, Command::Report(Ok(Action::AwaitChange))) => assert_eq!(after, state),
            other => panic!("unexpected: {:?}", other),
        }
    }
    match advance(Lifecycle::Regenerated, &secret, Event::Rendered(Ok(Action::AwaitChange))) {
        (Lifecycle::Regenerated, Command::Report(Ok(Action::AwaitChange))) => {},
        other => panic!("unexpected: {:?}", other),
    }
}
