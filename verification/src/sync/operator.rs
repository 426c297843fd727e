//! Which secrets are copied where, and what the copies hold.
//!
//! A synchronization takes candidate secrets and candidate namespaces and
//! returns the copies to write, in the order in which they are to be written.
//! It writes nothing itself: the caller applies each copy to the store and
//! hands the answer of the store to [`SyncPlan::step`], which tells what
//! follows.

use crate::objects::{clone_data, clone_text, Namespace, NamespaceView, Secret, SecretView};
use crate::store::StoreError;
use crate::string_map::{without_prefix, FieldMap};
use crate::sync::constants::{
    ANNOTATION_CLONED_FROM, ANNOTATION_ENABLED, ANNOTATION_NAMESPACES, ANNOTATION_NAMESPACES_DENY,
    ANNOTATION_PREFIX,
};
use crate::sync::error::Error;
use crate::sync::globlist::{all_valid, any_matches, first_invalid, GlobList};
use crate::text::words;
use crate::utils::Action;
use vstd::prelude::*;

verus! {

/// The labels or the annotations of an object, as a mathematical map.
pub type Fields = Map<Seq<char>, Seq<char>>;

/// Whether an object with these annotations takes part in propagation: it is
/// marked as enabled, and it is not itself a copy.
pub open spec fn participates(fields: Option<Fields>) -> bool {
    match fields {
        Some(m) => m.contains_key(ANNOTATION_ENABLED@) && !m.contains_key(ANNOTATION_CLONED_FROM@),
        None => false,
    }
}

/// The patterns that `fields` hold under `key`.
pub open spec fn patterns_under(fields: Option<Fields>, key: Seq<char>) -> Option<Seq<Seq<char>>> {
    match fields {
        Some(m) => if m.contains_key(key) {
            Some(words(m[key]))
        } else {
            None
        },
        None => None,
    }
}

/// The patterns of the namespaces that receive a copy.
pub open spec fn allow_patterns(fields: Option<Fields>) -> Option<Seq<Seq<char>>> {
    patterns_under(fields, ANNOTATION_NAMESPACES@)
}

/// The patterns of the namespaces that receive none.
pub open spec fn deny_patterns(fields: Option<Fields>) -> Option<Seq<Seq<char>>> {
    patterns_under(fields, ANNOTATION_NAMESPACES_DENY@)
}

/// Whether all patterns in `patterns`, if there are any, can be compiled.
pub open spec fn usable(patterns: Option<Seq<Seq<char>>>) -> bool {
    match patterns {
        Some(list) => all_valid(list),
        None => true,
    }
}

/// Whether the patterns of both lists can be compiled.
pub open spec fn globs_valid(fields: Option<Fields>) -> bool {
    usable(allow_patterns(fields)) && usable(deny_patterns(fields))
}

/// The pattern that makes `fields` invalid: the first one of the allow list
/// that cannot be compiled or, where that list is sound, of the deny list.
pub open spec fn faulty_pattern(fields: Option<Fields>) -> Seq<char> {
    let list = if usable(allow_patterns(fields)) {
        deny_patterns(fields).unwrap()
    } else {
        allow_patterns(fields).unwrap()
    };
    list[first_invalid(list)]
}

/// `fields` without the keys under the reserved prefix.
pub open spec fn own_fields_removed(fields: Option<Fields>) -> Option<Fields> {
    match fields {
        Some(m) => Some(without_prefix(m, ANNOTATION_PREFIX@)),
        None => None,
    }
}

/// The annotations of a copy: those of the source without the reserved keys,
/// and the namespace of the source under `cloned_from_namespace`.
pub open spec fn copy_annotations(source: SecretView) -> Fields {
    let kept = match own_fields_removed(source.annotations) {
        Some(m) => m,
        None => Map::empty(),
    };
    kept.insert(ANNOTATION_CLONED_FROM@, source.namespace)
}

/// The copy of `source` that goes to the namespace `target`.
pub open spec fn copy_of(source: SecretView, target: Seq<char>) -> SecretView {
    SecretView {
        namespace: target,
        name: source.name,
        labels: own_fields_removed(source.labels),
        annotations: Some(copy_annotations(source)),
        data: source.data,
        type_: source.type_,
        immutable: source.immutable,
        finalizers: None,
        owner_references: None,
        deletion_timestamp: None,
    }
}

/// Whether the patterns of `source` select `namespace`: the namespace takes
/// part, it is not the one that `source` lives in, a pattern of the allow
/// list matches its name, and no pattern of the deny list does.
pub open spec fn selects(source: SecretView, namespace: NamespaceView) -> bool {
    &&& participates(namespace.annotations)
    &&& namespace.name != source.namespace
    &&& allow_patterns(source.annotations) matches Some(allow) && any_matches(
        allow,
        namespace.name,
    )
    &&& !(deny_patterns(source.annotations) matches Some(deny) && any_matches(
        deny,
        namespace.name,
    ))
}

/// The copies of `source` for the namespaces that it selects, in the order of
/// `namespaces`.
pub open spec fn copies(source: SecretView, namespaces: Seq<NamespaceView>) -> Seq<SecretView>
    decreases namespaces.len(),
{
    if namespaces.len() == 0 {
        Seq::empty()
    } else {
        let before = copies(source, namespaces.drop_last());
        if selects(source, namespaces.last()) {
            before.push(copy_of(source, namespaces.last().name))
        } else {
            before
        }
    }
}

/// Whether `source` is copied into `namespace`: it takes part, its patterns
/// can be compiled, and they select the namespace.
pub open spec fn propagates(source: SecretView, namespace: NamespaceView) -> bool {
    &&& participates(source.annotations)
    &&& globs_valid(source.annotations)
    &&& selects(source, namespace)
}

/// The writes of a synchronization, in order.
///
/// The secrets are taken in turn.  A secret that does not take part is
/// passed over, and so is one without an allow list.  A secret with a
/// pattern that cannot be compiled ends the run.
pub open spec fn planned_writes(secrets: Seq<SecretView>, namespaces: Seq<NamespaceView>) -> Seq<
    SecretView,
>
    decreases secrets.len(),
{
    if secrets.len() == 0 {
        Seq::empty()
    } else if !participates(secrets[0].annotations) {
        planned_writes(secrets.drop_first(), namespaces)
    } else if !globs_valid(secrets[0].annotations) {
        Seq::empty()
    } else {
        copies(secrets[0], namespaces) + planned_writes(secrets.drop_first(), namespaces)
    }
}

/// Whether a synchronization fails: it reaches a secret that takes part and
/// has a pattern that cannot be compiled.
pub open spec fn plan_fails(secrets: Seq<SecretView>) -> bool
    decreases secrets.len(),
{
    if secrets.len() == 0 {
        false
    } else if participates(secrets[0].annotations) && !globs_valid(secrets[0].annotations) {
        true
    } else {
        plan_fails(secrets.drop_first())
    }
}

/// The pattern on which a failing synchronization stops.
pub open spec fn plan_fault(secrets: Seq<SecretView>) -> Seq<char>
    decreases secrets.len(),
{
    if secrets.len() == 0 {
        Seq::empty()
    } else if participates(secrets[0].annotations) && !globs_valid(secrets[0].annotations) {
        faulty_pattern(secrets[0].annotations)
    } else {
        plan_fault(secrets.drop_first())
    }
}

/// The names of the secrets that a synchronization passes over for want of
/// an allow list, in order: each of them takes part, and the run reaches it.
pub open spec fn passed_over(secrets: Seq<SecretView>) -> Seq<Seq<char>>
    decreases secrets.len(),
{
    if secrets.len() == 0 {
        Seq::empty()
    } else if !participates(secrets[0].annotations) {
        passed_over(secrets.drop_first())
    } else if !globs_valid(secrets[0].annotations) {
        Seq::empty()
    } else if allow_patterns(secrets[0].annotations) is None {
        seq![secrets[0].name] + passed_over(secrets.drop_first())
    } else {
        passed_over(secrets.drop_first())
    }
}

/// Tells whether an object with these annotations takes part in propagation.
pub fn can_handle(annotations: &Option<FieldMap>) -> (r: bool)
    ensures
        r == participates(annotations.deep_view()),
{
    let annotations = if let Some(annotations) = annotations {
        annotations
    } else {
        return false;
    };
    if !annotations.contains_key(ANNOTATION_ENABLED) {
        false
    } else if annotations.contains_key(ANNOTATION_CLONED_FROM) {
        false
    } else {
        true
    }
}

/// Compiles the patterns that `annotations` hold under `key`.
fn compile_under(annotations: &Option<FieldMap>, key: &str) -> (r: Result<Option<GlobList>, Error>)
    ensures
        r is Ok <==> usable(patterns_under(annotations.deep_view(), key@)),
        r matches Ok(list) ==> list.deep_view() == patterns_under(annotations.deep_view(), key@),
        r matches Err(error) ==> error matches Error::Glob(refused) && ({
            let list = patterns_under(annotations.deep_view(), key@).unwrap();
            refused.glob.deep_view() == Some(list[first_invalid(list)])
        }),
{
    let value = match annotations {
        Some(fields) => fields.get(key),
        None => None,
    };
    match value {
        Some(globs) => match GlobList::new(globs.as_str()) {
            Ok(list) => Ok(Some(list)),
            Err(refused) => Err(Error::Glob(refused)),
        },
        None => Ok(None),
    }
}

/// Compiles the allow list and the deny list of a secret.
///
/// Each list is present when its annotation is.  The call fails when a
/// pattern of either list cannot be compiled, with the error for the first
/// such pattern, the allow list taken first.
pub fn get_globbers(annotations: &Option<FieldMap>) -> (r: Result<
    (Option<GlobList>, Option<GlobList>),
    Error,
>)
    ensures
        r is Ok <==> globs_valid(annotations.deep_view()),
        r matches Ok(lists) ==> {
            &&& lists.0.deep_view() == allow_patterns(annotations.deep_view())
            &&& lists.1.deep_view() == deny_patterns(annotations.deep_view())
        },
        r matches Err(error) ==> error matches Error::Glob(refused) && refused.glob.deep_view()
            == Some(faulty_pattern(annotations.deep_view())),
{
    let allow = compile_under(annotations, ANNOTATION_NAMESPACES);
    let deny = compile_under(annotations, ANNOTATION_NAMESPACES_DENY);
    match (allow, deny) {
        (Err(error), _) => Err(error),
        (Ok(_), Err(error)) => Err(error),
        (Ok(allow), Ok(deny)) => Ok((allow, deny)),
    }
}

/// A copy of `field_map` without the keys under the reserved prefix.
pub fn remove_own_fields(field_map: Option<&FieldMap>) -> (r: Option<FieldMap>)
    ensures
        r.deep_view() == own_fields_removed(field_map.deep_view()),
{
    if let Some(field_map) = field_map {
        Some(field_map.without_prefix(ANNOTATION_PREFIX))
    } else {
        None
    }
}

/// Builds the copy of `source` for the namespace `target`.
pub fn copy_secret(source: &Secret, target: &str) -> (r: Secret)
    ensures
        r@ == copy_of(source@, target@),
{
    let labels = remove_own_fields(source.labels.as_ref());
    let mut annotations = match remove_own_fields(source.annotations.as_ref()) {
        Some(kept) => kept,
        None => FieldMap::new(),
    };
    annotations.insert(ANNOTATION_CLONED_FROM.to_owned(), source.namespace.clone());
    Secret {
        namespace: target.to_owned(),
        name: source.name.clone(),
        labels,
        annotations: Some(annotations),
        data: clone_data(&source.data),
        type_: clone_text(&source.type_),
        immutable: source.immutable,
        finalizers: None,
        owner_references: None,
        deletion_timestamp: None,
    }
}

/// Decides whether a namespace receives a copy of a secret, from what is
/// known of the two: whether the namespace takes part, whether it is the one
/// that the secret lives in, and whether a pattern of the allow list and a
/// pattern of the deny list match its name.
pub fn receives_copy(takes_part: bool, own: bool, allowed: bool, denied: bool) -> (r: bool)
    ensures
        r == (takes_part && !own && allowed && !denied),
{
    if !takes_part {
        return false;
    }
    if own {
        return false;
    }
    if !allowed {
        return false;
    }
    !denied
}

/// Tells whether the compiled lists of `source` select `namespace`.
fn is_selected(
    source: &Secret,
    allow: &GlobList,
    deny: &Option<GlobList>,
    namespace: &Namespace,
) -> (r: bool)
    requires
        allow_patterns(source@.annotations) == Some(allow@),
        deny_patterns(source@.annotations) == deny.deep_view(),
    ensures
        r == selects(source@, namespace@),
{
    let name = namespace.name.as_str();
    receives_copy(
        can_handle(&namespace.annotations),
        crate::text::str_eq(name, source.namespace.as_str()),
        allow.is_match(name),
        match deny {
            Some(deny_list) => deny_list.is_match(name),
            None => false,
        },
    )
}

/// Appends to `writes` the copies of `source` for the namespaces it selects.
fn place(
    source: &Secret,
    allow: &GlobList,
    deny: &Option<GlobList>,
    namespaces: &[Namespace],
    writes: &mut Vec<Secret>,
)
    requires
        allow_patterns(source@.annotations) == Some(allow@),
        deny_patterns(source@.annotations) == deny.deep_view(),
    ensures
        final(writes).deep_view() == old(writes).deep_view() + copies(
            source@,
            namespaces.deep_view(),
        ),
{
    let ghost before = writes.deep_view();
    let ghost all = namespaces.deep_view();
    let mut j: usize = 0;
    proof {
        assert(all.take(0) == Seq::<NamespaceView>::empty());
        assert(before + copies(source@, all.take(0)) == before);
    }
    while j < namespaces.len()
        invariant
            j <= namespaces@.len(),
            all == namespaces.deep_view(),
            allow_patterns(source@.annotations) == Some(allow@),
            deny_patterns(source@.annotations) == deny.deep_view(),
            writes.deep_view() == before + copies(source@, all.take(j as int)),
        decreases namespaces@.len() - j,
    {
        let namespace = &namespaces[j];
        proof {
            assert(all.take(j + 1).drop_last() == all.take(j as int));
            assert(all.take(j + 1).last() == namespace@);
        }
        if is_selected(source, allow, deny, namespace) {
            let ghost sofar = writes.deep_view();
            let copy = copy_secret(source, namespace.name.as_str());
            writes.push(copy);
            assert(writes.deep_view() == sofar.push(copy_of(source@, namespace@.name)));
            assert(before + copies(source@, all.take(j as int)).push(
                copy_of(source@, namespace@.name),
            ) == (before + copies(source@, all.take(j as int))).push(
                copy_of(source@, namespace@.name),
            ));
        }
        j += 1;
    }
    assert(all.take(j as int) == all);
}

/// What a synchronization asks of its caller.
#[derive(Debug)]
pub struct SyncPlan {
    /// The copies to apply, in this order, each to the namespace it names.
    pub writes: Vec<Secret>,
    /// The names of the secrets that take part and have no allow list.  They
    /// are copied nowhere; the caller warns of each.
    pub passed_over: Vec<String>,
    /// What to report once every copy has been applied.
    pub outcome: Result<Action, Error>,
}

/// The failure that a refusal of the store stands for.
pub fn refused(refusal: StoreError) -> (r: Error)
    ensures
        r matches Error::Kube(given) && given@ == refusal@,
{
    Error::Kube(refusal)
}

/// What the answer of the store to a write comes to: a refusal is a failure
/// of the synchronization.
pub fn written(answer: Result<(), StoreError>) -> (r: Result<(), Error>)
    ensures
        match answer {
            Ok(_) => r is Ok,
            Err(refusal) => r matches Err(Error::Kube(given)) && given@ == refusal@,
        },
{
    match answer {
        Ok(_) => Ok(()),
        Err(refusal) => Err(refused(refusal)),
    }
}

/// What carrying out a plan asks for next.
#[derive(Debug)]
pub enum SyncStep<'a> {
    /// Apply this copy, and tell what the store answered.
    Apply(&'a Secret),
    /// Stop with this failure; no further copy is applied.
    Fail(Error),
    /// Every copy has been applied: report the outcome of the plan.
    Finish,
}

impl SyncPlan {
    /// Decides what follows once `applied` copies of the plan have been
    /// applied and the store has answered the last of them with `answer`;
    /// before the first copy the answer is `Ok`.
    ///
    /// A refused write ends the run with the failure of the store.  Else the
    /// next copy is applied, and after the last one the plan is finished.
    pub fn step(&self, applied: usize, answer: Result<(), StoreError>) -> (r: SyncStep<'_>)
        ensures
            match answer {
                Err(refusal) => r matches SyncStep::Fail(Error::Kube(given)) && given@
                    == refusal@,
                Ok(_) => if applied < self.writes@.len() {
                    r matches SyncStep::Apply(copy) && *copy == self.writes@[applied as int]
                } else {
                    r is Finish
                },
            },
    {
        match written(answer) {
            Err(error) => SyncStep::Fail(error),
            Ok(_) => if applied < self.writes.len() {
                SyncStep::Apply(&self.writes[applied])
            } else {
                SyncStep::Finish
            },
        }
    }
}

/// Plans the propagation of `secrets` into `namespaces`.
///
/// The secrets are taken in turn.  A secret that does not take part is
/// passed over without an error, and so is one without an allow list.  A
/// secret with a pattern that cannot be compiled ends the run with the error
/// for the pattern; the copies planned before it stay in the plan.
pub fn sync_secret(secrets: &[Secret], namespaces: &[Namespace]) -> (plan: SyncPlan)
    ensures
        plan.writes.deep_view() == planned_writes(secrets.deep_view(), namespaces.deep_view()),
        plan.passed_over.deep_view() == passed_over(secrets.deep_view()),
        plan.outcome is Err <==> plan_fails(secrets.deep_view()),
        plan.outcome matches Ok(action) ==> action == Action::AwaitChange,
        plan.outcome matches Err(error) ==> error matches Error::Glob(refused)
            && refused.glob.deep_view() == Some(plan_fault(secrets.deep_view())),
{
    let ghost all = secrets.deep_view();
    let ghost targets = namespaces.deep_view();
    let mut writes: Vec<Secret> = Vec::new();
    let mut silent: Vec<String> = Vec::new();
    let mut i: usize = 0;
    proof {
        assert(all.skip(0) == all);
        assert(writes.deep_view() + planned_writes(all, targets) == planned_writes(all, targets));
        assert(silent.deep_view() + passed_over(all) == passed_over(all));
    }
    while i < secrets.len()
        invariant
            i <= secrets@.len(),
            all == secrets.deep_view(),
            targets == namespaces.deep_view(),
            writes.deep_view() + planned_writes(all.skip(i as int), targets) == planned_writes(
                all,
                targets,
            ),
            silent.deep_view() + passed_over(all.skip(i as int)) == passed_over(all),
            plan_fails(all.skip(i as int)) == plan_fails(all),
            plan_fault(all.skip(i as int)) == plan_fault(all),
        decreases secrets@.len() - i,
    {
        let secret = &secrets[i];
        let ghost rest = all.skip(i as int);
        proof {
            assert(rest[0] == secret@);
            assert(rest.drop_first() == all.skip(i + 1));
        }
        if can_handle(&secret.annotations) {
            let (allow, deny) = match get_globbers(&secret.annotations) {
                Ok(lists) => lists,
                Err(error) => {
                    assert(writes.deep_view() + Seq::<SecretView>::empty() == writes.deep_view());
                    assert(silent.deep_view() + Seq::<Seq<char>>::empty() == silent.deep_view());
                    return SyncPlan { writes, passed_over: silent, outcome: Err(error) };
                },
            };
            let ghost sofar = writes.deep_view();
            if let Some(allow) = allow {
                place(secret, &allow, &deny, namespaces, &mut writes);
            } else {
                let ghost named = silent.deep_view();
                silent.push(secret.name.clone());
                proof {
                    lemma_no_allow_list_copies_nothing(secret@, targets);
                    assert(sofar + Seq::<SecretView>::empty() == sofar);
                    assert(silent.deep_view() == named.push(secret@.name));
                    assert(named + (seq![secret@.name] + passed_over(all.skip(i + 1)))
                        == named.push(secret@.name) + passed_over(all.skip(i + 1)));
                }
            }
            proof {
                assert(sofar + (copies(secret@, targets) + planned_writes(
                    all.skip(i + 1),
                    targets,
                )) == (sofar + copies(secret@, targets)) + planned_writes(
                    all.skip(i + 1),
                    targets,
                ));
            }
        }
        i += 1;
    }
    proof {
        assert(writes.deep_view() + Seq::<SecretView>::empty() == writes.deep_view());
        assert(silent.deep_view() + Seq::<Seq<char>>::empty() == silent.deep_view());
    }
    SyncPlan { writes, passed_over: silent, outcome: Ok(Action::AwaitChange) }
}

/// A secret without an allow list selects no namespace.
pub proof fn lemma_no_allow_list_copies_nothing(source: SecretView, namespaces: Seq<NamespaceView>)
    requires
        allow_patterns(source.annotations) is None,
    ensures
        copies(source, namespaces) == Seq::<SecretView>::empty(),
    decreases namespaces.len(),
{
    if namespaces.len() > 0 {
        lemma_no_allow_list_copies_nothing(source, namespaces.drop_last());
    }
}

/// Plans the propagation of one secret into the namespaces that are visible.
pub fn reconcile_secret(obj: &Secret, namespaces: &[Namespace]) -> (plan: SyncPlan)
    ensures
        plan.writes.deep_view() == planned_writes(seq![obj@], namespaces.deep_view()),
        plan.passed_over.deep_view() == passed_over(seq![obj@]),
        plan.outcome is Err <==> plan_fails(seq![obj@]),
        plan.outcome matches Ok(action) ==> action == Action::AwaitChange,
        plan.outcome matches Err(error) ==> error matches Error::Glob(refused)
            && refused.glob.deep_view() == Some(plan_fault(seq![obj@])),
{
    let mut secrets: Vec<Secret> = Vec::new();
    secrets.push(obj.clone());
    assert(secrets.deep_view() == seq![obj@]);
    sync_secret(secrets.as_slice(), namespaces)
}

/// Plans the propagation of the secrets that are visible into one namespace.
pub fn reconcile_namespace(obj: &Namespace, secrets: &[Secret]) -> (plan: SyncPlan)
    ensures
        plan.writes.deep_view() == planned_writes(secrets.deep_view(), seq![obj@]),
        plan.passed_over.deep_view() == passed_over(secrets.deep_view()),
        plan.outcome is Err <==> plan_fails(secrets.deep_view()),
        plan.outcome matches Ok(action) ==> action == Action::AwaitChange,
        plan.outcome matches Err(error) ==> error matches Error::Glob(refused)
            && refused.glob.deep_view() == Some(plan_fault(secrets.deep_view())),
{
    let mut namespaces: Vec<Namespace> = Vec::new();
    namespaces.push(obj.clone());
    assert(namespaces.deep_view() == seq![obj@]);
    sync_secret(secrets, namespaces.as_slice())
}

} // verus!
