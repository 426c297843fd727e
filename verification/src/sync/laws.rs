//! What holds of every synchronization.

use crate::objects::{NamespaceView, SecretView};
use crate::sync::constants::{ANNOTATION_CLONED_FROM, ANNOTATION_ENABLED, ANNOTATION_PREFIX};
use crate::sync::globlist::any_matches;
use crate::sync::operator::{
    allow_patterns, copies, copy_of, deny_patterns, globs_valid, participates, planned_writes,
    propagates, selects,
};
use crate::text::is_prefix_of;
use vstd::prelude::*;

verus! {

/// The copies of one secret for one namespace: one copy where the secret
/// selects the namespace, none where it does not.
pub proof fn lemma_copies_for_one_namespace(source: SecretView, namespace: NamespaceView)
    ensures
        copies(source, seq![namespace]) == if selects(source, namespace) {
            seq![copy_of(source, namespace.name)]
        } else {
            Seq::empty()
        },
{
    let one = seq![namespace];
    assert(one.drop_last() == Seq::<NamespaceView>::empty());
    assert(copies(source, one.drop_last()) == Seq::<SecretView>::empty());
    assert(one.last() == namespace);
    if selects(source, namespace) {
        assert(Seq::<SecretView>::empty().push(copy_of(source, namespace.name)) == seq![
            copy_of(source, namespace.name),
        ]);
    }
}

/// A synchronization of one secret and one namespace writes one copy where
/// the secret is copied into the namespace, and nothing where it is not.
pub proof fn lemma_plan_for_one_pair(source: SecretView, namespace: NamespaceView)
    ensures
        planned_writes(seq![source], seq![namespace]) == if propagates(source, namespace) {
            seq![copy_of(source, namespace.name)]
        } else {
            Seq::empty()
        },
{
    let one = seq![source];
    lemma_copies_for_one_namespace(source, namespace);
    assert(one[0] == source);
    assert(one.drop_first() == Seq::<SecretView>::empty());
    assert(planned_writes(one.drop_first(), seq![namespace]) == Seq::<SecretView>::empty());
    if participates(source.annotations) && globs_valid(source.annotations) {
        assert(copies(source, seq![namespace]) + Seq::<SecretView>::empty() == copies(
            source,
            seq![namespace],
        ));
    }
}

/// Every copy of a secret goes to a namespace that the secret selects.
pub proof fn lemma_copies_have_targets(source: SecretView, namespaces: Seq<NamespaceView>, k: int)
    requires
        0 <= k < copies(source, namespaces).len(),
    ensures
        exists|j: int|
            0 <= j < namespaces.len() && selects(source, #[trigger] namespaces[j]) && copies(
                source,
                namespaces,
            )[k] == copy_of(source, namespaces[j].name),
    decreases namespaces.len(),
{
    let front = namespaces.drop_last();
    if k < copies(source, front).len() {
        lemma_copies_have_targets(source, front, k);
        let j = choose|j: int|
            0 <= j < front.len() && selects(source, #[trigger] front[j]) && copies(source, front)[k]
                == copy_of(source, front[j].name);
        assert(namespaces[j] == front[j]);
    } else {
        let j = namespaces.len() - 1;
        assert(selects(source, namespaces[j]));
    }
}

/// Every write of a synchronization is the copy of one of its secrets for one
/// of its namespaces, and that secret is copied into that namespace.
pub proof fn lemma_writes_have_sources(
    secrets: Seq<SecretView>,
    namespaces: Seq<NamespaceView>,
    k: int,
)
    requires
        0 <= k < planned_writes(secrets, namespaces).len(),
    ensures
        exists|i: int, j: int|
            0 <= i < secrets.len() && 0 <= j < namespaces.len() && propagates(
                #[trigger] secrets[i],
                #[trigger] namespaces[j],
            ) && planned_writes(secrets, namespaces)[k] == copy_of(secrets[i], namespaces[j].name),
    decreases secrets.len(),
{
    let rest = secrets.drop_first();
    let first = if participates(secrets[0].annotations) {
        copies(secrets[0], namespaces)
    } else {
        Seq::empty()
    };
    if k < first.len() {
        lemma_copies_have_targets(secrets[0], namespaces, k);
        let j = choose|j: int|
            0 <= j < namespaces.len() && selects(secrets[0], #[trigger] namespaces[j]) && first[k]
                == copy_of(secrets[0], namespaces[j].name);
        assert(propagates(secrets[0], namespaces[j]));
    } else {
        lemma_writes_have_sources(rest, namespaces, k - first.len());
        let (i, j) = choose|i: int, j: int|
            0 <= i < rest.len() && 0 <= j < namespaces.len() && propagates(
                #[trigger] rest[i],
                #[trigger] namespaces[j],
            ) && planned_writes(rest, namespaces)[k - first.len()] == copy_of(
                rest[i],
                namespaces[j].name,
            );
        assert(secrets[i + 1] == rest[i]);
        assert(propagates(secrets[i + 1], namespaces[j]));
    }
}

/// A synchronization of a single secret that does not take part writes
/// nothing, whatever the namespaces are.
proof fn lemma_outsider_writes_nothing(source: SecretView, namespaces: Seq<NamespaceView>)
    requires
        !participates(source.annotations),
    ensures
        planned_writes(seq![source], namespaces) == Seq::<SecretView>::empty(),
{
    let one = seq![source];
    assert(one[0] == source);
    assert(one.drop_first() == Seq::<SecretView>::empty());
    assert(planned_writes(one.drop_first(), namespaces) == Seq::<SecretView>::empty());
}

/// A secret without the `enabled` marker is copied into no namespace, and a
/// synchronization of it writes nothing.
pub proof fn lemma_unmarked_secret_is_not_copied(
    source: SecretView,
    namespace: NamespaceView,
    namespaces: Seq<NamespaceView>,
)
    requires
        !(source.annotations matches Some(m) && m.contains_key(ANNOTATION_ENABLED@)),
    ensures
        !propagates(source, namespace),
        planned_writes(seq![source], namespaces) == Seq::<SecretView>::empty(),
{
    lemma_outsider_writes_nothing(source, namespaces);
}

/// A secret that carries `cloned_from_namespace` is copied into no namespace,
/// and a synchronization of it writes nothing.
pub proof fn lemma_copy_is_no_source(
    source: SecretView,
    namespace: NamespaceView,
    namespaces: Seq<NamespaceView>,
)
    requires
        source.annotations matches Some(m) && m.contains_key(ANNOTATION_CLONED_FROM@),
    ensures
        !propagates(source, namespace),
        planned_writes(seq![source], namespaces) == Seq::<SecretView>::empty(),
{
    lemma_outsider_writes_nothing(source, namespaces);
}

/// No secret is copied into the namespace that it lives in.
pub proof fn lemma_own_namespace_gets_no_copy(source: SecretView, namespace: NamespaceView)
    requires
        namespace.name == source.namespace,
    ensures
        !propagates(source, namespace),
        planned_writes(seq![source], seq![namespace]) == Seq::<SecretView>::empty(),
{
    lemma_plan_for_one_pair(source, namespace);
}

/// A namespace that a pattern of the deny list matches gets no copy, whether
/// or not a pattern of the allow list matches it too.
pub proof fn lemma_deny_overrides_allow(source: SecretView, namespace: NamespaceView)
    requires
        deny_patterns(source.annotations) matches Some(deny) && any_matches(deny, namespace.name),
    ensures
        !propagates(source, namespace),
        planned_writes(seq![source], seq![namespace]) == Seq::<SecretView>::empty(),
{
    lemma_plan_for_one_pair(source, namespace);
}

/// A copy does not take part in propagation: it names the namespace it came
/// from.  Of the keys under the reserved prefix its annotations hold that
/// one alone, and its labels hold none.
pub proof fn lemma_copy_is_marked(source: SecretView, target: Seq<char>)
    ensures
        !participates(copy_of(source, target).annotations),
        copy_of(source, target).annotations.unwrap()[ANNOTATION_CLONED_FROM@] == source.namespace,
        forall|key: Seq<char>|
            is_prefix_of(ANNOTATION_PREFIX@, key) && copy_of(
                source,
                target,
            ).annotations.unwrap().contains_key(key) ==> key == ANNOTATION_CLONED_FROM@,
        forall|key: Seq<char>|
            copy_of(source, target).labels matches Some(labels) && labels.contains_key(key)
                ==> !is_prefix_of(ANNOTATION_PREFIX@, key),
{
}

/// The secrets of a store, each under its namespace and its name.
pub type Store = Map<(Seq<char>, Seq<char>), SecretView>;

/// The store after `write` has been applied: the copy stands under its
/// namespace and name, in place of what stood there.
pub open spec fn applied(store: Store, write: SecretView) -> Store {
    store.insert((write.namespace, write.name), write)
}

/// The store after `writes` have been applied in order.
pub open spec fn applied_all(store: Store, writes: Seq<SecretView>) -> Store
    decreases writes.len(),
{
    if writes.len() == 0 {
        store
    } else {
        applied(applied_all(store, writes.drop_last()), writes.last())
    }
}

/// What `writes` leave under each place they touch: the last write to it.
pub open spec fn last_writes(writes: Seq<SecretView>) -> Store
    decreases writes.len(),
{
    if writes.len() == 0 {
        Map::empty()
    } else {
        applied(last_writes(writes.drop_last()), writes.last())
    }
}

/// Applying writes replaces what the store holds at the places they touch
/// and leaves the rest of it alone.
pub proof fn lemma_applied_all(store: Store, writes: Seq<SecretView>)
    ensures
        applied_all(store, writes) == store.union_prefer_right(last_writes(writes)),
    decreases writes.len(),
{
    if writes.len() == 0 {
        assert(store.union_prefer_right(Map::empty()) =~= store);
    } else {
        lemma_applied_all(store, writes.drop_last());
        assert(applied(
            store.union_prefer_right(last_writes(writes.drop_last())),
            writes.last(),
        ) =~= store.union_prefer_right(last_writes(writes)));
    }
}

/// Running a synchronization a second time on the same secrets and
/// namespaces changes nothing: the store after both runs is the store after
/// the first.
pub proof fn lemma_sync_is_idempotent(
    store: Store,
    secrets: Seq<SecretView>,
    namespaces: Seq<NamespaceView>,
)
    ensures
        applied_all(
            applied_all(store, planned_writes(secrets, namespaces)),
            planned_writes(secrets, namespaces),
        ) == applied_all(store, planned_writes(secrets, namespaces)),
{
    let writes = planned_writes(secrets, namespaces);
    let once = applied_all(store, writes);
    lemma_applied_all(store, writes);
    lemma_applied_all(once, writes);
    assert(once.union_prefer_right(last_writes(writes)) =~= once);
}

} // verus!
