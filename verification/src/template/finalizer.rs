//! The finalizer of rendered secrets.
//!
//! A rendered secret lives through four states.  It is *active* while nobody
//! has asked to delete it.  Once deletion has been requested and the
//! finalizer of this controller is the only one left, the finalizer is taken
//! off with a patch that first tests that it is still there.  The store then
//! deletes the secret, and the template that owns it is rendered again; the
//! new secret is active.
//!
//! [`advance`] takes the secret from one state to the next.  The caller talks
//! to the store in between: it carries out the command that a step returns
//! and hands back what came of it.

use crate::objects::{OwnerReference, OwnerReferenceView, Secret, SecretView};
use crate::store::StoreError;
use crate::template::crd::{API_VERSION, KIND};
use crate::template::error::Error;
use crate::template::render::FINALIZER_NAME;
use crate::text::str_eq;
use crate::utils::Action;
use vstd::prelude::*;

verus! {

/// The place of the first finalizer in an object, as a JSON pointer.
pub const FINALIZER_PATH: &'static str = "/metadata/finalizers/0";

/// One operation of a JSON patch.
#[derive(Debug)]
pub enum PatchOperation {
    /// Go on only if `value` stands at `path`.
    Test { path: String, value: String },
    /// Take away what stands at `path`.
    Remove { path: String },
}

/// The view of a [`PatchOperation`].
pub enum PatchOperationView {
    Test { path: Seq<char>, value: Seq<char> },
    Remove { path: Seq<char> },
}

impl View for PatchOperation {
    type V = PatchOperationView;

    open spec fn view(&self) -> PatchOperationView {
        match self {
            PatchOperation::Test { path, value } => PatchOperationView::Test {
                path: path@,
                value: value@,
            },
            PatchOperation::Remove { path } => PatchOperationView::Remove { path: path@ },
        }
    }
}

impl DeepView for PatchOperation {
    type V = PatchOperationView;

    open spec fn deep_view(&self) -> PatchOperationView {
        self.view()
    }
}

/// The patch that takes the finalizer off, provided that it is the first
/// finalizer of the object at the moment the store applies the patch.
pub open spec fn release_patch() -> Seq<PatchOperationView> {
    seq![
        PatchOperationView::Test { path: FINALIZER_PATH@, value: FINALIZER_NAME@ },
        PatchOperationView::Remove { path: FINALIZER_PATH@ },
    ]
}

/// Deletion of the secret has been requested, and the finalizer of this
/// controller is the only finalizer that it carries.
pub open spec fn awaits_release(secret: SecretView) -> bool {
    secret.deletion_timestamp is Some && secret.finalizers == Some(seq![FINALIZER_NAME@])
}

/// What a change of a rendered secret calls for.
#[derive(Debug)]
pub enum FinalizerStep {
    /// Nothing: report this to the scheduler.
    Done(Action),
    /// Apply this patch to the secret, then look for its template.
    Release(Vec<PatchOperation>),
}

/// Decides what a change of the rendered secret `obj` calls for.
///
/// While no deletion has been requested there is nothing to do.  Nor is
/// there while the secret carries other finalizers, or none: this controller
/// acts last.
pub fn reconcile_secret(obj: &Secret) -> (step: FinalizerStep)
    ensures
        match step {
            FinalizerStep::Done(action) => !awaits_release(obj@) && action == Action::AwaitChange,
            FinalizerStep::Release(patch) => awaits_release(obj@) && patch.deep_view()
                == release_patch(),
        },
{
    if obj.deletion_timestamp.is_none() {
        return FinalizerStep::Done(Action::AwaitChange);
    }
    let alone = match &obj.finalizers {
        Some(finalizers) => finalizers.len() == 1 && str_eq(
            finalizers[0].as_str(),
            FINALIZER_NAME,
        ),
        None => false,
    };
    if !alone {
        proof {
            if obj@.finalizers == Some(seq![FINALIZER_NAME@]) {
                let finalizers = obj.finalizers.unwrap();
                assert(finalizers.deep_view().len() == 1);
                assert(finalizers.deep_view()[0] == FINALIZER_NAME@);
            }
        }
        return FinalizerStep::Done(Action::AwaitChange);
    }
    let mut patch: Vec<PatchOperation> = Vec::new();
    patch.push(
        PatchOperation::Test { path: FINALIZER_PATH.to_owned(), value: FINALIZER_NAME.to_owned() },
    );
    patch.push(PatchOperation::Remove { path: FINALIZER_PATH.to_owned() });
    proof {
        assert(obj.finalizers.unwrap().deep_view() == seq![FINALIZER_NAME@]);
        assert(patch.deep_view() == release_patch());
    }
    FinalizerStep::Release(patch)
}

/// Whether an owner reference names a template.
pub open spec fn names_template(owner: OwnerReferenceView) -> bool {
    owner.kind == KIND@ && owner.api_version == API_VERSION@
}

/// The owner references that name a template, in their order.
pub open spec fn template_owners(owners: Seq<OwnerReferenceView>) -> Seq<OwnerReferenceView>
    decreases owners.len(),
{
    if owners.len() == 0 {
        Seq::empty()
    } else {
        let before = template_owners(owners.drop_last());
        if names_template(owners.last()) {
            before.push(owners.last())
        } else {
            before
        }
    }
}

/// The owner references of a secret; none where it has no list of them.
pub open spec fn owners_of(secret: SecretView) -> Seq<OwnerReferenceView> {
    match secret.owner_references {
        Some(owners) => owners,
        None => Seq::empty(),
    }
}

/// The name of the template that owns a secret: that of the one owner
/// reference that names a template.  Where there is none, or more than one,
/// the secret has no owner to regenerate it from.
pub open spec fn owner_found(secret: SecretView) -> Result<Seq<char>, Error> {
    let owners = template_owners(owners_of(secret));
    if owners.len() == 0 {
        Err(Error::OwnerMissing)
    } else if owners.len() == 1 {
        Ok(owners[0].name)
    } else {
        Err(Error::OwnerAmbiguous)
    }
}

/// Finds the template that owns the rendered secret `obj`, and returns its
/// name.
///
/// The secret must name exactly one template among its owners.
pub fn owning_template(obj: &Secret) -> (r: Result<String, Error>)
    ensures
        match owner_found(obj@) {
            Ok(owner) => r matches Ok(name) && name@ == owner,
            Err(error) => r matches Err(given) && given == error,
        },
{
    let owners = match &obj.owner_references {
        Some(owners) => owners,
        None => {
            return Err(Error::OwnerMissing);
        },
    };
    let ghost all = owners.deep_view();
    let mut found: Option<usize> = None;
    let mut i: usize = 0;
    proof {
        assert(all.take(0) == Seq::<OwnerReferenceView>::empty());
    }
    while i < owners.len()
        invariant
            i <= owners@.len(),
            all == owners.deep_view(),
            all == owners_of(obj@),
            match found {
                Some(at) => at < i && template_owners(all.take(i as int)) == seq![all[at as int]],
                None => template_owners(all.take(i as int)).len() == 0,
            },
        decreases owners@.len() - i,
    {
        let owner = &owners[i];
        proof {
            assert(all.take(i + 1).drop_last() == all.take(i as int));
            assert(all.take(i + 1).last() == owner@);
        }
        if str_eq(owner.kind.as_str(), KIND) && str_eq(owner.api_version.as_str(), API_VERSION) {
            if found.is_some() {
                proof {
                    assert(template_owners(all.take(i + 1)).len() == 2);
                    lemma_template_owners_grow(all.take(i + 1), all);
                }
                return Err(Error::OwnerAmbiguous);
            }
            found = Some(i);
            assert(Seq::<OwnerReferenceView>::empty().push(owner@) == seq![owner@]);
        }
        i += 1;
    }
    proof {
        assert(all.take(i as int) == all);
    }
    match found {
        Some(at) => Ok(owners[at].name.clone()),
        None => Err(Error::OwnerMissing),
    }
}

/// A longer list of owners names at least as many templates.
proof fn lemma_template_owners_grow(
    front: Seq<OwnerReferenceView>,
    owners: Seq<OwnerReferenceView>,
)
    requires
        front.len() <= owners.len(),
        front == owners.take(front.len() as int),
    ensures
        template_owners(front).len() <= template_owners(owners).len(),
    decreases owners.len() - front.len(),
{
    if front.len() < owners.len() {
        let longer = owners.take(front.len() as int + 1);
        assert(longer.drop_last() == front);
        lemma_template_owners_grow(longer, owners);
    } else {
        assert(front == owners);
    }
}

/// Decides what follows the patch that takes the finalizer off.
///
/// Where the store refused the patch, the reconciliation fails with that
/// refusal.  Else the template that owns the secret is to be rendered anew,
/// and its name is returned.
pub fn finalizer_released(obj: &Secret, answer: Result<(), StoreError>) -> (r: Result<
    String,
    Error,
>)
    ensures
        match answer {
            Err(refusal) => r matches Err(Error::Kube(given)) && given@ == refusal@,
            Ok(_) => match owner_found(obj@) {
                Ok(owner) => r matches Ok(name) && name@ == owner,
                Err(error) => r matches Err(given) && given == error,
            },
        },
{
    match answer {
        Err(refusal) => Err(Error::Kube(refusal)),
        Ok(_) => owning_template(obj),
    }
}

/// What to report once the template has been rendered anew: its failure, or
/// that the secret awaits its next change.
pub fn regenerated(rendered: Result<Action, Error>) -> (r: Result<Action, Error>)
    ensures
        match rendered {
            Ok(_) => r matches Ok(Action::AwaitChange),
            Err(error) => r matches Err(given) && given == error,
        },
{
    match rendered {
        Ok(_) => Ok(Action::AwaitChange),
        Err(error) => Err(error),
    }
}

/// Where a rendered secret stands.
#[derive(Debug, Clone, Copy, PartialEq, Eq, Structural)]
pub enum Lifecycle {
    /// The secret exists, and nobody has asked to delete it.
    Active,
    /// Deletion has been requested, and the finalizer is still in place.
    DeletionRequested,
    /// The finalizer has been taken off; the store deletes the secret.
    FinalizerStripped,
    /// The template has been rendered anew; the new secret is active.
    Regenerated,
}

/// What a step of the lifecycle is told.
#[derive(Debug)]
pub enum Event {
    /// The secret has changed.
    Changed,
    /// The store has answered the patch that takes the finalizer off.
    Released(Result<(), StoreError>),
    /// The store has refused to hand out the owning template.
    TemplateRefused(StoreError),
    /// The rendering of the owning template has come to an end.
    Rendered(Result<Action, Error>),
}

/// What a step of the lifecycle asks of its caller.
#[derive(Debug)]
pub enum Command {
    /// End the reconciliation with this outcome.
    Report(Result<Action, Error>),
    /// Apply this patch to the secret, and tell what the store answered.
    Release(Vec<PatchOperation>),
    /// Fetch the template of this name from the namespace of the secret and
    /// render it.  Tell what came of the rendering, or that the store
    /// refused to hand out the template.
    Regenerate(String),
}

/// Takes the rendered secret `obj` one step through its lifecycle.
///
/// * An active secret that has changed is released where it awaits that,
///   and left alone where it does not.
/// * Once the store has taken the finalizer off, the owning template is to
///   be rendered anew.  A refused patch ends the reconciliation, and so does
///   a secret without exactly one template as its owner.
/// * Once the template has been rendered, the secret is regenerated.  A
///   template that the store does not hand out ends the reconciliation, and
///   so does a failed rendering.
///
/// An event that the state does not wait for changes nothing.
pub fn advance(state: Lifecycle, obj: &Secret, event: Event) -> (r: (Lifecycle, Command))
    ensures
        match (state, event) {
            (Lifecycle::Active, Event::Changed) => if awaits_release(obj@) {
                &&& r.0 == Lifecycle::DeletionRequested
                &&& r.1 matches Command::Release(patch) && patch.deep_view() == release_patch()
            } else {
                &&& r.0 == Lifecycle::Active
                &&& r.1 matches Command::Report(Ok(Action::AwaitChange))
            },
            (Lifecycle::DeletionRequested, Event::Released(Err(refusal))) => {
                &&& r.0 == Lifecycle::DeletionRequested
                &&& r.1 matches Command::Report(Err(Error::Kube(given))) && given@ == refusal@
            },
            (Lifecycle::DeletionRequested, Event::Released(Ok(_))) => {
                &&& r.0 == Lifecycle::FinalizerStripped
                &&& match owner_found(obj@) {
                    Ok(owner) => r.1 matches Command::Regenerate(name) && name@ == owner,
                    Err(error) => r.1 matches Command::Report(Err(given)) && given == error,
                }
            },
            (Lifecycle::FinalizerStripped, Event::TemplateRefused(refusal)) => {
                &&& r.0 == Lifecycle::FinalizerStripped
                &&& r.1 matches Command::Report(Err(Error::Kube(given))) && given@ == refusal@
            },
            (Lifecycle::FinalizerStripped, Event::Rendered(Ok(_))) => {
                &&& r.0 == Lifecycle::Regenerated
                &&& r.1 matches Command::Report(Ok(Action::AwaitChange))
            },
            (Lifecycle::FinalizerStripped, Event::Rendered(Err(error))) => {
                &&& r.0 == Lifecycle::FinalizerStripped
                &&& r.1 matches Command::Report(Err(given)) && given == error
            },
            _ => r.0 == state && r.1 matches Command::Report(Ok(Action::AwaitChange)),
        },
{
    match (state, event) {
        (Lifecycle::Active, Event::Changed) => match reconcile_secret(obj) {
            FinalizerStep::Done(action) => (Lifecycle::Active, Command::Report(Ok(action))),
            FinalizerStep::Release(patch) => (Lifecycle::DeletionRequested, Command::Release(patch)),
        },
        (Lifecycle::DeletionRequested, Event::Released(answer)) => {
            let refused = answer.is_err();
            match finalizer_released(obj, answer) {
                Ok(name) => (Lifecycle::FinalizerStripped, Command::Regenerate(name)),
                Err(error) => if refused {
                    (Lifecycle::DeletionRequested, Command::Report(Err(error)))
                } else {
                    (Lifecycle::FinalizerStripped, Command::Report(Err(error)))
                },
            }
        },
        (Lifecycle::FinalizerStripped, Event::TemplateRefused(refusal)) => (
            Lifecycle::FinalizerStripped,
            Command::Report(Err(Error::Kube(refusal))),
        ),
        (Lifecycle::FinalizerStripped, Event::Rendered(rendered)) => {
            let failed = rendered.is_err();
            let outcome = regenerated(rendered);
            if failed {
                (Lifecycle::FinalizerStripped, Command::Report(outcome))
            } else {
                (Lifecycle::Regenerated, Command::Report(outcome))
            }
        },
        (state, _) => (state, Command::Report(Ok(Action::AwaitChange))),
    }
}

} // verus!
