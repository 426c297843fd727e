//! Rendering a template into a secret.
//!
//! The entries of a template are rendered in order.  An entry that refers to
//! another secret cannot be rendered without the store: rendering stops
//! there and asks for the secret, and goes on when the caller hands it in.
//! When every entry has a value, the secret is built and the caller is asked
//! to create it.  The first entry that fails ends the rendering; no secret is
//! built then.

use crate::objects::{clone_fields, clone_text, OwnerReference, OwnerReferenceView, Secret, SecretView};
use crate::store::StoreError;
use crate::string_map::ByteMap;
use crate::template::crd::{
    DataTemplates, DataTemplatesView, SecretKeySelector, SecretKeySelectorView, SecretTemplate,
    SecretTemplateView, API_VERSION, KIND,
};
use crate::template::error::{Error, GeneratorError};
use crate::template::generator::{generate_secret, generated, rejection, settings_of, surely_made};
use crate::utils::Action;
use vstd::prelude::*;
use vstd::utf8::encode_utf8;

verus! {

/// The finalizer that every rendered secret carries.
pub const FINALIZER_NAME: &'static str = "secret-template-operator.withlazers.dev/finalizer";

/// The bytes that `base64::decode` returns for `input`; `None` where it
/// fails.
pub uninterp spec fn base64_decoded(input: Seq<char>) -> Option<Seq<u8>>;

/// Calls `base64::decode`, which decodes standard base64 with padding.  The
/// result depends on the text alone; [`base64_decoded`] names it.
#[verifier::external_body]
#[allow(deprecated)]
fn decode_base64(input: &str) -> (r: Result<Vec<u8>, base64::DecodeError>)
    ensures
        match r {
            Ok(bytes) => base64_decoded(input@) == Some(bytes@),
            Err(_) => base64_decoded(input@) is None,
        },
{
    base64::decode(input)
}

/// An entry with this source gets `value` without a look at the store.
pub open spec fn entry_settles(source: DataTemplatesView, value: Seq<u8>) -> bool {
    match source {
        DataTemplatesView::SecretRef(_) => false,
        DataTemplatesView::Base64(text) => base64_decoded(text) == Some(value),
        DataTemplatesView::Plain(text) => value == encode_utf8(text),
        DataTemplatesView::Generate(definition) => {
            &&& rejection(settings_of(definition)) is None
            &&& exists|text: Seq<char>| #[trigger]
                generated(settings_of(definition), text) && value == encode_utf8(text)
        },
    }
}

/// An entry with this source waits for the secret called `name`.
pub open spec fn entry_fetches(source: DataTemplatesView, name: Seq<char>) -> bool {
    source matches DataTemplatesView::SecretRef(selector) && selector.name == Some(name)
}

/// An entry with this source can fail with `error`: a reference names no
/// secret, a base64 text does not decode, the settings of a random string
/// are turned down, or the random string lacks a class, which can happen
/// only where the settings do not make sure of every class.
pub open spec fn entry_fails(source: DataTemplatesView, error: Error) -> bool {
    match source {
        DataTemplatesView::SecretRef(selector) => selector.name is None
            && error is SecretKeySelectorHasNoName,
        DataTemplatesView::Base64(text) => base64_decoded(text) is None && error is Base64,
        DataTemplatesView::Plain(_) => false,
        DataTemplatesView::Generate(definition) => error matches Error::RandStr(reason) && (
        match rejection(settings_of(definition)) {
            Some(refused) => reason == refused,
            None => reason == GeneratorError::ClassMissing && !surely_made(settings_of(definition)),
        }),
    }
}

/// What rendering one entry comes to.
#[derive(Debug)]
pub enum EntryStep {
    /// The value of the entry.
    Value(Vec<u8>),
    /// The entry needs the secret of this name.
    Fetch(String),
    /// The entry cannot be rendered.
    Failed(Error),
}

/// Renders one entry as far as that goes without the store.
pub fn render_entry(source: &DataTemplates) -> (r: EntryStep)
    ensures
        match r {
            EntryStep::Value(value) => entry_settles(source@, value@),
            EntryStep::Fetch(name) => entry_fetches(source@, name@),
            EntryStep::Failed(error) => entry_fails(source@, error),
        },
{
    match source {
        DataTemplates::SecretRef(selector) => match &selector.name {
            Some(name) => EntryStep::Fetch(name.clone()),
            None => EntryStep::Failed(Error::SecretKeySelectorHasNoName),
        },
        DataTemplates::Base64(text) => match decode_base64(text.as_str()) {
            Ok(bytes) => EntryStep::Value(bytes),
            Err(error) => EntryStep::Failed(Error::Base64(error)),
        },
        DataTemplates::Plain(text) => EntryStep::Value(text.as_str().as_bytes_vec()),
        DataTemplates::Generate(definition) => match generate_secret(definition) {
            Ok(bytes) => EntryStep::Value(bytes),
            Err(error) => EntryStep::Failed(error),
        },
    }
}

/// What a reference takes from a secret, or why it can take nothing.  A
/// reference without a name takes nothing, whatever the secret holds; else
/// it takes what stands under its key in the data of the secret.
pub open spec fn loaded(selector: SecretKeySelectorView, secret: SecretView) -> Result<
    Seq<u8>,
    Error,
> {
    if selector.name is None {
        Err(Error::SecretKeySelectorHasNoName)
    } else {
        match secret.data {
            None => Err(Error::SecretHasNoData),
            Some(data) => if data.contains_key(selector.key) {
                Ok(data[selector.key])
            } else {
                Err(Error::SecretKeyNotFound)
            },
        }
    }
}

/// Takes from `secret`, which was fetched for `r`, the value that `r` picks.
/// A reference without a name is turned down first: no secret can have been
/// fetched for it.
pub fn load_secret(r: &SecretKeySelector, secret: &Secret) -> (bytes: Result<Vec<u8>, Error>)
    ensures
        match loaded(r@, secret@) {
            Ok(value) => bytes matches Ok(found) && found@ == value,
            Err(error) => bytes matches Err(given) && given == error,
        },
{
    if r.name.is_none() {
        return Err(Error::SecretKeySelectorHasNoName);
    }
    let datas = match &secret.data {
        Some(datas) => datas,
        None => {
            return Err(Error::SecretHasNoData);
        },
    };
    match datas.get(r.key.as_str()) {
        Some(data) => Ok(data.clone()),
        None => Err(Error::SecretKeyNotFound),
    }
}

/// The entries of a template, by view.
pub type Entries = Seq<(Seq<char>, DataTemplatesView)>;

/// The data that the first `n` entries give, with `values` as their values.
pub open spec fn data_of(entries: Entries, values: Seq<Seq<u8>>, n: int) -> Map<Seq<char>, Seq<u8>>
    decreases n,
{
    if n <= 0 {
        Map::empty()
    } else {
        data_of(entries, values, n - 1).insert(entries[n - 1].0, values[n - 1])
    }
}

/// The values of a rendering, each as its bytes.
pub open spec fn byte_views(values: Seq<Vec<u8>>) -> Seq<Seq<u8>> {
    Seq::new(values.len(), |i: int| values[i]@)
}

/// Every entry from `from` up to `to` gets its value without the store.
pub open spec fn settled(entries: Entries, values: Seq<Seq<u8>>, from: int, to: int) -> bool {
    forall|i: int| from <= i < to ==> entry_settles(#[trigger] entries[i].1, values[i])
}

/// The reference by which a rendered secret names its template as its
/// owner and controller.
pub open spec fn owner_of(template: SecretTemplateView) -> OwnerReferenceView {
    OwnerReferenceView {
        api_version: API_VERSION@,
        kind: KIND@,
        name: template.name,
        uid: template.uid,
        controller: Some(true),
        block_owner_deletion: None,
    }
}

/// The secret that a template renders to, `data` being its data.
pub open spec fn template_secret(
    template: SecretTemplateView,
    data: Map<Seq<char>, Seq<u8>>,
) -> SecretView {
    SecretView {
        namespace: template.namespace,
        name: template.name,
        labels: template.spec.labels,
        annotations: template.spec.annotations,
        data: Some(data),
        type_: template.spec.type_,
        immutable: Some(true),
        finalizers: Some(seq![FINALIZER_NAME@]),
        owner_references: Some(seq![owner_of(template)]),
        deletion_timestamp: None,
    }
}

/// How far a rendering has come: the values of the entries rendered so far,
/// in the order of the entries.
#[derive(Debug)]
pub struct Rendering {
    pub values: Vec<Vec<u8>>,
}

impl Rendering {
    /// A rendering that has not begun.
    pub fn new() -> (r: Self)
        ensures
            r.values@.len() == 0,
    {
        Rendering { values: Vec::new() }
    }
}

/// What a rendering asks of its caller.
#[derive(Debug)]
pub enum RenderStep {
    /// Fetch the secret `name` from the namespace of the template and go on
    /// with it.
    Fetch { progress: Rendering, name: String },
    /// Create this secret.
    Create(Secret),
    /// Give up with this error.
    Failed(Error),
}

/// `step` is what rendering `template` comes to from the values `before`.
///
/// * A fetch stands at the first entry without a value that refers to a
///   secret; the entries before it have their values.
/// * A secret to create holds the values of all entries.
/// * A failure is that of the first entry that fails; the entries before it
///   had their values.
///
/// Values that were there before are kept as they are.
pub open spec fn renders(template: SecretTemplateView, before: Seq<Seq<u8>>, step: RenderStep) -> bool {
    let entries = template.spec.data;
    match step {
        RenderStep::Fetch { progress, name } => {
            &&& before.len() <= progress.values@.len() < entries.len()
            &&& byte_views(progress.values@).take(before.len() as int) == before
            &&& settled(
                entries,
                byte_views(progress.values@),
                before.len() as int,
                progress.values@.len() as int,
            )
            &&& entry_fetches(entries[progress.values@.len() as int].1, name@)
        },
        RenderStep::Create(secret) => exists|values: Seq<Seq<u8>>|
            {
                &&& values.take(before.len() as int) == before
                &&& settled(entries, values, before.len() as int, entries.len() as int)
                &&& secret@ == #[trigger] template_secret(
                    template,
                    data_of(entries, values, entries.len() as int),
                )
            },
        RenderStep::Failed(error) => exists|values: Seq<Seq<u8>>, at: int|
            {
                &&& before.len() <= at < entries.len()
                &&& values.take(before.len() as int) == before
                &&& #[trigger] settled(entries, values, before.len() as int, at)
                &&& entry_fails(entries[at].1, error)
            },
    }
}

/// Builds the secret of a template from the values of its entries.
fn build_secret(obj: &SecretTemplate, values: &Vec<Vec<u8>>) -> (r: Secret)
    requires
        obj.spec.data@.len() <= values@.len(),
    ensures
        r@ == template_secret(
            obj@,
            data_of(obj@.spec.data, byte_views(values@), obj@.spec.data.len() as int),
        ),
{
    let mut data = ByteMap::new();
    let mut i: usize = 0;
    while i < obj.spec.data.len()
        invariant
            i <= obj.spec.data@.len() <= values@.len(),
            data@ == data_of(obj@.spec.data, byte_views(values@), i as int),
        decreases obj.spec.data@.len() - i,
    {
        data.insert(obj.spec.data[i].0.clone(), values[i].clone());
        i += 1;
    }
    let oref = OwnerReference {
        api_version: API_VERSION.to_owned(),
        kind: KIND.to_owned(),
        name: obj.name.clone(),
        uid: obj.uid.clone(),
        controller: Some(true),
        block_owner_deletion: None,
    };
    let mut owners: Vec<OwnerReference> = Vec::new();
    owners.push(oref);
    let mut finalizers: Vec<String> = Vec::new();
    finalizers.push(FINALIZER_NAME.to_owned());
    let secret = Secret {
        namespace: obj.namespace.clone(),
        name: obj.name.clone(),
        labels: clone_fields(&obj.spec.labels),
        annotations: clone_fields(&obj.spec.annotations),
        data: Some(data),
        type_: clone_text(&obj.spec.type_),
        immutable: Some(true),
        finalizers: Some(finalizers),
        owner_references: Some(owners),
        deletion_timestamp: None,
    };
    proof {
        assert(secret@.finalizers.unwrap() == seq![FINALIZER_NAME@]);
        assert(secret@.owner_references.unwrap() == seq![owner_of(obj@)]);
    }
    secret
}

/// Renders the entries of `obj` that `progress` holds no value for, up to
/// the first that needs the store or fails, or up to the end.
pub fn reconcile_secret_template(obj: &SecretTemplate, progress: Rendering) -> (step: RenderStep)
    ensures
        renders(obj@, byte_views(progress.values@), step),
{
    let ghost before = byte_views(progress.values@);
    let ghost entries = obj@.spec.data;
    let mut values = progress.values;
    proof {
        assert(byte_views(values@).take(before.len() as int) == before);
    }
    while values.len() < obj.spec.data.len()
        invariant
            entries == obj@.spec.data,
            before == byte_views(progress.values@),
            before.len() <= values@.len(),
            byte_views(values@).take(before.len() as int) == before,
            settled(entries, byte_views(values@), before.len() as int, values@.len() as int),
        decreases obj.spec.data@.len() - values@.len(),
    {
        let at = values.len();
        let ghost sofar = byte_views(values@);
        proof {
            assert(entries.len() == obj.spec.data@.len());
            assert(entries[at as int].1 == obj.spec.data@[at as int].1@);
        }
        match render_entry(&obj.spec.data[at].1) {
            EntryStep::Value(value) => {
                values.push(value);
                proof {
                    let now = byte_views(values@);
                    assert(now == sofar.push(value@));
                    assert(now.take(before.len() as int) == sofar.take(before.len() as int));
                    assert forall|i: int| before.len() <= i < now.len() implies entry_settles(
                        #[trigger] entries[i].1,
                        now[i],
                    ) by {
                        if i < sofar.len() {
                            assert(now[i] == sofar[i]);
                        }
                    }
                }
            },
            EntryStep::Fetch(name) => {
                return RenderStep::Fetch { progress: Rendering { values }, name };
            },
            EntryStep::Failed(error) => {
                proof {
                    assert(sofar.take(before.len() as int) == before);
                    assert(settled(entries, sofar, before.len() as int, at as int));
                    assert(entry_fails(entries[at as int].1, error));
                }
                return RenderStep::Failed(error);
            },
        }
    }
    let secret = build_secret(obj, &values);
    proof {
        let all = byte_views(values@);
        assert forall|i: int| before.len() <= i < entries.len() implies entry_settles(
            #[trigger] entries[i].1,
            all[i],
        ) by {}
        assert(settled(entries, all, before.len() as int, entries.len() as int));
    }
    RenderStep::Create(secret)
}

/// Goes on with a rendering that waits for a secret, given what fetching the
/// secret came to: a failure of the store, or the secret, or `None` where
/// the store holds no secret of that name.
///
/// A reference without a name ends the rendering, whatever was fetched.  A
/// failed fetch ends the rendering with the failure of the store, and a
/// secret that does not exist ends it too.  A fetched secret gives the entry
/// its value, or ends the rendering where it holds no data or lacks the
/// key.  Where `waiting` does not stand at an entry that refers to a secret,
/// the rendering goes on as if nothing had been fetched.
pub fn resume_render(
    obj: &SecretTemplate,
    waiting: Rendering,
    fetched: Result<Option<Secret>, StoreError>,
) -> (step: RenderStep)
    ensures
        ({
            let at = waiting.values@.len() as int;
            let entries = obj@.spec.data;
            if at < entries.len() && entries[at].1 is SecretRef {
                if entries[at].1->SecretRef_0.name is None {
                    step matches RenderStep::Failed(Error::SecretKeySelectorHasNoName)
                } else {
                    match fetched {
                        Err(refusal) => step matches RenderStep::Failed(Error::Kube(given))
                            && given@ == refusal@,
                        Ok(None) => step matches RenderStep::Failed(Error::SecretNotFound),
                        Ok(Some(secret)) => match loaded(entries[at].1->SecretRef_0, secret@) {
                            Err(error) => step matches RenderStep::Failed(given) && given == error,
                            Ok(value) => renders(
                                obj@,
                                byte_views(waiting.values@).push(value),
                                step,
                            ),
                        },
                    }
                }
            } else {
                renders(obj@, byte_views(waiting.values@), step)
            }
        }),
{
    let at = waiting.values.len();
    if at < obj.spec.data.len() {
        if let DataTemplates::SecretRef(selector) = &obj.spec.data[at].1 {
            if selector.name.is_none() {
                return RenderStep::Failed(Error::SecretKeySelectorHasNoName);
            }
            let secret = match fetched {
                Ok(Some(secret)) => secret,
                Ok(None) => {
                    return RenderStep::Failed(Error::SecretNotFound);
                },
                Err(refusal) => {
                    return RenderStep::Failed(Error::Kube(refusal));
                },
            };
            let value = match load_secret(selector, &secret) {
                Ok(value) => value,
                Err(error) => {
                    return RenderStep::Failed(error);
                },
            };
            let ghost before = byte_views(waiting.values@);
            let mut values = waiting.values;
            values.push(value);
            assert(byte_views(values@) == before.push(value@));
            return reconcile_secret_template(obj, Rendering { values });
        }
    }
    reconcile_secret_template(obj, waiting)
}

/// What to report once the store has answered the request to create the
/// rendered secret.  A secret that exists already is as good as one that was
/// created.
pub fn created(answer: Result<(), StoreError>) -> (r: Result<Action, Error>)
    ensures
        match answer {
            Ok(_) => r matches Ok(Action::AwaitChange),
            Err(refusal) => if refusal.code == Some(crate::store::CONFLICT) {
                r matches Ok(Action::AwaitChange)
            } else {
                r matches Err(Error::Kube(given)) && given@ == refusal@
            },
        },
{
    match answer {
        Ok(_) => Ok(Action::AwaitChange),
        Err(refusal) => if refusal.is_conflict() {
            Ok(Action::AwaitChange)
        } else {
            Err(Error::Kube(refusal))
        },
    }
}

} // verus!
