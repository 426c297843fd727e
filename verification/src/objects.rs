//! Snapshots of the cluster objects that the controllers read and write.
//!
//! Each type holds, as plain values, the fields that a decision depends on.
//! Its view replaces every string by its characters and every map by a
//! mathematical map, so that two snapshots with equal views describe the same
//! object.

use crate::string_map::{ByteMap, FieldMap};
use vstd::prelude::*;

verus! {

/// A link from an object to the object that owns it.
#[derive(Debug)]
pub struct OwnerReference {
    pub api_version: String,
    pub kind: String,
    pub name: String,
    pub uid: String,
    pub controller: Option<bool>,
    pub block_owner_deletion: Option<bool>,
}

/// The view of an [`OwnerReference`].
pub struct OwnerReferenceView {
    pub api_version: Seq<char>,
    pub kind: Seq<char>,
    pub name: Seq<char>,
    pub uid: Seq<char>,
    pub controller: Option<bool>,
    pub block_owner_deletion: Option<bool>,
}

impl View for OwnerReference {
    type V = OwnerReferenceView;

    open spec fn view(&self) -> OwnerReferenceView {
        OwnerReferenceView {
            api_version: self.api_version@,
            kind: self.kind@,
            name: self.name@,
            uid: self.uid@,
            controller: self.controller,
            block_owner_deletion: self.block_owner_deletion,
        }
    }
}

impl DeepView for OwnerReference {
    type V = OwnerReferenceView;

    open spec fn deep_view(&self) -> OwnerReferenceView {
        self.view()
    }
}

impl Clone for OwnerReference {
    fn clone(&self) -> (r: Self)
        ensures
            r@ == self@,
    {
        OwnerReference {
            api_version: self.api_version.clone(),
            kind: self.kind.clone(),
            name: self.name.clone(),
            uid: self.uid.clone(),
            controller: self.controller,
            block_owner_deletion: self.block_owner_deletion,
        }
    }
}

/// A secret: its place, its metadata and its payload.
#[derive(Debug)]
pub struct Secret {
    pub namespace: String,
    pub name: String,
    pub labels: Option<FieldMap>,
    pub annotations: Option<FieldMap>,
    pub data: Option<ByteMap>,
    pub type_: Option<String>,
    pub immutable: Option<bool>,
    pub finalizers: Option<Vec<String>>,
    pub owner_references: Option<Vec<OwnerReference>>,
    pub deletion_timestamp: Option<String>,
}

/// The view of a [`Secret`].
pub struct SecretView {
    pub namespace: Seq<char>,
    pub name: Seq<char>,
    pub labels: Option<Map<Seq<char>, Seq<char>>>,
    pub annotations: Option<Map<Seq<char>, Seq<char>>>,
    pub data: Option<Map<Seq<char>, Seq<u8>>>,
    pub type_: Option<Seq<char>>,
    pub immutable: Option<bool>,
    pub finalizers: Option<Seq<Seq<char>>>,
    pub owner_references: Option<Seq<OwnerReferenceView>>,
    pub deletion_timestamp: Option<Seq<char>>,
}

impl View for Secret {
    type V = SecretView;

    open spec fn view(&self) -> SecretView {
        SecretView {
            namespace: self.namespace@,
            name: self.name@,
            labels: self.labels.deep_view(),
            annotations: self.annotations.deep_view(),
            data: self.data.deep_view(),
            type_: self.type_.deep_view(),
            immutable: self.immutable,
            finalizers: self.finalizers.deep_view(),
            owner_references: self.owner_references.deep_view(),
            deletion_timestamp: self.deletion_timestamp.deep_view(),
        }
    }
}

impl DeepView for Secret {
    type V = SecretView;

    open spec fn deep_view(&self) -> SecretView {
        self.view()
    }
}

impl Clone for Secret {
    fn clone(&self) -> (r: Self)
        ensures
            r@ == self@,
    {
        Secret {
            namespace: self.namespace.clone(),
            name: self.name.clone(),
            labels: clone_fields(&self.labels),
            annotations: clone_fields(&self.annotations),
            data: clone_data(&self.data),
            type_: clone_text(&self.type_),
            immutable: self.immutable,
            finalizers: clone_texts(&self.finalizers),
            owner_references: clone_owners(&self.owner_references),
            deletion_timestamp: clone_text(&self.deletion_timestamp),
        }
    }
}

/// A namespace: its name and its metadata.
#[derive(Debug)]
pub struct Namespace {
    pub name: String,
    pub labels: Option<FieldMap>,
    pub annotations: Option<FieldMap>,
}

/// The view of a [`Namespace`].
pub struct NamespaceView {
    pub name: Seq<char>,
    pub labels: Option<Map<Seq<char>, Seq<char>>>,
    pub annotations: Option<Map<Seq<char>, Seq<char>>>,
}

impl View for Namespace {
    type V = NamespaceView;

    open spec fn view(&self) -> NamespaceView {
        NamespaceView {
            name: self.name@,
            labels: self.labels.deep_view(),
            annotations: self.annotations.deep_view(),
        }
    }
}

impl DeepView for Namespace {
    type V = NamespaceView;

    open spec fn deep_view(&self) -> NamespaceView {
        self.view()
    }
}

impl Clone for Namespace {
    fn clone(&self) -> (r: Self)
        ensures
            r@ == self@,
    {
        Namespace {
            name: self.name.clone(),
            labels: clone_fields(&self.labels),
            annotations: clone_fields(&self.annotations),
        }
    }
}

/// A copy of an optional string.
pub fn clone_text(text: &Option<String>) -> (r: Option<String>)
    ensures
        r.deep_view() == text.deep_view(),
{
    match text {
        Some(t) => Some(t.clone()),
        None => None,
    }
}

/// A copy of an optional field map.
pub fn clone_fields(fields: &Option<FieldMap>) -> (r: Option<FieldMap>)
    ensures
        r.deep_view() == fields.deep_view(),
{
    match fields {
        Some(m) => Some(m.clone()),
        None => None,
    }
}

/// A copy of an optional payload.
pub fn clone_data(data: &Option<ByteMap>) -> (r: Option<ByteMap>)
    ensures
        r.deep_view() == data.deep_view(),
{
    match data {
        Some(m) => Some(m.clone()),
        None => None,
    }
}

/// A copy of an optional list of strings.
pub fn clone_texts(texts: &Option<Vec<String>>) -> (r: Option<Vec<String>>)
    ensures
        r.deep_view() == texts.deep_view(),
{
    match texts {
        Some(list) => {
            let mut copy: Vec<String> = Vec::new();
            let mut i: usize = 0;
            while i < list.len()
                invariant
                    i <= list@.len(),
                    copy@.len() == i,
                    forall|j: int| 0 <= j < i ==> copy@[j]@ == list@[j]@,
                decreases list@.len() - i,
            {
                copy.push(list[i].clone());
                i += 1;
            }
            assert(copy.deep_view() =~= list.deep_view());
            Some(copy)
        },
        None => None,
    }
}

/// A copy of an optional list of owner references.
pub fn clone_owners(owners: &Option<Vec<OwnerReference>>) -> (r: Option<Vec<OwnerReference>>)
    ensures
        r.deep_view() == owners.deep_view(),
{
    match owners {
        Some(list) => {
            let mut copy: Vec<OwnerReference> = Vec::new();
            let mut i: usize = 0;
            while i < list.len()
                invariant
                    i <= list@.len(),
                    copy@.len() == i,
                    forall|j: int| 0 <= j < i ==> copy@[j]@ == list@[j]@,
                decreases list@.len() - i,
            {
                copy.push(list[i].clone());
                i += 1;
            }
            assert(copy.deep_view() =~= list.deep_view());
            Some(copy)
        },
        None => None,
    }
}

} // verus!
