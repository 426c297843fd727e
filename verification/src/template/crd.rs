//! The template resource.

use crate::objects::{clone_fields, clone_text};
use crate::string_map::FieldMap;
use vstd::prelude::*;

verus! {

/// The API group of the template resource.
pub const GROUP: &'static str = "crd.withlazers.dev";

/// The version of the template resource.
pub const VERSION: &'static str = "v1";

/// The kind of the template resource.
pub const KIND: &'static str = "SecretTemplate";

/// The group and version of the template resource, as owner references
/// spell them.
pub const API_VERSION: &'static str = "crd.withlazers.dev/v1";

/// Picks one key of a secret in the namespace of the template.
#[derive(Debug)]
pub struct SecretKeySelector {
    /// The name of the secret.
    pub name: Option<String>,
    /// The key whose value is taken.
    pub key: String,
    /// Whether the secret may be absent; rendering does not read it.
    pub optional: Option<bool>,
}

/// The view of a [`SecretKeySelector`].
pub struct SecretKeySelectorView {
    pub name: Option<Seq<char>>,
    pub key: Seq<char>,
    pub optional: Option<bool>,
}

impl View for SecretKeySelector {
    type V = SecretKeySelectorView;

    open spec fn view(&self) -> SecretKeySelectorView {
        SecretKeySelectorView {
            name: self.name.deep_view(),
            key: self.key@,
            optional: self.optional,
        }
    }
}

impl Clone for SecretKeySelector {
    fn clone(&self) -> (r: Self)
        ensures
            r@ == self@,
    {
        SecretKeySelector {
            name: clone_text(&self.name),
            key: self.key.clone(),
            optional: self.optional,
        }
    }
}

/// How a random string is to be made.
///
/// A flag such as `digits` lets the characters of its class occur; the flag
/// `must_digits` asks that one of them does occur, and lets them occur too.
#[derive(Debug)]
pub struct GenerateDefinition {
    pub length: usize,
    pub custom_alphabet: Option<String>,
    pub letters: Option<bool>,
    pub digits: Option<bool>,
    pub symbols: Option<bool>,
    pub uppercase: Option<bool>,
    pub lowercase: Option<bool>,
    pub must_letters: Option<bool>,
    pub must_digits: Option<bool>,
    pub must_symbols: Option<bool>,
    pub must_custom_alphabet: Option<bool>,
    pub must_uppercase: Option<bool>,
    pub must_lowercase: Option<bool>,
}

/// The view of a [`GenerateDefinition`].
pub struct GenerateDefinitionView {
    pub length: nat,
    pub custom_alphabet: Option<Seq<char>>,
    pub letters: Option<bool>,
    pub digits: Option<bool>,
    pub symbols: Option<bool>,
    pub uppercase: Option<bool>,
    pub lowercase: Option<bool>,
    pub must_letters: Option<bool>,
    pub must_digits: Option<bool>,
    pub must_symbols: Option<bool>,
    pub must_custom_alphabet: Option<bool>,
    pub must_uppercase: Option<bool>,
    pub must_lowercase: Option<bool>,
}

impl View for GenerateDefinition {
    type V = GenerateDefinitionView;

    open spec fn view(&self) -> GenerateDefinitionView {
        GenerateDefinitionView {
            length: self.length as nat,
            custom_alphabet: self.custom_alphabet.deep_view(),
            letters: self.letters,
            digits: self.digits,
            symbols: self.symbols,
            uppercase: self.uppercase,
            lowercase: self.lowercase,
            must_letters: self.must_letters,
            must_digits: self.must_digits,
            must_symbols: self.must_symbols,
            must_custom_alphabet: self.must_custom_alphabet,
            must_uppercase: self.must_uppercase,
            must_lowercase: self.must_lowercase,
        }
    }
}

impl Clone for GenerateDefinition {
    fn clone(&self) -> (r: Self)
        ensures
            r@ == self@,
    {
        GenerateDefinition {
            length: self.length,
            custom_alphabet: clone_text(&self.custom_alphabet),
            letters: self.letters,
            digits: self.digits,
            symbols: self.symbols,
            uppercase: self.uppercase,
            lowercase: self.lowercase,
            must_letters: self.must_letters,
            must_digits: self.must_digits,
            must_symbols: self.must_symbols,
            must_custom_alphabet: self.must_custom_alphabet,
            must_uppercase: self.must_uppercase,
            must_lowercase: self.must_lowercase,
        }
    }
}

impl Default for GenerateDefinition {
    /// Length zero, no class allowed, none asked for.
    fn default() -> (r: Self)
        ensures
            r@ == (GenerateDefinitionView {
                length: 0,
                custom_alphabet: None,
                letters: None,
                digits: None,
                symbols: None,
                uppercase: None,
                lowercase: None,
                must_letters: None,
                must_digits: None,
                must_symbols: None,
                must_custom_alphabet: None,
                must_uppercase: None,
                must_lowercase: None,
            }),
    {
        GenerateDefinition {
            length: 0,
            custom_alphabet: None,
            letters: None,
            digits: None,
            symbols: None,
            uppercase: None,
            lowercase: None,
            must_letters: None,
            must_digits: None,
            must_symbols: None,
            must_custom_alphabet: None,
            must_uppercase: None,
            must_lowercase: None,
        }
    }
}

/// Where the value of one key comes from.
#[derive(Debug)]
pub enum DataTemplates {
    /// From a key of another secret in the same namespace.
    SecretRef(SecretKeySelector),
    /// From a base64 text, decoded.
    Base64(String),
    /// From a text, taken as its UTF-8 bytes.
    Plain(String),
    /// From a random string.
    Generate(GenerateDefinition),
}

/// The view of a [`DataTemplates`].
pub enum DataTemplatesView {
    SecretRef(SecretKeySelectorView),
    Base64(Seq<char>),
    Plain(Seq<char>),
    Generate(GenerateDefinitionView),
}

impl View for DataTemplates {
    type V = DataTemplatesView;

    open spec fn view(&self) -> DataTemplatesView {
        match self {
            DataTemplates::SecretRef(selector) => DataTemplatesView::SecretRef(selector@),
            DataTemplates::Base64(text) => DataTemplatesView::Base64(text@),
            DataTemplates::Plain(text) => DataTemplatesView::Plain(text@),
            DataTemplates::Generate(definition) => DataTemplatesView::Generate(definition@),
        }
    }
}

impl Clone for DataTemplates {
    fn clone(&self) -> (r: Self)
        ensures
            r@ == self@,
    {
        match self {
            DataTemplates::SecretRef(selector) => DataTemplates::SecretRef(selector.clone()),
            DataTemplates::Base64(text) => DataTemplates::Base64(text.clone()),
            DataTemplates::Plain(text) => DataTemplates::Plain(text.clone()),
            DataTemplates::Generate(definition) => DataTemplates::Generate(definition.clone()),
        }
    }
}

/// The key of the entry at position `i`.
pub open spec fn entry_key(entries: Seq<(Seq<char>, DataTemplatesView)>, i: int) -> Seq<char> {
    entries[i].0
}

/// No key stands in two entries.  The entries of a template that the store
/// hands out are such: the store keeps them as a map.
pub open spec fn keys_occur_once(entries: Seq<(Seq<char>, DataTemplatesView)>) -> bool {
    forall|i: int, j: int|
        0 <= i < j < entries.len() ==> #[trigger] entry_key(entries, i) != #[trigger] entry_key(
            entries,
            j,
        )
}

/// What a template asks the rendered secret to hold.
#[derive(Debug)]
pub struct SecretTemplateSpec {
    pub labels: Option<FieldMap>,
    pub annotations: Option<FieldMap>,
    /// The keys of the secret, each with the source of its value.  They are
    /// rendered in this order.  No key is meant to stand in two entries
    /// ([`keys_occur_once`]); of two entries with one key the later one
    /// counts.
    pub data: Vec<(String, DataTemplates)>,
    pub type_: Option<String>,
}

/// The view of a [`SecretTemplateSpec`].
pub struct SecretTemplateSpecView {
    pub labels: Option<Map<Seq<char>, Seq<char>>>,
    pub annotations: Option<Map<Seq<char>, Seq<char>>>,
    pub data: Seq<(Seq<char>, DataTemplatesView)>,
    pub type_: Option<Seq<char>>,
}

impl View for SecretTemplateSpec {
    type V = SecretTemplateSpecView;

    open spec fn view(&self) -> SecretTemplateSpecView {
        SecretTemplateSpecView {
            labels: self.labels.deep_view(),
            annotations: self.annotations.deep_view(),
            data: Seq::new(self.data@.len(), |i: int| (self.data@[i].0@, self.data@[i].1@)),
            type_: self.type_.deep_view(),
        }
    }
}

impl Clone for SecretTemplateSpec {
    fn clone(&self) -> (r: Self)
        ensures
            r@ == self@,
    {
        let mut data: Vec<(String, DataTemplates)> = Vec::new();
        let mut i: usize = 0;
        while i < self.data.len()
            invariant
                i <= self.data@.len(),
                data@.len() == i,
                forall|j: int|
                    0 <= j < i ==> data@[j].0@ == self.data@[j].0@ && data@[j].1@
                        == self.data@[j].1@,
            decreases self.data@.len() - i,
        {
            data.push((self.data[i].0.clone(), self.data[i].1.clone()));
            i += 1;
        }
        let copy = SecretTemplateSpec {
            labels: clone_fields(&self.labels),
            annotations: clone_fields(&self.annotations),
            data,
            type_: clone_text(&self.type_),
        };
        assert(copy@.data =~= self@.data);
        copy
    }
}

/// A template as the store holds it.
#[derive(Debug)]
pub struct SecretTemplate {
    pub namespace: String,
    pub name: String,
    pub uid: String,
    pub spec: SecretTemplateSpec,
}

/// The view of a [`SecretTemplate`].
pub struct SecretTemplateView {
    pub namespace: Seq<char>,
    pub name: Seq<char>,
    pub uid: Seq<char>,
    pub spec: SecretTemplateSpecView,
}

impl View for SecretTemplate {
    type V = SecretTemplateView;

    open spec fn view(&self) -> SecretTemplateView {
        SecretTemplateView {
            namespace: self.namespace@,
            name: self.name@,
            uid: self.uid@,
            spec: self.spec@,
        }
    }
}

impl Clone for SecretTemplate {
    fn clone(&self) -> (r: Self)
        ensures
            r@ == self@,
    {
        SecretTemplate {
            namespace: self.namespace.clone(),
            name: self.name.clone(),
            uid: self.uid.clone(),
            spec: self.spec.clone(),
        }
    }
}

} // verus!
