//! What holds of every rendering.

use crate::template::crd::{entry_key, keys_occur_once, GenerateDefinitionView, SecretTemplateView};
use crate::template::finalizer::awaits_release;
use crate::template::generator::{
    allowed, alphabet_empty, asked, covered, in_asked_class, in_class, is_set, must_count,
    permitted, rejection, settings_of, surely_made, CharClass,
};
use crate::template::render::{data_of, template_secret, Entries, FINALIZER_NAME};
use vstd::prelude::*;

verus! {

/// A definition asks for a class other than the custom alphabet.
pub open spec fn asks_for_a_built_in_class(definition: GenerateDefinitionView) -> bool {
    ||| is_set(definition.must_letters)
    ||| is_set(definition.must_digits)
    ||| is_set(definition.must_symbols)
    ||| is_set(definition.must_uppercase)
    ||| is_set(definition.must_lowercase)
}

/// A definition asks for a class.
pub open spec fn asks_for_a_class(definition: GenerateDefinitionView) -> bool {
    asks_for_a_built_in_class(definition) || is_set(definition.must_custom_alphabet)
}

/// All that a definition asks for is a custom alphabet that it does not
/// have, while it permits other characters.  Such a request counts for
/// nothing.
pub open spec fn asks_for_nothing_real(definition: GenerateDefinitionView) -> bool {
    &&& is_set(definition.must_custom_alphabet)
    &&& definition.custom_alphabet is None
    &&& !asks_for_a_built_in_class(definition)
    &&& !alphabet_empty(settings_of(definition))
}

/// No string of length zero is made for a definition that asks for a class:
/// the settings are turned down.
pub proof fn lemma_empty_string_holds_no_class(definition: GenerateDefinitionView)
    requires
        definition.length == 0,
        asks_for_a_class(definition),
        !asks_for_nothing_real(definition),
    ensures
        rejection(settings_of(definition)) is Some,
{
    let settings = settings_of(definition);
    if !alphabet_empty(settings) {
        assert(must_count(settings) > 0);
    }
}

/// Where every class that may occur is asked for, every character that may
/// occur belongs to a class that is asked for.  With at most two such
/// classes a random string is then always made: it cannot lack a class.
pub proof fn lemma_asked_classes_alone_are_sure(definition: GenerateDefinitionView)
    requires
        forall|class: CharClass| #[trigger]
            permitted(settings_of(definition), class) ==> asked(settings_of(definition), class),
        must_count(settings_of(definition)) <= 2,
    ensures
        covered(settings_of(definition)),
        surely_made(settings_of(definition)),
{
    let settings = settings_of(definition);
    assert forall|c: char| #[trigger] allowed(settings, c) implies in_asked_class(settings, c) by {
        let class = choose|class: CharClass| #[trigger]
            permitted(settings, class) && in_class(class, settings.custom, c);
        assert(asked(settings, class));
    }
}

/// Where no key stands in two entries, the data of the rendered secret
/// holds every entry: under the key of an entry stands the value of that
/// entry.
pub proof fn lemma_each_key_holds_its_value(
    entries: Entries,
    values: Seq<Seq<u8>>,
    n: int,
    i: int,
)
    requires
        keys_occur_once(entries),
        0 <= i < n <= entries.len(),
    ensures
        data_of(entries, values, n).contains_key(entries[i].0),
        data_of(entries, values, n)[entries[i].0] == values[i],
    decreases n,
{
    if i < n - 1 {
        lemma_each_key_holds_its_value(entries, values, n - 1, i);
        assert(entry_key(entries, i) != entry_key(entries, n - 1));
    }
}

/// The data of the rendered secret holds nothing but the keys of the
/// entries.
pub proof fn lemma_data_holds_entries_alone(
    entries: Entries,
    values: Seq<Seq<u8>>,
    n: int,
    key: Seq<char>,
)
    requires
        0 <= n <= entries.len(),
        data_of(entries, values, n).contains_key(key),
    ensures
        exists|i: int| 0 <= i < n && #[trigger] entry_key(entries, i) == key,
    decreases n,
{
    if n > 0 {
        if entries[n - 1].0 == key {
            assert(entry_key(entries, n - 1) == key);
        } else {
            lemma_data_holds_entries_alone(entries, values, n - 1, key);
            let i = choose|i: int| 0 <= i < n - 1 && #[trigger] entry_key(entries, i) == key;
            assert(entry_key(entries, i) == key);
        }
    }
}

/// A rendered secret is immutable and carries the finalizer of this
/// controller and no other.  It is not up for release: nobody has asked to
/// delete it.
pub proof fn lemma_rendered_secret_is_guarded(
    template: SecretTemplateView,
    data: Map<Seq<char>, Seq<u8>>,
)
    ensures
        template_secret(template, data).immutable == Some(true),
        template_secret(template, data).finalizers == Some(seq![FINALIZER_NAME@]),
        !awaits_release(template_secret(template, data)),
{
}

} // verus!
