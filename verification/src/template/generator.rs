//! Random strings that honour character classes.
//!
//! The strings are made by the `randstr` crate.  This module tells its
//! builder what a [`GenerateDefinition`] asks for, turns down the settings
//! that the crate cannot serve, and checks that a string that came out holds
//! every class that was asked for.

use crate::template::crd::{GenerateDefinition, GenerateDefinitionView};
use crate::template::error::{Error, GeneratorError};
use vstd::prelude::*;
use vstd::std_specs::iter::IteratorSpec;
use vstd::utf8::{encode_utf8, is_ascii_chars};

verus! {

/// The classes of characters that a setting can speak of.
#[derive(Debug, Clone, Copy, PartialEq, Eq, Structural)]
pub enum CharClass {
    /// `A` to `Z`.
    Upper,
    /// `a` to `z`.
    Lower,
    /// `a` to `z` and `A` to `Z`.
    Letter,
    /// `0` to `9`.
    Digit,
    /// The printable ASCII characters that are neither letters nor digits
    /// nor the space.
    Symbol,
    /// The space.
    Whitespace,
    /// The characters of the custom alphabet.
    Custom,
}

/// What a builder of `randstr` has been told: the length, the classes that
/// may occur, the custom alphabet, and the classes that must occur.
pub struct Settings {
    pub len: nat,
    pub upper: bool,
    pub lower: bool,
    pub letter: bool,
    pub digit: bool,
    pub symbol: bool,
    pub whitespace: bool,
    pub custom: Option<Seq<char>>,
    pub must_upper: bool,
    pub must_lower: bool,
    pub must_letter: bool,
    pub must_digit: bool,
    pub must_symbol: bool,
    pub must_whitespace: bool,
    pub must_custom: bool,
}

/// The settings of a builder that has been told nothing.
pub open spec fn no_settings() -> Settings {
    Settings {
        len: 0,
        upper: false,
        lower: false,
        letter: false,
        digit: false,
        symbol: false,
        whitespace: false,
        custom: None,
        must_upper: false,
        must_lower: false,
        must_letter: false,
        must_digit: false,
        must_symbol: false,
        must_whitespace: false,
        must_custom: false,
    }
}

/// `c` is one of `A` to `Z`.
pub open spec fn is_upper(c: char) -> bool {
    'A' <= c <= 'Z'
}

/// `c` is one of `a` to `z`.
pub open spec fn is_lower(c: char) -> bool {
    'a' <= c <= 'z'
}

/// `c` is one of `0` to `9`.
pub open spec fn is_digit(c: char) -> bool {
    '0' <= c <= '9'
}

/// `c` is a printable ASCII character other than a letter, a digit and the
/// space.
pub open spec fn is_symbol(c: char) -> bool {
    '!' <= c <= '/' || ':' <= c <= '@' || '[' <= c <= '`' || '{' <= c <= '~'
}

/// Whether `c` belongs to `class`, the custom class being `custom`.
pub open spec fn in_class(class: CharClass, custom: Option<Seq<char>>, c: char) -> bool {
    match class {
        CharClass::Upper => is_upper(c),
        CharClass::Lower => is_lower(c),
        CharClass::Letter => is_lower(c) || is_upper(c),
        CharClass::Digit => is_digit(c),
        CharClass::Symbol => is_symbol(c),
        CharClass::Whitespace => c == ' ',
        CharClass::Custom => custom matches Some(alphabet) && alphabet.contains(c),
    }
}

/// Whether the characters of `class` may occur.
pub open spec fn permitted(settings: Settings, class: CharClass) -> bool {
    match class {
        CharClass::Upper => settings.upper,
        CharClass::Lower => settings.lower,
        CharClass::Letter => settings.letter,
        CharClass::Digit => settings.digit,
        CharClass::Symbol => settings.symbol,
        CharClass::Whitespace => settings.whitespace,
        CharClass::Custom => settings.custom is Some,
    }
}

/// Whether a character of `class` must occur.
pub open spec fn asked(settings: Settings, class: CharClass) -> bool {
    match class {
        CharClass::Upper => settings.must_upper,
        CharClass::Lower => settings.must_lower,
        CharClass::Letter => settings.must_letter,
        CharClass::Digit => settings.must_digit,
        CharClass::Symbol => settings.must_symbol,
        CharClass::Whitespace => settings.must_whitespace,
        CharClass::Custom => settings.must_custom,
    }
}

/// Whether `c` may occur: it belongs to a class that is permitted.
pub open spec fn allowed(settings: Settings, c: char) -> bool {
    exists|class: CharClass| #[trigger]
        permitted(settings, class) && in_class(class, settings.custom, c)
}

/// Whether a character of `class` stands in `text`.
pub open spec fn occurs(text: Seq<char>, class: CharClass, custom: Option<Seq<char>>) -> bool {
    exists|i: int| 0 <= i < text.len() && in_class(class, custom, #[trigger] text[i])
}

/// Every class that must occur does occur in `text`.
pub open spec fn every_asked_class_occurs(settings: Settings, text: Seq<char>) -> bool {
    forall|class: CharClass| #[trigger]
        asked(settings, class) ==> occurs(text, class, settings.custom)
}

/// Some class that must occur does occur in `text`.
pub open spec fn some_asked_class_occurs(settings: Settings, text: Seq<char>) -> bool {
    exists|class: CharClass| #[trigger]
        asked(settings, class) && occurs(text, class, settings.custom)
}

/// No character may occur: no class is permitted, and the custom alphabet
/// is absent or empty.
pub open spec fn alphabet_empty(settings: Settings) -> bool {
    &&& !settings.upper
    &&& !settings.lower
    &&& !settings.letter
    &&& !settings.digit
    &&& !settings.symbol
    &&& !settings.whitespace
    &&& (settings.custom matches Some(alphabet) ==> alphabet.len() == 0)
}

/// One where `flag` holds, zero where it does not.
pub open spec fn one_if(flag: bool) -> nat {
    if flag {
        1
    } else {
        0
    }
}

/// The number of classes that must occur.
pub open spec fn must_count(settings: Settings) -> nat {
    one_if(settings.must_upper) + one_if(settings.must_lower) + one_if(settings.must_letter)
        + one_if(settings.must_digit) + one_if(settings.must_symbol) + one_if(
        settings.must_whitespace,
    ) + one_if(settings.must_custom)
}

/// Every class that must occur may occur.
pub open spec fn sound(settings: Settings) -> bool {
    forall|class: CharClass| #[trigger]
        asked(settings, class) ==> permitted(settings, class)
}

/// The custom alphabet can be served: it is plain ASCII and, where it must
/// occur, not empty.
pub open spec fn custom_usable(settings: Settings) -> bool {
    &&& settings.custom matches Some(alphabet) ==> is_ascii_chars(alphabet)
    &&& settings.must_custom ==> (settings.custom matches Some(alphabet) && alphabet.len() > 0)
}

/// A buffer for the string, with room for one more character for each class
/// that can be asked for, is not larger than a buffer can be.
pub open spec fn length_fits(settings: Settings) -> bool {
    settings.len + 7 <= isize::MAX
}

/// A generator with these settings can be built and run.
pub open spec fn ready(settings: Settings) -> bool {
    &&& sound(settings)
    &&& !alphabet_empty(settings)
    &&& must_count(settings) <= settings.len
    &&& custom_usable(settings)
    &&& length_fits(settings)
}

/// `text` is a string as the settings describe it: of the length asked
/// for, made of characters that may occur, with every class that must occur.
pub open spec fn generated(settings: Settings, text: Seq<char>) -> bool {
    &&& text.len() == settings.len
    &&& forall|i: int| 0 <= i < text.len() ==> allowed(settings, #[trigger] text[i])
    &&& every_asked_class_occurs(settings, text)
}

/// The number of classes that must occur and do not occur in `text`.
pub open spec fn lacking(settings: Settings, text: Seq<char>) -> nat {
    one_if(settings.must_upper && !occurs(text, CharClass::Upper, settings.custom)) + one_if(
        settings.must_lower && !occurs(text, CharClass::Lower, settings.custom),
    ) + one_if(settings.must_letter && !occurs(text, CharClass::Letter, settings.custom)) + one_if(
        settings.must_digit && !occurs(text, CharClass::Digit, settings.custom),
    ) + one_if(settings.must_symbol && !occurs(text, CharClass::Symbol, settings.custom)) + one_if(
        settings.must_whitespace && !occurs(text, CharClass::Whitespace, settings.custom),
    ) + one_if(settings.must_custom && !occurs(text, CharClass::Custom, settings.custom))
}

/// `c` belongs to a class that must occur.
pub open spec fn in_asked_class(settings: Settings, c: char) -> bool {
    exists|class: CharClass| #[trigger]
        asked(settings, class) && in_class(class, settings.custom, c)
}

/// `out` is a string that `randstr` can make of `drawn` and `added`.
///
/// `drawn` holds characters that may occur, as many as the length asks for.
/// `added` holds one character for every class whose turn came while the
/// string lacked it; such a class lacks in `drawn`, and no class has two
/// turns.  After that every class asked for occurs in `drawn` and `added`
/// taken together.  As many characters as were added are dropped from the
/// beginning of `drawn`, and what is left is shuffled together with `added`.
pub open spec fn rearranged(
    settings: Settings,
    out: Seq<char>,
    drawn: Seq<char>,
    added: Seq<char>,
) -> bool {
    &&& drawn.len() == settings.len
    &&& added.len() <= drawn.len()
    &&& added.len() <= lacking(settings, drawn)
    &&& out.to_multiset() == (drawn.skip(added.len() as int) + added).to_multiset()
    &&& forall|i: int| 0 <= i < drawn.len() ==> allowed(settings, #[trigger] drawn[i])
    &&& every_asked_class_occurs(settings, drawn + added)
    &&& forall|i: int| 0 <= i < added.len() ==> in_asked_class(settings, #[trigger] added[i])
}

/// Every character that may occur belongs to a class that must occur.
pub open spec fn covered(settings: Settings) -> bool {
    forall|c: char| #[trigger] allowed(settings, c) ==> in_asked_class(settings, c)
}

/// Every string that `randstr` makes for the settings holds every class
/// asked for: at most one class is asked for, or two are and every
/// character that may occur belongs to one of them.
pub open spec fn surely_made(settings: Settings) -> bool {
    must_count(settings) <= 1 || (must_count(settings) == 2 && covered(settings))
}

/// `randstr::RandStrBuilder`, which collects the settings of a generator.
/// Nothing of it is visible here but [`builder_settings`].
#[verifier::external_type_specification]
#[verifier::external_body]
pub struct ExRandStrBuilder(randstr::RandStrBuilder);

/// `randstr::RandStr`, a generator of random strings.  Nothing of it is
/// visible here but [`generator_settings`].  The generator keeps the length
/// and the alphabets that follow from the settings, not the settings
/// themselves; the name records what the builder had been told.
#[verifier::external_type_specification]
#[verifier::external_body]
pub struct ExRandStr(randstr::RandStr);

/// What `builder` has been told so far.
pub uninterp spec fn builder_settings(builder: randstr::RandStrBuilder) -> Settings;

/// What the builder had been told from which `generator` was built.
pub uninterp spec fn generator_settings(generator: randstr::RandStr) -> Settings;

/// Calls `randstr::randstr`, which returns a builder that has been told
/// nothing.
#[verifier::external_body]
fn builder_new() -> (r: randstr::RandStrBuilder)
    ensures
        builder_settings(r) == no_settings(),
{
    randstr::randstr()
}

/// Calls `RandStrBuilder::len`, which sets the length.
#[verifier::external_body]
fn builder_len(builder: &mut randstr::RandStrBuilder, len: usize)
    ensures
        builder_settings(*final(builder)) == (Settings {
            len: len as nat,
            ..builder_settings(*old(builder))
        }),
{
    builder.len(len);
}

/// Calls `RandStrBuilder::custom`, which sets the custom alphabet.
#[verifier::external_body]
fn builder_custom(builder: &mut randstr::RandStrBuilder, alphabet: &str)
    ensures
        builder_settings(*final(builder)) == (Settings {
            custom: Some(alphabet@),
            ..builder_settings(*old(builder))
        }),
{
    builder.custom(alphabet);
}

/// Calls `RandStrBuilder::must_custom`, which sets the custom alphabet and
/// asks for it.
#[verifier::external_body]
fn builder_must_custom(builder: &mut randstr::RandStrBuilder, alphabet: &str)
    ensures
        builder_settings(*final(builder)) == (Settings {
            custom: Some(alphabet@),
            must_custom: true,
            ..builder_settings(*old(builder))
        }),
{
    builder.must_custom(alphabet);
}

/// Calls `RandStrBuilder::letter`, which permits the letters.
#[verifier::external_body]
fn builder_letter(builder: &mut randstr::RandStrBuilder)
    ensures
        builder_settings(*final(builder)) == (Settings {
            letter: true,
            ..builder_settings(*old(builder))
        }),
{
    builder.letter();
}

/// Calls `RandStrBuilder::must_letter`, which permits the letters and asks
/// for one.
#[verifier::external_body]
fn builder_must_letter(builder: &mut randstr::RandStrBuilder)
    ensures
        builder_settings(*final(builder)) == (Settings {
            letter: true,
            must_letter: true,
            ..builder_settings(*old(builder))
        }),
{
    builder.must_letter();
}

/// Calls `RandStrBuilder::digit`, which permits the digits.
#[verifier::external_body]
fn builder_digit(builder: &mut randstr::RandStrBuilder)
    ensures
        builder_settings(*final(builder)) == (Settings {
            digit: true,
            ..builder_settings(*old(builder))
        }),
{
    builder.digit();
}

/// Calls `RandStrBuilder::must_digit`, which permits the digits and asks
/// for one.
#[verifier::external_body]
fn builder_must_digit(builder: &mut randstr::RandStrBuilder)
    ensures
        builder_settings(*final(builder)) == (Settings {
            digit: true,
            must_digit: true,
            ..builder_settings(*old(builder))
        }),
{
    builder.must_digit();
}

/// Calls `RandStrBuilder::symbol`, which permits the symbols.
#[verifier::external_body]
fn builder_symbol(builder: &mut randstr::RandStrBuilder)
    ensures
        builder_settings(*final(builder)) == (Settings {
            symbol: true,
            ..builder_settings(*old(builder))
        }),
{
    builder.symbol();
}

/// Calls `RandStrBuilder::must_symbol`, which permits the symbols and asks
/// for one.
#[verifier::external_body]
fn builder_must_symbol(builder: &mut randstr::RandStrBuilder)
    ensures
        builder_settings(*final(builder)) == (Settings {
            symbol: true,
            must_symbol: true,
            ..builder_settings(*old(builder))
        }),
{
    builder.must_symbol();
}

/// Calls `RandStrBuilder::upper`, which permits the uppercase letters.
#[verifier::external_body]
fn builder_upper(builder: &mut randstr::RandStrBuilder)
    ensures
        builder_settings(*final(builder)) == (Settings {
            upper: true,
            ..builder_settings(*old(builder))
        }),
{
    builder.upper();
}

/// Calls `RandStrBuilder::must_upper`, which permits the uppercase letters
/// and asks for one.
#[verifier::external_body]
fn builder_must_upper(builder: &mut randstr::RandStrBuilder)
    ensures
        builder_settings(*final(builder)) == (Settings {
            upper: true,
            must_upper: true,
            ..builder_settings(*old(builder))
        }),
{
    builder.must_upper();
}

/// Calls `RandStrBuilder::lower`, which permits the lowercase letters.
#[verifier::external_body]
fn builder_lower(builder: &mut randstr::RandStrBuilder)
    ensures
        builder_settings(*final(builder)) == (Settings {
            lower: true,
            ..builder_settings(*old(builder))
        }),
{
    builder.lower();
}

/// Calls `RandStrBuilder::must_lower`, which permits the lowercase letters
/// and asks for one.
#[verifier::external_body]
fn builder_must_lower(builder: &mut randstr::RandStrBuilder)
    ensures
        builder_settings(*final(builder)) == (Settings {
            lower: true,
            must_lower: true,
            ..builder_settings(*old(builder))
        }),
{
    builder.must_lower();
}

/// Calls `RandStrBuilder::try_build`.  The call fails with `NoAlphabet`
/// where no character may occur and otherwise with `TooShort` where the
/// length is smaller than the number of classes asked for; else it returns
/// a generator that keeps the settings.  It is not called on settings that
/// ask for a class without permitting it.
#[verifier::external_body]
fn builder_try_build(builder: &randstr::RandStrBuilder) -> (r: Result<
    randstr::RandStr,
    GeneratorError,
>)
    requires
        sound(builder_settings(*builder)),
    ensures
        match r {
            Ok(generator) => {
                &&& !alphabet_empty(builder_settings(*builder))
                &&& must_count(builder_settings(*builder)) <= builder_settings(*builder).len
                &&& generator_settings(generator) == builder_settings(*builder)
            },
            Err(error) => if alphabet_empty(builder_settings(*builder)) {
                error == GeneratorError::NoAlphabet
            } else {
                &&& error == GeneratorError::TooShort
                &&& builder_settings(*builder).len < must_count(builder_settings(*builder))
            },
        },
{
    match builder.try_build() {
        Ok(generator) => Ok(generator),
        Err(randstr::Error::NoAlphabet) => Err(GeneratorError::NoAlphabet),
        Err(randstr::Error::TooShort) => Err(GeneratorError::TooShort),
    }
}

/// Calls `RandStr::generate`.  The string has the length that was set and
/// is made of characters that may occur.  The call draws that many
/// characters, appends a character of each class asked for that the string
/// lacks at that moment, keeps as many characters from the end as the length
/// asks for, and shuffles them: [`rearranged`] says so.  A class which only
/// the dropped beginning held can be lost that way; the appended characters
/// are kept, so that one class asked for occurs, if there is any.  It is
/// called only on settings that are [`ready`]: the call fails on a custom
/// alphabet outside ASCII and on one that is asked for and empty.
#[verifier::external_body]
fn generator_generate(generator: &mut randstr::RandStr) -> (r: String)
    requires
        ready(generator_settings(*old(generator))),
    ensures
        generator_settings(*final(generator)) == generator_settings(*old(generator)),
        r@.len() == generator_settings(*old(generator)).len,
        forall|i: int|
            0 <= i < r@.len() ==> allowed(generator_settings(*old(generator)), #[trigger] r@[i]),
        must_count(generator_settings(*old(generator))) > 0 ==> some_asked_class_occurs(
            generator_settings(*old(generator)),
            r@,
        ),
        exists|drawn: Seq<char>, added: Seq<char>| #[trigger]
            rearranged(generator_settings(*old(generator)), r@, drawn, added),
{
    generator.generate()
}

/// Whether a flag of a definition is set.
pub open spec fn is_set(flag: Option<bool>) -> bool {
    flag == Some(true)
}

/// The settings that a definition stands for.  A class that must occur may
/// occur, whatever the plain flag of the class says; the custom alphabet
/// must occur only where there is one.
pub open spec fn settings_of(definition: GenerateDefinitionView) -> Settings {
    Settings {
        len: definition.length,
        upper: is_set(definition.must_uppercase) || is_set(definition.uppercase),
        lower: is_set(definition.must_lowercase) || is_set(definition.lowercase),
        letter: is_set(definition.must_letters) || is_set(definition.letters),
        digit: is_set(definition.must_digits) || is_set(definition.digits),
        symbol: is_set(definition.must_symbols) || is_set(definition.symbols),
        whitespace: false,
        custom: definition.custom_alphabet,
        must_upper: is_set(definition.must_uppercase),
        must_lower: is_set(definition.must_lowercase),
        must_letter: is_set(definition.must_letters),
        must_digit: is_set(definition.must_digits),
        must_symbol: is_set(definition.must_symbols),
        must_whitespace: false,
        must_custom: definition.custom_alphabet is Some && is_set(definition.must_custom_alphabet),
    }
}

/// The failure that the settings lead to, if they lead to one.
pub open spec fn rejection(settings: Settings) -> Option<GeneratorError> {
    if alphabet_empty(settings) {
        Some(GeneratorError::NoAlphabet)
    } else if settings.len < must_count(settings) {
        Some(GeneratorError::TooShort)
    } else if !custom_usable(settings) {
        Some(GeneratorError::CustomAlphabet)
    } else if !length_fits(settings) {
        Some(GeneratorError::TooLong)
    } else {
        None
    }
}

/// Tells whether a flag of a definition is set.
fn flag(value: Option<bool>) -> (r: bool)
    ensures
        r == is_set(value),
{
    match value {
        Some(set) => set,
        None => false,
    }
}

/// Tells whether `c` stands in `s`.
fn has_char(s: &str, c: char) -> (r: bool)
    ensures
        r == s@.contains(c),
{
    let mut rest = s.chars();
    let ghost mut seen: int = 0;
    loop
        invariant
            0 <= seen <= s@.len(),
            rest.obeys_prophetic_iter_laws(),
            rest.remaining() == s@.skip(seen),
            forall|j: int| 0 <= j < seen ==> s@[j] != c,
        decreases s@.len() - seen,
    {
        match rest.next() {
            None => {
                return false;
            },
            Some(d) => {
                assert(d == s@[seen]);
                if d == c {
                    return true;
                }
                proof {
                    assert(s@.skip(seen).drop_first() == s@.skip(seen + 1));
                    seen = seen + 1;
                }
            },
        }
    }
}

/// Tells whether `c` belongs to `class`.
fn char_in_class(class: CharClass, custom: &Option<String>, c: char) -> (r: bool)
    ensures
        r == in_class(class, custom.deep_view(), c),
{
    match class {
        CharClass::Upper => 'A' <= c && c <= 'Z',
        CharClass::Lower => 'a' <= c && c <= 'z',
        CharClass::Letter => ('a' <= c && c <= 'z') || ('A' <= c && c <= 'Z'),
        CharClass::Digit => '0' <= c && c <= '9',
        CharClass::Symbol => ('!' <= c && c <= '/') || (':' <= c && c <= '@') || ('[' <= c && c
            <= '`') || ('{' <= c && c <= '~'),
        CharClass::Whitespace => c == ' ',
        CharClass::Custom => match custom {
            Some(alphabet) => has_char(alphabet.as_str(), c),
            None => false,
        },
    }
}

/// Tells whether a character of `class` stands in `text`.
pub fn class_occurs(text: &str, class: CharClass, custom: &Option<String>) -> (r: bool)
    ensures
        r == occurs(text@, class, custom.deep_view()),
{
    let mut rest = text.chars();
    let ghost mut seen: int = 0;
    loop
        invariant
            0 <= seen <= text@.len(),
            rest.obeys_prophetic_iter_laws(),
            rest.remaining() == text@.skip(seen),
            forall|j: int| 0 <= j < seen ==> !in_class(class, custom.deep_view(), #[trigger] text@[j]),
        decreases text@.len() - seen,
    {
        match rest.next() {
            None => {
                return false;
            },
            Some(c) => {
                assert(c == text@[seen]);
                if char_in_class(class, custom, c) {
                    return true;
                }
                proof {
                    assert(text@.skip(seen).drop_first() == text@.skip(seen + 1));
                    seen = seen + 1;
                }
            },
        }
    }
}

/// Tells whether `text` holds every class that `definition` asks for.
pub fn holds_asked_classes(definition: &GenerateDefinition, text: &str) -> (r: bool)
    ensures
        r == every_asked_class_occurs(settings_of(definition@), text@),
{
    let custom = &definition.custom_alphabet;
    let ghost settings = settings_of(definition@);
    let upper = !flag(definition.must_uppercase) || class_occurs(text, CharClass::Upper, custom);
    let lower = !flag(definition.must_lowercase) || class_occurs(text, CharClass::Lower, custom);
    let letter = !flag(definition.must_letters) || class_occurs(text, CharClass::Letter, custom);
    let digit = !flag(definition.must_digits) || class_occurs(text, CharClass::Digit, custom);
    let symbol = !flag(definition.must_symbols) || class_occurs(text, CharClass::Symbol, custom);
    let own = !(custom.is_some() && flag(definition.must_custom_alphabet)) || class_occurs(
        text,
        CharClass::Custom,
        custom,
    );
    let all = upper && lower && letter && digit && symbol && own;
    proof {
        if all {
            assert forall|class: CharClass| #[trigger] asked(settings, class) implies occurs(
                text@,
                class,
                settings.custom,
            ) by {}
        } else {
            assert(asked(settings, CharClass::Upper) == is_set(definition@.must_uppercase));
            assert(asked(settings, CharClass::Lower) == is_set(definition@.must_lowercase));
            assert(asked(settings, CharClass::Letter) == is_set(definition@.must_letters));
            assert(asked(settings, CharClass::Digit) == is_set(definition@.must_digits));
            assert(asked(settings, CharClass::Symbol) == is_set(definition@.must_symbols));
            assert(asked(settings, CharClass::Custom) == settings.must_custom);
        }
    }
    all
}

/// Takes a string that the generator made for `definition` and hands out
/// its bytes, provided that it holds every class asked for.
pub fn finish_generated(definition: &GenerateDefinition, text: String) -> (r: Result<Vec<u8>, Error>)
    ensures
        match r {
            Ok(bytes) => every_asked_class_occurs(settings_of(definition@), text@) && bytes@
                == encode_utf8(text@),
            Err(error) => !every_asked_class_occurs(settings_of(definition@), text@)
                && error matches Error::RandStr(GeneratorError::ClassMissing),
        },
{
    if holds_asked_classes(definition, text.as_str()) {
        Ok(text.as_str().as_bytes_vec())
    } else {
        Err(Error::RandStr(GeneratorError::ClassMissing))
    }
}

/// Where at most one class is asked for, a class that occurs is every class
/// asked for.
proof fn lemma_single_class(settings: Settings, text: Seq<char>)
    requires
        must_count(settings) <= 1,
        must_count(settings) > 0 ==> some_asked_class_occurs(settings, text),
    ensures
        every_asked_class_occurs(settings, text),
{
    if must_count(settings) > 0 {
        let found = choose|class: CharClass| #[trigger]
            asked(settings, class) && occurs(text, class, settings.custom);
        assert forall|class: CharClass| #[trigger] asked(settings, class) implies occurs(
            text,
            class,
            settings.custom,
        ) by {
            assert(class == found);
        }
    }
}

/// A character of a text that was kept stands in every shuffle of what was
/// kept.
proof fn lemma_kept_occurs(
    out: Seq<char>,
    kept: Seq<char>,
    at: int,
    class: CharClass,
    custom: Option<Seq<char>>,
)
    requires
        out.to_multiset() == kept.to_multiset(),
        0 <= at < kept.len(),
        in_class(class, custom, kept[at]),
    ensures
        occurs(out, class, custom),
{
    kept.to_multiset_ensures();
    out.to_multiset_ensures();
    assert(kept.contains(kept[at]));
    assert(kept.to_multiset().count(kept[at]) > 0);
    assert(out.to_multiset().count(kept[at]) > 0);
    assert(out.contains(kept[at]));
    let i = choose|i: int| 0 <= i < out.len() && out[i] == kept[at];
    assert(in_class(class, custom, out[i]));
}

/// A class that is asked for and occurs in a text is not among those that
/// the text lacks.
proof fn lemma_lacking_one_less(settings: Settings, text: Seq<char>, class: CharClass)
    requires
        asked(settings, class),
        occurs(text, class, settings.custom),
    ensures
        lacking(settings, text) + 1 <= must_count(settings),
{
}

/// Where two classes are asked for and every character that may occur
/// belongs to one of them, a string that `randstr` makes holds both.
proof fn lemma_two_classes(settings: Settings, out: Seq<char>, drawn: Seq<char>, added: Seq<char>)
    requires
        must_count(settings) == 2,
        must_count(settings) <= settings.len,
        covered(settings),
        rearranged(settings, out, drawn, added),
    ensures
        every_asked_class_occurs(settings, out),
{
    let custom = settings.custom;
    let dropped = added.len() as int;
    let kept = drawn.skip(dropped) + added;
    let all = drawn + added;
    assert forall|class: CharClass| #[trigger] asked(settings, class) implies occurs(
        out,
        class,
        custom,
    ) by {
        assert(occurs(all, class, custom));
        let j = choose|j: int| 0 <= j < all.len() && in_class(class, custom, #[trigger] all[j]);
        if j >= drawn.len() {
            assert(kept[j - dropped] == all[j]);
            lemma_kept_occurs(out, kept, j - dropped, class, custom);
        } else if j >= dropped {
            assert(kept[j - dropped] == all[j]);
            lemma_kept_occurs(out, kept, j - dropped, class, custom);
        } else {
            assert(drawn[j] == all[j]);
            assert(occurs(drawn, class, custom));
            lemma_lacking_one_less(settings, drawn, class);
            assert(dropped == 1);
            assert(allowed(settings, drawn[1]));
            assert(in_asked_class(settings, drawn[1]));
            let other = choose|other: CharClass| #[trigger]
                asked(settings, other) && in_class(other, custom, drawn[1]);
            if other != class {
                assert(occurs(drawn, other, custom));
                lemma_lacking_one_less(settings, drawn, other);
                // Both classes asked for occur in what was drawn, so that
                // nothing lacked and nothing was added.
                assert(lacking(settings, drawn) == 0) by {
                    lemma_none_lacking(settings, drawn, class, other);
                }
            }
            assert(kept[0] == drawn[1]);
            lemma_kept_occurs(out, kept, 0, class, custom);
        }
    }
}

/// Where the two classes asked for both occur in a text, the text lacks
/// none.
proof fn lemma_none_lacking(settings: Settings, text: Seq<char>, a: CharClass, b: CharClass)
    requires
        must_count(settings) == 2,
        a != b,
        asked(settings, a),
        asked(settings, b),
        occurs(text, a, settings.custom),
        occurs(text, b, settings.custom),
    ensures
        lacking(settings, text) == 0,
{
}

/// Tells the builder the custom alphabet, if there is one, and whether it
/// must occur.
fn tell_custom(config: &mut randstr::RandStrBuilder, alphabet: &Option<String>, must: Option<bool>)
    ensures
        builder_settings(*final(config)) == (Settings {
            custom: if alphabet is Some {
                alphabet.deep_view()
            } else {
                builder_settings(*old(config)).custom
            },
            must_custom: builder_settings(*old(config)).must_custom || (alphabet is Some && is_set(
                must,
            )),
            ..builder_settings(*old(config))
        }),
{
    if let Some(alphabet) = alphabet {
        if flag(must) {
            builder_must_custom(config, alphabet.as_str());
        } else {
            builder_custom(config, alphabet.as_str());
        }
    }
}

/// Tells the builder whether letters may and must occur.
fn tell_letters(config: &mut randstr::RandStrBuilder, must: Option<bool>, may: Option<bool>)
    ensures
        builder_settings(*final(config)) == (Settings {
            letter: builder_settings(*old(config)).letter || is_set(must) || is_set(may),
            must_letter: builder_settings(*old(config)).must_letter || is_set(must),
            ..builder_settings(*old(config))
        }),
{
    if flag(must) {
        builder_must_letter(config);
    } else if flag(may) {
        builder_letter(config);
    }
}

/// Tells the builder whether digits may and must occur.
fn tell_digits(config: &mut randstr::RandStrBuilder, must: Option<bool>, may: Option<bool>)
    ensures
        builder_settings(*final(config)) == (Settings {
            digit: builder_settings(*old(config)).digit || is_set(must) || is_set(may),
            must_digit: builder_settings(*old(config)).must_digit || is_set(must),
            ..builder_settings(*old(config))
        }),
{
    if flag(must) {
        builder_must_digit(config);
    } else if flag(may) {
        builder_digit(config);
    }
}

/// Tells the builder whether symbols may and must occur.
fn tell_symbols(config: &mut randstr::RandStrBuilder, must: Option<bool>, may: Option<bool>)
    ensures
        builder_settings(*final(config)) == (Settings {
            symbol: builder_settings(*old(config)).symbol || is_set(must) || is_set(may),
            must_symbol: builder_settings(*old(config)).must_symbol || is_set(must),
            ..builder_settings(*old(config))
        }),
{
    if flag(must) {
        builder_must_symbol(config);
    } else if flag(may) {
        builder_symbol(config);
    }
}

/// Tells the builder whether uppercase letters may and must occur.
fn tell_uppercase(config: &mut randstr::RandStrBuilder, must: Option<bool>, may: Option<bool>)
    ensures
        builder_settings(*final(config)) == (Settings {
            upper: builder_settings(*old(config)).upper || is_set(must) || is_set(may),
            must_upper: builder_settings(*old(config)).must_upper || is_set(must),
            ..builder_settings(*old(config))
        }),
{
    if flag(must) {
        builder_must_upper(config);
    } else if flag(may) {
        builder_upper(config);
    }
}

/// Tells the builder whether lowercase letters may and must occur.
fn tell_lowercase(config: &mut randstr::RandStrBuilder, must: Option<bool>, may: Option<bool>)
    ensures
        builder_settings(*final(config)) == (Settings {
            lower: builder_settings(*old(config)).lower || is_set(must) || is_set(may),
            must_lower: builder_settings(*old(config)).must_lower || is_set(must),
            ..builder_settings(*old(config))
        }),
{
    if flag(must) {
        builder_must_lower(config);
    } else if flag(may) {
        builder_lower(config);
    }
}

/// Makes a random string as `v` describes it and returns its bytes.
///
/// Settings that cannot be served are turned down before a string is made.
/// A string that was made is returned when it holds every class asked for.
/// That is always so where at most one class is asked for, and where two
/// are and every character that may occur belongs to one of them.  Else the
/// string may lack a class, and the call then fails.
pub fn generate_secret(v: &GenerateDefinition) -> (r: Result<Vec<u8>, Error>)
    ensures
        match rejection(settings_of(v@)) {
            Some(refused) => r matches Err(Error::RandStr(error)) && error == refused,
            None => match r {
                Ok(bytes) => exists|text: Seq<char>| #[trigger]
                    generated(settings_of(v@), text) && bytes@ == encode_utf8(text),
                Err(error) => error matches Error::RandStr(GeneratorError::ClassMissing)
                    && !surely_made(settings_of(v@)),
            },
        },
{
    let mut config = builder_new();
    builder_len(&mut config, v.length);
    tell_custom(&mut config, &v.custom_alphabet, v.must_custom_alphabet);
    tell_letters(&mut config, v.must_letters, v.letters);
    tell_digits(&mut config, v.must_digits, v.digits);
    tell_symbols(&mut config, v.must_symbols, v.symbols);
    tell_uppercase(&mut config, v.must_uppercase, v.uppercase);
    tell_lowercase(&mut config, v.must_lowercase, v.lowercase);
    let ghost settings = settings_of(v@);
    assert(builder_settings(config) == settings);
    let mut generator = match builder_try_build(&config) {
        Ok(generator) => generator,
        Err(error) => {
            return Err(Error::RandStr(error));
        },
    };
    if let Some(alphabet) = &v.custom_alphabet {
        if !alphabet.as_str().is_ascii() {
            return Err(Error::RandStr(GeneratorError::CustomAlphabet));
        }
        if flag(v.must_custom_alphabet) && alphabet.as_str().is_empty() {
            return Err(Error::RandStr(GeneratorError::CustomAlphabet));
        }
    }
    if v.length > usize::MAX / 2 - 7 {
        return Err(Error::RandStr(GeneratorError::TooLong));
    }
    let text = generator_generate(&mut generator);
    proof {
        if must_count(settings) <= 1 {
            lemma_single_class(settings, text@);
        } else if surely_made(settings) {
            let (drawn, added) = choose|drawn: Seq<char>, added: Seq<char>| #[trigger]
                rearranged(settings, text@, drawn, added);
            lemma_two_classes(settings, text@, drawn, added);
        }
    }
    let ghost made = text@;
    let finished = finish_generated(v, text);
    proof {
        if finished is Ok {
            assert(generated(settings, made));
        }
    }
    finished
}

} // verus!
