//! Lists of glob patterns, matched against namespace names.
//!
//! The patterns are parsed and compiled by the `globset` crate.  A pattern is
//! turned down when `globset` cannot parse it or cannot compile it.  Two
//! further patterns are turned down, because `globset` would not come back
//! from them: one whose braces, as `globset` reads them, nest deeper than
//! [`MAX_NESTING`], and one of more than [`MAX_PATTERN_BYTES`] bytes.

use crate::text::{split_words, words};
use vstd::prelude::*;
use vstd::std_specs::iter::IteratorSpec;

verus! {

/// A pattern that cannot be compiled.
#[derive(Debug)]
pub struct Error {
    /// The text of the pattern.
    pub glob: Option<String>,
    /// Why it was refused: [`TOO_LARGE`], or the words of `globset`.
    pub message: String,
}

/// What the error of a pattern beyond the limits says.
pub const TOO_LARGE: &'static str = "pattern is too long or nests too deeply";

/// The deepest nesting of braces in a pattern that is handed to `globset`.
///
/// `globset` walks the nested alternatives of a pattern by recursion, one
/// call for every level, and the regular expression that it writes for
/// them is refused beyond 250 levels.
pub const MAX_NESTING: usize = 250;

/// The largest number of bytes of a pattern that is handed to `globset`.
///
/// `globset` builds on automata that number their states with 31 bits, and
/// it gives up where the numbers run out.
pub const MAX_PATTERN_BYTES: usize = 0x7fff_0000;

/// Whether `std::path::is_separator` takes `c` for a separator of path
/// components.  The answer is that of the kind of system that this crate is
/// built for: the slash separates everywhere, the backslash on some systems.
pub uninterp spec fn separates(c: char) -> bool;

/// Calls `std::path::is_separator`; [`separates`] names the answer.
#[verifier::external_body]
fn is_separator(c: char) -> (r: bool)
    ensures
        r == separates(c),
{
    std::path::is_separator(c)
}

/// Whether `globset` reads a backslash as an escape: it does where the
/// backslash separates no path components.
pub open spec fn backslash_escapes() -> bool {
    !separates('\\')
}

/// Where the reading of a pattern stands.  Behind an escaping backslash and
/// inside a character class `globset` reads a brace as a plain character.
#[derive(Debug, Clone, Copy, PartialEq, Eq, Structural)]
pub enum Place {
    /// In no class, and behind no escape.
    Outside,
    /// Behind a backslash that escapes the next character.
    Escaped,
    /// Behind the `[` that opens a class.
    Opened,
    /// Behind the `!` or `^` that negates a class.
    Negated,
    /// Behind the first member of a class.
    Inside,
}

/// The place after `c` has been read at `place`, `escapes` telling whether
/// a backslash escapes.  Outside of classes an escaping backslash takes the
/// meaning from the next character.  A class holds at least one member, so
/// that a `]` in the first place is a member and does not close the class;
/// a backslash inside a class is a member like any other.
pub open spec fn place_after(place: Place, c: char, escapes: bool) -> Place {
    match place {
        Place::Outside => if c == '\\' && escapes {
            Place::Escaped
        } else if c == '[' {
            Place::Opened
        } else {
            Place::Outside
        },
        Place::Escaped => Place::Outside,
        Place::Opened => if c == '!' || c == '^' {
            Place::Negated
        } else {
            Place::Inside
        },
        Place::Negated => Place::Inside,
        Place::Inside => if c == ']' {
            Place::Outside
        } else {
            Place::Inside
        },
    }
}

/// The place at the end of `s`.
pub open spec fn place_at_end(s: Seq<char>, escapes: bool) -> Place
    decreases s.len(),
{
    if s.len() == 0 {
        Place::Outside
    } else {
        place_after(place_at_end(s.drop_last(), escapes), s.last(), escapes)
    }
}

/// The number of braces that stand open at the end of `s`, as `globset`
/// reads them: outside of classes and escapes every `{` opens one, and every
/// `}` closes one, if one is open.
pub open spec fn open_braces(s: Seq<char>, escapes: bool) -> nat
    decreases s.len(),
{
    if s.len() == 0 {
        0
    } else {
        let before = open_braces(s.drop_last(), escapes);
        if place_at_end(s.drop_last(), escapes) != Place::Outside {
            before
        } else if s.last() == '{' {
            before + 1
        } else if s.last() == '}' && before > 0 {
            (before - 1) as nat
        } else {
            before
        }
    }
}

/// The largest number of braces that stand open at any place of `s`.
pub open spec fn deepest(s: Seq<char>, escapes: bool) -> nat
    decreases s.len(),
{
    if s.len() == 0 {
        0
    } else if deepest(s.drop_last(), escapes) >= open_braces(s, escapes) {
        deepest(s.drop_last(), escapes)
    } else {
        open_braces(s, escapes)
    }
}

/// How deep the braces of a pattern nest, as `globset` reads them on the
/// kind of system that this crate is built for.
pub open spec fn nesting(s: Seq<char>) -> nat {
    deepest(s, backslash_escapes())
}

/// Whether a pattern can be handed to `globset`: its braces nest no deeper
/// than [`MAX_NESTING`], and it is no longer than [`MAX_PATTERN_BYTES`].
pub open spec fn within_limits(pattern: Seq<char>) -> bool {
    vstd::utf8::encode_utf8(pattern).len() <= MAX_PATTERN_BYTES && nesting(pattern) <= MAX_NESTING
}

/// `globset::Glob`, a pattern that has been parsed.  Nothing of it is
/// visible here but the text it was made from.
#[verifier::external_type_specification]
#[verifier::external_body]
pub struct ExGlob(globset::Glob);

/// `globset::GlobSet`, a set of patterns that have been compiled.  Nothing
/// of it is visible here; every set in this module holds one pattern.
#[verifier::external_type_specification]
#[verifier::external_body]
pub struct ExGlobSet(globset::GlobSet);

/// Whether `globset::Glob::new` accepts `pattern`.
///
/// `globset` reads a backslash as an escape on systems where it separates no
/// path components, and as a separator where it does.  The name stands for
/// the answer on the kind of system that this crate is built for.
pub uninterp spec fn glob_valid(pattern: Seq<char>) -> bool;

/// Whether `globset::GlobSet::new` succeeds on the one glob that
/// `globset::Glob::new` makes of `pattern`.
pub uninterp spec fn glob_builds(pattern: Seq<char>) -> bool;

/// What `globset::GlobSet::is_match` returns for `candidate` on the set that
/// `globset::GlobSet::new` makes of the one glob that `globset::Glob::new`
/// makes of `pattern`.
///
/// As with [`glob_valid`], the name stands for the answer on the kind of
/// system that this crate is built for: where a backslash separates path
/// components, `globset` reads one in `candidate` as a slash.
pub uninterp spec fn glob_matches(pattern: Seq<char>, candidate: Seq<char>) -> bool;

/// The pattern text that a parsed glob was made from, as
/// `globset::Glob::glob` returns it.
pub uninterp spec fn glob_source(glob: globset::Glob) -> Seq<char>;

/// The pattern text of the glob that a set was built from.  A set does not
/// hand the text out; the name records what [`build_set`] was given.
pub uninterp spec fn set_source(set: globset::GlobSet) -> Seq<char>;

/// Calls `globset::Glob::new`, which parses `pattern` with the default
/// options.  It succeeds exactly on the patterns that [`glob_valid`] names,
/// and the glob it returns keeps the text of `pattern`.  Of an error, the
/// words of `globset` are handed on.  The call descends once for every level
/// of nested braces, and is made within [`within_limits`] only.
#[verifier::external_body]
fn parse_glob(pattern: &str) -> (r: Result<globset::Glob, String>)
    requires
        within_limits(pattern@),
    ensures
        r is Ok <==> glob_valid(pattern@),
        r matches Ok(glob) ==> glob_source(glob) == pattern@,
{
    match globset::Glob::new(pattern) {
        Ok(glob) => Ok(glob),
        Err(error) => Err(error.kind().to_string()),
    }
}

/// Calls `globset::GlobSet::new` on one glob.  The call returns an error
/// where the regular expression of the glob does not compile; it succeeds
/// exactly on the patterns that [`glob_builds`] names.  Of an error, the
/// words of `globset` are handed on.  The glob was parsed with the default
/// options, so that the set depends on the text of the pattern alone.  The
/// call is made within [`within_limits`] only.
#[verifier::external_body]
fn build_set(glob: &globset::Glob) -> (r: Result<globset::GlobSet, String>)
    requires
        within_limits(glob_source(*glob)),
    ensures
        r is Ok <==> glob_builds(glob_source(*glob)),
        r matches Ok(set) ==> set_source(set) == glob_source(*glob),
{
    match globset::GlobSet::new(std::iter::once(glob)) {
        Ok(set) => Ok(set),
        Err(error) => Err(error.kind().to_string()),
    }
}

/// Calls `globset::GlobSet::is_match`.  Every set here was built by
/// [`build_set`] from one glob with the default options, so that the answer
/// depends on the text of the pattern and on `candidate` alone;
/// [`glob_matches`] names it.
#[verifier::external_body]
fn set_is_match(set: &globset::GlobSet, candidate: &str) -> (r: bool)
    ensures
        r == glob_matches(set_source(*set), candidate@),
{
    set.is_match(candidate)
}

/// A text never has fewer braces open at its deepest place than a beginning
/// of it has.
proof fn lemma_deepest_grows(front: Seq<char>, s: Seq<char>, escapes: bool)
    requires
        front.len() <= s.len(),
        front == s.take(front.len() as int),
    ensures
        deepest(front, escapes) <= deepest(s, escapes),
    decreases s.len() - front.len(),
{
    if front.len() < s.len() {
        let longer = s.take(front.len() as int + 1);
        assert(longer.drop_last() == front);
        lemma_deepest_grows(longer, s, escapes);
    } else {
        assert(front == s);
    }
}

/// No more braces stand open at the end of a text than at its deepest place.
proof fn lemma_open_braces_bounded(s: Seq<char>, escapes: bool)
    ensures
        open_braces(s, escapes) <= deepest(s, escapes),
{
}

/// Reads `c` at `place`.
fn next_place(place: Place, c: char, escapes: bool) -> (r: Place)
    ensures
        r == place_after(place, c, escapes),
{
    match place {
        Place::Outside => if c == '\\' && escapes {
            Place::Escaped
        } else if c == '[' {
            Place::Opened
        } else {
            Place::Outside
        },
        Place::Escaped => Place::Outside,
        Place::Opened => if c == '!' || c == '^' {
            Place::Negated
        } else {
            Place::Inside
        },
        Place::Negated => Place::Inside,
        Place::Inside => if c == ']' {
            Place::Outside
        } else {
            Place::Inside
        },
    }
}

/// Tells whether `pattern` can be handed to `globset`.
pub fn fits(pattern: &str) -> (r: bool)
    ensures
        r == within_limits(pattern@),
{
    if pattern.as_bytes().len() > MAX_PATTERN_BYTES {
        return false;
    }
    let escapes = !is_separator('\\');
    let mut rest = pattern.chars();
    let ghost mut seen: int = 0;
    let mut place = Place::Outside;
    let mut open: usize = 0;
    loop
        invariant
            0 <= seen <= pattern@.len(),
            escapes == backslash_escapes(),
            vstd::utf8::encode_utf8(pattern@).len() <= MAX_PATTERN_BYTES,
            rest.obeys_prophetic_iter_laws(),
            rest.remaining() == pattern@.skip(seen),
            place == place_at_end(pattern@.take(seen), escapes),
            open == open_braces(pattern@.take(seen), escapes),
            deepest(pattern@.take(seen), escapes) <= MAX_NESTING,
        decreases pattern@.len() - seen,
    {
        let ghost front = pattern@.take(seen);
        match rest.next() {
            None => {
                assert(front == pattern@);
                return true;
            },
            Some(c) => {
                let ghost longer = pattern@.take(seen + 1);
                proof {
                    assert(c == pattern@[seen]);
                    assert(longer.drop_last() == front);
                    assert(longer.last() == c);
                    assert(pattern@.skip(seen).drop_first() == pattern@.skip(seen + 1));
                    lemma_open_braces_bounded(front, escapes);
                }
                match place {
                    Place::Outside => {
                        if c == '{' {
                            if open == MAX_NESTING {
                                proof {
                                    lemma_deepest_grows(longer, pattern@, escapes);
                                }
                                return false;
                            }
                            open += 1;
                        } else if c == '}' && open > 0 {
                            open -= 1;
                        }
                    },
                    _ => {},
                }
                place = next_place(place, c, escapes);
                proof {
                    seen = seen + 1;
                }
            },
        }
    }
}

/// Whether `pattern` can be compiled: it is within the limits, `globset`
/// parses it, and `globset` builds a matcher from it.  Nothing else is
/// turned down.
pub open spec fn compiles(pattern: Seq<char>) -> bool {
    within_limits(pattern) && glob_valid(pattern) && glob_builds(pattern)
}

/// Whether one of `patterns` matches `candidate`.
pub open spec fn any_matches(patterns: Seq<Seq<char>>, candidate: Seq<char>) -> bool {
    exists|i: int| 0 <= i < patterns.len() && #[trigger] glob_matches(patterns[i], candidate)
}

/// The position of the first pattern that cannot be compiled; the length of
/// `patterns` where all of them can.
pub open spec fn first_invalid(patterns: Seq<Seq<char>>) -> int
    decreases patterns.len(),
{
    if patterns.len() == 0 || !compiles(patterns[0]) {
        0
    } else {
        1 + first_invalid(patterns.drop_first())
    }
}

/// Every pattern can be compiled.
pub open spec fn all_valid(patterns: Seq<Seq<char>>) -> bool {
    forall|i: int| 0 <= i < patterns.len() ==> #[trigger] compiles(patterns[i])
}

/// A list of compiled glob patterns.  It matches a name when one of its
/// patterns does.
#[derive(Debug)]
pub struct GlobList(Vec<globset::GlobSet>);

impl View for GlobList {
    type V = Seq<Seq<char>>;

    /// The pattern texts, in the order in which they were given.
    closed spec fn view(&self) -> Seq<Seq<char>> {
        Seq::new(self.0@.len(), |i: int| set_source(self.0@[i]))
    }
}

impl DeepView for GlobList {
    type V = Seq<Seq<char>>;

    open spec fn deep_view(&self) -> Seq<Seq<char>> {
        self.view()
    }
}

/// Where the first `k` patterns can be compiled and the one at `k` cannot,
/// or `k` is the number of patterns, `k` is the position of the first
/// invalid one.
pub proof fn lemma_first_invalid(patterns: Seq<Seq<char>>, k: int)
    requires
        0 <= k <= patterns.len(),
        forall|j: int| 0 <= j < k ==> #[trigger] compiles(patterns[j]),
        k == patterns.len() || !compiles(patterns[k]),
    ensures
        first_invalid(patterns) == k,
        k == patterns.len() <==> all_valid(patterns),
    decreases k,
{
    if k > 0 {
        let tail = patterns.drop_first();
        assert(compiles(patterns[0]));
        assert forall|j: int| 0 <= j < k - 1 implies #[trigger] compiles(tail[j]) by {
            assert(tail[j] == patterns[j + 1]);
        }
        lemma_first_invalid(tail, k - 1);
    }
}

/// Compiles one pattern, or tells why it cannot be compiled.
fn compile(pattern: &str) -> (r: Result<globset::GlobSet, String>)
    ensures
        r is Ok <==> compiles(pattern@),
        r matches Ok(set) ==> set_source(set) == pattern@,
{
    if !fits(pattern) {
        return Err(TOO_LARGE.to_owned());
    }
    match parse_glob(pattern) {
        Ok(glob) => build_set(&glob),
        Err(message) => Err(message),
    }
}

impl GlobList {
    /// Compiles the patterns of `globs`, which are separated by spaces.
    ///
    /// Fails on the first pattern that cannot be compiled, and names it in
    /// the error.
    pub fn new(globs: &str) -> (r: Result<Self, Error>)
        ensures
            r is Ok <==> all_valid(words(globs@)),
            r matches Ok(list) ==> list@ == words(globs@),
            r matches Err(error) ==> error.glob.deep_view() == Some(
                words(globs@)[first_invalid(words(globs@))],
            ),
    {
        let patterns = split_words(globs);
        let mut result: Vec<globset::GlobSet> = Vec::new();
        let mut i: usize = 0;
        while i < patterns.len()
            invariant
                i <= patterns@.len(),
                patterns.deep_view() == words(globs@),
                result@.len() == i,
                forall|j: int| 0 <= j < i ==> #[trigger] compiles(words(globs@)[j]),
                forall|j: int| 0 <= j < i ==> set_source(#[trigger] result@[j]) == words(globs@)[j],
            decreases patterns@.len() - i,
        {
            assert(patterns@[i as int]@ == patterns.deep_view()[i as int]);
            match compile(patterns[i].as_str()) {
                Ok(set) => {
                    result.push(set);
                },
                Err(message) => {
                    proof {
                        lemma_first_invalid(words(globs@), i as int);
                    }
                    return Err(Error { glob: Some(patterns[i].clone()), message });
                },
            }
            i += 1;
        }
        proof {
            lemma_first_invalid(words(globs@), i as int);
        }
        let list = GlobList(result);
        assert(list@ =~= words(globs@));
        Ok(list)
    }

    /// Whether one of the patterns matches `string`.
    pub fn is_match(&self, string: &str) -> (r: bool)
        ensures
            r == any_matches(self@, string@),
    {
        let mut i: usize = 0;
        while i < self.0.len()
            invariant
                i <= self.0@.len(),
                forall|j: int| 0 <= j < i ==> !#[trigger] glob_matches(self@[j], string@),
            decreases self.0@.len() - i,
        {
            if set_is_match(&self.0[i], string) {
                assert(glob_matches(self@[i as int], string@));
                return true;
            }
            i += 1;
        }
        false
    }
}

} // verus!
