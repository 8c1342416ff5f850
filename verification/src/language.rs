//! Choosing a grammar for a fenced block from the line that opens it.
//!
//! The grammars are those of syntect's default set. A hint is matched as
//! syntect matches a token: against the grammars' file extensions first, then
//! against their names, without regard to the case of ASCII letters. A hint
//! that matches nothing, as an empty or a half-arrived one, selects the plain
//! text grammar, so every hint selects some grammar.

use vstd::prelude::*;
use syntect::highlighting::ThemeSet;
use syntect::parsing::SyntaxSet;

verus! {

/// Syntect's `SyntaxSet`, a set of grammars. Nothing inside it is visible
/// here.
#[verifier::external_type_specification]
#[verifier::external_body]
pub struct ExSyntaxSet(syntect::parsing::SyntaxSet);

/// Syntect's `ThemeSet`, a set of colour themes, each under its name. Nothing
/// inside it is visible here.
#[verifier::external_type_specification]
#[verifier::external_body]
pub struct ExThemeSet(syntect::highlighting::ThemeSet);

/// What the matcher reads of one grammar.
pub struct Grammar {
    /// The grammar's name.
    pub name: Seq<char>,
    /// The file extensions that the grammar is known by.
    pub extensions: Seq<Seq<char>>,
}

/// The grammars that `set` holds, in the order in which it holds them.
pub uninterp spec fn grammars_of(set: SyntaxSet) -> Seq<Grammar>;

/// `c` with an ASCII capital replaced by its small letter.
pub open spec fn fold_case(c: char) -> char {
    if 'A' <= c && c <= 'Z' {
        ((c as u32) + 32) as char
    } else {
        c
    }
}

/// `a` and `b` are equal but for the case of ASCII letters.
pub open spec fn same_ignoring_case(a: Seq<char>, b: Seq<char>) -> bool {
    a.len() == b.len() && forall|i: int|
        0 <= i < a.len() ==> fold_case(#[trigger] a[i]) == fold_case(b[i])
}

/// One of the extensions of `grammar` is `token`, but for case.
pub open spec fn has_extension(grammar: Grammar, token: Seq<char>) -> bool {
    exists|j: int|
        0 <= j < grammar.extensions.len() && same_ignoring_case(
            #[trigger] grammar.extensions[j],
            token,
        )
}

/// The last of the first `upto` grammars that has the extension `token`.
pub open spec fn last_by_extension(grammars: Seq<Grammar>, token: Seq<char>, upto: int) -> Option<
    int,
>
    decreases upto,
{
    if upto <= 0 {
        None
    } else if has_extension(grammars[upto - 1], token) {
        Some(upto - 1)
    } else {
        last_by_extension(grammars, token, upto - 1)
    }
}

/// The last of the first `upto` grammars whose name is `token`, but for case.
pub open spec fn last_by_name(grammars: Seq<Grammar>, token: Seq<char>, upto: int) -> Option<int>
    decreases upto,
{
    if upto <= 0 {
        None
    } else if same_ignoring_case(grammars[upto - 1].name, token) {
        Some(upto - 1)
    } else {
        last_by_name(grammars, token, upto - 1)
    }
}

/// The name of the grammar that `token` selects among `grammars`: the last one
/// with that extension, else the last one with that name.
pub open spec fn token_lookup(grammars: Seq<Grammar>, token: Seq<char>) -> Option<Seq<char>> {
    match last_by_extension(grammars, token, grammars.len() as int) {
        Some(i) => Some(grammars[i].name),
        None => match last_by_name(grammars, token, grammars.len() as int) {
            Some(i) => Some(grammars[i].name),
            None => None,
        },
    }
}

/// The name of the grammar for text without any syntax.
pub open spec fn plain_text_name() -> Seq<char> {
    "Plain Text"@
}

/// The name of the grammar that a lookup's outcome stands for: the one found,
/// and the plain text grammar where none was.
pub open spec fn name_or_plain(found: Option<Seq<char>>) -> Seq<char> {
    match found {
        Some(name) => name,
        None => plain_text_name(),
    }
}

/// The outcome of a lookup as contracts see it.
pub open spec fn lookup_view(found: Option<String>) -> Option<Seq<char>> {
    match found {
        Some(name) => Some(name@),
        None => None,
    }
}

/// A grammar, known by its name.
#[derive(Clone, Debug, PartialEq, Eq)]
pub struct Language {
    name: String,
}

impl View for Language {
    type V = Seq<char>;

    closed spec fn view(&self) -> Seq<char> {
        self.name@
    }
}

impl Language {
    /// The grammar for text without any syntax.
    pub fn plain_text() -> (language: Language)
        ensures
            language@ == plain_text_name(),
    {
        Language { name: "Plain Text".to_owned() }
    }

    /// The grammar that a lookup's outcome stands for.
    pub fn from_lookup(found: Option<String>) -> (language: Language)
        ensures
            language@ == name_or_plain(lookup_view(found)),
    {
        match found {
            Some(name) => Language { name },
            None => Language::plain_text(),
        }
    }

    /// The grammar's name.
    pub fn name(&self) -> (name: &str)
        ensures
            name@ == self@,
    {
        self.name.as_str()
    }
}

/// Calls syntect's `SyntaxSet::find_syntax_by_token` and hands back the name
/// of the grammar found. The contract restates syntect's search over the
/// grammars of the set: from the last grammar to the first, by extension, and
/// only then by name, both compared without regard to ASCII case.
#[verifier::external_body]
pub(crate) fn find_by_token(set: &SyntaxSet, token: &str) -> (found: Option<String>)
    ensures
        lookup_view(found) == token_lookup(grammars_of(*set), token@),
{
    set.find_syntax_by_token(token).map(|syntax| syntax.name.clone())
}

/// Syntect's `SyntaxSet::load_defaults_newlines`: the grammars that syntect
/// ships, for lines that keep their line feed. Nothing is claimed of them.
pub assume_specification[ SyntaxSet::load_defaults_newlines ]() -> (set: SyntaxSet)
;

/// Syntect's `ThemeSet::load_defaults`: the themes that syntect ships. Nothing
/// is claimed of them.
pub assume_specification[ ThemeSet::load_defaults ]() -> (themes: ThemeSet)
;

/// The name of the theme that a catalogue uses unless told otherwise.
pub const DEFAULT_THEME: &'static str = "base16-ocean.dark";

/// The grammars and the colour themes that rendering draws on. It is built once
/// and only read afterwards.
pub struct Catalog {
    pub(crate) syntaxes: SyntaxSet,
    pub(crate) themes: ThemeSet,
    pub(crate) theme: String,
}

impl Catalog {
    /// The grammars of the catalogue.
    pub closed spec fn grammars(&self) -> Seq<Grammar> {
        grammars_of(self.syntaxes)
    }

    /// The name of the theme in use.
    pub closed spec fn theme_name(&self) -> Seq<char> {
        self.theme@
    }

    /// The name of the grammar that `hint` selects.
    pub open spec fn language_of(&self, hint: Seq<char>) -> Seq<char> {
        name_or_plain(token_lookup(self.grammars(), hint))
    }

    /// A catalogue of the grammars and themes that syntect ships, with the
    /// theme `DEFAULT_THEME`.
    pub fn new() -> (catalog: Catalog)
        ensures
            catalog.theme_name() == DEFAULT_THEME@,
    {
        Catalog::with_theme(DEFAULT_THEME)
    }

    /// A catalogue of the grammars and themes that syntect ships, with the
    /// theme `theme`. Under a theme that syntect does not ship every line is
    /// left without colour.
    pub fn with_theme(theme: &str) -> (catalog: Catalog)
        ensures
            catalog.theme_name() == theme@,
    {
        Catalog {
            syntaxes: SyntaxSet::load_defaults_newlines(),
            themes: ThemeSet::load_defaults(),
            theme: theme.to_owned(),
        }
    }

    /// The name of the theme in use.
    pub fn theme(&self) -> (name: &str)
        ensures
            name@ == self.theme_name(),
    {
        self.theme.as_str()
    }

    /// The grammar that `hint`, the first line of a fenced block, selects.
    pub fn language_for(&self, hint: &str) -> (language: Language)
        ensures
            language@ == self.language_of(hint@),
    {
        Language::from_lookup(find_by_token(&self.syntaxes, hint))
    }
}

} // verus!
