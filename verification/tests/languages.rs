use openai_cli::language::{Catalog, Language, DEFAULT_THEME};
use syntect::parsing::SyntaxSet;

#[test]
fn a_name_selects_its_grammar() {
    let catalog = Catalog::new();
    assert_eq!(catalog.language_for("rust").name(), "Rust");
    assert_eq!(catalog.language_for("python").name(), "Python");
}

#[test]
fn an_extension_selects_its_grammar() {
    let catalog = Catalog::new();
    assert_eq!(catalog.language_for("rs").name(), "Rust");
    assert_eq!(catalog.language_for("py").name(), "Python");
    assert_eq!(catalog.language_for("js").name(), "JavaScript");
}

#[test]
fn case_does_not_matter() {
    let catalog = Catalog::new();
    assert_eq!(catalog.language_for("RUST").name(), "Rust");
    assert_eq!(catalog.language_for("Rs").name(), "Rust");
}

#[test]
fn what_matches_nothing_is_plain_text() {
    let catalog = Catalog::new();
    assert_eq!(catalog.language_for(""), Language::plain_text());
    assert_eq!(catalog.language_for("ru"), Language::plain_text());
    assert_eq!(catalog.language_for("rust "), Language::plain_text());
    assert_eq!(catalog.language_for("no such language"), Language::plain_text());
    assert_eq!(Language::plain_text().name(), "Plain Text");
}

#[test]
fn a_lookup_stands_for_what_it_found() {
    assert_eq!(Language::from_lookup(Some(String::from("Rust"))).name(), "Rust");
    assert_eq!(Language::from_lookup(None), Language::plain_text());
}

#[test]
fn the_same_hint_selects_the_same_grammar() {
    let catalog = Catalog::new();
    let other = Catalog::with_theme(DEFAULT_THEME);
    for hint in ["", "rust", "rs", "r", "sh", "c++", "nothing"] {
        assert_eq!(catalog.language_for(hint), catalog.language_for(hint));
        assert_eq!(catalog.language_for(hint), other.language_for(hint));
    }
}

#[test]
fn the_matcher_finds_what_syntect_finds() {
    let catalog = Catalog::new();
    let set = SyntaxSet::load_defaults_newlines();
    for hint in ["", "rust", "rs", "RS", "r", "sh", "bash", "c++", "h", "txt", "nothing", "md"] {
        let name = match set.find_syntax_by_token(hint) {
            Some(syntax) => syntax.name.clone(),
            None => String::from("Plain Text"),
        };
        assert_eq!(catalog.language_for(hint).name(), name);
    }
}

#[test]
fn the_last_grammar_with_an_extension_wins_over_one_with_the_name() {
    // What syntect's set holds decides; the rule is checked against it here.
    let catalog = Catalog::new();
    let set = SyntaxSet::load_defaults_newlines();
    for hint in ["r", "c", "d", "go", "java", "php"] {
        let by_extension = set.syntaxes().iter().rev().find(|syntax| {
            syntax.file_extensions.iter().any(|extension| extension.eq_ignore_ascii_case(hint))
        });
        let by_name =
            set.syntaxes().iter().rev().find(|syntax| syntax.name.eq_ignore_ascii_case(hint));
        let expected = match by_extension.or(by_name) {
            Some(syntax) => syntax.name.clone(),
            None => String::from("Plain Text"),
        };
        assert_eq!(catalog.language_for(hint).name(), expected);
    }
}

#[test]
fn a_catalog_knows_its_theme() {
    assert_eq!(DEFAULT_THEME, "base16-ocean.dark");
    assert_eq!(Catalog::new().theme(), "base16-ocean.dark");
    assert_eq!(Catalog::with_theme("InspiredGitHub").theme(), "InspiredGitHub");
}
