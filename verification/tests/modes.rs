use openai_cli::language::{Catalog, Language};
use openai_cli::mode::{resolve_mode, RenderMode};
use openai_cli::render::render_fragment;

fn code(catalog: &Catalog, hint: &str) -> RenderMode {
    RenderMode::CodeBlock(catalog.language_for(hint))
}

#[test]
fn an_open_fence_gives_a_code_block_of_its_language() {
    let catalog = Catalog::new();
    let mode = resolve_mode(&catalog, "```rust\nfn x(){}\n");
    assert_eq!(mode, code(&catalog, "rust"));
    match mode {
        RenderMode::CodeBlock(language) => assert_eq!(language.name(), "Rust"),
        _ => panic!("not a code block"),
    }
}

#[test]
fn a_closed_fence_gives_normal() {
    let catalog = Catalog::new();
    assert_eq!(resolve_mode(&catalog, "```rust\nfn x(){}\n```"), RenderMode::Normal);
}

#[test]
fn a_lone_backtick_opens_bold_and_the_next_closes_it() {
    let catalog = Catalog::new();
    assert_eq!(resolve_mode(&catalog, "`"), RenderMode::Bold);
    assert_eq!(resolve_mode(&catalog, "`bold"), RenderMode::Bold);
    assert_eq!(resolve_mode(&catalog, "`bold`"), RenderMode::Normal);
}

#[test]
fn four_backticks_open_a_block_and_nothing_else() {
    let catalog = Catalog::new();
    assert_eq!(resolve_mode(&catalog, "````"), code(&catalog, "`"));
    assert_eq!(resolve_mode(&catalog, "````"), RenderMode::CodeBlock(Language::plain_text()));
}

#[test]
fn empty_text_is_normal() {
    let catalog = Catalog::new();
    assert_eq!(resolve_mode(&catalog, ""), RenderMode::Normal);
}

#[test]
fn a_fence_comes_before_a_lone_backtick() {
    let catalog = Catalog::new();
    assert_eq!(resolve_mode(&catalog, "`a ```py\n"), code(&catalog, "py"));
    assert_eq!(resolve_mode(&catalog, "`a ```py\n```"), RenderMode::Bold);
}

#[test]
fn a_fence_without_a_hint_is_plain_text() {
    let catalog = Catalog::new();
    assert_eq!(resolve_mode(&catalog, "```"), RenderMode::CodeBlock(Language::plain_text()));
    assert_eq!(resolve_mode(&catalog, "```\nfn"), RenderMode::CodeBlock(Language::plain_text()));
}

#[test]
fn a_hint_that_has_not_all_arrived_is_matched_as_it_stands() {
    let catalog = Catalog::new();
    assert_eq!(resolve_mode(&catalog, "```ru"), RenderMode::CodeBlock(Language::plain_text()));
    assert_eq!(resolve_mode(&catalog, "```rust"), code(&catalog, "rust"));
}

#[test]
fn the_language_is_that_of_the_last_open_fence() {
    let catalog = Catalog::new();
    let text = "```rust\nfn x(){}\n```\ntext\n```python\nprint(1)\n";
    let mode = resolve_mode(&catalog, text);
    assert_eq!(mode, code(&catalog, "python"));
    assert_ne!(mode, code(&catalog, "rust"));
}

#[test]
fn the_language_stays_while_the_block_grows() {
    let catalog = Catalog::new();
    let mut text = String::from("```rust\n");
    let first = resolve_mode(&catalog, &text);
    for more in ["fn", " x()", " {\n", "    let python = `1`;\n", "}\n"] {
        text.push_str(more);
        assert_eq!(resolve_mode(&catalog, &text), first);
    }
}

#[test]
fn a_fence_that_is_never_closed_stays_a_code_block() {
    let catalog = Catalog::new();
    let text = "```sh\nls\ncd ..\nmore and more\n\n\nthe end";
    assert_eq!(resolve_mode(&catalog, text), code(&catalog, "sh"));
}

#[test]
fn an_empty_block_leaves_the_mode_normal() {
    let catalog = Catalog::new();
    assert_eq!(resolve_mode(&catalog, "``````"), RenderMode::Normal);
    assert_eq!(resolve_mode(&catalog, "a `````` b"), RenderMode::Normal);
}

#[test]
fn the_mode_is_the_same_on_every_call() {
    let catalog = Catalog::new();
    for text in ["", "`a", "```rust\nfn", "```rust\nfn\n```", "`a` b"] {
        assert_eq!(resolve_mode(&catalog, text), resolve_mode(&catalog, text));
    }
}

fn mode_after(catalog: &Catalog, fragments: &[&str]) -> RenderMode {
    let mut text = String::new();
    for fragment in fragments {
        render_fragment(catalog, &mut text, fragment);
    }
    resolve_mode(catalog, &text)
}

#[test]
fn the_mode_does_not_depend_on_the_cut() {
    let catalog = Catalog::new();
    let text = "Ok: `x` and\n```rust\nlet é = `1`;";
    let whole = resolve_mode(&catalog, text);
    let cuts: Vec<usize> = text.char_indices().map(|(i, _)| i).collect();
    for &one in &cuts {
        assert_eq!(mode_after(&catalog, &[&text[..one], &text[one..]]), whole);
        for &two in cuts.iter().filter(|&&two| two >= one) {
            let fragments = [&text[..one], &text[one..two], &text[two..]];
            assert_eq!(mode_after(&catalog, &fragments), whole);
        }
    }
}

#[test]
fn a_fence_cut_in_two_is_still_a_fence() {
    let catalog = Catalog::new();
    assert_eq!(mode_after(&catalog, &["`", "``", "rust\n"]), code(&catalog, "rust"));
    assert_eq!(mode_after(&catalog, &["``", "`rust\n"]), code(&catalog, "rust"));
    assert_eq!(mode_after(&catalog, &["```ru", "st\n"]), code(&catalog, "rust"));
}

#[test]
fn an_empty_fragment_changes_nothing() {
    let catalog = Catalog::new();
    for start in ["", "`a", "```rust\nfn", "```rust\nfn\n```", "`a` b"] {
        let mut text = String::from(start);
        let before = resolve_mode(&catalog, &text);
        render_fragment(&catalog, &mut text, "");
        assert_eq!(text, start);
        assert_eq!(resolve_mode(&catalog, &text), before);
    }
}

#[test]
fn the_mode_follows_the_backticks_as_they_arrive() {
    let catalog = Catalog::new();
    let mut text = String::new();
    let mut modes = Vec::new();
    let mut written = Vec::new();
    for fragment in ["Here is `", "code`: ", "done"] {
        written.push(render_fragment(&catalog, &mut text, fragment));
        modes.push(resolve_mode(&catalog, &text));
    }
    assert_eq!(text, "Here is `code`: done");
    assert_eq!(modes, vec![RenderMode::Bold, RenderMode::Normal, RenderMode::Normal]);
    assert_eq!(written[2], "done");
}

#[test]
fn the_mode_goes_from_normal_to_bold_and_back() {
    let catalog = Catalog::new();
    assert_eq!(resolve_mode(&catalog, "Here is "), RenderMode::Normal);
    assert_eq!(resolve_mode(&catalog, "Here is `"), RenderMode::Bold);
    assert_eq!(resolve_mode(&catalog, "Here is `code"), RenderMode::Bold);
    assert_eq!(resolve_mode(&catalog, "Here is `code`: "), RenderMode::Normal);
    assert_eq!(resolve_mode(&catalog, "Here is `code`: done"), RenderMode::Normal);
}

#[test]
fn a_fence_ends_the_block_and_begins_the_next() {
    let catalog = Catalog::new();
    for start in ["", "text", "`", "``", "```", "````", "`````", "```rust\nfn", "a```b```c", "`a` ``"] {
        let before = matches!(resolve_mode(&catalog, start), RenderMode::CodeBlock(_));
        let text = format!("{}```", start);
        let after = matches!(resolve_mode(&catalog, &text), RenderMode::CodeBlock(_));
        assert_ne!(before, after, "{:?}", start);
    }
}

#[test]
fn text_without_a_backtick_is_normal() {
    let catalog = Catalog::new();
    for text in ["", "plain", "'quoted' \"text\"\n", "~~~rust\nfn x(){}\n~~~", "é ´ ˋ"] {
        assert_eq!(resolve_mode(&catalog, text), RenderMode::Normal);
    }
}
