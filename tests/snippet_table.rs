use kernel_conformance::snippets::{is_unsupported, LanguageSnippets, Snippet};

#[test]
fn python_and_alias() {
    let p = LanguageSnippets::for_language("python");
    assert_eq!(p.language, "python");
    assert_eq!(p.print_hello, "print('hello')");
    assert_eq!(p.complete_code, "x = 1");
    let alias = LanguageSnippets::for_language("Python3");
    assert_eq!(alias.language, "python");
    assert_eq!(alias.syntax_error, "def class");
}

#[test]
fn aliases_map_to_canonical_records() {
    assert_eq!(LanguageSnippets::for_language("JavaScript").language, "typescript");
    assert_eq!(LanguageSnippets::for_language("cpp").language, "c++");
    assert_eq!(LanguageSnippets::for_language("C++").language, "c++");
    assert_eq!(LanguageSnippets::for_language("R").language, "r");
    assert_eq!(LanguageSnippets::for_language("ocaml").language, "ocaml");
}

#[test]
fn unknown_language_gets_generic_record() {
    let g = LanguageSnippets::for_language("COBOL");
    assert_eq!(g.language, "cobol");
    assert_eq!(g.complete_code, "1");
    assert_eq!(g.syntax_error, "!@#$%");
}

#[test]
fn sentinel_marks() {
    assert!(is_unsupported("// Rust kernel doesn't support stdin"));
    assert!(is_unsupported("// update_display not available"));
    assert!(is_unsupported("# Julia update_display varies by environment"));
    assert!(!is_unsupported("print('hello')"));
    assert!(!is_unsupported(""));
    let rust = LanguageSnippets::for_language("rust");
    assert!(is_unsupported(rust.code(Snippet::InputPrompt)));
    assert!(!is_unsupported(rust.code(Snippet::PrintHello)));
}

#[test]
fn code_selects_field() {
    let p = LanguageSnippets::for_language("python");
    assert_eq!(p.code(Snippet::CompletionPrefix), "test_variable_for_");
    assert_eq!(p.code(Snippet::InputPrompt), "input('Enter: ')");
    assert_eq!(p.code(Snippet::SimpleExpr), "1 + 1");
}

#[test]
fn lowercase_name_dispatch() {
    assert_eq!(LanguageSnippets::for_lowercase_name("python3").language, "python");
    assert_eq!(LanguageSnippets::for_lowercase_name("Python").language, "Python");
    assert_eq!(LanguageSnippets::for_lowercase_name("sql").print_hello, "SELECT 'hello' AS message;");
}
