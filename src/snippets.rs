//! Code snippets in each kernel language, one per protocol feature.
//!
//! The checks speak the language of the kernel under test so that what they
//! judge is the protocol, not the language.

use vstd::prelude::*;

use crate::text::{contains_spec, contains_text, same_text};

verus! {

/// Code snippets for one kernel language.
#[derive(Debug, Clone)]
pub struct LanguageSnippets {
    /// Canonical language name (lowercase: `python`, `r`, `rust`, ...).
    pub language: String,
    /// Prints "hello" to stdout.
    pub print_hello: &'static str,
    /// Prints "error" to stderr.
    pub print_stderr: &'static str,
    /// An expression with a value (for execute_result).
    pub simple_expr: &'static str,
    /// Expected text of that value.
    pub simple_expr_result: &'static str,
    /// Incomplete code (for is_complete).
    pub incomplete_code: &'static str,
    /// One complete statement.
    pub complete_code: &'static str,
    /// Code with a syntax error.
    pub syntax_error: &'static str,
    /// Reads a line from stdin.
    pub input_prompt: &'static str,
    /// Sleeps about two seconds.
    pub sleep_code: &'static str,
    /// Name of the variable used for completion.
    pub completion_var: &'static str,
    /// Defines that variable.
    pub completion_setup: &'static str,
    /// A prefix of the variable's name.
    pub completion_prefix: &'static str,
    /// Produces display_data.
    pub display_data_code: &'static str,
    /// Produces display_data with a display id, then updates it.
    pub update_display_data_code: &'static str,
    /// Produces an execute_result with rich MIME types.
    pub rich_execute_result_code: &'static str,
}

/// The snippets that checks send to a kernel.
#[derive(Debug, Clone, Copy, PartialEq, Eq, Structural)]
pub enum Snippet {
    PrintHello,
    PrintStderr,
    SimpleExpr,
    IncompleteCode,
    CompleteCode,
    SyntaxError,
    InputPrompt,
    CompletionVar,
    CompletionSetup,
    CompletionPrefix,
    DisplayData,
    UpdateDisplayData,
}

/// Languages with a snippet record of their own.
#[derive(Debug, Clone, Copy, PartialEq, Eq, Structural)]
pub enum Language {
    Python,
    R,
    Rust,
    Julia,
    TypeScript,
    Go,
    Scala,
    Cpp,
    Sql,
    Lua,
    Haskell,
    Octave,
    OCaml,
}

impl Language {
    /// The record's language name.
    pub open spec fn canonical(self) -> Seq<char> {
        match self {
            Language::Python => "python"@,
            Language::R => "r"@,
            Language::Rust => "rust"@,
            Language::Julia => "julia"@,
            Language::TypeScript => "typescript"@,
            Language::Go => "go"@,
            Language::Scala => "scala"@,
            Language::Cpp => "c++"@,
            Language::Sql => "sql"@,
            Language::Lua => "lua"@,
            Language::Haskell => "haskell"@,
            Language::Octave => "octave"@,
            Language::OCaml => "ocaml"@,
        }
    }
}

/// The language that a lowercase name denotes, aliases included.
pub open spec fn language_named(n: Seq<char>) -> Option<Language> {
    if n == "python"@ || n == "python3"@ {
        Some(Language::Python)
    } else if n == "r"@ {
        Some(Language::R)
    } else if n == "rust"@ {
        Some(Language::Rust)
    } else if n == "julia"@ {
        Some(Language::Julia)
    } else if n == "typescript"@ || n == "javascript"@ {
        Some(Language::TypeScript)
    } else if n == "go"@ {
        Some(Language::Go)
    } else if n == "scala"@ {
        Some(Language::Scala)
    } else if n == "c++"@ || n == "cpp"@ {
        Some(Language::Cpp)
    } else if n == "sql"@ {
        Some(Language::Sql)
    } else if n == "lua"@ {
        Some(Language::Lua)
    } else if n == "haskell"@ {
        Some(Language::Haskell)
    } else if n == "octave"@ {
        Some(Language::Octave)
    } else if n == "ocaml"@ {
        Some(Language::OCaml)
    } else {
        None
    }
}

/// The record for the language `k` (`None`: the generic record), apart
/// from its language name.
pub open spec fn record_for(k: Option<Language>, sn: LanguageSnippets) -> bool {
    match k {
        Some(Language::Python) => {
            &&& sn.print_hello@ == "print('hello')"@
            &&& sn.print_stderr@ == "import sys; print('error', file=sys.stderr)"@
            &&& sn.simple_expr@ == "1 + 1"@
            &&& sn.simple_expr_result@ == "2"@
            &&& sn.incomplete_code@ == "def foo("@
            &&& sn.complete_code@ == "x = 1"@
            &&& sn.syntax_error@ == "def class"@
            &&& sn.input_prompt@ == "input('Enter: ')"@
            &&& sn.sleep_code@ == "import time; time.sleep(2)"@
            &&& sn.completion_var@ == "test_variable_for_completion"@
            &&& sn.completion_setup@ == "test_variable_for_completion = 42"@
            &&& sn.completion_prefix@ == "test_variable_for_"@
            &&& sn.display_data_code@ == "from IPython.display import display, HTML; display(HTML('<b>bold</b>'))"@
            &&& sn.update_display_data_code@ == "from IPython.display import display, HTML, update_display; dh = display(HTML('<b>initial</b>'), display_id=True); update_display(HTML('<b>updated</b>'), display_id=dh.display_id)"@
            &&& sn.rich_execute_result_code@ == "from IPython.display import HTML; HTML('<b>bold</b>')"@
        },
        Some(Language::R) => {
            &&& sn.print_hello@ == "cat('hello\\n')"@
            &&& sn.print_stderr@ == "cat('error\\n', file=stderr())"@
            &&& sn.simple_expr@ == "1 + 1"@
            &&& sn.simple_expr_result@ == "[1] 2"@
            &&& sn.incomplete_code@ == "function("@
            &&& sn.complete_code@ == "x <- 1"@
            &&& sn.syntax_error@ == "function function"@
            &&& sn.input_prompt@ == "readline('Enter: ')"@
            &&& sn.sleep_code@ == "Sys.sleep(2)"@
            &&& sn.completion_var@ == "test_variable_for_completion"@
            &&& sn.completion_setup@ == "test_variable_for_completion <- 42"@
            &&& sn.completion_prefix@ == "test_variable_for_"@
            &&& sn.display_data_code@ == "plot(1:10)"@
            &&& sn.update_display_data_code@ == "plot(1:5); Sys.sleep(0.1); plot(6:10)"@
            &&& sn.rich_execute_result_code@ == "data.frame(x = 1:3, y = c('a', 'b', 'c'))"@
        },
        Some(Language::Rust) => {
            &&& sn.print_hello@ == r#"println!("hello");"#@
            &&& sn.print_stderr@ == r#"eprintln!("error");"#@
            &&& sn.simple_expr@ == "1 + 1"@
            &&& sn.simple_expr_result@ == "2"@
            &&& sn.incomplete_code@ == "fn foo("@
            &&& sn.complete_code@ == "let x = 1;"@
            &&& sn.syntax_error@ == "fn fn"@
            &&& sn.input_prompt@ == "// Rust kernel doesn't support stdin"@
            &&& sn.sleep_code@ == "std::thread::sleep(std::time::Duration::from_secs(2));"@
            &&& sn.completion_var@ == "test_variable_for_completion"@
            &&& sn.completion_setup@ == "let test_variable_for_completion = 42;"@
            &&& sn.completion_prefix@ == "test_variable_for_"@
            &&& sn.display_data_code@ == "// evcxr uses execute_result for rich output, not display_data"@
            &&& sn.update_display_data_code@ == "// evcxr doesn't support update_display_data (no display_id)"@
            &&& sn.rich_execute_result_code@ == r#"pub struct Html(pub &'static str);
impl Html {
    pub fn evcxr_display(&self) {
        println!("EVCXR_BEGIN_CONTENT text/html\n{}\nEVCXR_END_CONTENT", self.0);
    }
}
Html("<b>bold</b>")"#@
        },
        Some(Language::Julia) => {
            &&& sn.print_hello@ == r#"println("hello")"#@
            &&& sn.print_stderr@ == r#"println(stderr, "error")"#@
            &&& sn.simple_expr@ == "1 + 1"@
            &&& sn.simple_expr_result@ == "2"@
            &&& sn.incomplete_code@ == "function foo("@
            &&& sn.complete_code@ == "x = 1"@
            &&& sn.syntax_error@ == "function function"@
            &&& sn.input_prompt@ == "readline()"@
            &&& sn.sleep_code@ == "sleep(2)"@
            &&& sn.completion_var@ == "test_variable_for_completion"@
            &&& sn.completion_setup@ == "test_variable_for_completion = 42"@
            &&& sn.completion_prefix@ == "test_variable_for_"@
            &&& sn.display_data_code@ == r#"display("text/html", "<b>bold</b>")"#@
            &&& sn.update_display_data_code@ == "# Julia update_display varies by environment"@
            &&& sn.rich_execute_result_code@ == r#"HTML("<b>bold</b>")"#@
        },
        Some(Language::TypeScript) => {
            &&& sn.print_hello@ == "console.log('hello')"@
            &&& sn.print_stderr@ == "console.error('error')"@
            &&& sn.simple_expr@ == "1 + 1"@
            &&& sn.simple_expr_result@ == "2"@
            &&& sn.incomplete_code@ == "function foo("@
            &&& sn.complete_code@ == "const x = 1"@
            &&& sn.syntax_error@ == "function function"@
            &&& sn.input_prompt@ == "prompt('Enter: ')"@
            &&& sn.sleep_code@ == "await new Promise(r => setTimeout(r, 2000))"@
            &&& sn.completion_var@ == "testVariableForCompletion"@
            &&& sn.completion_setup@ == "const testVariableForCompletion = 42"@
            &&& sn.completion_prefix@ == "testVariableFor"@
            &&& sn.display_data_code@ == r#"await Deno.jupyter.broadcast("display_data", { data: { "text/html": "<b>bold</b>" }, metadata: {}, transient: {} })"#@
            &&& sn.update_display_data_code@ == r#"await Deno.jupyter.broadcast("display_data", { data: { "text/html": "<b>initial</b>" }, metadata: {}, transient: { display_id: "test_update" } }); await Deno.jupyter.broadcast("update_display_data", { data: { "text/html": "<b>updated</b>" }, metadata: {}, transient: { display_id: "test_update" } })"#@
            &&& sn.rich_execute_result_code@ == r#"Deno.jupyter.html("<b>bold</b>")"#@
        },
        Some(Language::Go) => {
            &&& sn.print_hello@ == r#"fmt.Println("hello")"#@
            &&& sn.print_stderr@ == r#"fmt.Fprintln(os.Stderr, "error")"#@
            &&& sn.simple_expr@ == "1 + 1"@
            &&& sn.simple_expr_result@ == "2"@
            &&& sn.incomplete_code@ == "func foo("@
            &&& sn.complete_code@ == "x := 1"@
            &&& sn.syntax_error@ == "func func"@
            &&& sn.input_prompt@ == r#"import "github.com/janpfeifer/gonb/gonbui"
gonbui.RequestInput("Enter: ", false)"#@
            &&& sn.sleep_code@ == "time.Sleep(2 * time.Second)"@
            &&& sn.completion_var@ == "testVariableForCompletion"@
            &&& sn.completion_setup@ == "testVariableForCompletion := 42"@
            &&& sn.completion_prefix@ == "testVariableFor"@
            &&& sn.display_data_code@ == r#"import "github.com/janpfeifer/gonb/gonbui"
gonbui.DisplayHtml("<b>bold</b>")"#@
            &&& sn.update_display_data_code@ == r#"import "github.com/janpfeifer/gonb/gonbui"
id := gonbui.UniqueId()
gonbui.UpdateHtml(id, "<b>initial</b>")
gonbui.UpdateHtml(id, "<b>updated</b>")"#@
            &&& sn.rich_execute_result_code@ == "// Go uses display_data for rich output"@
        },
        Some(Language::Scala) => {
            &&& sn.print_hello@ == r#"println("hello")"#@
            &&& sn.print_stderr@ == r#"System.err.println("error")"#@
            &&& sn.simple_expr@ == "1 + 1"@
            &&& sn.simple_expr_result@ == "2"@
            &&& sn.incomplete_code@ == "def foo("@
            &&& sn.complete_code@ == "val x = 1"@
            &&& sn.syntax_error@ == "def def"@
            &&& sn.input_prompt@ == "scala.io.StdIn.readLine()"@
            &&& sn.sleep_code@ == "Thread.sleep(2000)"@
            &&& sn.completion_var@ == "testVariableForCompletion"@
            &&& sn.completion_setup@ == "val testVariableForCompletion = 42"@
            &&& sn.completion_prefix@ == "testVariableFor"@
            &&& sn.display_data_code@ == r#"kernel.publish.html("<b>bold</b>")"#@
            &&& sn.update_display_data_code@ == r#"val id = java.util.UUID.randomUUID().toString; kernel.publish.html("<b>initial</b>", id); kernel.publish.updateHtml("<b>updated</b>", id)"#@
            &&& sn.rich_execute_result_code@ == r#"Html("<b>bold</b>")"#@
        },
        Some(Language::Cpp) => {
            &&& sn.print_hello@ == r#"#include <iostream>
std::cout << "hello" << std::endl;"#@
            &&& sn.print_stderr@ == r#"#include <iostream>
std::cerr << "error" << std::endl;"#@
            &&& sn.simple_expr@ == "1 + 1"@
            &&& sn.simple_expr_result@ == "2"@
            &&& sn.incomplete_code@ == "int foo("@
            &&& sn.complete_code@ == "int x = 1;"@
            &&& sn.syntax_error@ == "int int;"@
            &&& sn.input_prompt@ == "// C++ kernel stdin varies"@
            &&& sn.sleep_code@ == r#"#include <thread>
#include <chrono>
std::this_thread::sleep_for(std::chrono::seconds(2));"#@
            &&& sn.completion_var@ == "test_variable_for_completion"@
            &&& sn.completion_setup@ == "int test_variable_for_completion = 42;"@
            &&& sn.completion_prefix@ == "test_variable_for_"@
            &&& sn.display_data_code@ == r#"#include <string>
#include "xcpp/xdisplay.hpp"

struct html_content {
    std::string content;
};

#include "nlohmann/json.hpp"
nlohmann::json mime_bundle_repr(const html_content& h) {
    auto bundle = nlohmann::json::object();
    bundle["text/html"] = h.content;
    return bundle;
}

html_content h{"<b>bold</b>"};
xcpp::display(h);"#@
            &&& sn.update_display_data_code@ == "// xeus-cling update_display_data requires display_id handling"@
            &&& sn.rich_execute_result_code@ == "// C++ uses display_data for rich output"@
        },
        Some(Language::Sql) => {
            &&& sn.print_hello@ == "SELECT 'hello' AS message;"@
            &&& sn.print_stderr@ == "-- SQL doesn't have stderr; errors come from invalid queries"@
            &&& sn.simple_expr@ == "SELECT 1 + 1 AS result;"@
            &&& sn.simple_expr_result@ == "2"@
            &&& sn.incomplete_code@ == "SELECT * FROM"@
            &&& sn.complete_code@ == "SELECT 1;"@
            &&& sn.syntax_error@ == "SELEC * FORM table;"@
            &&& sn.input_prompt@ == "-- SQL kernel doesn't support stdin"@
            &&& sn.sleep_code@ == "-- SQL sleep varies by database backend"@
            &&& sn.completion_var@ == "test_table"@
            &&& sn.completion_setup@ == "CREATE TABLE IF NOT EXISTS test_table (id INTEGER);"@
            &&& sn.completion_prefix@ == "test_"@
            &&& sn.display_data_code@ == "SELECT 1 AS col1, 2 AS col2, 3 AS col3;"@
            &&& sn.update_display_data_code@ == "-- SQL doesn't support update_display_data"@
            &&& sn.rich_execute_result_code@ == "SELECT 1 AS col1, 2 AS col2, 3 AS col3;"@
        },
        Some(Language::Lua) => {
            &&& sn.print_hello@ == "print('hello')"@
            &&& sn.print_stderr@ == "io.stderr:write('error\\n')"@
            &&& sn.simple_expr@ == "return 1 + 1"@
            &&& sn.simple_expr_result@ == "2"@
            &&& sn.incomplete_code@ == "function foo("@
            &&& sn.complete_code@ == "x = 1"@
            &&& sn.syntax_error@ == "function function"@
            &&& sn.input_prompt@ == "io.read()"@
            &&& sn.sleep_code@ == "-- Lua sleep requires os.execute or socket"@
            &&& sn.completion_var@ == "test_variable_for_completion"@
            &&& sn.completion_setup@ == "test_variable_for_completion = 42"@
            &&& sn.completion_prefix@ == "test_variable_for_"@
            &&& sn.display_data_code@ == "ilua.display.html('<b>bold</b>')"@
            &&& sn.update_display_data_code@ == "-- Lua doesn't support update_display_data"@
            &&& sn.rich_execute_result_code@ == "// Lua uses display_data for rich output"@
        },
        Some(Language::Haskell) => {
            &&& sn.print_hello@ == r#"putStrLn "hello""#@
            &&& sn.print_stderr@ == r#"import System.IO; hPutStrLn stderr "error""#@
            &&& sn.simple_expr@ == "1 + 1"@
            &&& sn.simple_expr_result@ == "2"@
            &&& sn.incomplete_code@ == "let x ="@
            &&& sn.complete_code@ == "let x = 1"@
            &&& sn.syntax_error@ == "let let"@
            &&& sn.input_prompt@ == "-- Haskell stdin varies by kernel"@
            &&& sn.sleep_code@ == "import Control.Concurrent; threadDelay 2000000"@
            &&& sn.completion_var@ == "testVariableForCompletion"@
            &&& sn.completion_setup@ == "let testVariableForCompletion = 42"@
            &&& sn.completion_prefix@ == "testVariableFor"@
            &&& sn.display_data_code@ == r#"putStrLn "no rich display""#@
            &&& sn.update_display_data_code@ == "-- Haskell doesn't support update_display_data"@
            &&& sn.rich_execute_result_code@ == "// Haskell doesn't support rich execute_result"@
        },
        Some(Language::Octave) => {
            &&& sn.print_hello@ == "disp('hello')"@
            &&& sn.print_stderr@ == "fprintf(2, 'error\\n')"@
            &&& sn.simple_expr@ == "1 + 1"@
            &&& sn.simple_expr_result@ == "ans = 2"@
            &&& sn.incomplete_code@ == "if true"@
            &&& sn.complete_code@ == "x = 1;"@
            &&& sn.syntax_error@ == "1 +"@
            &&& sn.input_prompt@ == "% Octave stdin doesn't support Jupyter input protocol"@
            &&& sn.sleep_code@ == "pause(2)"@
            &&& sn.completion_var@ == "test_variable_for_completion"@
            &&& sn.completion_setup@ == "test_variable_for_completion = 42;"@
            &&& sn.completion_prefix@ == "test_variable_for_"@
            &&& sn.display_data_code@ == "% Octave plot() requires display - skip in headless CI"@
            &&& sn.update_display_data_code@ == "% Octave update_display varies by environment"@
            &&& sn.rich_execute_result_code@ == "// Octave uses display_data for rich output"@
        },
        Some(Language::OCaml) => {
            &&& sn.print_hello@ == r#"print_endline "hello""#@
            &&& sn.print_stderr@ == r#"prerr_endline "error""#@
            &&& sn.simple_expr@ == "1 + 1"@
            &&& sn.simple_expr_result@ == "2"@
            &&& sn.incomplete_code@ == "let foo ("@
            &&& sn.complete_code@ == "let x = 1"@
            &&& sn.syntax_error@ == "let let"@
            &&& sn.input_prompt@ == "read_line ()"@
            &&& sn.sleep_code@ == "Unix.sleep 2"@
            &&& sn.completion_var@ == "test_variable_for_completion"@
            &&& sn.completion_setup@ == "let test_variable_for_completion = 42"@
            &&& sn.completion_prefix@ == "test_variable_for_"@
            &&& sn.display_data_code@ == r#"#require "jupyter.notebook";; Jupyter_notebook.display "text/html" "<b>bold</b>""#@
            &&& sn.update_display_data_code@ == "(* OCaml jupyter doesn't support update_display_data *)"@
            &&& sn.rich_execute_result_code@ == "(* OCaml uses display_data for rich output *)"@
        },
        None => {
            &&& sn.print_hello@ == "print('hello')"@
            &&& sn.print_stderr@ == "print('error')"@
            &&& sn.simple_expr@ == "1 + 1"@
            &&& sn.simple_expr_result@ == "2"@
            &&& sn.incomplete_code@ == "("@
            &&& sn.complete_code@ == "1"@
            &&& sn.syntax_error@ == "!@#$%"@
            &&& sn.input_prompt@ == "input()"@
            &&& sn.sleep_code@ == "// sleep not available"@
            &&& sn.completion_var@ == "x"@
            &&& sn.completion_setup@ == "x = 1"@
            &&& sn.completion_prefix@ == "x"@
            &&& sn.display_data_code@ == "1"@
            &&& sn.update_display_data_code@ == "// update_display not available"@
            &&& sn.rich_execute_result_code@ == "// rich execute_result not available"@
        },
    }
}

/// What `str::to_lowercase` returns for `s`.
pub uninterp spec fn lower_of(s: Seq<char>) -> Seq<char>;

/// Relies on `str::to_lowercase`: its result depends on the characters of
/// its argument alone.
#[verifier::external_body]
fn lowercase(s: &str) -> (r: String)
    ensures
        r@ == lower_of(s@),
{
    s.to_lowercase()
}

/// The language name of the record chosen for a lowercase name.
pub open spec fn record_language(lower: Seq<char>) -> Seq<char> {
    match language_named(lower) {
        Some(k) => k.canonical(),
        None => lower,
    }
}

/// Marks in a snippet that the language does not offer the feature.
pub open spec fn unsupported_spec(code: Seq<char>) -> bool {
    contains_spec(code, "doesn't support"@) || contains_spec(code, "not available"@) || contains_spec(code, "varies"@)
}

/// Whether `code` carries one of the marks of an unsupported feature; such
/// a snippet is never sent to a kernel.
pub fn is_unsupported(code: &str) -> (r: bool)
    ensures
        r == unsupported_spec(code@),
{
    contains_text(code, "doesn't support") || contains_text(code, "not available") || contains_text(code, "varies")
}

impl LanguageSnippets {
    /// The code of snippet `s`.
    pub open spec fn code_spec(&self, s: Snippet) -> Seq<char> {
        match s {
            Snippet::PrintHello => self.print_hello@,
            Snippet::PrintStderr => self.print_stderr@,
            Snippet::SimpleExpr => self.simple_expr@,
            Snippet::IncompleteCode => self.incomplete_code@,
            Snippet::CompleteCode => self.complete_code@,
            Snippet::SyntaxError => self.syntax_error@,
            Snippet::InputPrompt => self.input_prompt@,
            Snippet::CompletionVar => self.completion_var@,
            Snippet::CompletionSetup => self.completion_setup@,
            Snippet::CompletionPrefix => self.completion_prefix@,
            Snippet::DisplayData => self.display_data_code@,
            Snippet::UpdateDisplayData => self.update_display_data_code@,
        }
    }

    pub fn code(&self, s: Snippet) -> (r: &'static str)
        ensures
            r@ == self.code_spec(s),
    {
        match s {
            Snippet::PrintHello => self.print_hello,
            Snippet::PrintStderr => self.print_stderr,
            Snippet::SimpleExpr => self.simple_expr,
            Snippet::IncompleteCode => self.incomplete_code,
            Snippet::CompleteCode => self.complete_code,
            Snippet::SyntaxError => self.syntax_error,
            Snippet::InputPrompt => self.input_prompt,
            Snippet::CompletionVar => self.completion_var,
            Snippet::CompletionSetup => self.completion_setup,
            Snippet::CompletionPrefix => self.completion_prefix,
            Snippet::DisplayData => self.display_data_code,
            Snippet::UpdateDisplayData => self.update_display_data_code,
        }
    }

    /// The snippets for a kernel language. The name is lowercased first;
    /// `python3`, `javascript` and `cpp` are aliases of `python`,
    /// `typescript` and `c++`. An unknown language gets the generic record,
    /// named by the lowercased name.
    pub fn for_language(language: &str) -> (r: Self)
        ensures
            r.language@ == record_language(lower_of(language@)),
            record_for(language_named(lower_of(language@)), r),
    {
        let lower = lowercase(language);
        Self::for_lowercase_name(lower.as_str())
    }

    /// The snippets for an already lowercased language name.
    pub fn for_lowercase_name(l: &str) -> (r: Self)
        ensures
            r.language@ == record_language(l@),
            record_for(language_named(l@), r),
    {
        proof {
            reveal_strlit("python");
            reveal_strlit("python3");
            reveal_strlit("r");
            reveal_strlit("rust");
            reveal_strlit("julia");
            reveal_strlit("typescript");
            reveal_strlit("javascript");
            reveal_strlit("go");
            reveal_strlit("scala");
            reveal_strlit("c++");
            reveal_strlit("cpp");
            reveal_strlit("sql");
            reveal_strlit("lua");
            reveal_strlit("haskell");
            reveal_strlit("octave");
            reveal_strlit("ocaml");
        }
        if same_text(l, "python") || same_text(l, "python3") {
            Self::python()
        } else if same_text(l, "r") {
            Self::r()
        } else if same_text(l, "rust") {
            Self::rust()
        } else if same_text(l, "julia") {
            Self::julia()
        } else if same_text(l, "typescript") || same_text(l, "javascript") {
            Self::typescript()
        } else if same_text(l, "go") {
            Self::go()
        } else if same_text(l, "scala") {
            Self::scala()
        } else if same_text(l, "c++") || same_text(l, "cpp") {
            Self::cpp()
        } else if same_text(l, "sql") {
            Self::sql()
        } else if same_text(l, "lua") {
            Self::lua()
        } else if same_text(l, "haskell") {
            Self::haskell()
        } else if same_text(l, "octave") {
            Self::octave()
        } else if same_text(l, "ocaml") {
            Self::ocaml()
        } else {
            Self::generic(l)
        }
    }

    fn python() -> (s: Self)
        ensures
            s.language@ == "python"@,
            record_for(Some(Language::Python), s),
    {
        LanguageSnippets {
            language: "python".to_string(),
            print_hello: "print('hello')",
            print_stderr: "import sys; print('error', file=sys.stderr)",
            simple_expr: "1 + 1",
            simple_expr_result: "2",
            incomplete_code: "def foo(",
            complete_code: "x = 1",
            syntax_error: "def class",
            input_prompt: "input('Enter: ')",
            sleep_code: "import time; time.sleep(2)",
            completion_var: "test_variable_for_completion",
            completion_setup: "test_variable_for_completion = 42",
            completion_prefix: "test_variable_for_",
            display_data_code: "from IPython.display import display, HTML; display(HTML('<b>bold</b>'))",
            update_display_data_code: "from IPython.display import display, HTML, update_display; dh = display(HTML('<b>initial</b>'), display_id=True); update_display(HTML('<b>updated</b>'), display_id=dh.display_id)",
            rich_execute_result_code: "from IPython.display import HTML; HTML('<b>bold</b>')",
        }
    }

    fn r() -> (s: Self)
        ensures
            s.language@ == "r"@,
            record_for(Some(Language::R), s),
    {
        LanguageSnippets {
            language: "r".to_string(),
            print_hello: "cat('hello\\n')",
            // Use cat() with stderr() for more explicit stderr output
            print_stderr: "cat('error\\n', file=stderr())",
            simple_expr: "1 + 1",
            simple_expr_result: "[1] 2",
            incomplete_code: "function(",
            complete_code: "x <- 1",
            syntax_error: "function function",
            input_prompt: "readline('Enter: ')",
            sleep_code: "Sys.sleep(2)",
            completion_var: "test_variable_for_completion",
            completion_setup: "test_variable_for_completion <- 42",
            completion_prefix: "test_variable_for_",
            // Ark produces display_data natively for graphics - no IRdisplay needed
            display_data_code: "plot(1:10)",
            // Ark sends update_display_data when a new plot replaces the previous one
            update_display_data_code: "plot(1:5); Sys.sleep(0.1); plot(6:10)",
            // Ark returns text/html in execute_result for data frames
            rich_execute_result_code: "data.frame(x = 1:3, y = c('a', 'b', 'c'))",
        }
    }

    fn rust() -> (s: Self)
        ensures
            s.language@ == "rust"@,
            record_for(Some(Language::Rust), s),
    {
        // evcxr Rust kernel - uses EVCXR_BEGIN_CONTENT/END_CONTENT protocol for rich output
        LanguageSnippets {
            language: "rust".to_string(),
            print_hello: r#"println!("hello");"#,
            print_stderr: r#"eprintln!("error");"#,
            simple_expr: "1 + 1",
            simple_expr_result: "2",
            incomplete_code: "fn foo(",
            complete_code: "let x = 1;",
            syntax_error: "fn fn",
            input_prompt: "// Rust kernel doesn't support stdin",
            sleep_code: "std::thread::sleep(std::time::Duration::from_secs(2));",
            completion_var: "test_variable_for_completion",
            completion_setup: "let test_variable_for_completion = 42;",
            completion_prefix: "test_variable_for_",
            // evcxr sends rich output via execute_result, not display_data
            display_data_code: "// evcxr uses execute_result for rich output, not display_data",
            update_display_data_code: "// evcxr doesn't support update_display_data (no display_id)",
            // evcxr's strength: rich execute_result via evcxr_display trait
            rich_execute_result_code: r#"pub struct Html(pub &'static str);
impl Html {
    pub fn evcxr_display(&self) {
        println!("EVCXR_BEGIN_CONTENT text/html\n{}\nEVCXR_END_CONTENT", self.0);
    }
}
Html("<b>bold</b>")"#,
        }
    }

    fn julia() -> (s: Self)
        ensures
            s.language@ == "julia"@,
            record_for(Some(Language::Julia), s),
    {
        LanguageSnippets {
            language: "julia".to_string(),
            print_hello: r#"println("hello")"#,
            print_stderr: r#"println(stderr, "error")"#,
            simple_expr: "1 + 1",
            simple_expr_result: "2",
            incomplete_code: "function foo(",
            complete_code: "x = 1",
            syntax_error: "function function",
            input_prompt: "readline()",
            sleep_code: "sleep(2)",
            completion_var: "test_variable_for_completion",
            completion_setup: "test_variable_for_completion = 42",
            completion_prefix: "test_variable_for_",
            display_data_code: r#"display("text/html", "<b>bold</b>")"#,
            update_display_data_code: "# Julia update_display varies by environment",
            // Julia can return rich objects that render as HTML
            rich_execute_result_code: r#"HTML("<b>bold</b>")"#,
        }
    }

    fn typescript() -> (s: Self)
        ensures
            s.language@ == "typescript"@,
            record_for(Some(Language::TypeScript), s),
    {
        // Deno jupyter or tslab
        LanguageSnippets {
            language: "typescript".to_string(),
            print_hello: "console.log('hello')",
            print_stderr: "console.error('error')",
            simple_expr: "1 + 1",
            simple_expr_result: "2",
            incomplete_code: "function foo(",
            complete_code: "const x = 1",
            syntax_error: "function function",
            input_prompt: "prompt('Enter: ')",
            sleep_code: "await new Promise(r => setTimeout(r, 2000))",
            completion_var: "testVariableForCompletion",
            completion_setup: "const testVariableForCompletion = 42",
            completion_prefix: "testVariableFor",
            display_data_code: r#"await Deno.jupyter.broadcast("display_data", { data: { "text/html": "<b>bold</b>" }, metadata: {}, transient: {} })"#,
            update_display_data_code: r#"await Deno.jupyter.broadcast("display_data", { data: { "text/html": "<b>initial</b>" }, metadata: {}, transient: { display_id: "test_update" } }); await Deno.jupyter.broadcast("update_display_data", { data: { "text/html": "<b>updated</b>" }, metadata: {}, transient: { display_id: "test_update" } })"#,
            rich_execute_result_code: r#"Deno.jupyter.html("<b>bold</b>")"#,
        }
    }

    fn go() -> (s: Self)
        ensures
            s.language@ == "go"@,
            record_for(Some(Language::Go), s),
    {
        // gonb kernel - uses gonbui package for rich output
        LanguageSnippets {
            language: "go".to_string(),
            print_hello: r#"fmt.Println("hello")"#,
            print_stderr: r#"fmt.Fprintln(os.Stderr, "error")"#,
            simple_expr: "1 + 1",
            simple_expr_result: "2",
            incomplete_code: "func foo(",
            complete_code: "x := 1",
            syntax_error: "func func",
            input_prompt: r#"import "github.com/janpfeifer/gonb/gonbui"
gonbui.RequestInput("Enter: ", false)"#,
            sleep_code: "time.Sleep(2 * time.Second)",
            completion_var: "testVariableForCompletion",
            completion_setup: "testVariableForCompletion := 42",
            completion_prefix: "testVariableFor",
            display_data_code: r#"import "github.com/janpfeifer/gonb/gonbui"
gonbui.DisplayHtml("<b>bold</b>")"#,
            update_display_data_code: r#"import "github.com/janpfeifer/gonb/gonbui"
id := gonbui.UniqueId()
gonbui.UpdateHtml(id, "<b>initial</b>")
gonbui.UpdateHtml(id, "<b>updated</b>")"#,
            // Go uses display_data for rich output, not execute_result
            rich_execute_result_code: "// Go uses display_data for rich output",
        }
    }

    fn scala() -> (s: Self)
        ensures
            s.language@ == "scala"@,
            record_for(Some(Language::Scala), s),
    {
        // Almond Scala kernel
        LanguageSnippets {
            language: "scala".to_string(),
            print_hello: r#"println("hello")"#,
            print_stderr: r#"System.err.println("error")"#,
            simple_expr: "1 + 1",
            simple_expr_result: "2",
            incomplete_code: "def foo(",
            complete_code: "val x = 1",
            syntax_error: "def def",
            input_prompt: "scala.io.StdIn.readLine()",
            sleep_code: "Thread.sleep(2000)",
            completion_var: "testVariableForCompletion",
            completion_setup: "val testVariableForCompletion = 42",
            completion_prefix: "testVariableFor",
            display_data_code: r#"kernel.publish.html("<b>bold</b>")"#,
            update_display_data_code: r#"val id = java.util.UUID.randomUUID().toString; kernel.publish.html("<b>initial</b>", id); kernel.publish.updateHtml("<b>updated</b>", id)"#,
            // Almond can return HTML objects as rich execute_result
            rich_execute_result_code: r#"Html("<b>bold</b>")"#,
        }
    }

    fn cpp() -> (s: Self)
        ensures
            s.language@ == "c++"@,
            record_for(Some(Language::Cpp), s),
    {
        // xeus-cling C++ kernel - uses xcpp::display and mime_bundle_repr
        LanguageSnippets {
            language: "c++".to_string(),
            print_hello: r#"#include <iostream>
std::cout << "hello" << std::endl;"#,
            print_stderr: r#"#include <iostream>
std::cerr << "error" << std::endl;"#,
            simple_expr: "1 + 1",
            simple_expr_result: "2",
            incomplete_code: "int foo(",
            complete_code: "int x = 1;",
            syntax_error: "int int;",
            input_prompt: "// C++ kernel stdin varies",
            sleep_code: r#"#include <thread>
#include <chrono>
std::this_thread::sleep_for(std::chrono::seconds(2));"#,
            completion_var: "test_variable_for_completion",
            completion_setup: "int test_variable_for_completion = 42;",
            completion_prefix: "test_variable_for_",
            display_data_code: r#"#include <string>
#include "xcpp/xdisplay.hpp"

struct html_content {
    std::string content;
};

#include "nlohmann/json.hpp"
nlohmann::json mime_bundle_repr(const html_content& h) {
    auto bundle = nlohmann::json::object();
    bundle["text/html"] = h.content;
    return bundle;
}

html_content h{"<b>bold</b>"};
xcpp::display(h);"#,
            update_display_data_code: "// xeus-cling update_display_data requires display_id handling",
            // C++ uses display_data for rich output
            rich_execute_result_code: "// C++ uses display_data for rich output",
        }
    }

    fn sql() -> (s: Self)
        ensures
            s.language@ == "sql"@,
            record_for(Some(Language::Sql), s),
    {
        // xeus-sql kernel - SQL execution with tabular results
        LanguageSnippets {
            language: "sql".to_string(),
            print_hello: "SELECT 'hello' AS message;",
            print_stderr: "-- SQL doesn't have stderr; errors come from invalid queries",
            simple_expr: "SELECT 1 + 1 AS result;",
            simple_expr_result: "2",
            incomplete_code: "SELECT * FROM",
            complete_code: "SELECT 1;",
            syntax_error: "SELEC * FORM table;",
            input_prompt: "-- SQL kernel doesn't support stdin",
            // SQLite has no sleep; this is a workaround using recursive CTE
            sleep_code: "-- SQL sleep varies by database backend",
            completion_var: "test_table",
            completion_setup: "CREATE TABLE IF NOT EXISTS test_table (id INTEGER);",
            completion_prefix: "test_",
            // xeus-sql displays query results as tables natively
            display_data_code: "SELECT 1 AS col1, 2 AS col2, 3 AS col3;",
            update_display_data_code: "-- SQL doesn't support update_display_data",
            // SQL query results come as execute_result with text/html table
            rich_execute_result_code: "SELECT 1 AS col1, 2 AS col2, 3 AS col3;",
        }
    }

    fn lua() -> (s: Self)
        ensures
            s.language@ == "lua"@,
            record_for(Some(Language::Lua), s),
    {
        // Lua scripting language
        LanguageSnippets {
            language: "lua".to_string(),
            print_hello: "print('hello')",
            print_stderr: "io.stderr:write('error\\n')",
            simple_expr: "return 1 + 1",
            simple_expr_result: "2",
            incomplete_code: "function foo(",
            complete_code: "x = 1",
            syntax_error: "function function",
            input_prompt: "io.read()",
            sleep_code: "-- Lua sleep requires os.execute or socket",
            completion_var: "test_variable_for_completion",
            completion_setup: "test_variable_for_completion = 42",
            completion_prefix: "test_variable_for_",
            display_data_code: "ilua.display.html('<b>bold</b>')",
            update_display_data_code: "-- Lua doesn't support update_display_data",
            // Lua uses display_data for rich output
            rich_execute_result_code: "// Lua uses display_data for rich output",
        }
    }

    fn haskell() -> (s: Self)
        ensures
            s.language@ == "haskell"@,
            record_for(Some(Language::Haskell), s),
    {
        // Haskell functional language
        LanguageSnippets {
            language: "haskell".to_string(),
            print_hello: r#"putStrLn "hello""#,
            print_stderr: r#"import System.IO; hPutStrLn stderr "error""#,
            simple_expr: "1 + 1",
            simple_expr_result: "2",
            incomplete_code: "let x =",
            complete_code: "let x = 1",
            syntax_error: "let let",
            input_prompt: "-- Haskell stdin varies by kernel",
            sleep_code: "import Control.Concurrent; threadDelay 2000000",
            completion_var: "testVariableForCompletion",
            completion_setup: "let testVariableForCompletion = 42",
            completion_prefix: "testVariableFor",
            display_data_code: r#"putStrLn "no rich display""#,
            update_display_data_code: "-- Haskell doesn't support update_display_data",
            // Haskell doesn't have rich execute_result
            rich_execute_result_code: "// Haskell doesn't support rich execute_result",
        }
    }

    fn octave() -> (s: Self)
        ensures
            s.language@ == "octave"@,
            record_for(Some(Language::Octave), s),
    {
        // GNU Octave - MATLAB-compatible language
        LanguageSnippets {
            language: "octave".to_string(),
            print_hello: "disp('hello')",
            print_stderr: "fprintf(2, 'error\\n')",  // fd 2 = stderr in Octave
            simple_expr: "1 + 1",
            simple_expr_result: "ans = 2",  // Octave prefixes with "ans = "
            incomplete_code: "if true",
            complete_code: "x = 1;",
            syntax_error: "1 +",
            input_prompt: "% Octave stdin doesn't support Jupyter input protocol",
            sleep_code: "pause(2)",
            completion_var: "test_variable_for_completion",
            completion_setup: "test_variable_for_completion = 42;",
            completion_prefix: "test_variable_for_",
            display_data_code: "% Octave plot() requires display - skip in headless CI",
            update_display_data_code: "% Octave update_display varies by environment",
            // Octave uses display_data for rich output
            rich_execute_result_code: "// Octave uses display_data for rich output",
        }
    }

    fn ocaml() -> (s: Self)
        ensures
            s.language@ == "ocaml"@,
            record_for(Some(Language::OCaml), s),
    {
        // OCaml Jupyter kernel - uses Jupyter_notebook module for rich output
        LanguageSnippets {
            language: "ocaml".to_string(),
            print_hello: r#"print_endline "hello""#,
            print_stderr: r#"prerr_endline "error""#,
            simple_expr: "1 + 1",
            simple_expr_result: "2",
            incomplete_code: "let foo (",
            complete_code: "let x = 1",
            syntax_error: "let let",
            input_prompt: "read_line ()",
            sleep_code: "Unix.sleep 2",
            completion_var: "test_variable_for_completion",
            completion_setup: "let test_variable_for_completion = 42",
            completion_prefix: "test_variable_for_",
            display_data_code: r#"#require "jupyter.notebook";; Jupyter_notebook.display "text/html" "<b>bold</b>""#,
            update_display_data_code: "(* OCaml jupyter doesn't support update_display_data *)",
            // OCaml uses display_data for rich output
            rich_execute_result_code: "(* OCaml uses display_data for rich output *)",
        }
    }

    /// Generic fallback for unknown languages
    fn generic(language: &str) -> (s: Self)
        ensures
            s.language@ == language@,
            record_for(None, s),
    {
        LanguageSnippets {
            language: language.to_string(),
            print_hello: "print('hello')",
            print_stderr: "print('error')",
            simple_expr: "1 + 1",
            simple_expr_result: "2",
            incomplete_code: "(",
            complete_code: "1",
            syntax_error: "!@#$%",
            input_prompt: "input()",
            sleep_code: "// sleep not available",
            completion_var: "x",
            completion_setup: "x = 1",
            completion_prefix: "x",
            display_data_code: "1",
            update_display_data_code: "// update_display not available",
            rich_execute_result_code: "// rich execute_result not available",
        }
    }
}

} // verus!
