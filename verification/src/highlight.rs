//! Syntax highlighting of code, by the syntaxes and themes that the
//! highlighter brings along.

use crate::content::ContentError;
use syntect::highlighting::ThemeSet;
use syntect::parsing::SyntaxSet;
use vstd::prelude::*;

verus! {

/// The theme that code is highlighted in.
pub const HIGHLIGHT_THEME: &'static str = "base16-ocean.dark";

/// The syntax that code in an unknown language is highlighted by.
pub const PLAIN_TEXT: &'static str = "Plain Text";

/// Why code is not highlighted when the syntax or the theme is not there.
pub const NOT_FOUND: &'static str = "no such syntax or theme";

/// `syntect::parsing::SyntaxSet`, a set of syntaxes. What it holds is spoken
/// of through `extension_syntax` and `named_syntax`.
#[verifier::external_type_specification]
#[verifier::external_body]
pub struct ExSyntaxSet(syntect::parsing::SyntaxSet);

/// `syntect::highlighting::ThemeSet`, a set of themes; it is carried through
/// to the highlighter.
#[verifier::external_type_specification]
#[verifier::external_body]
pub struct ExThemeSet(syntect::highlighting::ThemeSet);

/// The name of the syntax that the set holds for a file extension.
pub uninterp spec fn extension_syntax(syntaxes: SyntaxSet, extension: Seq<char>) -> Option<
    Seq<char>,
>;

/// The name of the syntax that the set holds under a name.
pub uninterp spec fn named_syntax(syntaxes: SyntaxSet, name: Seq<char>) -> Option<Seq<char>>;

/// What the highlighter makes of `code` by the syntax of the set that is
/// named `syntax`, in the theme that is named `theme`: nothing where the
/// syntax or the theme is not there, else the HTML or the text of its error.
pub uninterp spec fn highlighted(
    syntaxes: SyntaxSet,
    themes: ThemeSet,
    code: Seq<char>,
    syntax: Seq<char>,
    theme: Seq<char>,
) -> Option<Result<Seq<char>, Seq<char>>>;

/// A name that was found or not, as a mathematical value.
pub open spec fn name_view(found: Option<String>) -> Option<Seq<char>> {
    match found {
        Some(name) => Some(name@),
        None => None,
    }
}

/// The outcome of a highlighting, as a mathematical value.
pub open spec fn outcome_view(made: Option<Result<String, String>>) -> Option<
    Result<Seq<char>, Seq<char>>,
> {
    match made {
        Some(Ok(html)) => Some(Ok(html@)),
        Some(Err(reason)) => Some(Err(reason@)),
        None => None,
    }
}

/// Calls `syntect::parsing::SyntaxSet::load_defaults_newlines`: the syntaxes
/// that the highlighter brings along. Nothing is claimed of them.
#[verifier::external_body]
fn default_syntaxes() -> SyntaxSet {
    SyntaxSet::load_defaults_newlines()
}

/// Calls `syntect::highlighting::ThemeSet::load_defaults`: the themes that
/// the highlighter brings along. Nothing is claimed of them.
#[verifier::external_body]
fn default_themes() -> ThemeSet {
    ThemeSet::load_defaults()
}

/// Calls `SyntaxSet::find_syntax_by_extension` and takes the name of the
/// syntax that it finds. The name is a function of the set and the extension.
#[verifier::external_body]
fn find_by_extension(syntaxes: &SyntaxSet, extension: &str) -> (found: Option<String>)
    ensures
        name_view(found) == extension_syntax(*syntaxes, extension@),
{
    syntaxes.find_syntax_by_extension(extension).map(|syntax| syntax.name.clone())
}

/// Calls `SyntaxSet::find_syntax_by_name` and takes the name of the syntax
/// that it finds. The name is a function of the set and the name asked for.
#[verifier::external_body]
fn find_by_name(syntaxes: &SyntaxSet, name: &str) -> (found: Option<String>)
    ensures
        name_view(found) == named_syntax(*syntaxes, name@),
{
    syntaxes.find_syntax_by_name(name).map(|syntax| syntax.name.clone())
}

/// Finds the syntax again with `SyntaxSet::find_syntax_by_name`, looks the
/// theme up in the themes of the `ThemeSet`, and calls
/// `syntect::html::highlighted_html_for_string`; it takes the text of the
/// error where that fails. The outcome is a function of the two sets, the
/// code and the two names.
#[verifier::external_body]
fn highlight_as(
    syntaxes: &SyntaxSet,
    themes: &ThemeSet,
    code: &str,
    syntax: &str,
    theme: &str,
) -> (made: Option<Result<String, String>>)
    ensures
        outcome_view(made) == highlighted(*syntaxes, *themes, code@, syntax@, theme@),
{
    let syntax = syntaxes.find_syntax_by_name(syntax)?;
    let theme = themes.themes.get(theme)?;
    let made = syntect::html::highlighted_html_for_string(code, syntaxes, syntax, theme);
    Some(made.map_err(|error| error.to_string()))
}

/// Which of the choices is taken: the first that is there.
pub fn first_of<T>(first: Option<T>, second: Option<T>, last: Option<T>) -> (taken: Option<T>)
    ensures
        taken == if first is Some {
            first
        } else if second is Some {
            second
        } else {
            last
        },
{
    match first {
        Some(choice) => Some(choice),
        None => match second {
            Some(choice) => Some(choice),
            None => last,
        },
    }
}

/// The syntax that code in `language` is highlighted by: the one that has
/// `language` as a file extension; failing that, the one that is named so;
/// failing that, plain text.
pub open spec fn chosen_syntax(syntaxes: SyntaxSet, language: Seq<char>) -> Option<Seq<char>> {
    if extension_syntax(syntaxes, language) is Some {
        extension_syntax(syntaxes, language)
    } else if named_syntax(syntaxes, language) is Some {
        named_syntax(syntaxes, language)
    } else {
        named_syntax(syntaxes, PLAIN_TEXT@)
    }
}

/// What highlighting `code` in `language` comes to: the HTML that the
/// highlighter makes by the chosen syntax in the highlighting theme, or the
/// reason why there is none.
pub open spec fn highlight_of(
    syntaxes: SyntaxSet,
    themes: ThemeSet,
    code: Seq<char>,
    language: Seq<char>,
) -> Result<Seq<char>, Seq<char>> {
    match chosen_syntax(syntaxes, language) {
        None => Err(NOT_FOUND@),
        Some(syntax) => match highlighted(syntaxes, themes, code, syntax, HIGHLIGHT_THEME@) {
            None => Err(NOT_FOUND@),
            Some(outcome) => outcome,
        },
    }
}

/// Whether `made` is what the highlighting `expected` comes to: the same
/// HTML, or a highlighting error with the same reason.
pub open spec fn agrees(made: Result<String, ContentError>, expected: Result<Seq<char>, Seq<char>>) -> bool {
    match expected {
        Ok(html) => made matches Ok(kept) && kept@ == html,
        Err(reason) => made matches Err(ContentError::Highlight { reason: told }) && told@
            == reason,
    }
}

/// What a highlighting comes to: the HTML, or the reason of the failure as a
/// content error; and where the syntax or the theme was not there, that as
/// the reason.
pub fn highlight_outcome(outcome: Option<Result<String, String>>) -> (made: Result<
    String,
    ContentError,
>)
    ensures
        agrees(
            made,
            match outcome_view(outcome) {
                Some(known) => known,
                None => Err(NOT_FOUND@),
            },
        ),
{
    match outcome {
        Some(Ok(html)) => Ok(html),
        Some(Err(reason)) => Err(ContentError::Highlight { reason }),
        None => Err(ContentError::Highlight { reason: NOT_FOUND.to_owned() }),
    }
}

/// The code as highlighted HTML, by the syntaxes and themes given.
///
/// The syntax is the one that has `language` as a file extension; failing
/// that, the one that has it as its name; failing that, plain text. The
/// highlighter is handed the name of the syntax chosen, so where a set holds
/// two syntaxes of one name, the one that it finds under that name
/// highlights. The theme is `base16-ocean.dark`. Every failure is a
/// `ContentError::Highlight`.
pub fn highlight_with(syntaxes: &SyntaxSet, themes: &ThemeSet, code: &str, language: &str) -> (made:
    Result<String, ContentError>)
    ensures
        agrees(made, highlight_of(*syntaxes, *themes, code@, language@)),
{
    let chosen = first_of(
        find_by_extension(syntaxes, language),
        find_by_name(syntaxes, language),
        find_by_name(syntaxes, PLAIN_TEXT),
    );
    match chosen {
        Some(syntax) => highlight_outcome(
            highlight_as(syntaxes, themes, code, syntax.as_str(), HIGHLIGHT_THEME),
        ),
        None => highlight_outcome(None),
    }
}

/// The code as highlighted HTML, by the syntaxes and themes that the
/// highlighter brings along.
///
/// The syntax is the one that has `language` as a file extension; failing
/// that, the one that has it as its name; failing that, plain text. The theme
/// is `base16-ocean.dark`. Every failure is a `ContentError::Highlight`.
pub fn highlight_code(code: &str, language: &str) -> (made: Result<String, ContentError>)
    ensures
        exists|syntaxes: SyntaxSet, themes: ThemeSet|
            agrees(made, #[trigger] highlight_of(syntaxes, themes, code@, language@)),
{
    let syntaxes = default_syntaxes();
    let themes = default_themes();
    let made = highlight_with(&syntaxes, &themes, code, language);
    assert(agrees(made, highlight_of(syntaxes, themes, code@, language@)));
    made
}

} // verus!
