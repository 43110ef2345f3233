//! Which files the file tools take for text, and which paths they leave
//! out.  Patterns are matched by the crates `glob` and `regex`.

use vstd::prelude::*;
use crate::text::{
    append, chars_of, join2, join3, lowercase, lowercased, opt_text, same_text, string_of,
    strings_view,
};
use crate::tools::params::unit_view;

verus! {

/// `regex::Regex`, a compiled regular expression.  Nothing is known of a
/// value of it.
#[verifier::external_type_specification]
#[verifier::external_body]
pub struct ExRegex(regex::Regex);

/// The message with which `regex::Regex::new` refuses a source; `None`
/// for a source that it compiles.
pub uninterp spec fn regex_error(source: Seq<char>) -> Option<Seq<char>>;

/// Whether, by the crate `glob`, the path matches the pattern: what
/// `glob::Pattern::matches` says of the path where `glob::Pattern::new`
/// takes the pattern, and `None` where it refuses the pattern.  This is
/// the crate as it is built for a platform on which `/` alone parts the
/// components of a path; where `\` parts them too, the crate reads a
/// pattern or a path with that character in another way.
pub uninterp spec fn glob_match(pattern: Seq<char>, path: Seq<char>) -> Option<bool>;

/// Compiles `source` with `regex::Regex::new`: an expression, or the
/// message of the error.  Whether a source compiles, and the message where
/// it does not, depend on the source alone.
#[verifier::external_body]
pub(crate) fn compile_regex(source: &str) -> (r: Result<regex::Regex, String>)
    ensures
        r is Ok == regex_error(source@) is None,
        r matches Err(message) ==> regex_error(source@) == Some(message@),
{
    regex::Regex::new(source).map_err(|error| error.to_string())
}

/// The message with which `glob::Pattern::new` refuses a pattern; `None`
/// for a pattern that it takes.  As with [`glob_match`], this is
/// the crate on a platform on which `/` alone parts the components of a
/// path.
pub uninterp spec fn glob_error(pattern: Seq<char>) -> Option<Seq<char>>;

/// Checks `pattern` with `glob::Pattern::new`: the message of the error
/// where it is refused.  The answer depends on the pattern alone.
#[verifier::external_body]
pub(crate) fn check_glob(pattern: &str) -> (r: Option<String>)
    ensures
        opt_text(r) == glob_error(pattern@),
{
    glob::Pattern::new(pattern).err().map(|error| error.to_string())
}

/// The report of a pattern that is no glob.
pub open spec fn invalid_pattern(pattern: Seq<char>, message: Seq<char>) -> Seq<char> {
    "Invalid glob pattern '"@ + pattern + "': "@ + message
}

/// Whether a pattern is a glob: `Ok`, or the report that it is none.
pub open spec fn pattern_checked(pattern: Seq<char>) -> Result<(), Seq<char>> {
    match glob_error(pattern) {
        Some(message) => Err(invalid_pattern(pattern, message)),
        None => Ok(()),
    }
}

/// Whether `pattern` is a glob: `Ok`, or the report that it is none.
pub fn check_pattern(pattern: &str) -> (r: Result<(), String>)
    ensures
        unit_view(r) == pattern_checked(pattern@),
{
    match check_glob(pattern) {
        Some(message) => {
            let mut report = join3("Invalid glob pattern '", pattern, "': ");
            append(&mut report, message.as_str());
            Err(report)
        },
        None => Ok(()),
    }
}

/// Matches `path` against `pattern` with `glob::Pattern::new` and
/// `glob::Pattern::matches`.  The answer depends on the two texts alone.
#[verifier::external_body]
fn match_glob(pattern: &str, path: &str) -> (r: Option<bool>)
    ensures
        r == glob_match(pattern@, path@),
{
    glob::Pattern::new(pattern).ok().map(|compiled| compiled.matches(path))
}

/// Every match of the pattern in the text, in the order in which they
/// stand, by the crate `regex`: what `regex::Regex::find_iter` gives where
/// `regex::Regex::new` compiles the pattern, and `None` where it does not.
pub uninterp spec fn regex_matches(pattern: Seq<char>, text: Seq<char>) -> Option<Seq<Seq<char>>>;

/// The texts of an optional list of strings.
pub open spec fn found_view(found: Option<Vec<String>>) -> Option<Seq<Seq<char>>> {
    match found {
        Some(found) => Some(strings_view(found@)),
        None => None,
    }
}

/// Finds every match of `pattern` in `text` with `regex::Regex::new` and
/// `regex::Regex::find_iter`: the matches that do not overlap, from left
/// to right.  What is found depends on the two texts alone.
#[verifier::external_body]
pub(crate) fn find_all(pattern: &str, text: &str) -> (r: Option<Vec<String>>)
    ensures
        found_view(r) == regex_matches(pattern@, text@),
{
    regex::Regex::new(pattern).ok().map(
        |compiled| compiled.find_iter(text).map(|found| found.as_str().to_string()).collect())
}

/// Whether the pattern has a match somewhere in the text, by the crate
/// `regex`: what `regex::Regex::is_match` says of the text for the
/// expression that `regex::Regex::new` compiles the pattern to.
pub uninterp spec fn regex_match(pattern: Seq<char>, text: Seq<char>) -> bool;

/// Whether `flags` says of each of `texts` whether the pattern has a
/// match in it.
pub open spec fn flags_match(pattern: Seq<char>, texts: Seq<Seq<char>>, flags: Seq<bool>) -> bool {
    flags.len() == texts.len() && forall|i: int|
        0 <= i < texts.len() ==> flags[i] == regex_match(pattern, #[trigger] texts[i])
}

/// Compiles `pattern` with `regex::Regex::new` and asks
/// `regex::Regex::is_match` whether it has a match in `text`.  `None`
/// where the pattern does not compile.  The answer depends on the two
/// texts alone.
#[verifier::external_body]
fn has_match(pattern: &str, text: &str) -> (r: Option<bool>)
    ensures
        r is Some == regex_error(pattern@) is None,
        r matches Some(found) ==> found == regex_match(pattern@, text@),
{
    regex::Regex::new(pattern).ok().map(|compiled| compiled.is_match(text))
}

/// Of each of `texts`, in order: whether `pattern` has a match in it.
/// `None` where the pattern is no regular expression.
pub fn match_each(pattern: &str, texts: &Vec<String>) -> (r: Option<Vec<bool>>)
    ensures
        r is Some == regex_error(pattern@) is None,
        r matches Some(flags) ==> flags_match(pattern@, strings_view(texts@), flags@),
{
    match compile_regex(pattern) {
        Err(_) => { return None; },
        Ok(_) => {},
    }
    let ghost all = strings_view(texts@);
    let mut flags: Vec<bool> = Vec::new();
    let mut i: usize = 0;
    while i < texts.len()
        invariant
            i <= texts.len(),
            all == strings_view(texts@),
            regex_error(pattern@) is None,
            flags.len() == i,
            forall|k: int| 0 <= k < i ==> flags@[k] == regex_match(pattern@, #[trigger] all[k]),
        decreases texts.len() - i,
    {
        match has_match(pattern, texts[i].as_str()) {
            Some(found) => {
                flags.push(found);
            },
            None => { return None; },
        }
        i += 1;
    }
    Some(flags)
}

/// Whether a character stands for itself in a glob and has a meaning of
/// its own in a regular expression.
pub open spec fn is_regex_special(c: char) -> bool {
    c == '(' || c == ')' || c == '{' || c == '}' || c == '+' || c == '^' || c == '$' || c == '|'
        || c == '\\'
}

/// The first index at or after `from` that holds `]`, or the length of
/// `pattern` where none does.
pub open spec fn class_end(pattern: Seq<char>, from: int) -> int
    decreases pattern.len() - from,
{
    if from >= pattern.len() {
        pattern.len() as int
    } else if pattern[from] == ']' {
        from
    } else {
        class_end(pattern, from + 1)
    }
}

proof fn lemma_class_end(pattern: Seq<char>, from: int)
    requires
        0 <= from <= pattern.len(),
    ensures
        from <= class_end(pattern, from) <= pattern.len(),
        class_end(pattern, from) < pattern.len() ==> pattern[class_end(pattern, from)] == ']',
        forall|j: int| from <= j < class_end(pattern, from) ==> pattern[j] != ']',
    decreases pattern.len() - from,
{
    if from < pattern.len() && pattern[from] != ']' {
        lemma_class_end(pattern, from + 1);
    }
}

proof fn lemma_class_end_is(pattern: Seq<char>, from: int, at: int)
    requires
        0 <= from <= at <= pattern.len(),
        at < pattern.len() ==> pattern[at] == ']',
        forall|j: int| from <= j < at ==> pattern[j] != ']',
    ensures
        class_end(pattern, from) == at,
    decreases at - from,
{
    if from < at {
        lemma_class_end_is(pattern, from + 1, at);
    }
}

/// The source of the regular expression that stands for the glob
/// `pattern` from index `i` on.
///
/// `**` stands for any text, `*` for any text without a slash, `?` for one
/// character that is no slash.  A class in square brackets is taken over as
/// it is, up to its closing bracket or the end of the pattern.  A character
/// with a meaning in regular expressions is escaped.  Every other
/// character stands for itself.
pub open spec fn regex_source_from(pattern: Seq<char>, i: int) -> Seq<char>
    decreases pattern.len() - i,
    via regex_source_decreases
{
    if i < 0 || i >= pattern.len() {
        Seq::empty()
    } else if pattern[i] == '*' {
        if i + 1 < pattern.len() && pattern[i + 1] == '*' {
            ".*"@ + regex_source_from(pattern, i + 2)
        } else {
            "[^/]*"@ + regex_source_from(pattern, i + 1)
        }
    } else if pattern[i] == '?' {
        "[^/]"@ + regex_source_from(pattern, i + 1)
    } else if pattern[i] == '[' {
        let end = class_end(pattern, i + 1);
        let class = seq!['['] + pattern.subrange(i + 1, end);
        if end < pattern.len() {
            class + seq![']'] + regex_source_from(pattern, end + 1)
        } else {
            class
        }
    } else if is_regex_special(pattern[i]) {
        seq!['\\', pattern[i]] + regex_source_from(pattern, i + 1)
    } else {
        seq![pattern[i]] + regex_source_from(pattern, i + 1)
    }
}

#[via_fn]
proof fn regex_source_decreases(pattern: Seq<char>, i: int) {
    if 0 <= i < pattern.len() {
        lemma_class_end(pattern, i + 1);
    }
}

/// The source of the regular expression that stands for a glob.
pub open spec fn regex_source(pattern: Seq<char>) -> Seq<char> {
    regex_source_from(pattern, 0)
}

fn is_special(c: char) -> (r: bool)
    ensures
        r == is_regex_special(c),
{
    c == '(' || c == ')' || c == '{' || c == '}' || c == '+' || c == '^' || c == '$' || c == '|'
        || c == '\\'
}

/// The source of the regular expression that stands for the glob
/// `pattern`.
pub fn glob_to_regex_source(pattern: &str) -> (r: String)
    ensures
        r@ == regex_source(pattern@),
{
    let chars = chars_of(pattern);
    let mut out = String::new();
    let mut i: usize = 0;
    assert(out@ + regex_source_from(chars@, 0) =~= regex_source(pattern@));
    while i < chars.len()
        invariant
            i <= chars.len(),
            chars@ == pattern@,
            out@ + regex_source_from(chars@, i as int) == regex_source(pattern@),
        decreases chars.len() - i,
    {
        let ghost before = out@;
        let ghost rest = regex_source_from(chars@, i as int);
        let c = chars[i];
        if c == '*' {
            if chars.len() - i > 1 && chars[i + 1] == '*' {
                append(&mut out, ".*");
                i += 2;
                assert(before + (".*"@ + regex_source_from(chars@, i as int)) =~= (before + ".*"@)
                    + regex_source_from(chars@, i as int));
            } else {
                append(&mut out, "[^/]*");
                i += 1;
                assert(before + ("[^/]*"@ + regex_source_from(chars@, i as int)) =~= (before
                    + "[^/]*"@) + regex_source_from(chars@, i as int));
            }
        } else if c == '?' {
            append(&mut out, "[^/]");
            i += 1;
            assert(before + ("[^/]"@ + regex_source_from(chars@, i as int)) =~= (before + "[^/]"@)
                + regex_source_from(chars@, i as int));
        } else if c == '[' {
            out.push('[');
            let start: usize = i + 1;
            let mut end: usize = start;
            while end < chars.len() && chars[end] != ']'
                invariant
                    start <= end <= chars.len(),
                    out@ == before.push('[') + chars@.subrange(start as int, end as int),
                    forall|j: int| start <= j < end ==> chars@[j] != ']',
                decreases chars.len() - end,
            {
                out.push(chars[end]);
                end += 1;
            }
            proof {
                lemma_class_end_is(chars@, start as int, end as int);
            }
            let ghost class = seq!['['] + chars@.subrange(start as int, end as int);
            assert(out@ =~= before + class);
            if end < chars.len() {
                out.push(']');
                i = end + 1;
                assert(before + (class + seq![']'] + regex_source_from(chars@, i as int)) =~= (
                before + class).push(']') + regex_source_from(chars@, i as int));
            } else {
                i = end;
                assert(regex_source_from(chars@, i as int) =~= Seq::<char>::empty());
                assert(before + class =~= (before + class) + Seq::<char>::empty());
            }
        } else if is_special(c) {
            out.push('\\');
            out.push(c);
            i += 1;
            assert(before + (seq!['\\', c] + regex_source_from(chars@, i as int)) =~= before.push(
                '\\',
            ).push(c) + regex_source_from(chars@, i as int));
        } else {
            out.push(c);
            i += 1;
            assert(before + (seq![c] + regex_source_from(chars@, i as int)) =~= before.push(c)
                + regex_source_from(chars@, i as int));
        }
    }
    assert(out@ + Seq::<char>::empty() =~= out@);
    out
}

/// The regular expression that stands for the glob `pattern`, or the
/// report that its source is refused.
pub fn glob_to_regex(pattern: &str) -> (r: Result<regex::Regex, String>)
    ensures
        r is Ok == regex_error(regex_source(pattern@)) is None,
        r matches Err(message) ==> regex_error(regex_source(pattern@)) matches Some(reason)
            && message@ == "Invalid regex pattern: "@ + reason,
{
    let source = glob_to_regex_source(pattern);
    match compile_regex(source.as_str()) {
        Ok(expression) => Ok(expression),
        Err(reason) => Err(join2("Invalid regex pattern: ", reason.as_str())),
    }
}

/// Whether one of the patterns matches the path.  A pattern that is no
/// glob matches nothing.
pub open spec fn any_matches(patterns: Seq<Seq<char>>, path: Seq<char>) -> bool {
    exists|i: int| 0 <= i < patterns.len() && glob_match(#[trigger] patterns[i], path) == Some(true)
}

/// Whether one of the patterns matches the path.
pub fn matches_any(path: &str, patterns: &Vec<String>) -> (r: bool)
    ensures
        r == any_matches(strings_view(patterns@), path@),
{
    let ghost all = strings_view(patterns@);
    let mut i: usize = 0;
    while i < patterns.len()
        invariant
            i <= patterns.len(),
            all == strings_view(patterns@),
            forall|j: int| 0 <= j < i ==> glob_match(#[trigger] all[j], path@) != Some(true),
        decreases patterns.len() - i,
    {
        match match_glob(patterns[i].as_str(), path) {
            Some(true) => {
                assert(glob_match(all[i as int], path@) == Some(true));
                return true;
            },
            _ => {},
        }
        i += 1;
    }
    false
}

/// Whether a file with this extension, given in lowercase, holds text.
pub open spec fn is_text_extension(extension: Seq<char>) -> bool {
    extension == "txt"@
        || extension == "md"@
        || extension == "rs"@
        || extension == "py"@
        || extension == "js"@
        || extension == "ts"@
        || extension == "html"@
        || extension == "css"@
        || extension == "json"@
        || extension == "xml"@
        || extension == "yaml"@
        || extension == "yml"@
        || extension == "toml"@
        || extension == "cfg"@
        || extension == "ini"@
        || extension == "log"@
        || extension == "csv"@
        || extension == "sql"@
        || extension == "sh"@
        || extension == "bat"@
        || extension == "ps1"@
        || extension == "dockerfile"@
        || extension == "gitignore"@
        || extension == "gitattributes"@
        || extension == "editorconfig"@
        || extension == "env"@
        || extension == "properties"@
        || extension == "conf"@
        || extension == "config"@
        || extension == "makefile"@
        || extension == "cmake"@
        || extension == "gradle"@
        || extension == "pom"@
        || extension == "package"@
        || extension == "lock"@
        || extension == "sum"@
        || extension == "mod"@
        || extension == "go"@
        || extension == "java"@
        || extension == "c"@
        || extension == "cpp"@
        || extension == "h"@
        || extension == "hpp"@
        || extension == "cs"@
        || extension == "php"@
        || extension == "rb"@
        || extension == "swift"@
        || extension == "kt"@
        || extension == "scala"@
        || extension == "clj"@
        || extension == "hs"@
        || extension == "elm"@
        || extension == "dart"@
        || extension == "vue"@
        || extension == "jsx"@
        || extension == "tsx"@
        || extension == "svelte"@
        || extension == "astro"@
        || extension == "scss"@
        || extension == "sass"@
        || extension == "less"@
        || extension == "styl"@
}

/// Whether a file of this name, given in lowercase, holds text though
/// the name has no extension.
pub open spec fn is_text_name(name: Seq<char>) -> bool {
    name == "readme"@
        || name == "license"@
        || name == "changelog"@
        || name == "makefile"@
        || name == "dockerfile"@
        || name == "gemfile"@
        || name == "rakefile"@
        || name == "procfile"@
        || name == "cmakelists.txt"@
}

/// The name of the file that a path leads to: what follows its last
/// slash.
pub open spec fn file_name(path: Seq<char>) -> Seq<char>
    decreases path.len(),
{
    if path.len() == 0 || path.last() == '/' {
        Seq::empty()
    } else {
        file_name(path.drop_last()).push(path.last())
    }
}

/// The index of the last dot of a name, or -1 where it has none.
pub open spec fn last_dot(name: Seq<char>) -> int
    decreases name.len(),
{
    if name.len() == 0 {
        -1
    } else if name.last() == '.' {
        name.len() - 1
    } else {
        last_dot(name.drop_last())
    }
}

/// The extension of a file name: what follows its last dot, unless the
/// name has no dot or begins with its only dot.
pub open spec fn extension(name: Seq<char>) -> Option<Seq<char>> {
    let dot = last_dot(name);
    if dot <= 0 {
        None
    } else {
        Some(name.subrange(dot + 1, name.len() as int))
    }
}

/// Whether the file that a path leads to holds text, going by its
/// extension, whatever its case, or by its name where it has no extension.
pub open spec fn is_text_path(path: Seq<char>) -> bool {
    match extension(file_name(path)) {
        Some(found) => is_text_extension(lowercased(found)),
        None => is_text_name(lowercased(file_name(path))),
    }
}

fn text_extension(lower: &String) -> (r: bool)
    ensures
        r == is_text_extension(lower@),
{
    same_text(lower.as_str(), "txt")
        || same_text(lower.as_str(), "md")
        || same_text(lower.as_str(), "rs")
        || same_text(lower.as_str(), "py")
        || same_text(lower.as_str(), "js")
        || same_text(lower.as_str(), "ts")
        || same_text(lower.as_str(), "html")
        || same_text(lower.as_str(), "css")
        || same_text(lower.as_str(), "json")
        || same_text(lower.as_str(), "xml")
        || same_text(lower.as_str(), "yaml")
        || same_text(lower.as_str(), "yml")
        || same_text(lower.as_str(), "toml")
        || same_text(lower.as_str(), "cfg")
        || same_text(lower.as_str(), "ini")
        || same_text(lower.as_str(), "log")
        || same_text(lower.as_str(), "csv")
        || same_text(lower.as_str(), "sql")
        || same_text(lower.as_str(), "sh")
        || same_text(lower.as_str(), "bat")
        || same_text(lower.as_str(), "ps1")
        || same_text(lower.as_str(), "dockerfile")
        || same_text(lower.as_str(), "gitignore")
        || same_text(lower.as_str(), "gitattributes")
        || same_text(lower.as_str(), "editorconfig")
        || same_text(lower.as_str(), "env")
        || same_text(lower.as_str(), "properties")
        || same_text(lower.as_str(), "conf")
        || same_text(lower.as_str(), "config")
        || same_text(lower.as_str(), "makefile")
        || same_text(lower.as_str(), "cmake")
        || same_text(lower.as_str(), "gradle")
        || same_text(lower.as_str(), "pom")
        || same_text(lower.as_str(), "package")
        || same_text(lower.as_str(), "lock")
        || same_text(lower.as_str(), "sum")
        || same_text(lower.as_str(), "mod")
        || same_text(lower.as_str(), "go")
        || same_text(lower.as_str(), "java")
        || same_text(lower.as_str(), "c")
        || same_text(lower.as_str(), "cpp")
        || same_text(lower.as_str(), "h")
        || same_text(lower.as_str(), "hpp")
        || same_text(lower.as_str(), "cs")
        || same_text(lower.as_str(), "php")
        || same_text(lower.as_str(), "rb")
        || same_text(lower.as_str(), "swift")
        || same_text(lower.as_str(), "kt")
        || same_text(lower.as_str(), "scala")
        || same_text(lower.as_str(), "clj")
        || same_text(lower.as_str(), "hs")
        || same_text(lower.as_str(), "elm")
        || same_text(lower.as_str(), "dart")
        || same_text(lower.as_str(), "vue")
        || same_text(lower.as_str(), "jsx")
        || same_text(lower.as_str(), "tsx")
        || same_text(lower.as_str(), "svelte")
        || same_text(lower.as_str(), "astro")
        || same_text(lower.as_str(), "scss")
        || same_text(lower.as_str(), "sass")
        || same_text(lower.as_str(), "less")
        || same_text(lower.as_str(), "styl")
}

fn text_name(lower: &String) -> (r: bool)
    ensures
        r == is_text_name(lower@),
{
    same_text(lower.as_str(), "readme")
        || same_text(lower.as_str(), "license")
        || same_text(lower.as_str(), "changelog")
        || same_text(lower.as_str(), "makefile")
        || same_text(lower.as_str(), "dockerfile")
        || same_text(lower.as_str(), "gemfile")
        || same_text(lower.as_str(), "rakefile")
        || same_text(lower.as_str(), "procfile")
        || same_text(lower.as_str(), "cmakelists.txt")
}

/// The name of the file that a path leads to.
pub fn file_name_of(path: &str) -> (r: String)
    ensures
        r@ == file_name(path@),
{
    let chars = chars_of(path);
    let mut start: usize = chars.len();
    assert(chars@.subrange(start as int, chars.len() as int) =~= Seq::<char>::empty());
    assert(chars@.take(start as int) =~= chars@);
    while start > 0 && chars[start - 1] != '/'
        invariant
            start <= chars.len(),
            chars@ == path@,
            file_name(chars@) == file_name(chars@.take(start as int)) + chars@.subrange(
                start as int,
                chars.len() as int,
            ),
        decreases start,
    {
        proof {
            let head = chars@.take(start as int);
            assert(head.drop_last() =~= chars@.take(start - 1));
            assert(file_name(head) == file_name(chars@.take(start - 1)).push(chars@[start - 1]));
            assert(file_name(chars@.take(start - 1)).push(chars@[start - 1]) + chars@.subrange(
                start as int,
                chars.len() as int,
            ) =~= file_name(chars@.take(start - 1)) + chars@.subrange(
                start - 1,
                chars.len() as int,
            ));
        }
        start -= 1;
    }
    proof {
        let head = chars@.take(start as int);
        assert(file_name(head) =~= Seq::<char>::empty());
        assert(Seq::<char>::empty() + chars@.subrange(start as int, chars.len() as int)
            =~= chars@.subrange(start as int, chars.len() as int));
    }
    let mut name: Vec<char> = Vec::new();
    let mut i: usize = start;
    while i < chars.len()
        invariant
            start <= i <= chars.len(),
            name@ == chars@.subrange(start as int, i as int),
        decreases chars.len() - i,
    {
        name.push(chars[i]);
        i += 1;
    }
    string_of(&name)
}

/// The extension of a file name.
pub fn extension_of(name: &str) -> (r: Option<String>)
    ensures
        crate::text::opt_text(r) == extension(name@),
{
    let chars = chars_of(name);
    let mut at: usize = chars.len();
    assert(chars@.take(at as int) =~= chars@);
    while at > 0 && chars[at - 1] != '.'
        invariant
            at <= chars.len(),
            chars@ == name@,
            last_dot(chars@) == last_dot(chars@.take(at as int)),
        decreases at,
    {
        proof {
            assert(chars@.take(at as int).drop_last() =~= chars@.take(at - 1));
        }
        at -= 1;
    }
    proof {
        let head = chars@.take(at as int);
        if at > 0 {
            assert(head.last() == '.');
            assert(last_dot(head) == at - 1);
        } else {
            assert(last_dot(head) == -1);
        }
    }
    if at <= 1 {
        return None;
    }
    let mut found: Vec<char> = Vec::new();
    let mut i: usize = at;
    while i < chars.len()
        invariant
            at <= i <= chars.len(),
            found@ == chars@.subrange(at as int, i as int),
        decreases chars.len() - i,
    {
        found.push(chars[i]);
        i += 1;
    }
    Some(string_of(&found))
}

/// Whether the file that a path leads to holds text.
pub fn is_text_file(path: &str) -> (r: bool)
    ensures
        r == is_text_path(path@),
{
    let name = file_name_of(path);
    match extension_of(name.as_str()) {
        Some(found) => {
            let lower = lowercase(found.as_str());
            text_extension(&lower)
        },
        None => {
            let lower = lowercase(name.as_str());
            text_name(&lower)
        },
    }
}

} // verus!
