//! Which of the files under the source root are searched: those with a
//! wanted extension that no ignore rule excludes and that do not lie below a
//! `node_modules` directory.

use vstd::prelude::*;
use crate::text::{chars_of, lowercase, texts, to_lowercase};

verus! {

/// Whether the regular expression `pattern` matches somewhere in `text`;
/// `None` where `pattern` is no regular expression that `regex` compiles.
pub uninterp spec fn regex_match(pattern: Seq<char>, text: Seq<char>) -> Option<bool>;

/// `regex::Regex::new`, then `Regex::is_match` on what it built: the
/// expression is compiled under the crate's default limits and searched for
/// anywhere in `text`. A pattern that does not compile gives `None`.
///
/// Taken on trust: the outcome depends on the two texts alone. Which
/// patterns compile and what they match is not stated here; `regex_match`
/// only names it.
#[verifier::external_body]
pub(crate) fn regex_is_match(pattern: &str, text: &str) -> (found: Option<bool>)
    ensures
        found == regex_match(pattern@, text@),
{
    match regex::Regex::new(pattern) {
        Ok(re) => Some(re.is_match(text)),
        Err(_) => None,
    }
}

/// What one character of a glob pattern becomes in the regular expression:
/// `!` is dropped, `.` stands for itself, `*` for any run of characters.
pub open spec fn glob_char(c: char) -> Seq<char> {
    if c == '!' {
        Seq::empty()
    } else if c == '.' {
        seq!['\\', '.']
    } else if c == '*' {
        seq!['.', '*']
    } else {
        seq![c]
    }
}

/// The first `n` characters of a glob pattern as a regular expression.
pub open spec fn glob_body(pattern: Seq<char>, n: nat) -> Seq<char>
    decreases n,
{
    if n == 0 || n > pattern.len() {
        Seq::empty()
    } else {
        glob_body(pattern, (n - 1) as nat) + glob_char(pattern[n - 1])
    }
}

/// The regular expression of a glob pattern, anchored at both ends.
pub open spec fn glob_regex(pattern: Seq<char>) -> Seq<char> {
    seq!['^'] + glob_body(pattern, pattern.len()) + seq!['$']
}

/// The source of the anchored regular expression that a glob pattern stands
/// for.
pub fn pattern_to_regex(pattern: &str) -> (source: String)
    ensures
        source@ == glob_regex(pattern@),
{
    let chars = chars_of(pattern);
    let mut source = String::new();
    source.push('^');
    let mut i: usize = 0;
    while i < chars.len()
        invariant
            i <= chars.len(),
            chars@ == pattern@,
            source@ == seq!['^'] + glob_body(pattern@, i as nat),
        decreases chars.len() - i,
    {
        let c = chars[i];
        if c == '!' {
        } else if c == '.' {
            source.push('\\');
            source.push('.');
        } else if c == '*' {
            source.push('.');
            source.push('*');
        } else {
            source.push(c);
        }
        assert(source@ =~= seq!['^'] + glob_body(pattern@, (i + 1) as nat));
        i += 1;
    }
    source.push('$');
    source
}

/// One ignore pattern: the source of its regular expression, and whether
/// the pattern began with `!`. A plain rule excludes the paths that it
/// matches; a negated rule excludes the paths that it does not match.
#[derive(Debug, Clone, PartialEq, Eq)]
pub struct IgnoreRule {
    pub source: String,
    pub negated: bool,
}

/// Whether a glob pattern begins with `!`.
pub open spec fn is_negated(pattern: Seq<char>) -> bool {
    pattern.len() > 0 && pattern[0] == '!'
}

impl IgnoreRule {
    /// The rule that a glob pattern stands for.
    pub fn new(pattern: &str) -> (rule: IgnoreRule)
        ensures
            rule.source@ == glob_regex(pattern@),
            rule.negated == is_negated(pattern@),
    {
        let chars = chars_of(pattern);
        let negated = chars.len() > 0 && chars[0] == '!';
        IgnoreRule { source: pattern_to_regex(pattern), negated }
    }

    /// Whether the rule excludes `path`. A rule whose expression does not
    /// compile excludes nothing.
    pub open spec fn ignores(self, path: Seq<char>) -> bool {
        match regex_match(self.source@, path) {
            Some(found) => if self.negated {
                !found
            } else {
                found
            },
            None => false,
        }
    }

    /// Whether the expression of the rule compiles.
    pub open spec fn compiles(self) -> bool {
        regex_match(self.source@, Seq::empty()) is Some
    }
}

/// Whether the characters of `path` from `start` on are the segment `name`:
/// they spell it, and a separator or an end of the path stands on each side.
pub open spec fn is_segment(path: Seq<char>, name: Seq<char>, separator: char, start: int) -> bool {
    &&& 0 <= start
    &&& start + name.len() <= path.len()
    &&& start == 0 || path[start - 1] == separator
    &&& start + name.len() == path.len() || path[start + name.len()] == separator
    &&& path.subrange(start, start + name.len()) == name
}

/// Whether one of the segments of `path` is `name`.
pub open spec fn has_segment(path: Seq<char>, name: Seq<char>, separator: char) -> bool {
    exists|start: int| is_segment(path, name, separator, start)
}

/// Whether a path is searched.
pub open spec fn valid_path(
    path: Seq<char>,
    extension: Option<Seq<char>>,
    rules: Seq<IgnoreRule>,
    extensions: Seq<String>,
    separator: char,
) -> bool {
    &&& !has_segment(path, "node_modules"@, separator)
    &&& forall|i: int| 0 <= i < rules.len() ==> !(#[trigger] rules[i]).ignores(path)
    &&& extension matches Some(ext)
    &&& texts(extensions).contains(lowercase(ext))
}

fn segment_at(path: &Vec<char>, name: &Vec<char>, separator: char, start: usize) -> (found: bool)
    requires
        start <= path.len(),
    ensures
        found == is_segment(path@, name@, separator, start as int),
{
    if name.len() > path.len() - start {
        return false;
    }
    if start > 0 && path[start - 1] != separator {
        return false;
    }
    let end = start + name.len();
    if end < path.len() && path[end] != separator {
        return false;
    }
    let mut k: usize = 0;
    while k < name.len()
        invariant
            k <= name.len(),
            start + name.len() <= path.len(),
            forall|j: int| 0 <= j < k ==> path@[start + j] == name@[j],
        decreases name.len() - k,
    {
        if path[start + k] != name[k] {
            assert(path@.subrange(start as int, start + name.len())[k as int] != name@[k as int]);
            return false;
        }
        k += 1;
    }
    assert(path@.subrange(start as int, start + name.len()) =~= name@);
    true
}

fn contains_segment(path: &Vec<char>, name: &Vec<char>, separator: char) -> (found: bool)
    ensures
        found == has_segment(path@, name@, separator),
{
    let mut start: usize = 0;
    while start < path.len()
        invariant
            start <= path.len(),
            forall|earlier: int| 0 <= earlier < start ==> !is_segment(
                path@,
                name@,
                separator,
                earlier,
            ),
        decreases path.len() - start,
    {
        if segment_at(path, name, separator, start) {
            return true;
        }
        start += 1;
    }
    segment_at(path, name, separator, start)
}

fn excluded(path: &str, ignore_regexes: &[IgnoreRule]) -> (found: bool)
    ensures
        found == exists|i: int|
            0 <= i < ignore_regexes@.len() && (#[trigger] ignore_regexes@[i]).ignores(path@),
{
    let mut i: usize = 0;
    while i < ignore_regexes.len()
        invariant
            i <= ignore_regexes.len(),
            forall|k: int| 0 <= k < i ==> !(#[trigger] ignore_regexes@[k]).ignores(path@),
        decreases ignore_regexes.len() - i,
    {
        let rule = &ignore_regexes[i];
        let ignored = match regex_is_match(rule.source.as_str(), path) {
            Some(found) => if rule.negated {
                !found
            } else {
                found
            },
            None => false,
        };
        if ignored {
            return true;
        }
        i += 1;
    }
    false
}

fn wanted_extension(extension: &str, extensions: &[String]) -> (found: bool)
    ensures
        found == texts(extensions@).contains(lowercase(extension@)),
{
    let lower = to_lowercase(extension);
    let mut i: usize = 0;
    while i < extensions.len()
        invariant
            i <= extensions.len(),
            lower@ == lowercase(extension@),
            forall|k: int| 0 <= k < i ==> texts(extensions@)[k] != lower@,
        decreases extensions.len() - i,
    {
        if extensions[i] == lower {
            assert(texts(extensions@)[i as int] == lower@);
            return true;
        }
        i += 1;
    }
    false
}

/// Whether the file at `entry_path` is searched: no segment of the path is
/// `node_modules`, no ignore rule excludes it, and its extension, in lower
/// case, is one of `extensions`.
pub fn is_valid_path(
    entry_path: &str,
    extension: Option<&str>,
    ignore_regexes: &[IgnoreRule],
    extensions: &[String],
    separator: char,
) -> (valid: bool)
    ensures
        valid == valid_path(
            entry_path@,
            match extension {
                Some(ext) => Some(ext@),
                None => None,
            },
            ignore_regexes@,
            extensions@,
            separator,
        ),
{
    let path = chars_of(entry_path);
    let name = chars_of("node_modules");
    if contains_segment(&path, &name, separator) {
        return false;
    }
    if excluded(entry_path, ignore_regexes) {
        return false;
    }
    match extension {
        Some(ext) => wanted_extension(ext, extensions),
        None => false,
    }
}

/// A file that the walk of the source root came upon: its path, and the
/// extension of its name if it has one.
#[derive(Debug, Clone, PartialEq, Eq)]
pub struct FoundFile {
    pub path: String,
    pub extension: Option<String>,
}

/// The paths of the first `n` files of `found` that are searched, in order.
pub open spec fn kept_paths(
    found: Seq<FoundFile>,
    n: nat,
    extensions: Seq<String>,
    rules: Seq<IgnoreRule>,
    separator: char,
) -> Seq<Seq<char>>
    decreases n,
{
    if n == 0 || n > found.len() {
        Seq::empty()
    } else {
        let file = found[n - 1];
        let extension = match file.extension {
            Some(ext) => Some(ext@),
            None => None,
        };
        kept_paths(found, (n - 1) as nat, extensions, rules, separator) + (if valid_path(
            file.path@,
            extension,
            rules,
            extensions,
            separator,
        ) {
            seq![file.path@]
        } else {
            Seq::empty()
        })
    }
}

/// The files to search among those that the walk of the source root found,
/// in the order of the walk.
pub fn scan_folder(
    found: &[FoundFile],
    extensions: &[String],
    ignore_regexes: &[IgnoreRule],
    separator: char,
) -> (files: Vec<String>)
    ensures
        texts(files@) == kept_paths(
            found@,
            found@.len(),
            extensions@,
            ignore_regexes@,
            separator,
        ),
{
    let mut files: Vec<String> = Vec::new();
    let mut i: usize = 0;
    while i < found.len()
        invariant
            i <= found.len(),
            texts(files@) == kept_paths(
                found@,
                i as nat,
                extensions@,
                ignore_regexes@,
                separator,
            ),
        decreases found.len() - i,
    {
        let file = &found[i];
        let valid = match &file.extension {
            Some(ext) => is_valid_path(
                file.path.as_str(),
                Some(ext.as_str()),
                ignore_regexes,
                extensions,
                separator,
            ),
            None => is_valid_path(file.path.as_str(), None, ignore_regexes, extensions, separator),
        };
        if valid {
            let ghost before = files@;
            files.push(file.path.clone());
            assert(texts(files@) =~= texts(before).push(file.path@));
        }
        i += 1;
    }
    files
}

} // verus!
