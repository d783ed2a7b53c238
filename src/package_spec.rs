//! The dependency specifier grammar.
//!
//! ```text
//! package-spec := alias | [ "file:" ] path | [ "npm:" ] npm-body
//! alias        := name "@" ( "npm:" | "file:" ) ...   (the rest parses as a package-spec)
//! path         := "/" ... | "." ... | "~/" ...         (the rest of the input)
//! npm-body     := name [ "@" requirement ] | range
//! name         := letter name-char* | "@" name-char+ "/" name-char+
//! name-char    := letter | digit | "-" | "." | "_" | "~"
//! requirement  := range | tag
//! range        := ( digit | "^" | "~" | "<" | ">" | "=" | "*" ) range-char*
//! tag          := letter ( letter | digit | "-" | "." | "_" )*
//! ```
//!
//! The prefixes are matched without regard to case. The alternatives are tried in order and
//! the first that matches the whole input wins. A bare name starts with a letter or `@`, a
//! bare path with `/`, `.` or `~/`, and a bare range with a digit or an operator, so that the
//! unprefixed forms never overlap. A name without a requirement asks for the tag `latest`.
use crate::diagnostics::{
    Classification, Classified, Diagnostic, DiagnosticCategory, FsPath, Net, NetMeta, ParseMeta,
    Parseable, PathMeta,
};
use crate::sdlang::{line_col, location};
use vstd::prelude::*;

verus! {

pub open spec fn is_letter(c: char) -> bool {
    ('a' <= c && c <= 'z') || ('A' <= c && c <= 'Z')
}

pub open spec fn is_digit(c: char) -> bool {
    '0' <= c && c <= '9'
}

pub open spec fn is_name_char(c: char) -> bool {
    is_letter(c) || is_digit(c) || c == '-' || c == '.' || c == '_' || c == '~'
}

pub open spec fn is_tag_char(c: char) -> bool {
    is_letter(c) || is_digit(c) || c == '-' || c == '.' || c == '_'
}

pub open spec fn is_range_start(c: char) -> bool {
    is_digit(c) || c == '^' || c == '~' || c == '<' || c == '>' || c == '=' || c == '*'
}

pub open spec fn is_range_char(c: char) -> bool {
    is_range_start(c) || is_letter(c) || c == '.' || c == '|' || c == ' ' || c == '-' || c == '+'
}

/// Whether `c` is one of the two cases `lo` and `up` of a letter.
pub open spec fn either_case(c: char, lo: char, up: char) -> bool {
    c == lo || c == up
}

/// The first position at or after `i` that does not hold a name character.
pub open spec fn run_end(s: Seq<char>, i: int) -> int
    decreases s.len() - i,
{
    if 0 <= i < s.len() && is_name_char(s[i]) {
        run_end(s, i + 1)
    } else {
        i
    }
}

/// Where the package name that starts at `i` ends, if one starts there.
pub open spec fn name_end(s: Seq<char>, i: int) -> Option<int> {
    if 0 <= i < s.len() && is_letter(s[i]) {
        Some(run_end(s, i))
    } else if 0 <= i < s.len() && s[i] == '@' {
        let slash = run_end(s, i + 1);
        if slash > i + 1 && slash < s.len() && s[slash] == '/' && run_end(s, slash + 1) > slash + 1 {
            Some(run_end(s, slash + 1))
        } else {
            None
        }
    } else {
        None
    }
}

/// Whether `npm:` stands at `i`.
pub open spec fn has_npm_prefix(s: Seq<char>, i: int) -> bool {
    0 <= i && i + 4 <= s.len() && either_case(s[i], 'n', 'N') && either_case(s[i + 1], 'p', 'P')
        && either_case(s[i + 2], 'm', 'M') && s[i + 3] == ':'
}

/// Whether `file:` stands at `i`.
pub open spec fn has_file_prefix(s: Seq<char>, i: int) -> bool {
    0 <= i && i + 5 <= s.len() && either_case(s[i], 'f', 'F') && either_case(s[i + 1], 'i', 'I')
        && either_case(s[i + 2], 'l', 'L') && either_case(s[i + 3], 'e', 'E') && s[i + 4] == ':'
}

/// Whether the text from `i` on has the shape of a filesystem path.
pub open spec fn path_like(s: Seq<char>, i: int) -> bool {
    0 <= i < s.len() && (s[i] == '/' || s[i] == '.' || (s[i] == '~' && i + 1 < s.len() && s[i
        + 1] == '/'))
}

/// Whether the text from `i` on is a version range.
pub open spec fn is_range(s: Seq<char>, i: int) -> bool {
    &&& 0 <= i < s.len()
    &&& is_range_start(s[i])
    &&& forall|k: int| i <= k < s.len() ==> is_range_char(#[trigger] s[k])
}

/// Whether the text from `i` on is a tag.
pub open spec fn is_tag(s: Seq<char>, i: int) -> bool {
    &&& 0 <= i < s.len()
    &&& is_letter(s[i])
    &&& forall|k: int| i <= k < s.len() ==> is_tag_char(#[trigger] s[k])
}

/// What an npm specifier asks for, over views.
pub enum RequirementModel {
    Range(Seq<char>),
    Tag(Seq<char>),
}

/// A parsed specifier, over views.
#[allow(inconsistent_fields)]
pub enum SpecModel {
    Alias { name: Seq<char>, target: Box<SpecModel> },
    Npm { name: Option<Seq<char>>, requirement: RequirementModel },
    Path { location: Seq<char> },
}

/// The requirement that the text from `i` on states, if it is one.
pub open spec fn requirement_at(s: Seq<char>, i: int) -> Option<RequirementModel> {
    if is_range(s, i) {
        Some(RequirementModel::Range(s.subrange(i, s.len() as int)))
    } else if is_tag(s, i) {
        Some(RequirementModel::Tag(s.subrange(i, s.len() as int)))
    } else {
        None
    }
}

/// The npm form without its prefix, from `i` on; on failure, the position reached.
pub open spec fn npm_body(s: Seq<char>, i: int) -> Result<SpecModel, int> {
    match name_end(s, i) {
        Some(e) => {
            let name = s.subrange(i, e);
            if e == s.len() {
                Ok(SpecModel::Npm { name: Some(name), requirement: RequirementModel::Tag("latest"@) })
            } else if s[e] == '@' {
                match requirement_at(s, e + 1) {
                    Some(q) => Ok(SpecModel::Npm { name: Some(name), requirement: q }),
                    None => Err(e + 1),
                }
            } else {
                Err(e)
            }
        },
        None => if is_range(s, i) {
            Ok(
                SpecModel::Npm {
                    name: None,
                    requirement: RequirementModel::Range(s.subrange(i, s.len() as int)),
                },
            )
        } else {
            Err(i)
        },
    }
}

/// The npm form, prefix optional, from `i` on.
pub open spec fn npm_alt(s: Seq<char>, i: int) -> Result<SpecModel, int> {
    npm_body(s, if has_npm_prefix(s, i) { i + 4 } else { i })
}

/// The path form, prefix optional, from `i` on.
pub open spec fn path_alt(s: Seq<char>, i: int) -> Result<SpecModel, int> {
    let p = if has_file_prefix(s, i) { i + 5 } else { i };
    if path_like(s, p) {
        Ok(SpecModel::Path { location: s.subrange(p, s.len() as int) })
    } else {
        Err(p)
    }
}

/// The sub-grammar that a parse error is reported against.
#[derive(Debug, Clone, Copy, PartialEq, Eq, Structural)]
pub enum SpecContext {
    Alias,
    Path,
    Npm,
}

/// The failure that progressed furthest among the three alternatives; on a tie, the one
/// tried first.
pub open spec fn furthest(a: int, p: int, n: int) -> (int, SpecContext) {
    if a >= p && a >= n {
        (a, SpecContext::Alias)
    } else if p >= n {
        (p, SpecContext::Path)
    } else {
        (n, SpecContext::Npm)
    }
}

/// The specifier that the text from `i` on denotes; on failure, the furthest position
/// reached and the sub-grammar that reached it.
pub open spec fn parse_at(s: Seq<char>, i: int) -> Result<SpecModel, (int, SpecContext)>
    decreases s.len() - i,
{
    let alias: Result<SpecModel, int> = match name_end(s, i) {
        Some(e) => if i <= e && e < s.len() && s[e] == '@' && (has_npm_prefix(s, e + 1)
            || has_file_prefix(s, e + 1)) {
            match parse_at(s, e + 1) {
                Ok(t) => Ok(SpecModel::Alias { name: s.subrange(i, e), target: Box::new(t) }),
                Err(f) => Err(f.0),
            }
        } else {
            Err(e)
        },
        None => Err(i),
    };
    match alias {
        Ok(m) => Ok(m),
        Err(a) => match path_alt(s, i) {
            Ok(m) => Ok(m),
            Err(p) => match npm_alt(s, i) {
                Ok(m) => Ok(m),
                Err(n) => Err(furthest(a, p, n)),
            },
        },
    }
}

/// The specifier that `s` denotes, or where and in which sub-grammar parsing failed.
pub open spec fn spec_parse(s: Seq<char>) -> Result<SpecModel, (int, SpecContext)> {
    parse_at(s, 0)
}

/// What an npm specifier asks for.
#[derive(Debug)]
pub enum NpmRequirement {
    /// A version range, kept as written.
    Range(String),
    /// A distribution tag.
    Tag(String),
}

impl View for NpmRequirement {
    type V = RequirementModel;

    open spec fn view(&self) -> RequirementModel {
        match self {
            NpmRequirement::Range(r) => RequirementModel::Range(r@),
            NpmRequirement::Tag(t) => RequirementModel::Tag(t@),
        }
    }
}

/// A parsed dependency specifier.
#[derive(Debug)]
#[allow(inconsistent_fields)]
pub enum PackageSpec {
    /// `name@spec`: a local name for another specifier.
    Alias { name: String, target: Box<PackageSpec> },
    /// A package of the registry; `name` is absent where only a range was given.
    Npm { name: Option<String>, requirement: NpmRequirement },
    /// A directory or tarball on the local filesystem.
    Path { location: String },
}

impl View for PackageSpec {
    type V = SpecModel;

    open spec fn view(&self) -> SpecModel
        decreases self,
    {
        match self {
            PackageSpec::Alias { name, target } => SpecModel::Alias {
                name: name@,
                target: Box::new((**target).view()),
            },
            PackageSpec::Npm { name, requirement } => SpecModel::Npm {
                name: match name {
                    Some(n) => Some(n@),
                    None => None,
                },
                requirement: requirement@,
            },
            PackageSpec::Path { location } => SpecModel::Path { location: location@ },
        }
    }
}

/// A specifier that no alternative of the grammar matches.
#[derive(Debug)]
pub struct SpecifierParseError {
    /// The specifier as given.
    pub input: String,
    /// The furthest character position that an alternative reached.
    pub offset: usize,
    /// The alternative that reached it.
    pub context: SpecContext,
}

proof fn lemma_run_end_bounds(s: Seq<char>, i: int)
    requires
        0 <= i <= s.len(),
    ensures
        i <= run_end(s, i) <= s.len(),
        run_end(s, i) < s.len() ==> !is_name_char(s[run_end(s, i)]),
    decreases s.len() - i,
{
    if i < s.len() && is_name_char(s[i]) {
        lemma_run_end_bounds(s, i + 1);
    }
}

proof fn lemma_name_end_bounds(s: Seq<char>, i: int)
    requires
        0 <= i <= s.len(),
    ensures
        name_end(s, i) matches Some(e) ==> i < e <= s.len(),
{
    lemma_run_end_bounds(s, i);
    if 0 <= i < s.len() && s[i] == '@' {
        lemma_run_end_bounds(s, i + 1);
        let slash = run_end(s, i + 1);
        if slash < s.len() {
            lemma_run_end_bounds(s, slash + 1);
        }
    }
}

pub(crate) fn letter(c: char) -> (r: bool)
    ensures
        r == is_letter(c),
{
    ('a' <= c && c <= 'z') || ('A' <= c && c <= 'Z')
}

pub(crate) fn digit(c: char) -> (r: bool)
    ensures
        r == is_digit(c),
{
    '0' <= c && c <= '9'
}

fn name_char(c: char) -> (r: bool)
    ensures
        r == is_name_char(c),
{
    letter(c) || digit(c) || c == '-' || c == '.' || c == '_' || c == '~'
}

fn tag_char(c: char) -> (r: bool)
    ensures
        r == is_tag_char(c),
{
    letter(c) || digit(c) || c == '-' || c == '.' || c == '_'
}

fn range_start(c: char) -> (r: bool)
    ensures
        r == is_range_start(c),
{
    digit(c) || c == '^' || c == '~' || c == '<' || c == '>' || c == '=' || c == '*'
}

fn range_char(c: char) -> (r: bool)
    ensures
        r == is_range_char(c),
{
    range_start(c) || letter(c) || c == '.' || c == '|' || c == ' ' || c == '-' || c == '+'
}

fn is_case_of(c: char, lo: char, up: char) -> (r: bool)
    ensures
        r == either_case(c, lo, up),
{
    c == lo || c == up
}

/// The characters of `s`, in order.
pub fn chars_of(s: &str) -> (r: Vec<char>)
    ensures
        r@ == s@,
{
    let n = s.unicode_len();
    let mut out: Vec<char> = Vec::new();
    let mut i: usize = 0;
    while i < n
        invariant
            n == s@.len(),
            i <= n,
            out@ == s@.subrange(0, i as int),
        decreases n - i,
    {
        out.push(s.get_char(i));
        i += 1;
    }
    assert(out@ =~= s@);
    out
}

fn run_end_exec(c: &Vec<char>, i: usize) -> (r: usize)
    requires
        i <= c@.len(),
    ensures
        r == run_end(c@, i as int),
{
    let mut j = i;
    while j < c.len() && name_char(c[j])
        invariant
            i <= j <= c@.len(),
            run_end(c@, j as int) == run_end(c@, i as int),
        decreases c@.len() - j,
    {
        j += 1;
    }
    j
}

fn name_end_exec(c: &Vec<char>, i: usize) -> (r: Option<usize>)
    requires
        i <= c@.len(),
    ensures
        r matches Some(e) ==> name_end(c@, i as int) == Some(e as int),
        r is None ==> name_end(c@, i as int) is None,
{
    proof {
        lemma_name_end_bounds(c@, i as int);
    }
    if i < c.len() && letter(c[i]) {
        Some(run_end_exec(c, i))
    } else if i < c.len() && c[i] == '@' {
        let slash = run_end_exec(c, i + 1);
        proof {
            lemma_run_end_bounds(c@, i + 1);
        }
        if slash > i + 1 && slash < c.len() && c[slash] == '/' {
            let e = run_end_exec(c, slash + 1);
            if e > slash + 1 {
                Some(e)
            } else {
                None
            }
        } else {
            None
        }
    } else {
        None
    }
}

fn npm_prefix(c: &Vec<char>, i: usize) -> (r: bool)
    requires
        i <= c@.len(),
    ensures
        r == has_npm_prefix(c@, i as int),
        r ==> c@.len() <= usize::MAX,
{
    c.len() >= 4 && i <= c.len() - 4 && is_case_of(c[i], 'n', 'N') && is_case_of(c[i + 1], 'p', 'P')
        && is_case_of(c[i + 2], 'm', 'M') && c[i + 3] == ':'
}

fn file_prefix(c: &Vec<char>, i: usize) -> (r: bool)
    requires
        i <= c@.len(),
    ensures
        r == has_file_prefix(c@, i as int),
        r ==> c@.len() <= usize::MAX,
{
    c.len() >= 5 && i <= c.len() - 5 && is_case_of(c[i], 'f', 'F') && is_case_of(c[i + 1], 'i', 'I')
        && is_case_of(c[i + 2], 'l', 'L') && is_case_of(c[i + 3], 'e', 'E') && c[i + 4] == ':'
}

fn path_like_exec(c: &Vec<char>, i: usize) -> (r: bool)
    requires
        i <= c@.len(),
    ensures
        r == path_like(c@, i as int),
{
    i < c.len() && (c[i] == '/' || c[i] == '.' || (c[i] == '~' && i + 1 < c.len() && c[i + 1]
        == '/'))
}

fn range_exec(c: &Vec<char>, i: usize) -> (r: bool)
    requires
        i <= c@.len(),
    ensures
        r == is_range(c@, i as int),
{
    if i >= c.len() || !range_start(c[i]) {
        return false;
    }
    let mut j = i;
    while j < c.len()
        invariant
            i <= j <= c@.len(),
            forall|k: int| i <= k < j ==> is_range_char(#[trigger] c@[k]),
        decreases c@.len() - j,
    {
        if !range_char(c[j]) {
            return false;
        }
        j += 1;
    }
    true
}

fn tag_exec(c: &Vec<char>, i: usize) -> (r: bool)
    requires
        i <= c@.len(),
    ensures
        r == is_tag(c@, i as int),
{
    if i >= c.len() || !letter(c[i]) {
        return false;
    }
    let mut j = i;
    while j < c.len()
        invariant
            i <= j <= c@.len(),
            forall|k: int| i <= k < j ==> is_tag_char(#[trigger] c@[k]),
        decreases c@.len() - j,
    {
        if !tag_char(c[j]) {
            return false;
        }
        j += 1;
    }
    true
}

/// The text of `s` from `a` to `b`, as a new string.
fn text(s: &str, a: usize, b: usize) -> (r: String)
    requires
        a <= b <= s@.len(),
    ensures
        r@ == s@.subrange(a as int, b as int),
{
    s.substring_char(a, b).to_owned()
}

fn requirement_exec(s: &str, c: &Vec<char>, i: usize) -> (r: Option<NpmRequirement>)
    requires
        c@ == s@,
        i <= c@.len(),
    ensures
        r matches Some(q) ==> requirement_at(c@, i as int) == Some(q@),
        r is None ==> requirement_at(c@, i as int) is None,
{
    if range_exec(c, i) {
        Some(NpmRequirement::Range(text(s, i, c.len())))
    } else if tag_exec(c, i) {
        Some(NpmRequirement::Tag(text(s, i, c.len())))
    } else {
        None
    }
}

fn npm_body_exec(s: &str, c: &Vec<char>, i: usize) -> (r: Result<PackageSpec, usize>)
    requires
        c@ == s@,
        i <= c@.len(),
    ensures
        match r {
            Ok(p) => npm_body(c@, i as int) == Ok::<SpecModel, int>(p@),
            Err(f) => npm_body(c@, i as int) == Err::<SpecModel, int>(f as int),
        },
{
    proof {
        lemma_name_end_bounds(c@, i as int);
    }
    match name_end_exec(c, i) {
        Some(e) => {
            let name = text(s, i, e);
            if e == c.len() {
                let latest = "latest".to_owned();
                Ok(PackageSpec::Npm { name: Some(name), requirement: NpmRequirement::Tag(latest) })
            } else if c[e] == '@' {
                match requirement_exec(s, c, e + 1) {
                    Some(q) => Ok(PackageSpec::Npm { name: Some(name), requirement: q }),
                    None => Err(e + 1),
                }
            } else {
                Err(e)
            }
        },
        None => if range_exec(c, i) {
            Ok(PackageSpec::Npm { name: None, requirement: NpmRequirement::Range(text(s, i, c.len())) })
        } else {
            Err(i)
        },
    }
}

fn path_alt_exec(s: &str, c: &Vec<char>, i: usize) -> (r: Result<PackageSpec, usize>)
    requires
        c@ == s@,
        i <= c@.len(),
    ensures
        match r {
            Ok(p) => path_alt(c@, i as int) == Ok::<SpecModel, int>(p@),
            Err(f) => path_alt(c@, i as int) == Err::<SpecModel, int>(f as int),
        },
{
    let p = if file_prefix(c, i) { i + 5 } else { i };
    if path_like_exec(c, p) {
        Ok(PackageSpec::Path { location: text(s, p, c.len()) })
    } else {
        Err(p)
    }
}

fn npm_alt_exec(s: &str, c: &Vec<char>, i: usize) -> (r: Result<PackageSpec, usize>)
    requires
        c@ == s@,
        i <= c@.len(),
    ensures
        match r {
            Ok(p) => npm_alt(c@, i as int) == Ok::<SpecModel, int>(p@),
            Err(f) => npm_alt(c@, i as int) == Err::<SpecModel, int>(f as int),
        },
{
    let p = if npm_prefix(c, i) { i + 4 } else { i };
    npm_body_exec(s, c, p)
}

fn parse_at_exec(s: &str, c: &Vec<char>, i: usize) -> (r: Result<PackageSpec, (usize, SpecContext)>)
    requires
        c@ == s@,
        i <= c@.len(),
    ensures
        match r {
            Ok(p) => parse_at(c@, i as int) == Ok::<SpecModel, (int, SpecContext)>(p@),
            Err(f) => parse_at(c@, i as int) == Err::<SpecModel, (int, SpecContext)>((f.0 as int, f.1)),
        },
    decreases c@.len() - i,
{
    proof {
        lemma_name_end_bounds(c@, i as int);
    }
    let alias: Result<PackageSpec, usize> = match name_end_exec(c, i) {
        Some(e) => if e < c.len() && c[e] == '@' && (npm_prefix(c, e + 1) || file_prefix(c, e + 1)) {
            match parse_at_exec(s, c, e + 1) {
                Ok(t) => Ok(PackageSpec::Alias { name: text(s, i, e), target: Box::new(t) }),
                Err(f) => Err(f.0),
            }
        } else {
            Err(e)
        },
        None => Err(i),
    };
    match alias {
        Ok(m) => Ok(m),
        Err(a) => match path_alt_exec(s, c, i) {
            Ok(m) => Ok(m),
            Err(p) => match npm_alt_exec(s, c, i) {
                Ok(m) => Ok(m),
                Err(n) => {
                    if a >= p && a >= n {
                        Err((a, SpecContext::Alias))
                    } else if p >= n {
                        Err((p, SpecContext::Path))
                    } else {
                        Err((n, SpecContext::Npm))
                    }
                },
            },
        },
    }
}

/// Parses a dependency specifier. The result is the one that the grammar of this module
/// gives; on failure the error holds the input, the furthest position reached and the
/// alternative that reached it.
pub fn package_spec(input: &str) -> (r: Result<PackageSpec, SpecifierParseError>)
    ensures
        match r {
            Ok(p) => spec_parse(input@) == Ok::<SpecModel, (int, SpecContext)>(p@),
            Err(e) => {
                &&& spec_parse(input@) == Err::<SpecModel, (int, SpecContext)>((e.offset as int, e.context))
                &&& e.input@ == input@
            },
        },
{
    let c = chars_of(input);
    match parse_at_exec(input, &c, 0) {
        Ok(p) => Ok(p),
        Err(f) => Err(SpecifierParseError { input: input.to_owned(), offset: f.0, context: f.1 }),
    }
}

/// The label of a specifier that does not parse.
pub const SPEC_LABEL: &'static str = "package_spec::invalid";

/// The advice given with a specifier that does not parse.
pub const SPEC_ADVICE: &'static str =
    "Specifiers look like `name@range`, `alias@npm:name@range` or `file:./path`.";

/// The message of a specifier that does not parse: the input and the form that got furthest.
pub open spec fn spec_error_message(input: Seq<char>, context: SpecContext) -> Seq<char> {
    "Invalid package specifier `"@ + input + "`: the "@ + match context {
        SpecContext::Alias => "alias"@,
        SpecContext::Path => "path"@,
        SpecContext::Npm => "npm"@,
    } + " form matched the furthest."@
}

/// The position that an error points at, kept within its input.
pub open spec fn clamped(offset: usize, len: nat) -> int {
    if offset <= len {
        offset as int
    } else {
        len as int
    }
}

impl Net for SpecifierParseError {
    open spec fn net_meta(&self) -> Option<NetMeta> {
        None
    }

    fn net(&self) -> (r: Option<NetMeta>) {
        None
    }
}

impl FsPath for SpecifierParseError {
    open spec fn path_meta(&self) -> Option<PathMeta> {
        None
    }

    fn path(&self) -> (r: Option<PathMeta>) {
        None
    }
}

impl Parseable for SpecifierParseError {
    /// The input, with the line and column of the position where parsing failed.
    open spec fn parse_meta(&self) -> Option<ParseMeta> {
        let (row, col) = line_col(self.input@, clamped(self.offset, self.input@.len()));
        Some(ParseMeta { input: self.input, row: row as usize, col: col as usize, path: None })
    }

    fn parse_report(&self) -> (r: Option<ParseMeta>) {
        let c = chars_of(self.input.as_str());
        let at = if self.offset <= c.len() { self.offset } else { c.len() };
        let (row, col) = location(&c, at);
        Some(ParseMeta { input: self.input.clone(), row, col, path: None })
    }
}

impl Diagnostic for SpecifierParseError {
    open spec fn classified(&self) -> Classified {
        Classified {
            category: DiagnosticCategory::Parse,
            label: SPEC_LABEL@,
            advice: Some(SPEC_ADVICE@),
        }
    }

    open spec fn message_of(&self) -> Option<Seq<char>> {
        Some(spec_error_message(self.input@, self.context))
    }

    fn classification(&self) -> (r: Classification) {
        Classification {
            category: DiagnosticCategory::Parse,
            label: SPEC_LABEL.to_owned(),
            advice: Some(SPEC_ADVICE.to_owned()),
        }
    }

    fn message(&self) -> (r: String) {
        let mut out = "Invalid package specifier `".to_owned();
        out.append(self.input.as_str());
        out.append("`: the ");
        out.append(
            match self.context {
                SpecContext::Alias => "alias",
                SpecContext::Path => "path",
                SpecContext::Npm => "npm",
            },
        );
        out.append(" form matched the furthest.");
        out
    }
}

/// The text of a requirement.
pub open spec fn requirement_text(q: RequirementModel) -> Seq<char> {
    match q {
        RequirementModel::Range(r) => r,
        RequirementModel::Tag(t) => t,
    }
}

/// The canonical text of a specifier, every form with its prefix: `name@target`,
/// `npm:name@requirement`, `npm:range`, `file:location`.
pub open spec fn spec_text(m: SpecModel) -> Seq<char>
    decreases m,
{
    match m {
        SpecModel::Alias { name, target } => name + "@"@ + spec_text(*target),
        SpecModel::Npm { name, requirement } => match name {
            Some(n) => "npm:"@ + n + "@"@ + requirement_text(requirement),
            None => "npm:"@ + requirement_text(requirement),
        },
        SpecModel::Path { location } => "file:"@ + location,
    }
}

impl NpmRequirement {
    /// The requirement as written.
    pub fn as_text(&self) -> (r: &String)
        ensures
            r@ == requirement_text(self@),
    {
        match self {
            NpmRequirement::Range(r) => r,
            NpmRequirement::Tag(t) => t,
        }
    }
}

impl PackageSpec {
    /// The canonical text of this specifier (see `spec_text`).
    pub fn to_text(&self) -> (r: String)
        ensures
            r@ == spec_text(self@),
        decreases self,
    {
        match self {
            PackageSpec::Alias { name, target } => {
                let mut out = name.clone();
                out.append("@");
                let t = target.to_text();
                out.append(t.as_str());
                out
            },
            PackageSpec::Npm { name, requirement } => {
                let mut out = "npm:".to_owned();
                match name {
                    Some(n) => {
                        out.append(n.as_str());
                        out.append("@");
                    },
                    None => {},
                }
                out.append(requirement.as_text().as_str());
                out
            },
            PackageSpec::Path { location } => {
                let mut out = "file:".to_owned();
                out.append(location.as_str());
                out
            },
        }
    }
}

/// Whether `n` is exactly one package name.
pub open spec fn is_name(n: Seq<char>) -> bool {
    name_end(n, 0) == Some(n.len() as int)
}

/// Whether a specifier is one that the grammar produces: names are names, ranges are
/// ranges, tags are tags, paths are path-shaped, a bare npm form holds a range, and an
/// alias names a specifier that is not itself an alias.
pub open spec fn well_formed(m: SpecModel) -> bool
    decreases m,
{
    match m {
        SpecModel::Alias { name, target } => is_name(name) && !(*target is Alias) && well_formed(
            *target,
        ),
        SpecModel::Npm { name, requirement } => {
            &&& match requirement {
                RequirementModel::Range(r) => is_range(r, 0),
                RequirementModel::Tag(t) => is_tag(t, 0) && name is Some,
            }
            &&& name matches Some(n) ==> is_name(n)
        },
        SpecModel::Path { location } => path_like(location, 0),
    }
}

proof fn lemma_run_end_window(s: Seq<char>, n: Seq<char>, k: int, i: int)
    requires
        0 <= k,
        k + n.len() <= s.len(),
        s.subrange(k, k + n.len()) == n,
        0 <= i <= n.len(),
        k + n.len() == s.len() || !is_name_char(s[k + n.len()]),
    ensures
        run_end(s, k + i) == k + run_end(n, i),
    decreases n.len() - i,
{
    if i < n.len() {
        assert(s[k + i] == n[i]);
        if is_name_char(n[i]) {
            lemma_run_end_window(s, n, k, i + 1);
        }
    }
}

proof fn lemma_name_end_window(s: Seq<char>, n: Seq<char>, k: int)
    requires
        0 <= k,
        k + n.len() <= s.len(),
        s.subrange(k, k + n.len()) == n,
        k + n.len() == s.len() || !is_name_char(s[k + n.len()]),
    ensures
        name_end(n, 0) matches Some(e) ==> name_end(s, k) == Some(k + e),
        name_end(s, k) matches Some(e) ==> e <= k + n.len() ==> name_end(n, 0) == Some(e - k),
{
    if n.len() > 0 {
        assert(s[k] == n[0]);
        lemma_run_end_window(s, n, k, 0);
        lemma_run_end_window(s, n, k, 1);
        lemma_run_end_bounds(n, 1);
        let slash = run_end(n, 1);
        if slash < n.len() {
            assert(s[k + slash] == n[slash]);
            lemma_run_end_window(s, n, k, slash + 1);
        }
    } else {
        lemma_run_end_bounds(s, k);
        if k < s.len() && s[k] == '@' {
            lemma_run_end_bounds(s, k + 1);
        }
    }
}

proof fn lemma_range_window(s: Seq<char>, r: Seq<char>, k: int)
    requires
        0 <= k <= s.len(),
        s.subrange(k, s.len() as int) == r,
    ensures
        is_range(s, k) == is_range(r, 0),
        is_tag(s, k) == is_tag(r, 0),
        path_like(s, k) == path_like(r, 0),
{
    if is_range(r, 0) {
        assert forall|j: int| k <= j < s.len() implies is_range_char(#[trigger] s[j]) by {
            assert(s[j] == r[j - k]);
        }
    }
    if is_range(s, k) {
        assert forall|j: int| 0 <= j < r.len() implies is_range_char(#[trigger] r[j]) by {
            assert(s[k + j] == r[j]);
        }
    }
    if is_tag(r, 0) {
        assert forall|j: int| k <= j < s.len() implies is_tag_char(#[trigger] s[j]) by {
            assert(s[j] == r[j - k]);
        }
    }
    if is_tag(s, k) {
        assert forall|j: int| 0 <= j < r.len() implies is_tag_char(#[trigger] r[j]) by {
            assert(s[k + j] == r[j]);
        }
    }
    if r.len() > 0 {
        assert(s[k] == r[0]);
    }
    if r.len() > 1 {
        assert(s[k + 1] == r[1]);
    }
}

proof fn lemma_sub_window(s: Seq<char>, k: int, t: Seq<char>, a: int, b: int)
    requires
        0 <= k <= s.len(),
        s.subrange(k, s.len() as int) == t,
        0 <= a <= b <= t.len(),
    ensures
        s.subrange(k + a, k + b) == t.subrange(a, b),
{
    assert forall|j: int| 0 <= j < b - a implies s.subrange(k + a, k + b)[j] == t.subrange(a, b)[j] by {
        assert(s.subrange(k, s.len() as int)[a + j] == s[k + a + j]);
    }
    assert(s.subrange(k + a, k + b) =~= t.subrange(a, b));
}

/// The text of a specifier that is not an alias, standing at `k` of `s`, parses back to it.
proof fn lemma_plain_parses_back(s: Seq<char>, k: int, m: SpecModel)
    requires
        0 <= k <= s.len(),
        well_formed(m),
        !(m is Alias),
        s.subrange(k, s.len() as int) == spec_text(m),
    ensures
        parse_at(s, k) == Ok::<SpecModel, (int, SpecContext)>(m),
{
    reveal_strlit("npm:");
    reveal_strlit("file:");
    reveal_strlit("@");
    let t = spec_text(m);
    match m {
        SpecModel::Path { location } => {
            assert(t == "file:"@ + location);
            assert(s[k] == t[0]);
            assert(s[k + 1] == t[1]);
            assert(s[k + 2] == t[2]);
            assert(s[k + 3] == t[3]);
            assert(s[k + 4] == t[4]);
            assert(run_end(s, k + 4) == k + 4);
            assert(run_end(s, k + 3) == k + 4);
            assert(run_end(s, k + 2) == k + 4);
            assert(run_end(s, k + 1) == k + 4);
            assert(run_end(s, k) == k + 4);
            lemma_sub_window(s, k, t, 5, t.len() as int);
            assert(t.subrange(5, t.len() as int) =~= location);
            lemma_range_window(s, location, k + 5);
        },
        SpecModel::Npm { name, requirement } => {
            let q = requirement_text(requirement);
            let body = match name {
                Some(n) => n + "@"@ + q,
                None => q,
            };
            assert(t =~= "npm:"@ + body);
            assert(s[k] == t[0]);
            assert(s[k + 1] == t[1]);
            assert(s[k + 2] == t[2]);
            assert(s[k + 3] == t[3]);
            assert(run_end(s, k + 3) == k + 3);
            assert(run_end(s, k + 2) == k + 3);
            assert(run_end(s, k + 1) == k + 3);
            assert(run_end(s, k) == k + 3);
            assert(!path_like(s, k));
            match name {
                Some(n) => {
                    let e = k + 4 + n.len();
                    lemma_sub_window(s, k, t, 4, 4 + n.len() as int);
                    assert(t.subrange(4, 4 + n.len() as int) =~= n);
                    lemma_sub_window(s, k, t, 5 + n.len() as int, t.len() as int);
                    assert(t.subrange(5 + n.len() as int, t.len() as int) =~= q);
                    assert(s.subrange(k, s.len() as int)[4 + n.len() as int] == s[e]);
                    assert(t[4 + n.len() as int] == '@');
                    assert(s[e] == '@');
                    lemma_name_end_window(s, n, k + 4);
                    assert(s.subrange(e + 1, s.len() as int) =~= q);
                    lemma_range_window(s, q, e + 1);
                    if requirement is Tag {
                        assert(s[e + 1] == q[0]);
                    }
                },
                None => {
                    lemma_sub_window(s, k, t, 4, t.len() as int);
                    assert(t.subrange(4, t.len() as int) =~= q);
                    lemma_range_window(s, q, k + 4);
                    assert(s[k + 4] == q[0]);
                },
            }
        },
        SpecModel::Alias { .. } => {},
    }
}

/// Writing out a well-formed specifier and parsing the text gives the specifier back.
pub proof fn text_parses_back(m: SpecModel)
    requires
        well_formed(m),
    ensures
        spec_parse(spec_text(m)) == Ok::<SpecModel, (int, SpecContext)>(m),
{
    let s = spec_text(m);
    assert(s.subrange(0, s.len() as int) =~= s);
    match m {
        SpecModel::Alias { name, target } => {
            reveal_strlit("@");
            let e = name.len() as int;
            let rest = spec_text(*target);
            assert(s.subrange(0, e) =~= name);
            assert(s[e] == '@');
            lemma_name_end_window(s, name, 0);
            assert(s.subrange(e + 1, s.len() as int) =~= rest);
            lemma_plain_parses_back(s, e + 1, *target);
            reveal_strlit("npm:");
            reveal_strlit("file:");
            assert(s[e + 1] == rest[0]);
            assert(s[e + 2] == rest[1]);
            assert(s[e + 3] == rest[2]);
            assert(s[e + 4] == rest[3]);
            if *target is Path {
                assert(s[e + 5] == rest[4]);
            }
        },
        _ => {
            lemma_plain_parses_back(s, 0, m);
        },
    }
}

proof fn lemma_name_end_stops(s: Seq<char>, i: int)
    requires
        0 <= i <= s.len(),
    ensures
        name_end(s, i) matches Some(e) ==> (e == s.len() || !is_name_char(s[e])),
{
    lemma_run_end_bounds(s, i);
    if 0 <= i < s.len() && s[i] == '@' {
        lemma_run_end_bounds(s, i + 1);
        let slash = run_end(s, i + 1);
        if slash < s.len() {
            lemma_run_end_bounds(s, slash + 1);
        }
    }
}

/// The name that a successful `name_end` delimits is a name.
proof fn lemma_name_is_name(s: Seq<char>, i: int, e: int)
    requires
        0 <= i <= s.len(),
        name_end(s, i) == Some(e),
    ensures
        is_name(s.subrange(i, e)),
{
    lemma_name_end_bounds(s, i);
    lemma_name_end_stops(s, i);
    lemma_name_end_window(s, s.subrange(i, e), i);
}

/// A prefix at `i` rules out the alias form there.
proof fn lemma_prefix_is_not_alias(s: Seq<char>, i: int)
    requires
        0 <= i <= s.len(),
        has_npm_prefix(s, i) || has_file_prefix(s, i),
    ensures
        parse_at(s, i) matches Ok(m) ==> !(m is Alias),
{
    if has_npm_prefix(s, i) {
        assert(is_letter(s[i]) && is_letter(s[i + 1]) && is_letter(s[i + 2]));
        assert(run_end(s, i + 3) == i + 3);
        assert(run_end(s, i + 2) == i + 3);
        assert(run_end(s, i + 1) == i + 3);
        assert(run_end(s, i) == i + 3);
    } else {
        assert(is_letter(s[i]) && is_letter(s[i + 1]) && is_letter(s[i + 2]) && is_letter(s[i + 3]));
        assert(run_end(s, i + 4) == i + 4);
        assert(run_end(s, i + 3) == i + 4);
        assert(run_end(s, i + 2) == i + 4);
        assert(run_end(s, i + 1) == i + 4);
        assert(run_end(s, i) == i + 4);
    }
}

/// Whatever the grammar parses is well formed.
proof fn lemma_parsed_well_formed(s: Seq<char>, i: int)
    requires
        0 <= i <= s.len(),
    ensures
        parse_at(s, i) matches Ok(m) ==> well_formed(m),
    decreases s.len() - i,
{
    reveal_strlit("latest");
    assert(is_tag("latest"@, 0));
    lemma_name_end_bounds(s, i);
    match name_end(s, i) {
        Some(e) => {
            lemma_name_is_name(s, i, e);
            if e < s.len() && s[e] == '@' && (has_npm_prefix(s, e + 1) || has_file_prefix(s, e + 1)) {
                lemma_parsed_well_formed(s, e + 1);
                lemma_prefix_is_not_alias(s, e + 1);
            }
        },
        None => {},
    }
    let p = if has_file_prefix(s, i) { i + 5 } else { i };
    lemma_range_window(s, s.subrange(p, s.len() as int), p);
    let b = if has_npm_prefix(s, i) { i + 4 } else { i };
    lemma_name_end_bounds(s, b);
    lemma_range_window(s, s.subrange(b, s.len() as int), b);
    match name_end(s, b) {
        Some(e) => {
            lemma_name_is_name(s, b, e);
            if e < s.len() {
                lemma_range_window(s, s.subrange(e + 1, s.len() as int), e + 1);
            }
        },
        None => {},
    }
}

/// Writing out what the grammar parsed and parsing that text gives the same specifier.
pub proof fn parsed_text_parses_back(s: Seq<char>)
    requires
        spec_parse(s) is Ok,
    ensures
        spec_parse(spec_text(spec_parse(s)->Ok_0)) == spec_parse(s),
{
    lemma_parsed_well_formed(s, 0);
    text_parses_back(spec_parse(s)->Ok_0);
}

/// The npm body read after the prefix `npm:` is the body read without it.
proof fn lemma_npm_body_after_prefix(x: Seq<char>)
    ensures
        npm_body(x, 0) matches Ok(m) ==> npm_body("npm:"@ + x, 4) == Ok::<SpecModel, int>(m),
{
    reveal_strlit("npm:");
    let s = "npm:"@ + x;
    assert(s.subrange(4, s.len() as int) =~= x);
    lemma_name_end_window(s, x, 4);
    lemma_name_end_bounds(s, 4);
    lemma_name_end_bounds(x, 0);
    lemma_range_window(s, x, 4);
    assert(x.subrange(0, x.len() as int) =~= x);
    lemma_range_window(x, x, 0);
    match name_end(x, 0) {
        Some(e) => {
            lemma_sub_window(s, 4, x, 0, e);
            if e < x.len() {
                assert(s[4 + e] == x[e]);
                lemma_sub_window(s, 4, x, e + 1, x.len() as int);
                lemma_range_window(s, s.subrange(5 + e, s.len() as int), 5 + e);
                lemma_range_window(x, x.subrange(e + 1, x.len() as int), e + 1);
            }
        },
        None => {},
    }
}

/// The `npm:` prefix is optional: an input that parses to an npm specifier without it
/// parses to the same specifier with it.
pub proof fn npm_prefix_is_optional(x: Seq<char>)
    requires
        spec_parse(x) matches Ok(m) && m is Npm,
        !has_npm_prefix(x, 0),
    ensures
        spec_parse("npm:"@ + x) == spec_parse(x),
{
    reveal_strlit("npm:");
    let s = "npm:"@ + x;
    lemma_npm_body_after_prefix(x);
    assert(run_end(s, 3) == 3);
    assert(run_end(s, 2) == 3);
    assert(run_end(s, 1) == 3);
    assert(run_end(s, 0) == 3);
    assert(has_npm_prefix(s, 0));
    assert(!has_file_prefix(s, 0));
    assert(!path_like(s, 0));
}

/// Parsing is a function of the input alone: equal inputs give equal results.
pub proof fn parse_is_deterministic(a: Seq<char>, b: Seq<char>)
    requires
        a == b,
    ensures
        spec_parse(a) == spec_parse(b),
{
}

} // verus!
