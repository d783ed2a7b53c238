use colored::Colorize;
use vstd::prelude::*;

verus! {

/// Maps an optional string to its optional view.
pub open spec fn opt_str(o: Option<String>) -> Option<Seq<char>> {
    match o {
        Some(s) => Some(s@),
        None => None,
    }
}

/// The domain a diagnostic error belongs to.
#[derive(Debug, Clone, Copy, PartialEq, Eq, Hash, Structural)]
pub enum DiagnosticCategory {
    /// oro::misc
    Misc,
    /// oro::net
    Net,
    /// oro::fs
    Fs,
    /// oro::parse
    Parse,
}

/// Network context of an error: the host, and the full URL where one is known.
#[derive(Debug)]
pub struct NetMeta {
    pub host: String,
    pub url: Option<String>,
}

/// Filesystem context of an error.
#[derive(Debug)]
pub struct PathMeta {
    pub path: String,
}

/// Source position of a parse error.
#[derive(Debug)]
pub struct ParseMeta {
    pub input: String,
    pub row: usize,
    pub col: usize,
    pub path: Option<String>,
}

/// The category-specific context attached to a diagnostic error.
#[derive(Debug)]
pub enum ErrorMeta {
    Net(NetMeta),
    Path(PathMeta),
    Parse(ParseMeta),
}

/// Whether `meta` may accompany an error of category `category`.
pub open spec fn meta_fits(category: DiagnosticCategory, meta: Option<ErrorMeta>) -> bool {
    match meta {
        None => true,
        Some(ErrorMeta::Net(_)) => category == DiagnosticCategory::Net,
        Some(ErrorMeta::Path(_)) => category == DiagnosticCategory::Fs,
        Some(ErrorMeta::Parse(_)) => category == DiagnosticCategory::Parse,
    }
}

/// Network metadata of an error, if it has any.
pub trait Net {
    /// What `net` returns; each implementation states it.
    closed spec fn net_meta(&self) -> Option<NetMeta> {
        arbitrary()
    }

    fn net(&self) -> (r: Option<NetMeta>)
        ensures
            r == self.net_meta(),
    ;
}

/// Filesystem metadata of an error, if it has any.
pub trait FsPath {
    /// What `path` returns; each implementation states it.
    closed spec fn path_meta(&self) -> Option<PathMeta> {
        arbitrary()
    }

    fn path(&self) -> (r: Option<PathMeta>)
        ensures
            r == self.path_meta(),
    ;
}

/// Source-position metadata of an error, if it has any.
pub trait Parseable {
    /// What `parse_report` returns; each implementation states it.
    closed spec fn parse_meta(&self) -> Option<ParseMeta> {
        arbitrary()
    }

    fn parse_report(&self) -> (r: Option<ParseMeta>)
        ensures
            r == self.parse_meta(),
    ;
}

/// What a classification says, over views.
pub struct Classified {
    pub category: DiagnosticCategory,
    pub label: Seq<char>,
    pub advice: Option<Seq<char>>,
}

/// The category, label and advice of an error.
pub struct Classification {
    pub category: DiagnosticCategory,
    pub label: String,
    pub advice: Option<String>,
}

impl View for Classification {
    type V = Classified;

    open spec fn view(&self) -> Classified {
        Classified { category: self.category, label: self.label@, advice: opt_str(self.advice) }
    }
}

/// The label that a declaration without one gets.
pub const DEFAULT_LABEL: &'static str = "crate::label";

/// The declared classification of one error variant. A field left unset takes its default:
/// `Misc` for the category, `crate::label` for the label, no advice.
pub struct Declaration {
    pub category: Option<DiagnosticCategory>,
    pub label: Option<String>,
    pub advice: Option<String>,
}

/// The classification that a declaration stands for, over views.
pub open spec fn declared(category: Option<DiagnosticCategory>, label: Option<Seq<char>>, advice: Option<Seq<char>>) -> Classified {
    Classified {
        category: match category {
            Some(c) => c,
            None => DiagnosticCategory::Misc,
        },
        label: match label {
            Some(l) => l,
            None => DEFAULT_LABEL@,
        },
        advice: advice,
    }
}

impl Declaration {
    /// A declaration with every field left to its default.
    pub fn new() -> (r: Declaration)
        ensures
            r.category is None,
            r.label is None,
            r.advice is None,
    {
        Declaration { category: None, label: None, advice: None }
    }

    /// The same declaration with the category set.
    pub fn category(self, category: DiagnosticCategory) -> (r: Declaration)
        ensures
            r.category == Some(category),
            r.label == self.label,
            r.advice == self.advice,
    {
        Declaration { category: Some(category), ..self }
    }

    /// The same declaration with the label set.
    pub fn label(self, label: &str) -> (r: Declaration)
        ensures
            r.category == self.category,
            opt_str(r.label) == Some(label@),
            r.advice == self.advice,
    {
        Declaration { label: Some(label.to_owned()), ..self }
    }

    /// The same declaration with the advice set.
    pub fn advice(self, advice: &str) -> (r: Declaration)
        ensures
            r.category == self.category,
            r.label == self.label,
            opt_str(r.advice) == Some(advice@),
    {
        Declaration { advice: Some(advice.to_owned()), ..self }
    }

    /// The classification declared here, defaults applied.
    pub fn classify(&self) -> (r: Classification)
        ensures
            r@ == declared(self.category, opt_str(self.label), opt_str(self.advice)),
    {
        let category = match self.category {
            Some(c) => c,
            None => DiagnosticCategory::Misc,
        };
        let label = match &self.label {
            Some(l) => l.clone(),
            None => DEFAULT_LABEL.to_owned(),
        };
        let advice = match &self.advice {
            Some(a) => Some(a.clone()),
            None => None,
        };
        Classification { category, label, advice }
    }
}

/// An error that carries a classification and, per category, metadata.
pub trait Diagnostic: Net + FsPath + Parseable {
    /// What `classification` returns; each implementation states it.
    closed spec fn classified(&self) -> Classified {
        arbitrary()
    }

    /// The message that describes the error itself, where this library knows it; the text
    /// of an error of an outside crate is that crate's.
    closed spec fn message_of(&self) -> Option<Seq<char>> {
        arbitrary()
    }

    fn classification(&self) -> (r: Classification)
        ensures
            r@ == self.classified(),
    ;

    fn message(&self) -> (r: String)
        ensures
            self.message_of() matches Some(m) ==> r@ == m,
    ;

    fn category(&self) -> (r: DiagnosticCategory)
        ensures
            r == self.classified().category,
    {
        self.classification().category
    }

    fn label(&self) -> (r: String)
        ensures
            r@ == self.classified().label,
    {
        self.classification().label
    }

    fn advice(&self) -> (r: Option<String>)
        ensures
            opt_str(r) == self.classified().advice,
    {
        self.classification().advice
    }
}

/// The classification of a variant that hands it on to the error it wraps.
pub fn delegated<E: Diagnostic>(inner: &E) -> (r: Classification)
    ensures
        r@ == inner.classified(),
{
    inner.classification()
}

/// A copy of an optional string.
pub fn copy_opt_string(o: &Option<String>) -> (r: Option<String>)
    ensures
        r == *o,
{
    match o {
        Some(s) => Some(s.clone()),
        None => None,
    }
}

impl NetMeta {
    /// A copy of this metadata.
    pub fn copy(&self) -> (r: NetMeta)
        ensures
            r == *self,
    {
        NetMeta { host: self.host.clone(), url: copy_opt_string(&self.url) }
    }
}

impl PathMeta {
    /// A copy of this metadata.
    pub fn copy(&self) -> (r: PathMeta)
        ensures
            r == *self,
    {
        PathMeta { path: self.path.clone() }
    }
}

impl ParseMeta {
    /// A copy of this metadata.
    pub fn copy(&self) -> (r: ParseMeta)
        ensures
            r == *self,
    {
        ParseMeta {
            input: self.input.clone(),
            row: self.row,
            col: self.col,
            path: copy_opt_string(&self.path),
        }
    }
}

/// The metadata that an error of category `category` carries, chosen among what it offers.
pub open spec fn selected_meta(
    category: DiagnosticCategory,
    net: Option<NetMeta>,
    path: Option<PathMeta>,
    parse: Option<ParseMeta>,
) -> Option<ErrorMeta> {
    match category {
        DiagnosticCategory::Misc => None,
        DiagnosticCategory::Net => match net {
            Some(m) => Some(ErrorMeta::Net(m)),
            None => None,
        },
        DiagnosticCategory::Fs => match path {
            Some(m) => Some(ErrorMeta::Path(m)),
            None => None,
        },
        DiagnosticCategory::Parse => match parse {
            Some(m) => Some(ErrorMeta::Parse(m)),
            None => None,
        },
    }
}

/// The metadata that `e` carries once classified.
pub open spec fn meta_of<E: Diagnostic>(e: &E) -> Option<ErrorMeta> {
    selected_meta(e.classified().category, e.net_meta(), e.path_meta(), e.parse_meta())
}

/// The text shown after the label of an error: the URL, else the host, of a network error.
pub open spec fn endpoint_of(category: DiagnosticCategory, meta: Option<ErrorMeta>) -> Option<Seq<char>> {
    if category == DiagnosticCategory::Net {
        match meta {
            Some(ErrorMeta::Net(m)) => match m.url {
                Some(u) => Some(u@),
                None => Some(m.host@),
            },
            _ => None,
        }
    } else {
        None
    }
}

/// The rendered text of an error: the label, ` @ ` and the endpoint if there is one, a blank
/// line, the cause's message, and, if there is advice, a blank line, the help word, `: ` and
/// the advice.
pub open spec fn rendered(
    label: Seq<char>,
    endpoint: Option<Seq<char>>,
    cause: Seq<char>,
    help: Seq<char>,
    advice: Option<Seq<char>>,
) -> Seq<char> {
    label + match endpoint {
        Some(t) => " @ "@ + t,
        None => Seq::<char>::empty(),
    } + "\n\n"@ + cause + match advice {
        Some(a) => "\n\n"@ + help + ": "@ + a,
        None => Seq::<char>::empty(),
    }
}

/// A classified error, ready to be shown to a user.
#[derive(Debug)]
pub struct DiagnosticError {
    cause: String,
    category: DiagnosticCategory,
    label: String,
    advice: Option<String>,
    meta: Option<ErrorMeta>,
}

impl DiagnosticError {
    pub closed spec fn cause_view(&self) -> Seq<char> {
        self.cause@
    }

    pub closed spec fn category_view(&self) -> DiagnosticCategory {
        self.category
    }

    pub closed spec fn label_view(&self) -> Seq<char> {
        self.label@
    }

    pub closed spec fn advice_view(&self) -> Option<Seq<char>> {
        opt_str(self.advice)
    }

    pub closed spec fn meta_view(&self) -> Option<ErrorMeta> {
        self.meta
    }

    /// Classifies `error`, keeping its message as the cause and the metadata that its
    /// category admits.
    pub fn from_diagnostic<E: Diagnostic>(error: E) -> (r: DiagnosticError)
        ensures
            error.message_of() matches Some(m) ==> r.cause_view() == m,
            r.category_view() == error.classified().category,
            r.label_view() == error.classified().label,
            r.advice_view() == error.classified().advice,
            r.meta_view() == meta_of(&error),
            meta_fits(r.category_view(), r.meta_view()),
    {
        let c = error.classification();
        let meta = match c.category {
            DiagnosticCategory::Misc => None,
            DiagnosticCategory::Net => match error.net() {
                Some(m) => Some(ErrorMeta::Net(m)),
                None => None,
            },
            DiagnosticCategory::Fs => match error.path() {
                Some(m) => Some(ErrorMeta::Path(m)),
                None => None,
            },
            DiagnosticCategory::Parse => match error.parse_report() {
                Some(m) => Some(ErrorMeta::Parse(m)),
                None => None,
            },
        };
        DiagnosticError {
            cause: error.message(),
            category: c.category,
            label: c.label,
            advice: c.advice,
            meta,
        }
    }

    /// An error of a type that carries no classification: `Misc`, with the given label, no
    /// advice and no metadata.
    pub fn ad_hoc(cause: String, label: &str) -> (r: DiagnosticError)
        ensures
            r.cause_view() == cause@,
            r.category_view() == DiagnosticCategory::Misc,
            r.label_view() == label@,
            r.advice_view() is None,
            r.meta_view() is None,
            meta_fits(r.category_view(), r.meta_view()),
    {
        DiagnosticError {
            cause,
            category: DiagnosticCategory::Misc,
            label: label.to_owned(),
            advice: None,
            meta: None,
        }
    }

    pub fn cause(&self) -> (r: &String)
        ensures
            r@ == self.cause_view(),
    {
        &self.cause
    }

    pub fn category(&self) -> (r: DiagnosticCategory)
        ensures
            r == self.category_view(),
    {
        self.category
    }

    pub fn label(&self) -> (r: &String)
        ensures
            r@ == self.label_view(),
    {
        &self.label
    }

    pub fn advice(&self) -> (r: &Option<String>)
        ensures
            opt_str(*r) == self.advice_view(),
    {
        &self.advice
    }

    pub fn meta(&self) -> (r: &Option<ErrorMeta>)
        ensures
            *r == self.meta_view(),
    {
        &self.meta
    }

    /// The URL, else the host, of a network error.
    fn endpoint(&self) -> (r: Option<&String>)
        ensures
            match r {
                Some(t) => endpoint_of(self.category_view(), self.meta_view()) == Some(t@),
                None => endpoint_of(self.category_view(), self.meta_view()) is None,
            },
    {
        match self.category {
            DiagnosticCategory::Net => match &self.meta {
                Some(ErrorMeta::Net(m)) => match &m.url {
                    Some(u) => Some(u),
                    None => Some(&m.host),
                },
                _ => None,
            },
            _ => None,
        }
    }

    /// The error as text: the label, ` @ ` and the URL (else the host) for a network error,
    /// a blank line, the cause's message, then, if there is advice, a blank line and
    /// `help: ` followed by the advice.
    pub fn render(&self) -> (r: String)
        ensures
            r@ == rendered(
                self.label_view(),
                endpoint_of(self.category_view(), self.meta_view()),
                self.cause_view(),
                "help"@,
                self.advice_view(),
            ),
    {
        compose(&self.label, self.endpoint(), &self.cause, "help", &self.advice)
    }
}

impl Net for DiagnosticError {
    open spec fn net_meta(&self) -> Option<NetMeta> {
        match self.meta_view() {
            Some(ErrorMeta::Net(m)) => Some(m),
            _ => None,
        }
    }

    fn net(&self) -> (r: Option<NetMeta>) {
        match &self.meta {
            Some(ErrorMeta::Net(m)) => Some(m.copy()),
            _ => None,
        }
    }
}

impl FsPath for DiagnosticError {
    open spec fn path_meta(&self) -> Option<PathMeta> {
        match self.meta_view() {
            Some(ErrorMeta::Path(m)) => Some(m),
            _ => None,
        }
    }

    fn path(&self) -> (r: Option<PathMeta>) {
        match &self.meta {
            Some(ErrorMeta::Path(m)) => Some(m.copy()),
            _ => None,
        }
    }
}

impl Parseable for DiagnosticError {
    open spec fn parse_meta(&self) -> Option<ParseMeta> {
        match self.meta_view() {
            Some(ErrorMeta::Parse(m)) => Some(m),
            _ => None,
        }
    }

    fn parse_report(&self) -> (r: Option<ParseMeta>) {
        match &self.meta {
            Some(ErrorMeta::Parse(m)) => Some(m.copy()),
            _ => None,
        }
    }
}

/// A diagnostic error is classified as it was when it was made.
impl Diagnostic for DiagnosticError {
    open spec fn classified(&self) -> Classified {
        Classified {
            category: self.category_view(),
            label: self.label_view(),
            advice: self.advice_view(),
        }
    }

    open spec fn message_of(&self) -> Option<Seq<char>> {
        Some(self.cause_view())
    }

    fn classification(&self) -> (r: Classification) {
        Classification {
            category: self.category,
            label: self.label.clone(),
            advice: copy_opt_string(&self.advice),
        }
    }

    fn message(&self) -> (r: String) {
        self.cause.clone()
    }
}

/// Turns the error of a result into a diagnostic error by the ad hoc path.
pub trait AsDiagnostic<T, E>: Sized {
    /// What `as_diagnostic` returns for `self` and `label`.
    spec fn as_diagnostic_result(self, label: Seq<char>, r: Result<T, DiagnosticError>) -> bool;

    fn as_diagnostic(self, label: &str) -> (r: Result<T, DiagnosticError>)
        ensures
            Self::as_diagnostic_result(self, label@, r),
    ;
}

impl<T, E: core::fmt::Display> AsDiagnostic<T, E> for Result<T, E> {
    /// A value passes through; an error becomes `Misc` with the label, no advice and no
    /// metadata.
    open spec fn as_diagnostic_result(self, label: Seq<char>, r: Result<T, DiagnosticError>) -> bool {
        match (self, r) {
            (Ok(v), Ok(w)) => v == w,
            (Err(_), Err(d)) => {
                &&& d.category_view() == DiagnosticCategory::Misc
                &&& d.label_view() == label
                &&& d.advice_view() is None
                &&& d.meta_view() is None
            },
            _ => false,
        }
    }

    fn as_diagnostic(self, label: &str) -> (r: Result<T, DiagnosticError>) {
        match self {
            Ok(v) => Ok(v),
            Err(e) => Err(DiagnosticError::ad_hoc(e.to_string(), label)),
        }
    }
}

/// Whether `r` shows `t` the way the terminal styling leaves it: either `t` itself, or a
/// text that opens with a style sequence `ESC [` and closes with the reset `ESC [0m`.
pub open spec fn shows(t: Seq<char>, r: Seq<char>) -> bool {
    ||| r == t
    ||| {
        &&& r.len() >= 6
        &&& r[0] == '\u{1b}'
        &&& r[1] == '['
        &&& r.subrange(r.len() - 4, r.len() as int) == seq!['\u{1b}', '[', '0', 'm']
    }
}

/// `shows` for an optional text.
pub open spec fn shows_opt(t: Option<Seq<char>>, r: Option<Seq<char>>) -> bool {
    match (t, r) {
        (Some(a), Some(b)) => shows(a, b),
        (None, None) => true,
        _ => false,
    }
}

/// Relies on `colored::Colorize::red` and the `Display` of `ColoredString`: the text, plain
/// where colors are off, else between a style sequence and the reset sequence.
#[verifier::external_body]
fn paint_red(t: &str) -> (r: String)
    ensures
        shows(t@, r@),
{
    t.red().to_string()
}

/// Relies on `colored::Colorize::cyan` and `underline` and the `Display` of
/// `ColoredString`: the text, plain where colors are off, else between a style sequence and
/// the reset sequence.
#[verifier::external_body]
fn paint_link(t: &str) -> (r: String)
    ensures
        shows(t@, r@),
{
    t.cyan().underline().to_string()
}

/// Relies on `colored::Colorize::yellow` and the `Display` of `ColoredString`: the text,
/// plain where colors are off, else between a style sequence and the reset sequence.
#[verifier::external_body]
fn paint_yellow(t: &str) -> (r: String)
    ensures
        shows(t@, r@),
{
    t.yellow().to_string()
}

impl DiagnosticError {
    /// The error as text for a terminal: as `render`, with the label in red, the endpoint in
    /// underlined cyan and the help word in yellow, where the terminal takes colors.
    pub fn render_styled(&self) -> (r: String)
        ensures
            exists|l: Seq<char>, e: Option<Seq<char>>, h: Seq<char>|
                {
                    &&& shows(self.label_view(), l)
                    &&& shows_opt(endpoint_of(self.category_view(), self.meta_view()), e)
                    &&& shows("help"@, h)
                    &&& r@ == #[trigger] rendered(l, e, self.cause_view(), h, self.advice_view())
                },
    {
        let l = paint_red(self.label.as_str());
        let e = match self.endpoint() {
            Some(t) => Some(paint_link(t.as_str())),
            None => None,
        };
        let h = paint_yellow("help");
        let er = match &e {
            Some(x) => Some(x),
            None => None,
        };
        let r = compose(l.as_str(), er, self.cause.as_str(), h.as_str(), &self.advice);
        let ghost ev: Option<Seq<char>> = match e {
            Some(x) => Some(x@),
            None => None,
        };
        assert(shows_opt(endpoint_of(self.category_view(), self.meta_view()), ev));
        assert(r@ == rendered(l@, ev, self.cause_view(), h@, self.advice_view()));
        r
    }
}

/// A network error with both a host and a URL, and with advice, renders as its label, then
/// ` @ ` and the URL (not the host), then a blank line and the cause, then a blank line and
/// the advice after `help: `, in that order.
pub proof fn net_render_order(d: DiagnosticError, m: NetMeta, url: String, advice: Seq<char>)
    requires
        d.category_view() == DiagnosticCategory::Net,
        d.meta_view() == Some(ErrorMeta::Net(m)),
        m.url == Some(url),
        d.advice_view() == Some(advice),
    ensures
        rendered(
            d.label_view(),
            endpoint_of(d.category_view(), d.meta_view()),
            d.cause_view(),
            "help"@,
            d.advice_view(),
        ) == d.label_view() + " @ "@ + url@ + "\n\n"@ + d.cause_view() + "\n\nhelp: "@ + advice,
{
    reveal_strlit("\n\n");
    reveal_strlit("help");
    reveal_strlit(": ");
    reveal_strlit("\n\nhelp: ");
    assert("\n\n"@ + "help"@ + ": "@ + advice =~= "\n\nhelp: "@ + advice);
    assert(d.label_view() + " @ "@ + url@ + "\n\n"@ + d.cause_view() + ("\n\n"@ + "help"@ + ": "@ + advice)
        =~= d.label_view() + " @ "@ + url@ + "\n\n"@ + d.cause_view() + "\n\nhelp: "@ + advice);
    assert(d.label_view() + (" @ "@ + url@) + "\n\n"@ + d.cause_view() + ("\n\n"@ + "help"@ + ": "@ + advice)
        =~= d.label_view() + " @ "@ + url@ + "\n\n"@ + d.cause_view() + ("\n\n"@ + "help"@ + ": "@ + advice));
}

/// Joins the parts of a rendered error in their fixed order.
pub fn compose(label: &str, endpoint: Option<&String>, cause: &str, help: &str, advice: &Option<String>) -> (r: String)
    ensures
        r@ == rendered(
            label@,
            match endpoint {
                Some(t) => Some(t@),
                None => None,
            },
            cause@,
            help@,
            opt_str(*advice),
        ),
{
    let mut out = label.to_owned();
    match endpoint {
        Some(t) => {
            out.append(" @ ");
            out.append(t.as_str());
        },
        None => {},
    }
    out.append("\n\n");
    out.append(cause);
    match advice {
        Some(a) => {
            out.append("\n\n");
            out.append(help);
            out.append(": ");
            out.append(a.as_str());
        },
        None => {},
    }
    out
}

/// Whatever an error offers, the metadata kept when it is classified is the kind that its
/// category admits, and a `Misc` error keeps none.
pub proof fn meta_follows_category<E: Diagnostic>(e: &E)
    ensures
        meta_fits(e.classified().category, meta_of(e)),
        e.classified().category == DiagnosticCategory::Misc ==> meta_of(e) is None,
{
}

} // verus!
