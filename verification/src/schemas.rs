//! The `schemas` verb: from the flags of an invocation to one operation of the
//! schema registry, and from the operation to the request that performs it.

use vstd::prelude::*;
use vstd::string::*;
use crate::command::{
    failure, spec_failure, spec_success, spec_text, spec_unparsed, success, Action, ActionView,
    Exit, ExitView, HttpOutcome, Method, Request, RequestView, Stream,
};
use crate::table::{
    lemma_select_exclusive, lemma_select_total, select, spec_admits, spec_select, spec_table, Kind,
    Shape,
};
use crate::text::{decimal, spec_decimal};

verus! {

/// The flags of the `schemas` verb.
#[derive(Clone, Debug, PartialEq, Eq)]
pub struct Schemas {
    /// The registry's base URL.
    pub url: String,
    /// List the subjects.
    pub list: bool,
    /// The subject to work on.
    pub subject: Option<String>,
    /// The version of the subject.
    pub version: Option<u32>,
    /// Delete a subject or one of its versions.
    pub delete: bool,
    /// Fetch the schema alone.
    pub schema: bool,
    /// Register a new schema.
    pub register: bool,
    /// Check a schema.
    pub check: bool,
    /// The escaped schema, where it is not piped in. It is never looked into.
    pub escaped_schema: Option<String>,
}

/// The mathematical value of a [`Schemas`].
pub struct SchemasView {
    pub url: Seq<char>,
    pub list: bool,
    pub subject: Option<Seq<char>>,
    pub version: Option<u32>,
    pub delete: bool,
    pub schema: bool,
    pub register: bool,
    pub check: bool,
    pub escaped_schema: Option<Seq<char>>,
}

impl View for Schemas {
    type V = SchemasView;

    open spec fn view(&self) -> SchemasView {
        SchemasView {
            url: self.url@,
            list: self.list,
            subject: spec_text(self.subject),
            version: self.version,
            delete: self.delete,
            schema: self.schema,
            register: self.register,
            check: self.check,
            escaped_schema: spec_text(self.escaped_schema),
        }
    }
}

/// Where the body of a POST comes from.
#[derive(Clone, Debug, PartialEq, Eq)]
pub enum Body {
    /// The positional argument.
    Given(String),
    /// Standard input, read to its end.
    Piped,
}

/// The mathematical value of a [`Body`].
pub enum BodyView {
    Given(Seq<char>),
    Piped,
}

impl View for Body {
    type V = BodyView;

    open spec fn view(&self) -> BodyView {
        match *self {
            Body::Given(text) => BodyView::Given(text@),
            Body::Piped => BodyView::Piped,
        }
    }
}

/// One operation of the schema registry, with what it works on.
#[derive(Clone, Debug, PartialEq, Eq)]
pub enum SchemaOperation {
    ListSubjects,
    GetSubject { subject: String },
    GetVersion { subject: String, version: u32, schema_only: bool },
    DeleteVersion { subject: String, version: u32 },
    DeleteSubject { subject: String },
    CheckSubject { subject: String, body: Body },
    CheckVersion { subject: String, version: u32, body: Body },
    RegisterVersion { subject: String, body: Body },
}

/// The mathematical value of a [`SchemaOperation`].
pub enum OperationView {
    ListSubjects,
    GetSubject { subject: Seq<char> },
    GetVersion { subject: Seq<char>, version: u32, schema_only: bool },
    DeleteVersion { subject: Seq<char>, version: u32 },
    DeleteSubject { subject: Seq<char> },
    CheckSubject { subject: Seq<char>, body: BodyView },
    CheckVersion { subject: Seq<char>, version: u32, body: BodyView },
    RegisterVersion { subject: Seq<char>, body: BodyView },
}

impl View for SchemaOperation {
    type V = OperationView;

    open spec fn view(&self) -> OperationView {
        match *self {
            SchemaOperation::ListSubjects => OperationView::ListSubjects,
            SchemaOperation::GetSubject { subject } => OperationView::GetSubject { subject: subject@ },
            SchemaOperation::GetVersion { subject, version, schema_only } => OperationView::GetVersion {
                subject: subject@,
                version,
                schema_only,
            },
            SchemaOperation::DeleteVersion { subject, version } => OperationView::DeleteVersion {
                subject: subject@,
                version,
            },
            SchemaOperation::DeleteSubject { subject } => OperationView::DeleteSubject { subject: subject@ },
            SchemaOperation::CheckSubject { subject, body } => OperationView::CheckSubject {
                subject: subject@,
                body: body@,
            },
            SchemaOperation::CheckVersion { subject, version, body } => OperationView::CheckVersion {
                subject: subject@,
                version,
                body: body@,
            },
            SchemaOperation::RegisterVersion { subject, body } => OperationView::RegisterVersion {
                subject: subject@,
                body: body@,
            },
        }
    }
}

/// The kind of an operation.
pub open spec fn spec_kind(op: OperationView) -> Kind {
    match op {
        OperationView::ListSubjects => Kind::ListSubjects,
        OperationView::GetSubject { .. } => Kind::GetSubject,
        OperationView::GetVersion { .. } => Kind::GetVersion,
        OperationView::DeleteVersion { .. } => Kind::DeleteVersion,
        OperationView::DeleteSubject { .. } => Kind::DeleteSubject,
        OperationView::CheckSubject { .. } => Kind::CheckSubject,
        OperationView::CheckVersion { .. } => Kind::CheckVersion,
        OperationView::RegisterVersion { .. } => Kind::RegisterVersion,
    }
}

/// Which flags `s` carries.
pub open spec fn spec_shape(s: SchemasView) -> Shape {
    Shape {
        list: s.list,
        subject: s.subject is Some,
        version: s.version is Some,
        delete: s.delete,
        schema: s.schema,
        register: s.register,
        check: s.check,
        body: s.escaped_schema is Some,
    }
}

/// Where the body comes from: the positional argument where there is one,
/// standard input else.
pub open spec fn spec_body(s: SchemasView) -> BodyView {
    match s.escaped_schema {
        Some(text) => BodyView::Given(text),
        None => BodyView::Piped,
    }
}

/// The operation of the given kind on what `s` names, if `s` names all that
/// the kind works on.
pub open spec fn spec_construct(kind: Kind, s: SchemasView) -> Option<OperationView> {
    match (kind, s.subject, s.version) {
        (Kind::ListSubjects, _, _) => Some(OperationView::ListSubjects),
        (Kind::GetSubject, Some(subject), _) => Some(OperationView::GetSubject { subject }),
        (Kind::GetVersion, Some(subject), Some(version)) => Some(
            OperationView::GetVersion { subject, version, schema_only: s.schema },
        ),
        (Kind::DeleteVersion, Some(subject), Some(version)) => Some(
            OperationView::DeleteVersion { subject, version },
        ),
        (Kind::DeleteSubject, Some(subject), _) => Some(OperationView::DeleteSubject { subject }),
        (Kind::CheckSubject, Some(subject), _) => Some(
            OperationView::CheckSubject { subject, body: spec_body(s) },
        ),
        (Kind::CheckVersion, Some(subject), Some(version)) => Some(
            OperationView::CheckVersion { subject, version, body: spec_body(s) },
        ),
        (Kind::RegisterVersion, Some(subject), _) => Some(
            OperationView::RegisterVersion { subject, body: spec_body(s) },
        ),
        _ => None,
    }
}

/// The operation that the flags select: that of the table's row for their
/// shape. `None` where the table has no row for it.
pub open spec fn spec_operation(s: SchemasView) -> Option<OperationView> {
    match spec_select(spec_shape(s)) {
        Some(kind) => spec_construct(kind, s),
        None => None,
    }
}

/// `{url}/subjects`
pub open spec fn spec_subjects_url(url: Seq<char>) -> Seq<char> {
    url + "/subjects"@
}

/// `{url}/subjects/{subject}`
pub open spec fn spec_subject_url(url: Seq<char>, subject: Seq<char>) -> Seq<char> {
    url + "/subjects/"@ + subject
}

/// `{url}/subjects/{subject}/versions`
pub open spec fn spec_versions_url(url: Seq<char>, subject: Seq<char>) -> Seq<char> {
    url + "/subjects/"@ + subject + "/versions"@
}

/// `{url}/subjects/{subject}/versions/{version}`
pub open spec fn spec_version_url(url: Seq<char>, subject: Seq<char>, version: u32) -> Seq<char> {
    url + "/subjects/"@ + subject + "/versions/"@ + spec_decimal(version as nat)
}

/// `{url}/subjects/{subject}/versions/{version}/schema`
pub open spec fn spec_version_schema_url(url: Seq<char>, subject: Seq<char>, version: u32) -> Seq<
    char,
> {
    url + "/subjects/"@ + subject + "/versions/"@ + spec_decimal(version as nat) + "/schema"@
}

/// `{url}/compatibility/subjects/{subject}/versions/{version}`
pub open spec fn spec_compatibility_url(url: Seq<char>, subject: Seq<char>, version: u32) -> Seq<
    char,
> {
    url + "/compatibility/subjects/"@ + subject + "/versions/"@ + spec_decimal(version as nat)
}

/// The action that sends a GET to `url`.
pub open spec fn spec_get(url: Seq<char>) -> ActionView {
    ActionView::Send(RequestView { method: Method::Get, url, body: None })
}

/// The action that sends a DELETE to `url`.
pub open spec fn spec_delete(url: Seq<char>) -> ActionView {
    ActionView::Send(RequestView { method: Method::Delete, url, body: None })
}

/// The action that sends a POST to `url` with `body` as it stands.
pub open spec fn spec_post(url: Seq<char>, body: Seq<char>) -> ActionView {
    ActionView::Send(RequestView { method: Method::Post, url, body: Some(body) })
}

/// The action that leads to a POST to `url`: at once where the body is given,
/// by way of standard input where it is piped.
pub open spec fn spec_submit(url: Seq<char>, body: BodyView) -> ActionView {
    match body {
        BodyView::Given(text) => spec_post(url, text),
        BodyView::Piped => ActionView::Probe { url },
    }
}

/// The first action of an operation against the registry at `url`.
pub open spec fn spec_action(url: Seq<char>, op: OperationView) -> ActionView {
    match op {
        OperationView::ListSubjects => spec_get(spec_subjects_url(url)),
        OperationView::GetSubject { subject } => spec_get(spec_versions_url(url, subject)),
        OperationView::GetVersion { subject, version, schema_only } => if schema_only {
            spec_get(spec_version_schema_url(url, subject, version))
        } else {
            spec_get(spec_version_url(url, subject, version))
        },
        OperationView::DeleteVersion { subject, version } => spec_get(
            spec_version_url(url, subject, version),
        ),
        OperationView::DeleteSubject { subject } => spec_delete(spec_subject_url(url, subject)),
        OperationView::CheckSubject { subject, body } => spec_submit(
            spec_subject_url(url, subject),
            body,
        ),
        OperationView::CheckVersion { subject, version, body } => spec_submit(
            spec_compatibility_url(url, subject, version),
            body,
        ),
        OperationView::RegisterVersion { subject, body } => spec_submit(
            spec_versions_url(url, subject),
            body,
        ),
    }
}

/// The end of a run whose flags select no operation.
pub open spec fn spec_unknown() -> ExitView {
    spec_failure("Unknown argument combination!"@)
}

/// The first action of the `schemas` verb: that of the operation which the
/// flags select, or the end of the process where they select none.
pub open spec fn spec_run(s: SchemasView) -> ActionView {
    match spec_operation(s) {
        Some(op) => spec_action(s.url, op),
        None => ActionView::Exit(spec_unknown()),
    }
}

/// What follows the probe of standard input: a terminal ends the process,
/// anything else is announced and read.
pub open spec fn spec_piped_stdin(terminal: bool, url: Seq<char>) -> ActionView {
    if terminal {
        ActionView::Exit(spec_failure("No piped input found"@))
    } else {
        ActionView::Read { announce: "stdin\n"@, url }
    }
}

/// How the process ends on the registry's answer: status 200 is success, any
/// other status failure, each with the answer's body as its text.
pub open spec fn spec_http(status: u16, body: Seq<char>) -> ExitView {
    if status == 200 {
        spec_success(body)
    } else {
        spec_failure(body)
    }
}

/// `{url}/subjects`
fn subjects_url(url: &String) -> (r: String)
    ensures
        r@ == spec_subjects_url(url@),
{
    let mut r = url.clone();
    r.append("/subjects");
    r
}

/// `{url}/subjects/{subject}`
fn subject_url(url: &String, subject: &String) -> (r: String)
    ensures
        r@ == spec_subject_url(url@, subject@),
{
    let mut r = url.clone();
    r.append("/subjects/");
    r.append(subject.as_str());
    r
}

/// `{url}/subjects/{subject}/versions`
fn versions_url(url: &String, subject: &String) -> (r: String)
    ensures
        r@ == spec_versions_url(url@, subject@),
{
    let mut r = subject_url(url, subject);
    r.append("/versions");
    r
}

/// `{url}/subjects/{subject}/versions/{version}`
fn version_url(url: &String, subject: &String, version: u32) -> (r: String)
    ensures
        r@ == spec_version_url(url@, subject@, version),
{
    let mut r = subject_url(url, subject);
    r.append("/versions/");
    let numeral = decimal(version);
    r.append(numeral.as_str());
    r
}

/// `{url}/subjects/{subject}/versions/{version}/schema`
fn version_schema_url(url: &String, subject: &String, version: u32) -> (r: String)
    ensures
        r@ == spec_version_schema_url(url@, subject@, version),
{
    let mut r = version_url(url, subject, version);
    r.append("/schema");
    r
}

/// `{url}/compatibility/subjects/{subject}/versions/{version}`
fn compatibility_url(url: &String, subject: &String, version: u32) -> (r: String)
    ensures
        r@ == spec_compatibility_url(url@, subject@, version),
{
    let mut r = url.clone();
    r.append("/compatibility/subjects/");
    r.append(subject.as_str());
    r.append("/versions/");
    let numeral = decimal(version);
    r.append(numeral.as_str());
    r
}

/// Lists the subjects of the registry.
pub fn list(url: &String) -> (a: Action)
    ensures
        a@ == spec_get(spec_subjects_url(url@)),
{
    http_get(&subjects_url(url))
}

/// Deletes one version of a subject. The request is a GET, on the path of
/// the version.
pub fn delete_version(url: &String, subject: &String, version: &u32) -> (a: Action)
    ensures
        a@ == spec_get(spec_version_url(url@, subject@, *version)),
{
    http_get(&version_url(url, subject, *version))
}

/// Checks a piped schema against one version of a subject.
pub fn check_version_stdin(url: &String, subject: &String, version: &u32) -> (a: Action)
    ensures
        a@ == (ActionView::Probe { url: spec_compatibility_url(url@, subject@, *version) }),
{
    Action::Probe { url: compatibility_url(url, subject, *version) }
}

/// Checks the given schema against one version of a subject.
pub fn check_version(url: &String, subject: &String, version: &u32, escaped_schema: &String) -> (a:
    Action)
    ensures
        a@ == spec_post(spec_compatibility_url(url@, subject@, *version), escaped_schema@),
{
    http_post(&compatibility_url(url, subject, *version), escaped_schema)
}

/// Fetches one version of a subject: the schema alone where `schema` is set,
/// the whole record else.
pub fn get_version(url: &String, subject: &String, version: &u32, schema: &bool) -> (a: Action)
    ensures
        a@ == if *schema {
            spec_get(spec_version_schema_url(url@, subject@, *version))
        } else {
            spec_get(spec_version_url(url@, subject@, *version))
        },
{
    if *schema {
        http_get(&version_schema_url(url, subject, *version))
    } else {
        http_get(&version_url(url, subject, *version))
    }
}

/// Deletes a subject.
pub fn delete(url: &String, subject: &String) -> (a: Action)
    ensures
        a@ == spec_delete(spec_subject_url(url@, subject@)),
{
    http_delete(&subject_url(url, subject))
}

/// Checks a piped schema against a subject. The request goes to the path of
/// the subject.
pub fn check_stdin(url: &String, subject: &String) -> (a: Action)
    ensures
        a@ == (ActionView::Probe { url: spec_subject_url(url@, subject@) }),
{
    Action::Probe { url: subject_url(url, subject) }
}

/// Checks the given schema against a subject. The request goes to the path
/// of the subject.
pub fn check(url: &String, subject: &String, escaped_schema: &String) -> (a: Action)
    ensures
        a@ == spec_post(spec_subject_url(url@, subject@), escaped_schema@),
{
    http_post(&subject_url(url, subject), escaped_schema)
}

/// Lists the versions of a subject.
pub fn get(url: &String, subject: &String) -> (a: Action)
    ensures
        a@ == spec_get(spec_versions_url(url@, subject@)),
{
    http_get(&versions_url(url, subject))
}

/// Registers a piped schema as a new version of a subject.
pub fn register_stdin(url: &String, subject: &String) -> (a: Action)
    ensures
        a@ == (ActionView::Probe { url: spec_versions_url(url@, subject@) }),
{
    Action::Probe { url: versions_url(url, subject) }
}

/// Registers the given schema as a new version of a subject.
pub fn register(url: &String, subject: &String, escaped_schema: &String) -> (a: Action)
    ensures
        a@ == spec_post(spec_versions_url(url@, subject@), escaped_schema@),
{
    http_post(&versions_url(url, subject), escaped_schema)
}

/// Decides what follows the probe of standard input, where the body of a POST
/// to `url` is awaited: on a terminal the process ends, else the input is
/// announced and read.
pub fn piped_stdin(terminal: bool, url: String) -> (a: Action)
    ensures
        a@ == spec_piped_stdin(terminal, url@),
{
    if terminal {
        Action::Exit(failure(&String::from_str("No piped input found")))
    } else {
        Action::Read { announce: String::from_str("stdin\n"), url }
    }
}

/// The action that sends a GET to `url`.
pub fn http_get(url: &String) -> (a: Action)
    ensures
        a@ == spec_get(url@),
{
    Action::Send(Request { method: Method::Get, url: url.clone(), body: None })
}

/// The action that sends a POST to `url` with `body` as it stands.
pub fn http_post(url: &String, body: &String) -> (a: Action)
    ensures
        a@ == spec_post(url@, body@),
{
    Action::Send(Request { method: Method::Post, url: url.clone(), body: Some(body.clone()) })
}

/// The action that sends a DELETE to `url`.
pub fn http_delete(url: &String) -> (a: Action)
    ensures
        a@ == spec_delete(url@),
{
    Action::Send(Request { method: Method::Delete, url: url.clone(), body: None })
}

/// Decides how the process ends on the registry's answer.
pub fn http(outcome: &HttpOutcome) -> (e: Exit)
    ensures
        e@ == spec_http(outcome.status, outcome.body@),
{
    if outcome.status == 200 {
        success(&outcome.body)
    } else {
        failure(&outcome.body)
    }
}

impl SchemaOperation {
    /// The first action of the operation against the registry at `url`.
    pub fn action(&self, url: &String) -> (a: Action)
        ensures
            a@ == spec_action(url@, self@),
    {
        match self {
            SchemaOperation::ListSubjects => list(url),
            SchemaOperation::GetSubject { subject } => get(url, subject),
            SchemaOperation::GetVersion { subject, version, schema_only } => get_version(
                url,
                subject,
                version,
                schema_only,
            ),
            SchemaOperation::DeleteVersion { subject, version } => delete_version(url, subject, version),
            SchemaOperation::DeleteSubject { subject } => delete(url, subject),
            SchemaOperation::CheckSubject { subject, body: Body::Given(text) } => check(
                url,
                subject,
                text,
            ),
            SchemaOperation::CheckSubject { subject, body: Body::Piped } => check_stdin(url, subject),
            SchemaOperation::CheckVersion { subject, version, body: Body::Given(text) } => check_version(
                url,
                subject,
                version,
                text,
            ),
            SchemaOperation::CheckVersion { subject, version, body: Body::Piped } => check_version_stdin(
                url,
                subject,
                version,
            ),
            SchemaOperation::RegisterVersion { subject, body: Body::Given(text) } => register(
                url,
                subject,
                text,
            ),
            SchemaOperation::RegisterVersion { subject, body: Body::Piped } => register_stdin(
                url,
                subject,
            ),
        }
    }
}

impl Schemas {
    /// Which flags the invocation carries.
    pub fn shape(&self) -> (r: Shape)
        ensures
            r == spec_shape(self@),
    {
        Shape {
            list: self.list,
            subject: self.subject.is_some(),
            version: self.version.is_some(),
            delete: self.delete,
            schema: self.schema,
            register: self.register,
            check: self.check,
            body: self.escaped_schema.is_some(),
        }
    }

    /// Where the body of a POST comes from.
    pub fn body(&self) -> (r: Body)
        ensures
            r@ == spec_body(self@),
    {
        match &self.escaped_schema {
            Some(text) => Body::Given(text.clone()),
            None => Body::Piped,
        }
    }

    /// The operation of the given kind on what the flags name.
    pub fn construct(&self, kind: Kind) -> (r: Option<SchemaOperation>)
        ensures
            match r {
                Some(op) => spec_construct(kind, self@) == Some(op@),
                None => spec_construct(kind, self@) is None,
            },
    {
        match (kind, &self.subject, self.version) {
            (Kind::ListSubjects, _, _) => Some(SchemaOperation::ListSubjects),
            (Kind::GetSubject, Some(subject), _) => Some(
                SchemaOperation::GetSubject { subject: subject.clone() },
            ),
            (Kind::GetVersion, Some(subject), Some(version)) => Some(
                SchemaOperation::GetVersion {
                    subject: subject.clone(),
                    version,
                    schema_only: self.schema,
                },
            ),
            (Kind::DeleteVersion, Some(subject), Some(version)) => Some(
                SchemaOperation::DeleteVersion { subject: subject.clone(), version },
            ),
            (Kind::DeleteSubject, Some(subject), _) => Some(
                SchemaOperation::DeleteSubject { subject: subject.clone() },
            ),
            (Kind::CheckSubject, Some(subject), _) => Some(
                SchemaOperation::CheckSubject { subject: subject.clone(), body: self.body() },
            ),
            (Kind::CheckVersion, Some(subject), Some(version)) => Some(
                SchemaOperation::CheckVersion { subject: subject.clone(), version, body: self.body() },
            ),
            (Kind::RegisterVersion, Some(subject), _) => Some(
                SchemaOperation::RegisterVersion { subject: subject.clone(), body: self.body() },
            ),
            _ => None,
        }
    }

    /// Selects the operation: looks the flags' shape up in the table and
    /// builds the operation of the kind found. `None` where the table has no
    /// row for the shape.
    pub fn operation(&self) -> (r: Option<SchemaOperation>)
        ensures
            match r {
                Some(op) => spec_operation(self@) == Some(op@),
                None => spec_operation(self@) is None,
            },
    {
        match select(&self.shape()) {
            Some(kind) => self.construct(kind),
            None => None,
        }
    }

    /// The first action of the verb: that of the selected operation, or the
    /// end of the process, with exit code 1, where the flags select none.
    pub fn run(&self) -> (a: Action)
        ensures
            a@ == spec_run(self@),
    {
        match self.operation() {
            Some(op) => op.action(&self.url),
            None => Action::Exit(failure(&String::from_str("Unknown argument combination!"))),
        }
    }
}

/// The request that a run transmits, if it comes to transmit one: `terminal`
/// says whether standard input is a terminal, `piped` is what it holds
/// otherwise.
pub open spec fn spec_transmitted(s: SchemasView, terminal: bool, piped: Seq<char>) -> Option<
    RequestView,
> {
    match spec_run(s) {
        ActionView::Send(request) => Some(request),
        ActionView::Probe { url } => match spec_piped_stdin(terminal, url) {
            ActionView::Read { announce, url } => Some(
                RequestView { method: Method::Post, url, body: Some(piped) },
            ),
            _ => None,
        },
        _ => None,
    }
}

/// Whether an operation only reads from the registry.
pub open spec fn spec_reads(op: OperationView) -> bool {
    op is ListSubjects || op is GetSubject || op is GetVersion
}

/// Whether an operation sends a body.
pub open spec fn spec_posts(op: OperationView) -> bool {
    op is CheckSubject || op is CheckVersion || op is RegisterVersion
}

/// Flags that a row of the table matches are matched by no other row, and
/// select exactly one operation: that of the row's kind, on the subject and
/// version that the flags name. The run then starts with that operation's
/// action and does not end as an unknown combination.
pub proof fn lemma_dispatch_total(s: SchemasView, i: int)
    requires
        0 <= i < spec_table().len(),
        spec_admits(spec_table()[i], spec_shape(s)),
    ensures
        forall|j: int|
            0 <= j < spec_table().len() && j != i ==> !spec_admits(
                #[trigger] spec_table()[j],
                spec_shape(s),
            ),
        spec_operation(s) is Some,
        spec_kind(spec_operation(s)->0) == spec_table()[i].kind,
        spec_operation(s) == spec_construct(spec_table()[i].kind, s),
        spec_run(s) == spec_action(s.url, spec_operation(s)->0),
        !(spec_run(s) is Exit),
{
    lemma_select_total(spec_shape(s), i);
}

/// Flags that no row of the table matches select no operation, and the run
/// ends at once: `Unknown argument combination!` on standard error, exit
/// code 1. A run ends so on no other flags.
pub proof fn lemma_dispatch_exclusive(s: SchemasView)
    ensures
        (forall|i: int|
            0 <= i < spec_table().len() ==> !spec_admits(#[trigger] spec_table()[i], spec_shape(s)))
            <==> spec_operation(s) is None,
        spec_operation(s) is None <==> spec_run(s) == ActionView::Exit(spec_unknown()),
        spec_unknown().stream == Stream::Stderr,
        spec_unknown().text == "Unknown argument combination!"@ + "\n"@,
        spec_unknown().code == 1,
{
    lemma_select_exclusive(spec_shape(s));
    if spec_select(spec_shape(s)) is Some {
        let i = choose|i: int|
            0 <= i < spec_table().len() && spec_admits(#[trigger] spec_table()[i], spec_shape(s));
        lemma_dispatch_total(s, i);
    }
}

/// Where the flags carry a positional body, standard input is never asked
/// for, and a request that is transmitted carries the positional body,
/// whatever standard input is or holds.
pub proof fn lemma_body_precedence(s: SchemasView, body: Seq<char>, terminal: bool, piped: Seq<char>)
    requires
        s.escaped_schema == Some(body),
    ensures
        !(spec_run(s) is Probe),
        !(spec_run(s) is Read),
        spec_transmitted(s, terminal, piped) is Some ==> spec_transmitted(s, terminal, piped)->0.body
            == Some(body),
        spec_transmitted(s, terminal, piped) == spec_transmitted(s, true, Seq::empty()),
{
    lemma_dispatch_exclusive(s);
    if spec_operation(s) is Some {
        let i = choose|i: int|
            0 <= i < spec_table().len() && spec_admits(#[trigger] spec_table()[i], spec_shape(s));
        lemma_dispatch_total(s, i);
    }
}

/// Standard input is asked for exactly when the selected operation sends a
/// body and the flags carry none. What is read is then the body, as it
/// stands.
pub proof fn lemma_stdin_consulted(s: SchemasView, piped: Seq<char>)
    ensures
        spec_run(s) is Probe <==> (spec_operation(s) is Some && spec_posts(spec_operation(s)->0)
            && s.escaped_schema is None),
        spec_run(s) is Probe ==> spec_transmitted(s, true, piped) is None,
        spec_run(s) is Probe ==> spec_transmitted(s, false, piped) == Some(
            RequestView { method: Method::Post, url: spec_run(s)->Probe_url, body: Some(piped) },
        ),
{
    lemma_dispatch_exclusive(s);
    if spec_operation(s) is Some {
        let i = choose|i: int|
            0 <= i < spec_table().len() && spec_admits(#[trigger] spec_table()[i], spec_shape(s));
        lemma_dispatch_total(s, i);
    }
}

/// An operation that only reads sends one GET without a body, whatever
/// standard input is or holds, and on status 200 the run writes the answer's
/// body and a line feed to standard output: what such a run writes is fixed
/// by the flags and the registry's answer alone.
pub proof fn lemma_reads_repeat(s: SchemasView, status: u16, body: Seq<char>)
    requires
        spec_operation(s) is Some,
        spec_reads(spec_operation(s)->0),
    ensures
        spec_run(s) is Send,
        spec_run(s)->Send_0.method == Method::Get,
        spec_run(s)->Send_0.body is None,
        forall|terminal: bool, piped: Seq<char>| #[trigger]
            spec_transmitted(s, terminal, piped) == Some(spec_run(s)->Send_0),
        status == 200 ==> spec_http(status, body) == spec_success(body),
{
}

/// The exit codes: 0 on status 200, 1 on any other status, 2 where the
/// arguments could not be parsed.
pub proof fn lemma_exit_codes(status: u16, body: Seq<char>, rendered: Seq<char>)
    ensures
        status == 200 ==> spec_http(status, body).code == 0,
        status != 200 ==> spec_http(status, body).code == 1,
        spec_unparsed(false, rendered).code == 2,
{
}

} // verus!
