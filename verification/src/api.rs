//! Signed calls to AWS service APIs, and the steps of a flow made of them.
//!
//! A flow (ensuring a role, provisioning a database) alternates calls and decisions.
//! Its state is the list of the replies that came back so far: the flow's function
//! maps them to the next call, or to the end. Whoever runs it performs the call,
//! appends what came back and asks again.
use crate::aws_sign;
use crate::aws_sign::{authorization_header, sha256_hex};
use crate::credentials;
use crate::credentials::AwsCredentials;
use crate::encode;
use crate::extract;
use crate::extract::{extract_json_str, extract_tag};
use crate::number;
use crate::number::to_decimal;
use crate::settings;
use crate::settings::value_or;
use crate::text;
use crate::text::same_text;
use crate::transport;
use crate::transport::{HttpReply, HttpRequest};
use vstd::prelude::*;
use vstd::string::*;

verus! {

/// Why a call failed.
#[derive(Clone, Debug, PartialEq, Eq)]
pub struct ApiError {
    /// The wording of the error.
    pub text: String,
    /// The error code that the service answered with, where it gave one.
    pub code: Option<String>,
}

/// What an [`ApiError`] holds.
#[verifier::ext_equal]
pub struct ApiErrorView {
    pub text: Seq<char>,
    pub code: Option<Seq<char>>,
}

impl View for ApiError {
    type V = ApiErrorView;

    open spec fn view(&self) -> ApiErrorView {
        ApiErrorView { text: self.text@, code: text::opt_text(self.code) }
    }
}

impl ApiError {
    /// Whether the service answered with that error code.
    pub fn has_code(&self, code: &str) -> (has: bool)
        ensures
            has == (self@.code == Some(code@)),
    {
        match &self.code {
            Some(c) => same_text(c.as_str(), code),
            None => false,
        }
    }
}

/// What came back for a call: the text of the answer, or why the call failed.
pub type Reply = Result<String, ApiError>;

/// What a [`Reply`] holds.
pub type ReplyView = Result<Seq<char>, ApiErrorView>;

/// What a reply holds.
pub open spec fn answer(reply: Reply) -> ReplyView {
    match reply {
        Ok(body) => Ok(body@),
        Err(e) => Err(e@),
    }
}

/// Which API a call is made to: how its errors are worded, and where their message and
/// their code stand.
pub enum Api {
    Iam,
    Rds,
    Sqs,
    SecretsManager,
    BackupPost,
    BackupGet,
    /// The S3 operation of that name.
    S3(String),
}

/// What an [`Api`] holds.
pub enum ApiView {
    Iam,
    Rds,
    Sqs,
    SecretsManager,
    BackupPost,
    BackupGet,
    S3(Seq<char>),
}

impl View for Api {
    type V = ApiView;

    open spec fn view(&self) -> ApiView {
        match self {
            Api::Iam => ApiView::Iam,
            Api::Rds => ApiView::Rds,
            Api::Sqs => ApiView::Sqs,
            Api::SecretsManager => ApiView::SecretsManager,
            Api::BackupPost => ApiView::BackupPost,
            Api::BackupGet => ApiView::BackupGet,
            Api::S3(op) => ApiView::S3(op@),
        }
    }
}

impl ApiView {
    /// How the API is called in errors.
    pub open spec fn label(self) -> Seq<char> {
        match self {
            ApiView::Iam => "IAM API"@,
            ApiView::Rds => "RDS API"@,
            ApiView::Sqs => "SQS API"@,
            ApiView::SecretsManager => "Secrets Manager"@,
            ApiView::BackupPost => "AWS Backup API"@,
            ApiView::BackupGet => "AWS Backup GET"@,
            ApiView::S3(op) => "S3 "@ + op,
        }
    }

    /// The message in the text of an error reply.
    pub open spec fn message(self, body: Seq<char>) -> Seq<char> {
        match self {
            ApiView::Iam | ApiView::Rds | ApiView::Sqs => settings::text_or(
                extract::tag_text(body, "Message"@),
                settings::text_or(extract::tag_text(body, "message"@), body),
            ),
            ApiView::S3(_) => settings::text_or(extract::tag_text(body, "Message"@), body),
            ApiView::BackupPost | ApiView::BackupGet => settings::text_or(
                extract::json_text(body, "message"@),
                settings::text_or(extract::json_text(body, "Message"@), body),
            ),
            ApiView::SecretsManager => body,
        }
    }

    /// The error code in the text of an error reply, for the APIs that answer in XML.
    pub open spec fn code(self, body: Seq<char>) -> Option<Seq<char>> {
        match self {
            ApiView::Iam | ApiView::Rds | ApiView::Sqs | ApiView::S3(_) => extract::tag_text(
                body,
                "Code"@,
            ),
            _ => None,
        }
    }

    /// Whether a reply with this status is an error. A backup resource that already
    /// exists is none.
    pub open spec fn fails(self, status: nat) -> bool {
        status >= 400 && !(self is BackupPost && status == 409)
    }

    /// What a call gives for a reply with this status and text.
    pub open spec fn result(self, status: nat, body: Seq<char>) -> ReplyView {
        if self.fails(status) {
            Err(
                ApiErrorView {
                    text: self.label() + " error "@ + number::decimal(status) + ": "@
                        + self.message(body),
                    code: self.code(body),
                },
            )
        } else {
            Ok(body)
        }
    }

    /// What a call gives for what came back.
    pub open spec fn outcome(self, reply: Result<HttpReply, String>) -> ReplyView {
        match reply {
            Err(e) => Err(
                ApiErrorView { text: self.label() + " HTTP error: "@ + e@, code: None },
            ),
            Ok(reply) => self.result(reply.status as nat, transport::utf8_lossy(reply.body@)),
        }
    }
}

impl Api {
    /// How the API is called in errors.
    fn label(&self) -> (label: String)
        ensures
            label@ == self@.label(),
    {
        match self {
            Api::Iam => "IAM API".to_owned(),
            Api::Rds => "RDS API".to_owned(),
            Api::Sqs => "SQS API".to_owned(),
            Api::SecretsManager => "Secrets Manager".to_owned(),
            Api::BackupPost => "AWS Backup API".to_owned(),
            Api::BackupGet => "AWS Backup GET".to_owned(),
            Api::S3(op) => "S3 ".to_owned().concat(op.as_str()),
        }
    }

    /// The message in the text of an error reply.
    fn message(&self, body: &str) -> (msg: String)
        ensures
            msg@ == self@.message(body@),
    {
        match self {
            Api::Iam | Api::Rds | Api::Sqs => {
                let other = value_or(extract_tag(body, "message"), body);
                value_or(extract_tag(body, "Message"), other.as_str())
            },
            Api::S3(_) => value_or(extract_tag(body, "Message"), body),
            Api::BackupPost | Api::BackupGet => {
                let other = value_or(extract_json_str(body, "Message"), body);
                value_or(extract_json_str(body, "message"), other.as_str())
            },
            Api::SecretsManager => body.to_owned(),
        }
    }

    /// The error code in the text of an error reply, for the APIs that answer in XML.
    fn code(&self, body: &str) -> (code: Option<String>)
        ensures
            text::opt_text(code) == self@.code(body@),
    {
        match self {
            Api::Iam | Api::Rds | Api::Sqs | Api::S3(_) => extract_tag(body, "Code"),
            _ => None,
        }
    }

    /// What a call gives for a reply with this status and text: the text, or the
    /// wording and the code of an error.
    pub fn read(&self, status: u16, body: String) -> (result: Reply)
        ensures
            answer(result) == self@.result(status as nat, body@),
    {
        let conflict = match self {
            Api::BackupPost => status == 409,
            _ => false,
        };
        if status >= 400 && !conflict {
            let mut error = self.label();
            error.append(" error ");
            error.append(to_decimal(status as u64).as_str());
            error.append(": ");
            error.append(self.message(body.as_str()).as_str());
            return Err(ApiError { text: error, code: self.code(body.as_str()) });
        }
        Ok(body)
    }
}

/// A call to an AWS API, ready to be signed.
pub struct ApiCall {
    pub api: Api,
    pub method: String,
    pub host: String,
    pub path: String,
    /// The canonical query string.
    pub query: String,
    pub url: String,
    /// `None` for a call that is sent without a body.
    pub body: Option<String>,
    /// The region whose clock the call is signed by.
    pub clock_region: String,
    /// The region that the signature is for.
    pub signing_region: String,
    /// The service that the signature is for.
    pub service: String,
    pub content_type: Option<String>,
    /// The value of the `X-Amz-Target` header.
    pub target: Option<String>,
    /// Whether the `X-Amz-Content-Sha256` header is sent.
    pub send_hash: bool,
}

/// What an [`ApiCall`] holds.
#[verifier::ext_equal]
pub struct ApiCallView {
    pub api: ApiView,
    pub method: Seq<char>,
    pub host: Seq<char>,
    pub path: Seq<char>,
    pub query: Seq<char>,
    pub url: Seq<char>,
    pub body: Option<Seq<char>>,
    pub clock_region: Seq<char>,
    pub signing_region: Seq<char>,
    pub service: Seq<char>,
    pub content_type: Option<Seq<char>>,
    pub target: Option<Seq<char>>,
    pub send_hash: bool,
}

impl View for ApiCall {
    type V = ApiCallView;

    open spec fn view(&self) -> ApiCallView {
        ApiCallView {
            api: self.api@,
            method: self.method@,
            host: self.host@,
            path: self.path@,
            query: self.query@,
            url: self.url@,
            body: text::opt_text(self.body),
            clock_region: self.clock_region@,
            signing_region: self.signing_region@,
            service: self.service@,
            content_type: text::opt_text(self.content_type),
            target: text::opt_text(self.target),
            send_hash: self.send_hash,
        }
    }
}

/// A header that is sent where it has a value.
pub open spec fn optional_header(
    name: Seq<char>,
    value: Option<Seq<char>>,
) -> Seq<(Seq<char>, Seq<char>)> {
    match value {
        Some(v) => seq![(name, v)],
        None => Seq::empty(),
    }
}

impl ApiCallView {
    /// The body that is signed.
    pub open spec fn payload(self) -> Seq<char> {
        settings::text_or(self.body, Seq::empty())
    }

    /// What the call's `Authorization` header is made from.
    pub open spec fn signing_input(
        self,
        creds: credentials::AwsCredentialsView,
        datetime: Seq<char>,
    ) -> aws_sign::SigningInput {
        aws_sign::SigningInput {
            method: self.method,
            host: self.host,
            path: self.path,
            query: self.query,
            body: self.payload(),
            datetime,
            region: self.signing_region,
            service: self.service,
            access_key: creds.access_key,
            secret_key: creds.secret_key,
            session_token: creds.session_token,
            content_type: self.content_type,
        }
    }

    /// The signed request of the call.
    pub open spec fn signed(
        self,
        creds: credentials::AwsCredentialsView,
        datetime: Seq<char>,
    ) -> transport::HttpRequestView {
        let hash = if self.send_hash {
            Some(aws_sign::text_hash(self.payload()))
        } else {
            None
        };
        transport::HttpRequestView {
            method: self.method,
            url: self.url,
            headers: optional_header("Content-Type"@, self.content_type) + optional_header(
                "X-Amz-Target"@,
                self.target,
            ) + seq![("Host"@, self.host)] + optional_header("X-Amz-Content-Sha256"@, hash) + seq![
                ("X-Amz-Date"@, datetime),
                ("Authorization"@, self.signing_input(creds, datetime).authorization()),
            ] + optional_header("X-Amz-Security-Token"@, creds.session_token),
            body: self.body,
        }
    }
}

/// A request with one header more, where it has a value.
fn with_optional(req: HttpRequest, name: &str, value: Option<&str>) -> (with: HttpRequest)
    ensures
        with@ == (transport::HttpRequestView {
            headers: req@.headers + optional_header(name@, text::opt_str(value)),
            ..req@
        }),
{
    match value {
        Some(v) => {
            let with = req.with_header(name, v);
            assert(with@.headers =~= req@.headers + optional_header(name@, Some(v@)));
            with
        },
        None => {
            assert(req@.headers + optional_header(name@, None) =~= req@.headers);
            req
        },
    }
}

/// A borrowed optional string.
fn borrowed(s: &Option<String>) -> (r: Option<&str>)
    ensures
        text::opt_str(r) == text::opt_text(*s),
{
    match s {
        Some(s) => Some(s.as_str()),
        None => None,
    }
}

impl ApiCall {
    /// The signed request of the call.
    pub fn signed_request(&self, creds: &AwsCredentials, datetime: &str) -> (req: HttpRequest)
        requires
            aws_sign::dated(datetime@),
        ensures
            req@ == self@.signed(creds@, datetime@),
    {
        let empty = String::new();
        let payload: &str = match &self.body {
            Some(body) => body.as_str(),
            None => empty.as_str(),
        };
        let token = borrowed(&creds.session_token);
        let content_type = borrowed(&self.content_type);
        let auth = authorization_header(
            self.method.as_str(),
            self.host.as_str(),
            self.path.as_str(),
            self.query.as_str(),
            payload,
            datetime,
            self.signing_region.as_str(),
            self.service.as_str(),
            creds.access_key.as_str(),
            creds.secret_key.as_str(),
            token,
            content_type,
        );
        let hash = sha256_hex(payload);
        let req = HttpRequest::new(self.method.as_str(), self.url.as_str());
        let req = with_optional(req, "Content-Type", content_type);
        let req = with_optional(req, "X-Amz-Target", borrowed(&self.target));
        let req = req.with_header("Host", self.host.as_str());
        let sent: Option<&str> = if self.send_hash {
            Some(hash.as_str())
        } else {
            None
        };
        let req = with_optional(req, "X-Amz-Content-Sha256", sent);
        let req = req.with_header("X-Amz-Date", datetime).with_header(
            "Authorization",
            auth.as_str(),
        );
        let req = with_optional(req, "X-Amz-Security-Token", token);
        let body: Option<String> = match &self.body {
            Some(body) => Some(body.clone()),
            None => None,
        };
        let req = req.with_body(body);
        assert(req@.headers =~= self@.signed(creds@, datetime@).headers);
        req
    }

    /// What the call gives for what came back.
    pub fn outcome(&self, reply: &Result<HttpReply, String>) -> (result: Reply)
        ensures
            answer(result) == self@.api.outcome(*reply),
    {
        match reply {
            Err(e) => {
                let mut error = self.api.label();
                error.append(" HTTP error: ");
                error.append(e.as_str());
                Err(ApiError { text: error, code: None })
            },
            Ok(reply) => self.api.read(reply.status, reply.text()),
        }
    }
}

// ── Flows ─────────────────────────────────────────────────────────────────────

/// Where a flow stands: at a call to be made, or at its end, with the position of
/// the first reply that it did not use.
pub enum Step<T> {
    Call(ApiCall),
    Done(Result<T, String>, usize),
}

/// What a [`Step`] holds.
#[verifier::ext_equal]
pub enum StepView<V> {
    Call(ApiCallView),
    Done(Result<V, Seq<char>>, int),
}

impl<T: View> View for Step<T> {
    type V = StepView<T::V>;

    open spec fn view(&self) -> StepView<T::V> {
        match self {
            Step::Call(call) => StepView::Call(call@),
            Step::Done(result, next) => StepView::Done(text::outcome(*result), *next as int),
        }
    }
}

/// The replies of a flow.
pub open spec fn outcomes(replies: Seq<Reply>) -> Seq<ReplyView> {
    replies.map_values(|r: Reply| answer(r))
}

/// A flow of one call, whose reply is not read any further.
pub open spec fn single(
    call: ApiCallView,
    replies: Seq<ReplyView>,
    at: int,
) -> StepView<()> {
    if replies.len() <= at {
        StepView::Call(call)
    } else {
        match replies[at] {
            Ok(_) => StepView::Done(Ok(()), at + 1),
            Err(e) => StepView::Done(Err(e.text), at + 1),
        }
    }
}

/// A flow of one call, whose reply is not read any further.
pub fn one_call(call: ApiCall, replies: &Vec<Reply>, at: usize) -> (step: Step<()>)
    requires
        at <= replies@.len(),
    ensures
        step@ == single(call@, outcomes(replies@), at as int),
        step matches Step::Done(_, next) ==> at <= next <= replies@.len(),
{
    if at >= replies.len() {
        return Step::Call(call);
    }
    match &replies[at] {
        Ok(_) => Step::Done(Ok(()), at + 1),
        Err(e) => Step::Done(Err(e.text.clone()), at + 1),
    }
}

/// A form-encoded POST to the root of a host.
pub open spec fn form_call(
    api: ApiView,
    service: Seq<char>,
    host: Seq<char>,
    clock_region: Seq<char>,
    signing_region: Seq<char>,
    body: Seq<char>,
    send_hash: bool,
) -> ApiCallView {
    ApiCallView {
        api,
        method: "POST"@,
        host,
        path: "/"@,
        query: ""@,
        url: "https://"@ + host + "/"@,
        body: Some(body),
        clock_region,
        signing_region,
        service,
        content_type: Some("application/x-www-form-urlencoded"@),
        target: None,
        send_hash,
    }
}

/// A form-encoded POST to the root of a host.
pub fn form_post(
    api: Api,
    service: &str,
    host: String,
    clock_region: &str,
    signing_region: &str,
    body: String,
    send_hash: bool,
) -> (call: ApiCall)
    ensures
        call@ == form_call(
            api@,
            service@,
            host@,
            clock_region@,
            signing_region@,
            body@,
            send_hash,
        ),
{
    let url = "https://".to_owned().concat(host.as_str()).concat("/");
    ApiCall {
        api,
        method: "POST".to_owned(),
        host,
        path: "/".to_owned(),
        query: "".to_owned(),
        url,
        body: Some(body),
        clock_region: clock_region.to_owned(),
        signing_region: signing_region.to_owned(),
        service: service.to_owned(),
        content_type: Some("application/x-www-form-urlencoded".to_owned()),
        target: None,
        send_hash,
    }
}

/// A service's regional host.
pub open spec fn regional_host(service: Seq<char>, region: Seq<char>) -> Seq<char> {
    service + "."@ + region + ".amazonaws.com"@
}

/// A service's regional host.
pub fn regional(service: &str, region: &str) -> (host: String)
    ensures
        host@ == regional_host(service@, region@),
{
    service.to_owned().concat(".").concat(region).concat(".amazonaws.com")
}

// ── Laws ──────────────────────────────────────────────────────────────────────

/// Every header that the signature covers is sent with the value that was signed, and
/// so is the signature itself. The payload hash is sent where the call says so: it is
/// the hash that was signed.
pub proof fn signed_headers_are_sent(
    call: ApiCallView,
    creds: credentials::AwsCredentialsView,
    datetime: Seq<char>,
)
    ensures
        ({
            let headers = call.signed(creds, datetime).headers;
            let input = call.signing_input(creds, datetime);
            &&& headers.contains(("Host"@, input.host))
            &&& headers.contains(("X-Amz-Date"@, input.datetime))
            &&& input.content_type is Some ==> headers.contains(
                ("Content-Type"@, input.content_type->0),
            )
            &&& input.session_token is Some ==> headers.contains(
                ("X-Amz-Security-Token"@, input.session_token->0),
            )
            &&& headers.contains(("Authorization"@, input.authorization()))
            &&& call.send_hash ==> headers.contains(
                ("X-Amz-Content-Sha256"@, aws_sign::text_hash(input.body)),
            )
            &&& call.target is Some ==> headers.contains(("X-Amz-Target"@, call.target->0))
        }),
{
    let headers = call.signed(creds, datetime).headers;
    let input = call.signing_input(creds, datetime);
    let kind: int = if call.content_type is Some {
        1
    } else {
        0
    };
    let host: int = if call.target is Some {
        kind + 1
    } else {
        kind
    };
    let date: int = if call.send_hash {
        host + 2
    } else {
        host + 1
    };
    assert(headers[host] == ("Host"@, input.host));
    assert(headers[date] == ("X-Amz-Date"@, input.datetime));
    assert(headers[date + 1] == ("Authorization"@, input.authorization()));
    if input.content_type is Some {
        assert(headers[0] == ("Content-Type"@, input.content_type->0));
    }
    if call.target is Some {
        assert(headers[kind] == ("X-Amz-Target"@, call.target->0));
    }
    if call.send_hash {
        assert(headers[host + 1] == ("X-Amz-Content-Sha256"@, aws_sign::text_hash(input.body)));
    }
    if input.session_token is Some {
        assert(headers[date + 2] == ("X-Amz-Security-Token"@, input.session_token->0));
    }
}

/// A reply below 400 is never an error, and one from 400 on always is, but for a
/// backup resource that already exists.
pub proof fn errors_begin_at_400(api: ApiView, status: nat, body: Seq<char>)
    ensures
        status < 400 ==> api.result(status, body) == Ok::<Seq<char>, ApiErrorView>(body),
        status >= 400 && !(api is BackupPost) ==> api.result(status, body) is Err,
        api is BackupPost && status == 409 ==> api.result(status, body) == Ok::<
            Seq<char>,
            ApiErrorView,
        >(body),
{
}

/// A form sends a field of that name with that value: the two stand in it, encoded,
/// between the separators of fields.
pub open spec fn sends(form: Seq<char>, name: Seq<char>, value: Seq<char>) -> bool {
    let field = name + "="@ + encode::url_text(value);
    exists|i: int| #[trigger]
        text::occurs_at(form, field, i) && (i == 0 || form[i - 1] == '&') && (i + field.len()
            == form.len() || form[i + field.len()] == '&')
}

/// A field that stands between separators is sent.
pub proof fn field_is_sent(
    before: Seq<char>,
    name: Seq<char>,
    value: Seq<char>,
    after: Seq<char>,
)
    requires
        before.len() == 0 || before.last() == '&',
        after.len() == 0 || after.first() == '&',
    ensures
        sends(before + name + "="@ + encode::url_text(value) + after, name, value),
{
    let field = name + "="@ + encode::url_text(value);
    let form = before + name + "="@ + encode::url_text(value) + after;
    let i = before.len() as int;
    assert(form =~= before + field + after);
    assert(form.subrange(i, i + field.len()) =~= field);
    assert(text::occurs_at(form, field, i));
    if i > 0 {
        assert(form[i - 1] == before.last());
    }
    if after.len() > 0 {
        assert(form[i + field.len()] == after.first());
    }
}

/// A signed request is sent as the call says, and signed as what is sent: with the
/// call's method, host, path, query and body, for its region and service, by the keys of
/// the credentials at the given time.
pub proof fn call_is_signed_as_sent(
    call: ApiCallView,
    creds: credentials::AwsCredentialsView,
    datetime: Seq<char>,
)
    ensures
        ({
            let req = call.signed(creds, datetime);
            let input = call.signing_input(creds, datetime);
            &&& req.method == call.method && req.url == call.url && req.body == call.body
            &&& input.method == req.method && input.host == call.host
            &&& input.path == call.path && input.query == call.query
            &&& req.body is Some ==> input.body == req.body->0
            &&& req.body is None ==> input.body.len() == 0
            &&& input.region == call.signing_region && input.service == call.service
            &&& input.datetime == datetime && input.content_type == call.content_type
            &&& input.access_key == creds.access_key && input.secret_key == creds.secret_key
            &&& input.session_token == creds.session_token
        }),
{
}

/// Headers are sent only where they are asked for: without a target, a session token, a
/// content type or the hash, no such header is sent.
pub proof fn headers_are_not_sent_unasked(
    call: ApiCallView,
    creds: credentials::AwsCredentialsView,
    datetime: Seq<char>,
)
    ensures
        call.signed(creds, datetime).headers.len() == 3 + (if call.content_type is Some {
            1int
        } else {
            0
        }) + (if call.target is Some {
            1int
        } else {
            0
        }) + (if call.send_hash {
            1int
        } else {
            0
        }) + (if creds.session_token is Some {
            1int
        } else {
            0
        }),
{
}

/// A request that could not be sent is a failed call without an error code, whose text
/// tells why.
pub proof fn unsent_call_fails(api: ApiView, why: String)
    ensures
        api.outcome(Err(why)) matches Err(e) && e.code is None && why@.is_suffix_of(e.text)
            && api.label().is_prefix_of(e.text),
{
    let e = api.outcome(Err(why))->Err_0;
    assert(e.text.subrange(e.text.len() - why@.len(), e.text.len() as int) =~= why@);
    assert(e.text.subrange(0, api.label().len() as int) =~= api.label());
}

/// The wording of an error answer tells the API, the status and the message of the
/// answer.
pub proof fn error_answer_is_worded(api: ApiView, status: nat, body: Seq<char>)
    requires
        api.fails(status),
    ensures
        api.result(status, body) matches Err(e) && {
            &&& api.label().is_prefix_of(e.text)
            &&& text::contains_text(e.text, " error "@ + number::decimal(status) + ": "@)
            &&& api.message(body).is_suffix_of(e.text)
        },
{
    let e = api.result(status, body)->Err_0;
    let inner = " error "@ + number::decimal(status) + ": "@;
    let msg = api.message(body);
    assert(e.text =~= api.label() + inner + msg);
    text::middle_is_contained(api.label(), inner, msg);
    assert(e.text.subrange(e.text.len() - msg.len(), e.text.len() as int) =~= msg);
    assert(e.text.subrange(0, api.label().len() as int) =~= api.label());
}

/// The message of an XML answer is its `Message` element, and the whole answer where it
/// has none.
pub proof fn message_is_read(body: Seq<char>, op: Seq<char>)
    ensures
        extract::tag_text(body, "Message"@) matches Some(m) ==> {
            &&& ApiView::Iam.message(body) == m
            &&& ApiView::Rds.message(body) == m
            &&& ApiView::Sqs.message(body) == m
            &&& ApiView::S3(op).message(body) == m
        },
        extract::tag_text(body, "Message"@) is None ==> ApiView::S3(op).message(body) == body,
        extract::tag_text(body, "Message"@) is None && extract::tag_text(body, "message"@) is None
            ==> ApiView::Iam.message(body) == body && ApiView::Rds.message(body) == body
            && ApiView::Sqs.message(body) == body,
        extract::json_text(body, "message"@) matches Some(m) ==> ApiView::BackupPost.message(body)
            == m && ApiView::BackupGet.message(body) == m,
        ApiView::SecretsManager.message(body) == body,
{
}

/// A form is posted to the root of its host, by the clock and for the region given.
pub proof fn form_is_posted(
    api: ApiView,
    service: Seq<char>,
    host: Seq<char>,
    clock_region: Seq<char>,
    signing_region: Seq<char>,
    body: Seq<char>,
    send_hash: bool,
)
    ensures
        ({
            let call = form_call(
                api,
                service,
                host,
                clock_region,
                signing_region,
                body,
                send_hash,
            );
            &&& call.api == api && call.method == "POST"@ && call.host == host
            &&& call.path == "/"@ && call.query.len() == 0 && call.url == "https://"@ + host + "/"@
            &&& call.body == Some(body) && call.service == service
            &&& call.clock_region == clock_region && call.signing_region == signing_region
            &&& call.content_type == Some("application/x-www-form-urlencoded"@)
            &&& call.target is None && call.send_hash == send_hash
        }),
{
    reveal_strlit("");
}

/// A message that is not found under its first name is taken from under the other.
pub proof fn message_has_another_name(body: Seq<char>, m: Seq<char>)
    ensures
        extract::tag_text(body, "Message"@) is None && extract::tag_text(body, "message"@) == Some(
            m,
        ) ==> ApiView::Iam.message(body) == m && ApiView::Rds.message(body) == m
            && ApiView::Sqs.message(body) == m,
        extract::json_text(body, "message"@) is None && extract::json_text(body, "Message"@)
            == Some(m) ==> ApiView::BackupPost.message(body) == m && ApiView::BackupGet.message(
            body,
        ) == m,
        extract::json_text(body, "message"@) is None && extract::json_text(body, "Message"@) is None
            ==> ApiView::BackupPost.message(body) == body && ApiView::BackupGet.message(body)
            == body,
{
}

/// An XML answer that is an error has the code of its `Code` element; a JSON answer has
/// none.
pub proof fn code_is_read(api: ApiView, status: nat, body: Seq<char>)
    requires
        status >= 400,
        !(api is BackupPost && status == 409),
    ensures
        api.result(status, body) matches Err(e) && {
            &&& api is Iam || api is Rds || api is Sqs || api is S3 ==> e.code
                == extract::tag_text(body, "Code"@)
            &&& api is SecretsManager || api is BackupPost || api is BackupGet ==> e.code is None
        },
{
}

/// A flow of one call makes that call, and ends as it ended.
pub proof fn one_call_ends_as_it_ended(
    call: ApiCallView,
    replies: Seq<ReplyView>,
    body: Seq<char>,
    e: ApiErrorView,
)
    ensures
        ({
            let at = replies.len() as int;
            &&& single(call, replies, at) == StepView::<()>::Call(call)
            &&& single(call, replies.push(Ok(body)), at) == StepView::Done(
                Ok::<(), Seq<char>>(()),
                at + 1,
            )
            &&& single(call, replies.push(Err(e)), at) == StepView::Done(
                Err::<(), Seq<char>>(e.text),
                at + 1,
            )
        }),
{
}

/// Errors say which service they are of, and those of S3 of which operation.
pub proof fn label_names_the_service(op: Seq<char>)
    ensures
        "IAM"@.is_prefix_of(ApiView::Iam.label()),
        "RDS"@.is_prefix_of(ApiView::Rds.label()),
        "SQS"@.is_prefix_of(ApiView::Sqs.label()),
        "Secrets Manager"@.is_prefix_of(ApiView::SecretsManager.label()),
        "AWS Backup"@.is_prefix_of(ApiView::BackupPost.label()),
        "AWS Backup"@.is_prefix_of(ApiView::BackupGet.label()),
        "S3 "@.is_prefix_of(ApiView::S3(op).label()),
        op.is_suffix_of(ApiView::S3(op).label()),
{
    reveal_strlit("IAM");
    reveal_strlit("IAM API");
    reveal_strlit("RDS");
    reveal_strlit("RDS API");
    reveal_strlit("SQS");
    reveal_strlit("SQS API");
    reveal_strlit("AWS Backup");
    reveal_strlit("AWS Backup API");
    reveal_strlit("AWS Backup GET");
    assert("IAM API"@.subrange(0, 3) =~= "IAM"@);
    assert("RDS API"@.subrange(0, 3) =~= "RDS"@);
    assert("SQS API"@.subrange(0, 3) =~= "SQS"@);
    assert("AWS Backup API"@.subrange(0, 10) =~= "AWS Backup"@);
    assert("AWS Backup GET"@.subrange(0, 10) =~= "AWS Backup"@);
    let manager = "Secrets Manager"@;
    assert(manager.subrange(0, manager.len() as int) =~= manager);
    let label = "S3 "@ + op;
    assert(label.subrange(0, "S3 "@.len() as int) =~= "S3 "@);
    assert(label.subrange(label.len() - op.len(), label.len() as int) =~= op);
}

} // verus!
