//! SQS queue provisioning via the AWS SQS Query API.
//!
//! SQS uses a form-encoded query API (`application/x-www-form-urlencoded`) at
//! `https://sqs.<region>.amazonaws.com/`. Responses are XML.
//!
//! Queue ARNs are derived from the queue URL to avoid an extra
//! `GetQueueAttributes` round-trip:
//! `https://sqs.<region>.amazonaws.com/<account>/<name>` →
//! `arn:aws:sqs:<region>:<account>:<name>`
use crate::api;
use crate::api::{form_post, one_call, regional, Api, ApiCall, Reply, Step};
use crate::encode;
use crate::encode::url_encode;
use crate::extract;
use crate::extract::extract_tag;
use crate::number;
use crate::number::to_decimal;
use crate::settings;
use crate::settings::value_or;
use crate::text;
use crate::text::{chars_of, contains, ends_with, find_chars, string_of, strip_prefix};
use vstd::prelude::*;
use vstd::string::*;

verus! {

/// The configuration of a queue.
pub struct SqsConfig {
    /// Queue name. A FIFO queue's name ends with `.fifo`, which is added where it is
    /// missing.
    pub queue_name: String,
    pub fifo: bool,
    /// Visibility timeout in seconds.
    pub visibility_timeout: u32,
    /// Message retention in days.
    pub retention_days: u32,
}

/// What an [`SqsConfig`] holds.
pub struct SqsConfigView {
    pub queue_name: Seq<char>,
    pub fifo: bool,
    pub visibility_timeout: nat,
    pub retention_days: nat,
}

impl View for SqsConfig {
    type V = SqsConfigView;

    open spec fn view(&self) -> SqsConfigView {
        SqsConfigView {
            queue_name: self.queue_name@,
            fifo: self.fifo,
            visibility_timeout: self.visibility_timeout as nat,
            retention_days: self.retention_days as nat,
        }
    }
}

/// Where a queue is found.
pub struct SqsInfo {
    pub queue_url: String,
    pub queue_arn: String,
}

/// What an [`SqsInfo`] holds.
#[verifier::ext_equal]
pub struct SqsInfoView {
    pub queue_url: Seq<char>,
    pub queue_arn: Seq<char>,
}

impl View for SqsInfo {
    type V = SqsInfoView;

    open spec fn view(&self) -> SqsInfoView {
        SqsInfoView { queue_url: self.queue_url@, queue_arn: self.queue_arn@ }
    }
}

// ── Names ─────────────────────────────────────────────────────────────────────

/// The name of a queue: that of a FIFO queue ends with `.fifo`.
pub open spec fn queue_name_of(name: Seq<char>, fifo: bool) -> Seq<char> {
    if fifo && !".fifo"@.is_suffix_of(name) {
        name + ".fifo"@
    } else {
        name
    }
}

/// The name of a queue: that of a FIFO queue ends with `.fifo`.
pub fn canonical_queue_name(name: &str, fifo: bool) -> (canonical: String)
    ensures
        canonical@ == queue_name_of(name@, fifo),
{
    if fifo && !ends_with(name, ".fifo") {
        name.to_owned().concat(".fifo")
    } else {
        name.to_owned()
    }
}

/// What a queue URL of the region begins with.
pub open spec fn queue_url_prefix(region: Seq<char>) -> Seq<char> {
    "https://sqs."@ + region + ".amazonaws.com/"@
}

/// The ARN of the queue of that name.
pub open spec fn queue_arn(region: Seq<char>, account: Seq<char>, name: Seq<char>) -> Seq<char> {
    "arn:aws:sqs:"@ + region + ":"@ + account + ":"@ + name
}

/// The ARN of the queue at a URL, where it is one of the region.
pub open spec fn arn_of_url(url: Seq<char>, region: Seq<char>) -> Option<Seq<char>> {
    match text::without_prefix(url, queue_url_prefix(region)) {
        None => None,
        Some(path) => match text::find_from(path, "/"@, 0) {
            None => None,
            Some(i) => Some(queue_arn(region, path.take(i), path.skip(i + 1))),
        },
    }
}

/// The SQS ARN from a queue URL, without an extra API call.
///
/// URL format: `https://sqs.<region>.amazonaws.com/<account-id>/<queue-name>`
/// ARN format: `arn:aws:sqs:<region>:<account-id>:<queue-name>`
pub fn arn_from_queue_url(queue_url: &str, region: &str) -> (arn: Option<String>)
    ensures
        text::opt_text(arn) == arn_of_url(queue_url@, region@),
{
    let prefix = "https://sqs.".to_owned().concat(region).concat(".amazonaws.com/");
    match strip_prefix(queue_url, prefix.as_str()) {
        None => None,
        Some(path) => {
            let chars = chars_of(path.as_str());
            let len: usize = chars.len();
            let slash = chars_of("/");
            proof {
                reveal_strlit("/");
            }
            match find_chars(chars.as_slice(), slash.as_slice(), 0) {
                None => None,
                Some(i) => {
                    let account = string_of(chars.as_slice(), 0, i);
                    let name = string_of(chars.as_slice(), i + 1, len);
                    assert(account@ =~= path@.take(i as int));
                    assert(name@ =~= path@.skip(i + 1));
                    let mut arn = "arn:aws:sqs:".to_owned();
                    arn.append(region);
                    arn.append(":");
                    arn.append(account.as_str());
                    arn.append(":");
                    arn.append(name.as_str());
                    Some(arn)
                },
            }
        },
    }
}

/// What is known of the queue of that name at that URL. Where the URL is none of the
/// region, its ARN leaves the account open.
pub open spec fn info_of(url: Seq<char>, name: Seq<char>, region: Seq<char>) -> SqsInfoView {
    SqsInfoView {
        queue_url: url,
        queue_arn: settings::text_or(
            arn_of_url(url, region),
            "arn:aws:sqs:"@ + region + ":*:"@ + name,
        ),
    }
}

/// What is known of the queue of that name at that URL.
fn info(url: String, name: &str, region: &str) -> (info: SqsInfo)
    ensures
        info@ == info_of(url@, name@, region@),
{
    let other = "arn:aws:sqs:".to_owned().concat(region).concat(":*:").concat(name);
    let queue_arn = value_or(arn_from_queue_url(url.as_str(), region), other.as_str());
    SqsInfo { queue_url: url, queue_arn }
}

// ── Calls ─────────────────────────────────────────────────────────────────────

/// The call that posts `body` to SQS.
pub open spec fn sqs_call(region: Seq<char>, body: Seq<char>) -> api::ApiCallView {
    api::form_call(
        api::ApiView::Sqs,
        "sqs"@,
        api::regional_host("sqs"@, region),
        region,
        region,
        body,
        true,
    )
}

/// The call that posts `body` to SQS.
pub fn sqs_query(region: &str, body: String) -> (call: ApiCall)
    ensures
        call@ == sqs_call(region@, body@),
{
    form_post(Api::Sqs, "sqs", regional("sqs", region), region, region, body, true)
}

/// The call that looks a queue up.
pub open spec fn queue_url_call(region: Seq<char>, name: Seq<char>) -> api::ApiCallView {
    sqs_call(
        region,
        "Action=GetQueueUrl&Version=2012-11-05&QueueName="@ + encode::url_text(name),
    )
}

/// The error code says that there is no such queue. It comes with and without the
/// prefix `AWS.SimpleQueueService.`.
pub open spec fn absent(code: Option<Seq<char>>) -> bool {
    match code {
        Some(c) => text::contains_text(c, "QueueDoesNotExist"@) || text::contains_text(
            c,
            "NonExistentQueue"@,
        ),
        None => false,
    }
}

/// Whether the error code says that there is no such queue.
fn is_absent(code: &Option<String>) -> (is: bool)
    ensures
        is == absent(text::opt_text(*code)),
{
    match code {
        Some(c) => contains(c.as_str(), "QueueDoesNotExist") || contains(
            c.as_str(),
            "NonExistentQueue",
        ),
        None => false,
    }
}

/// The queue in what came back for looking it up, where there is such a queue.
pub open spec fn found_queue(
    reply: api::ReplyView,
    name: Seq<char>,
    region: Seq<char>,
) -> Result<Option<SqsInfoView>, Seq<char>> {
    match reply {
        Err(e) => if absent(e.code) {
            Ok(None)
        } else {
            Err(e.text)
        },
        Ok(xml) => match extract::tag_text(xml, "QueueUrl"@) {
            Some(url) => Ok(Some(info_of(url, name, region))),
            None => Ok(None),
        },
    }
}

/// The queue in what came back for looking it up, where there is such a queue.
pub fn get_queue_url(reply: &Reply, name: &str, region: &str) -> (found: Result<
    Option<SqsInfo>,
    String,
>)
    ensures
        text::lookup(found) == found_queue(api::answer(*reply), name@, region@),
{
    match reply {
        Err(e) => {
            if is_absent(&e.code) {
                Ok(None)
            } else {
                Err(e.text.clone())
            }
        },
        Ok(xml) => match extract_tag(xml.as_str(), "QueueUrl") {
            Some(url) => Ok(Some(info(url, name, region))),
            None => Ok(None),
        },
    }
}

/// The seconds in some days.
pub open spec fn seconds_in(days: nat) -> nat {
    days * 86400
}

/// The call that creates a queue. The retention period is in seconds.
pub open spec fn create_queue_call(
    region: Seq<char>,
    name: Seq<char>,
    cfg: SqsConfigView,
) -> api::ApiCallView {
    let body = "Action=CreateQueue&Version=2012-11-05&QueueName="@ + encode::url_text(name)
        + "&Attribute.1.Name=VisibilityTimeout&Attribute.1.Value="@ + encode::url_text(
        number::decimal(cfg.visibility_timeout),
    ) + "&Attribute.2.Name=MessageRetentionPeriod&Attribute.2.Value="@ + encode::url_text(
        number::decimal(seconds_in(cfg.retention_days)),
    );
    if cfg.fifo {
        sqs_call(
            region,
            body
                + "&Attribute.3.Name=FifoQueue&Attribute.3.Value=true&Attribute.4.Name=ContentBasedDeduplication&Attribute.4.Value=true"@,
        )
    } else {
        sqs_call(region, body)
    }
}

/// The call that creates a queue.
pub fn create_queue(region: &str, name: &str, cfg: &SqsConfig) -> (call: ApiCall)
    ensures
        call@ == create_queue_call(region@, name@, cfg@),
{
    let visibility = to_decimal(cfg.visibility_timeout as u64);
    let retention_secs = to_decimal(cfg.retention_days as u64 * 86400);
    let mut body = "Action=CreateQueue&Version=2012-11-05&QueueName=".to_owned();
    body.append(url_encode(name).as_str());
    body.append("&Attribute.1.Name=VisibilityTimeout&Attribute.1.Value=");
    body.append(url_encode(visibility.as_str()).as_str());
    body.append("&Attribute.2.Name=MessageRetentionPeriod&Attribute.2.Value=");
    body.append(url_encode(retention_secs.as_str()).as_str());
    if cfg.fifo {
        body.append(
            "&Attribute.3.Name=FifoQueue&Attribute.3.Value=true&Attribute.4.Name=ContentBasedDeduplication&Attribute.4.Value=true",
        );
    }
    sqs_query(region, body)
}

/// The queue in what came back for creating it.
pub open spec fn created_queue(
    reply: api::ReplyView,
    name: Seq<char>,
    region: Seq<char>,
) -> Result<SqsInfoView, Seq<char>> {
    match reply {
        Err(e) => Err(e.text),
        Ok(xml) => match extract::tag_text(xml, "QueueUrl"@) {
            Some(url) => Ok(info_of(url, name, region)),
            None => Err("SQS CreateQueue: could not parse QueueUrl from response"@),
        },
    }
}

/// The queue in what came back for creating it.
pub fn read_created(reply: &Reply, name: &str, region: &str) -> (created: Result<
    SqsInfo,
    String,
>)
    ensures
        text::outcome(created) == created_queue(api::answer(*reply), name@, region@),
{
    match reply {
        Err(e) => Err(e.text.clone()),
        Ok(xml) => match extract_tag(xml.as_str(), "QueueUrl") {
            Some(url) => Ok(info(url, name, region)),
            None => Err("SQS CreateQueue: could not parse QueueUrl from response".to_owned()),
        },
    }
}

// ── Flows ─────────────────────────────────────────────────────────────────────

/// The flow of [`ensure_queue`]: look the queue up; where it is not there, create it.
pub open spec fn ensure_queue_step(
    region: Seq<char>,
    cfg: SqsConfigView,
    replies: Seq<api::ReplyView>,
    at: int,
) -> api::StepView<SqsInfoView> {
    let name = queue_name_of(cfg.queue_name, cfg.fifo);
    if replies.len() <= at {
        api::StepView::Call(queue_url_call(region, name))
    } else {
        match found_queue(replies[at], name, region) {
            Err(e) => api::StepView::Done(Err(e), at + 1),
            Ok(Some(info)) => api::StepView::Done(Ok(info), at + 1),
            Ok(None) => if replies.len() <= at + 1 {
                api::StepView::Call(create_queue_call(region, name, cfg))
            } else {
                api::StepView::Done(created_queue(replies[at + 1], name, region), at + 2)
            },
        }
    }
}

/// Ensures that an SQS queue exists, creating it where it does not.
///
/// Ends with the queue URL and ARN. For FIFO queues the name is suffixed with
/// `.fifo` where it is not already.
pub fn ensure_queue(
    region: &str,
    cfg: &SqsConfig,
    replies: &Vec<Reply>,
    at: usize,
) -> (step: Step<SqsInfo>)
    requires
        at <= replies@.len(),
    ensures
        step@ == ensure_queue_step(region@, cfg@, api::outcomes(replies@), at as int),
        step matches Step::Done(_, next) ==> at <= next <= replies@.len(),
{
    let name = canonical_queue_name(cfg.queue_name.as_str(), cfg.fifo);
    let name: &str = name.as_str();
    if at >= replies.len() {
        let mut body = "Action=GetQueueUrl&Version=2012-11-05&QueueName=".to_owned();
        body.append(url_encode(name).as_str());
        return Step::Call(sqs_query(region, body));
    }
    match get_queue_url(&replies[at], name, region) {
        Err(e) => Step::Done(Err(e), at + 1),
        Ok(Some(info)) => Step::Done(Ok(info), at + 1),
        Ok(None) => {
            if at + 1 >= replies.len() {
                return Step::Call(create_queue(region, name, cfg));
            }
            Step::Done(read_created(&replies[at + 1], name, region), at + 2)
        },
    }
}

/// The call that deletes a queue.
pub open spec fn delete_queue_call(region: Seq<char>, queue_url: Seq<char>) -> api::ApiCallView {
    sqs_call(
        region,
        "Action=DeleteQueue&Version=2012-11-05&QueueUrl="@ + encode::url_text(queue_url),
    )
}

/// Deletes an SQS queue by URL.
///
/// The queue name cannot be reused for 60 seconds after deletion. Messages in the
/// queue at the time of deletion are lost.
pub fn delete_queue(
    region: &str,
    queue_url: &str,
    replies: &Vec<Reply>,
    at: usize,
) -> (step: Step<()>)
    requires
        at <= replies@.len(),
    ensures
        step@ == api::single(
            delete_queue_call(region@, queue_url@),
            api::outcomes(replies@),
            at as int,
        ),
        step matches Step::Done(_, next) ==> at <= next <= replies@.len(),
{
    let mut body = "Action=DeleteQueue&Version=2012-11-05&QueueUrl=".to_owned();
    body.append(url_encode(queue_url).as_str());
    one_call(sqs_query(region, body), replies, at)
}

// ── Laws ──────────────────────────────────────────────────────────────────────

/// A FIFO queue's name ends with `.fifo`, another queue's name is kept, and naming a
/// queue twice changes nothing.
pub proof fn queue_name_is_settled(name: Seq<char>, fifo: bool)
    ensures
        fifo ==> ".fifo"@.is_suffix_of(queue_name_of(name, fifo)),
        !fifo ==> queue_name_of(name, fifo) == name,
        queue_name_of(queue_name_of(name, fifo), fifo) == queue_name_of(name, fifo),
{
    if fifo && !".fifo"@.is_suffix_of(name) {
        let full = name + ".fifo"@;
        assert(full.subrange(name.len() as int, full.len() as int) =~= ".fifo"@);
    }
}

/// The ARN of the queue at `https://sqs.<region>.amazonaws.com/<account>/<name>` is
/// `arn:aws:sqs:<region>:<account>:<name>`.
pub proof fn queue_arn_is_read_from_its_url(
    region: Seq<char>,
    account: Seq<char>,
    name: Seq<char>,
)
    requires
        !account.contains('/'),
    ensures
        arn_of_url(queue_url_prefix(region) + account + "/"@ + name, region) == Some(
            queue_arn(region, account, name),
        ),
{
    let prefix = queue_url_prefix(region);
    let url = prefix + account + "/"@ + name;
    let path = account + "/"@ + name;
    assert(url.subrange(0, prefix.len() as int) =~= prefix);
    assert(url.skip(prefix.len() as int) =~= path);
    reveal_strlit("/");
    let i = account.len() as int;
    assert(path.subrange(i, i + 1) =~= "/"@);
    assert forall|j: int| 0 <= j < i implies !text::occurs_at(path, "/"@, j) by {
        assert(path[j] == account[j]);
        if text::occurs_at(path, "/"@, j) {
            assert(path.subrange(j, j + 1)[0] == '/');
        }
    }
    text::find_from_unique(path, "/"@, 0, i);
    assert(path.take(i) =~= account);
    assert(path.skip(i + 1) =~= name);
}

/// A queue that is there is left alone: one lookup ends the flow, and nothing is
/// created.
pub proof fn existing_queue_is_left_alone(
    region: Seq<char>,
    cfg: SqsConfigView,
    replies: Seq<api::ReplyView>,
    at: int,
    info: SqsInfoView,
)
    requires
        0 <= at < replies.len(),
        found_queue(replies[at], queue_name_of(cfg.queue_name, cfg.fifo), region) == Ok::<
            Option<SqsInfoView>,
            Seq<char>,
        >(Some(info)),
    ensures
        ensure_queue_step(region, cfg, replies, at) == api::StepView::Done(
            Ok::<SqsInfoView, Seq<char>>(info),
            at + 1,
        ),
{
}

/// A queue that SQS reports as missing is created, and the flow ends with what the
/// answer says of it.
pub proof fn missing_queue_is_created(
    region: Seq<char>,
    cfg: SqsConfigView,
    replies: Seq<api::ReplyView>,
    at: int,
    status: nat,
    body: Seq<char>,
)
    requires
        0 <= at < replies.len(),
        status >= 400,
        absent(extract::tag_text(body, "Code"@)),
        replies[at] == api::ApiView::Sqs.result(status, body),
    ensures
        ({
            let name = queue_name_of(cfg.queue_name, cfg.fifo);
            ensure_queue_step(region, cfg, replies, at) == if at + 1 < replies.len() {
                api::StepView::Done(created_queue(replies[at + 1], name, region), at + 2)
            } else {
                api::StepView::Call(create_queue_call(region, name, cfg))
            }
        }),
{
}

/// The code that the SQS query API answers with for a missing queue says so, with any
/// prefix.
pub proof fn nonexistent_queue_is_absent(prefix: Seq<char>)
    ensures
        absent(Some(prefix + "NonExistentQueue"@)),
        absent(Some(prefix + "QueueDoesNotExist"@)),
{
    let i = prefix.len() as int;
    let long = prefix + "NonExistentQueue"@;
    let short = prefix + "QueueDoesNotExist"@;
    assert(long.subrange(i, long.len() as int) =~= "NonExistentQueue"@);
    assert(text::occurs_at(long, "NonExistentQueue"@, i));
    assert(short.subrange(i, short.len() as int) =~= "QueueDoesNotExist"@);
    assert(text::occurs_at(short, "QueueDoesNotExist"@, i));
}

/// Ensuring a queue takes two calls at most.
pub proof fn queue_takes_two_calls(
    region: Seq<char>,
    cfg: SqsConfigView,
    replies: Seq<api::ReplyView>,
    at: int,
)
    requires
        0 <= at,
        at + 2 <= replies.len(),
    ensures
        ensure_queue_step(region, cfg, replies, at) is Done,
{
}

/// A queue keeps the name that it is given, and at most `.fifo` is added to it: for a FIFO
/// queue whose name does not end so.
pub proof fn queue_name_is_kept(name: Seq<char>, fifo: bool)
    ensures
        ".fifo"@.is_suffix_of(name) ==> queue_name_of(name, fifo) == name,
        fifo && !".fifo"@.is_suffix_of(name) ==> queue_name_of(name, fifo) == name + ".fifo"@,
{
}

/// What is known of a queue is its URL, and the ARN that the URL tells. A URL that is none
/// of the region leaves the account open.
pub proof fn queue_is_known_by_its_url(
    region: Seq<char>,
    account: Seq<char>,
    path: Seq<char>,
    other: Seq<char>,
    name: Seq<char>,
)
    requires
        !account.contains('/'),
        !("https://sqs."@ + region + ".amazonaws.com/"@).is_prefix_of(other),
    ensures
        ({
            let url = "https://sqs."@ + region + ".amazonaws.com/"@ + account + "/"@ + path;
            let info = info_of(url, name, region);
            &&& info.queue_url == url
            &&& info.queue_arn == "arn:aws:sqs:"@ + region + ":"@ + account + ":"@ + path
        }),
        info_of(other, name, region).queue_url == other,
        info_of(other, name, region).queue_arn == "arn:aws:sqs:"@ + region + ":*:"@ + name,
{
    queue_arn_is_read_from_its_url(region, account, path);
    text::prefix_is_taken_off(
        "https://sqs."@ + region + ".amazonaws.com/"@,
        Seq::empty(),
        other,
    );
    let prefix = "https://sqs."@ + region + ".amazonaws.com/"@;
    if other.len() >= prefix.len() {
        assert(other.take(prefix.len() as int) =~= other.subrange(0, prefix.len() as int));
    }
}

/// Every call to SQS goes to the region's own host, and is signed for that region.
pub proof fn sqs_is_called(region: Seq<char>, body: Seq<char>)
    ensures
        ({
            let call = sqs_call(region, body);
            &&& call.api is Sqs && call.service == "sqs"@ && call.body == Some(body)
            &&& call.host == "sqs."@ + region + ".amazonaws.com"@
            &&& call.signing_region == region && call.clock_region == region
        }),
{
    reveal_strlit("sqs");
    reveal_strlit(".");
    reveal_strlit("sqs.");
    assert("sqs"@ + "."@ =~= "sqs."@);
}

/// A lookup sends the queue's name, and a deletion its URL.
pub proof fn queue_is_named(region: Seq<char>, name: Seq<char>, url: Seq<char>)
    ensures
        ({
            let lookup = queue_url_call(region, name);
            let deletion = delete_queue_call(region, url);
            &&& lookup == sqs_call(region, lookup.body->0)
            &&& "Action=GetQueueUrl&"@.is_prefix_of(lookup.body->0)
            &&& api::sends(lookup.body->0, "QueueName"@, name)
            &&& deletion == sqs_call(region, deletion.body->0)
            &&& "Action=DeleteQueue&"@.is_prefix_of(deletion.body->0)
            &&& api::sends(deletion.body->0, "QueueUrl"@, url)
        }),
{
    reveal_strlit("Action=GetQueueUrl&");
    reveal_strlit("Action=GetQueueUrl&Version=2012-11-05&QueueName=");
    reveal_strlit("QueueName");
    reveal_strlit("Action=DeleteQueue&");
    reveal_strlit("Action=DeleteQueue&Version=2012-11-05&QueueUrl=");
    reveal_strlit("QueueUrl");
    reveal_strlit("=");
    let none = Seq::<char>::empty();
    let lookup = queue_url_call(region, name).body->0;
    let front = "Action=GetQueueUrl&Version=2012-11-05&QueueName="@.take(38);
    assert(lookup.subrange(0, 19) =~= "Action=GetQueueUrl&"@);
    assert(lookup =~= front + "QueueName"@ + "="@ + encode::url_text(name) + none);
    api::field_is_sent(front, "QueueName"@, name, none);
    let deletion = delete_queue_call(region, url).body->0;
    let front = "Action=DeleteQueue&Version=2012-11-05&QueueUrl="@.take(38);
    assert(deletion.subrange(0, 19) =~= "Action=DeleteQueue&"@);
    assert(deletion =~= front + "QueueUrl"@ + "="@ + encode::url_text(url) + none);
    api::field_is_sent(front, "QueueUrl"@, url, none);
}

/// A queue is created under its name, with the timeout as it is configured and the
/// retention in seconds. Only a FIFO queue is asked to be one.
pub proof fn queue_is_created_as_configured(
    region: Seq<char>,
    name: Seq<char>,
    cfg: SqsConfigView,
)
    ensures
        ({
            let call = create_queue_call(region, name, cfg);
            let form = call.body->0;
            let seconds = number::decimal(cfg.retention_days * 24 * 60 * 60);
            &&& call == sqs_call(region, form)
            &&& "Action=CreateQueue&"@.is_prefix_of(form)
            &&& api::sends(form, "QueueName"@, name)
            &&& text::contains_text(form, "&Attribute.1.Name=VisibilityTimeout&"@)
            &&& api::sends(form, "Attribute.1.Value"@, number::decimal(cfg.visibility_timeout))
            &&& text::contains_text(form, "&Attribute.2.Name=MessageRetentionPeriod&"@)
            &&& api::sends(form, "Attribute.2.Value"@, seconds)
            &&& cfg.fifo ==> text::contains_text(
                form,
                "&Attribute.3.Name=FifoQueue&Attribute.3.Value=true&"@,
            )
            &&& !cfg.fifo ==> ("&Attribute.2.Value="@ + seconds).is_suffix_of(form)
        }),
{
    queue_form_in_pieces(region, name, cfg);
    queue_form_begins_with_its_name(region, name, cfg);
    queue_form_has_its_timeout(region, name, cfg);
    queue_form_has_its_retention(region, name, cfg);
    queue_form_ends_with_its_kind(region, name, cfg);
}

/// The form that creates a queue, in its pieces.
proof fn queue_form_in_pieces(region: Seq<char>, name: Seq<char>, cfg: SqsConfigView)
    ensures
        ({
            let call = create_queue_call(region, name, cfg);
            let tail = if cfg.fifo {
                "&Attribute.3.Name=FifoQueue&Attribute.3.Value=true&Attribute.4.Name=ContentBasedDeduplication&Attribute.4.Value=true"@
            } else {
                Seq::<char>::empty()
            };
            &&& call == sqs_call(region, call.body->0)
            &&& call.body->0 == "Action=CreateQueue&Version=2012-11-05&QueueName="@
                + encode::url_text(name)
                + "&Attribute.1.Name=VisibilityTimeout&Attribute.1.Value="@ + number::decimal(
                cfg.visibility_timeout,
            ) + "&Attribute.2.Name=MessageRetentionPeriod&Attribute.2.Value="@ + number::decimal(
                cfg.retention_days * 24 * 60 * 60,
            ) + tail
        }),
{
    assert(seconds_in(cfg.retention_days) == cfg.retention_days * 24 * 60 * 60);
    number::decimal_is_kept_in_urls(cfg.visibility_timeout);
    number::decimal_is_kept_in_urls(cfg.retention_days * 24 * 60 * 60);
}

/// The form that creates a queue names the queue.
proof fn queue_form_begins_with_its_name(region: Seq<char>, name: Seq<char>, cfg: SqsConfigView)
    ensures
        ({
            let form = create_queue_call(region, name, cfg).body->0;
            &&& "Action=CreateQueue&"@.is_prefix_of(form)
            &&& api::sends(form, "QueueName"@, name)
        }),
{
    queue_form_in_pieces(region, name, cfg);
    reveal_strlit("=");
    reveal_strlit("Action=CreateQueue&");
    reveal_strlit("QueueName");
    reveal_strlit("Action=CreateQueue&Version=2012-11-05&QueueName=");
    reveal_strlit("&Attribute.1.Name=VisibilityTimeout&Attribute.1.Value=");
    let head = "Action=CreateQueue&Version=2012-11-05&QueueName="@;
    let form = create_queue_call(region, name, cfg).body->0;
    let called = head + encode::url_text(name);
    let after = form.skip(called.len() as int);
    assert(form =~= called + after);
    assert(after.first() == "&Attribute.1.Name=VisibilityTimeout&Attribute.1.Value="@[0]);
    assert(form.subrange(0, 19) =~= "Action=CreateQueue&"@);
    assert(form =~= head.take(38) + "QueueName"@ + "="@ + encode::url_text(name) + after);
    api::field_is_sent(head.take(38), "QueueName"@, name, after);
}

/// The form that creates a queue holds the timeout.
proof fn queue_form_has_its_timeout(region: Seq<char>, name: Seq<char>, cfg: SqsConfigView)
    ensures
        ({
            let form = create_queue_call(region, name, cfg).body->0;
            &&& text::contains_text(form, "&Attribute.1.Name=VisibilityTimeout&"@)
            &&& api::sends(form, "Attribute.1.Value"@, number::decimal(cfg.visibility_timeout))
        }),
{
    queue_form_in_pieces(region, name, cfg);
    number::decimal_is_kept_in_urls(cfg.visibility_timeout);
    reveal_strlit("=");
    reveal_strlit("Attribute.1.Value");
    reveal_strlit("&Attribute.1.Name=VisibilityTimeout&");
    reveal_strlit("&Attribute.1.Name=VisibilityTimeout&Attribute.1.Value=");
    reveal_strlit("&Attribute.2.Name=MessageRetentionPeriod&Attribute.2.Value=");
    let timeout = number::decimal(cfg.visibility_timeout);
    let first = "&Attribute.1.Name=VisibilityTimeout&Attribute.1.Value="@;
    let second = "&Attribute.2.Name=MessageRetentionPeriod&Attribute.2.Value="@;
    let inner = "&Attribute.1.Name=VisibilityTimeout&"@;
    let form = create_queue_call(region, name, cfg).body->0;
    let called = "Action=CreateQueue&Version=2012-11-05&QueueName="@ + encode::url_text(name);
    let front = called + first + timeout;
    let after = form.skip(front.len() as int);
    assert(form =~= front + after);
    assert(after.first() == second[0]);
    assert(first =~= inner + "Attribute.1.Value"@ + "="@);
    let rest = "Attribute.1.Value"@ + "="@ + timeout + after;
    assert(form =~= called + inner + rest);
    text::middle_is_contained(called, inner, rest);
    let before = called + inner;
    assert(form =~= before + "Attribute.1.Value"@ + "="@ + encode::url_text(timeout) + after);
    api::field_is_sent(before, "Attribute.1.Value"@, timeout, after);
}

/// The form that creates a queue holds the retention in seconds.
proof fn queue_form_has_its_retention(region: Seq<char>, name: Seq<char>, cfg: SqsConfigView)
    ensures
        ({
            let form = create_queue_call(region, name, cfg).body->0;
            let seconds = number::decimal(cfg.retention_days * 24 * 60 * 60);
            &&& text::contains_text(form, "&Attribute.2.Name=MessageRetentionPeriod&"@)
            &&& api::sends(form, "Attribute.2.Value"@, seconds)
        }),
{
    queue_form_in_pieces(region, name, cfg);
    number::decimal_is_kept_in_urls(cfg.retention_days * 24 * 60 * 60);
    reveal_strlit("=");
    reveal_strlit("Attribute.2.Value");
    reveal_strlit("&Attribute.2.Name=MessageRetentionPeriod&");
    reveal_strlit("&Attribute.2.Name=MessageRetentionPeriod&Attribute.2.Value=");
    let seconds = number::decimal(cfg.retention_days * 24 * 60 * 60);
    let second = "&Attribute.2.Name=MessageRetentionPeriod&Attribute.2.Value="@;
    let inner = "&Attribute.2.Name=MessageRetentionPeriod&"@;
    let form = create_queue_call(region, name, cfg).body->0;
    let front = "Action=CreateQueue&Version=2012-11-05&QueueName="@ + encode::url_text(name)
        + "&Attribute.1.Name=VisibilityTimeout&Attribute.1.Value="@ + number::decimal(
        cfg.visibility_timeout,
    );
    let tail = form.skip((front + second + seconds).len() as int);
    assert(tail.len() == 0 || tail.first() == '&') by {
        reveal_strlit(
            "&Attribute.3.Name=FifoQueue&Attribute.3.Value=true&Attribute.4.Name=ContentBasedDeduplication&Attribute.4.Value=true",
        );
    }
    assert(form =~= front + second + seconds + tail);
    assert(second =~= inner + "Attribute.2.Value"@ + "="@);
    let rest = "Attribute.2.Value"@ + "="@ + seconds + tail;
    assert(form =~= front + inner + rest);
    text::middle_is_contained(front, inner, rest);
    let before = front + inner;
    assert(form =~= before + "Attribute.2.Value"@ + "="@ + encode::url_text(seconds) + tail);
    api::field_is_sent(before, "Attribute.2.Value"@, seconds, tail);
}

/// The form that creates a queue ends with asking for a FIFO queue where one is configured,
/// and with the retention where none is.
proof fn queue_form_ends_with_its_kind(region: Seq<char>, name: Seq<char>, cfg: SqsConfigView)
    ensures
        ({
            let form = create_queue_call(region, name, cfg).body->0;
            let seconds = number::decimal(cfg.retention_days * 24 * 60 * 60);
            &&& cfg.fifo ==> text::contains_text(
                form,
                "&Attribute.3.Name=FifoQueue&Attribute.3.Value=true&"@,
            )
            &&& !cfg.fifo ==> ("&Attribute.2.Value="@ + seconds).is_suffix_of(form)
        }),
{
    queue_form_in_pieces(region, name, cfg);
    let seconds = number::decimal(cfg.retention_days * 24 * 60 * 60);
    let second = "&Attribute.2.Name=MessageRetentionPeriod&Attribute.2.Value="@;
    let form = create_queue_call(region, name, cfg).body->0;
    let before = "Action=CreateQueue&Version=2012-11-05&QueueName="@ + encode::url_text(name)
        + "&Attribute.1.Name=VisibilityTimeout&Attribute.1.Value="@ + number::decimal(
        cfg.visibility_timeout,
    ) + second + seconds;
    if cfg.fifo {
        reveal_strlit("&Attribute.3.Name=FifoQueue&Attribute.3.Value=true&");
        reveal_strlit(
            "&Attribute.3.Name=FifoQueue&Attribute.3.Value=true&Attribute.4.Name=ContentBasedDeduplication&Attribute.4.Value=true",
        );
        let fifo =
            "&Attribute.3.Name=FifoQueue&Attribute.3.Value=true&Attribute.4.Name=ContentBasedDeduplication&Attribute.4.Value=true"@;
        let inner = "&Attribute.3.Name=FifoQueue&Attribute.3.Value=true&"@;
        assert(fifo =~= inner + fifo.skip(51));
        assert(form =~= before + inner + fifo.skip(51));
        text::middle_is_contained(before, inner, fifo.skip(51));
    } else {
        reveal_strlit("&Attribute.2.Value=");
        reveal_strlit("&Attribute.2.Name=MessageRetentionPeriod&Attribute.2.Value=");
        let end = "&Attribute.2.Value="@ + seconds;
        assert(form =~= before);
        assert(form.subrange(form.len() - end.len(), form.len() as int) =~= end);
    }
}

/// A queue is looked up first, under the name that it gets.
pub proof fn queue_is_looked_up_first(
    region: Seq<char>,
    cfg: SqsConfigView,
    replies: Seq<api::ReplyView>,
)
    ensures
        ensure_queue_step(region, cfg, replies, replies.len() as int) matches api::StepView::Call(
            call,
        ) && call == queue_url_call(region, queue_name_of(cfg.queue_name, cfg.fifo)),
{
}

/// Where an answer tells the URL of the queue, the flow ends with the queue at that URL:
/// the answer to the lookup, or to the creation that follows it.
pub proof fn queue_is_the_one_told(
    region: Seq<char>,
    cfg: SqsConfigView,
    replies: Seq<api::ReplyView>,
    xml: Seq<char>,
    url: Seq<char>,
    missing: api::ApiErrorView,
)
    requires
        extract::tag_text(xml, "QueueUrl"@) == Some(url),
        missing.code == Some("AWS.SimpleQueueService.NonExistentQueue"@),
    ensures
        ({
            let at = replies.len() as int;
            let info = info_of(url, queue_name_of(cfg.queue_name, cfg.fifo), region);
            &&& ensure_queue_step(region, cfg, replies.push(Ok(xml)), at) == api::StepView::Done(
                Ok::<SqsInfoView, Seq<char>>(info),
                at + 1,
            )
            &&& ensure_queue_step(region, cfg, replies.push(Err(missing)).push(Ok(xml)), at)
                == api::StepView::Done(Ok::<SqsInfoView, Seq<char>>(info), at + 2)
        }),
{
    reveal_strlit("AWS.SimpleQueueService.");
    reveal_strlit("NonExistentQueue");
    reveal_strlit("AWS.SimpleQueueService.NonExistentQueue");
    nonexistent_queue_is_absent("AWS.SimpleQueueService."@);
    assert("AWS.SimpleQueueService."@ + "NonExistentQueue"@
        =~= "AWS.SimpleQueueService.NonExistentQueue"@);
}

/// A call that failed otherwise fails the flow, with its wording: no error without a code,
/// and none whose code does not say that the queue is missing, stands for a missing queue.
pub proof fn other_failures_are_passed_on(
    e: api::ApiErrorView,
    name: Seq<char>,
    region: Seq<char>,
)
    requires
        e.code matches Some(code) ==> !text::contains_text(code, "QueueDoesNotExist"@)
            && !text::contains_text(code, "NonExistentQueue"@),
    ensures
        found_queue(Err(e), name, region) == Err::<Option<SqsInfoView>, Seq<char>>(e.text),
        created_queue(Err(e), name, region) == Err::<SqsInfoView, Seq<char>>(e.text),
{
}

/// A creation that tells no URL fails; a lookup that tells none finds no queue.
pub proof fn answer_without_a_url_tells_no_queue(
    xml: Seq<char>,
    name: Seq<char>,
    region: Seq<char>,
)
    requires
        extract::tag_text(xml, "QueueUrl"@) is None,
    ensures
        found_queue(Ok(xml), name, region) == Ok::<Option<SqsInfoView>, Seq<char>>(None),
        created_queue(Ok(xml), name, region) is Err,
{
}

} // verus!
