//! Secrets Manager secret provisioning via the AWS JSON API.
//!
//! Secrets Manager uses a JSON API at `secretsmanager.<region>.amazonaws.com`
//! with `X-Amz-Target` headers (similar to DynamoDB).
//!
//! Sig V4 service name: `"secretsmanager"`.
//! Content-Type: `application/x-amz-json-1.1`.
//!
//! ## Idempotency
//!
//! [`ensure_secret`] asks for `DescribeSecret` before `CreateSecret`. The secret
//! stores no value on creation: it is an empty container that the application
//! (or an operator) populates. Applications read the value via the IAM policy
//! granted by `iam::attach_secretsmanager_policy`.
use crate::api;
use crate::api::{regional, Api, ApiCall, Reply, Step};
use crate::extract;
use crate::extract::extract_json_str;
use crate::number;
use crate::number::to_decimal;
use crate::settings;
use crate::settings::value_or;
use crate::text;
use crate::text::contains;
use vstd::prelude::*;
use vstd::string::*;

verus! {

// ── Calls ─────────────────────────────────────────────────────────────────────

/// The call that posts `body` to Secrets Manager, for the operation `target`.
pub open spec fn sm_post(region: Seq<char>, target: Seq<char>, body: Seq<char>) -> api::ApiCallView {
    let host = api::regional_host("secretsmanager"@, region);
    api::ApiCallView {
        api: api::ApiView::SecretsManager,
        method: "POST"@,
        host,
        path: "/"@,
        query: ""@,
        url: "https://"@ + host + "/"@,
        body: Some(body),
        clock_region: region,
        signing_region: region,
        service: "secretsmanager"@,
        content_type: Some("application/x-amz-json-1.1"@),
        target: Some(target),
        send_hash: true,
    }
}

/// The call that posts `body` to Secrets Manager, for the operation `target`.
pub fn sm_call(region: &str, target: &str, body: String) -> (call: ApiCall)
    ensures
        call@ == sm_post(region@, target@, body@),
{
    let host = regional("secretsmanager", region);
    let url = "https://".to_owned().concat(host.as_str()).concat("/");
    ApiCall {
        api: Api::SecretsManager,
        method: "POST".to_owned(),
        host,
        path: "/".to_owned(),
        query: "".to_owned(),
        url,
        body: Some(body),
        clock_region: region.to_owned(),
        signing_region: region.to_owned(),
        service: "secretsmanager".to_owned(),
        content_type: Some("application/x-amz-json-1.1".to_owned()),
        target: Some(target.to_owned()),
        send_hash: true,
    }
}

/// The call that looks a secret up.
pub open spec fn describe_call(region: Seq<char>, secret_name: Seq<char>) -> api::ApiCallView {
    sm_post(
        region,
        "secretsmanager.DescribeSecret"@,
        r#"{"SecretId":""#@ + secret_name + r#""}"#@,
    )
}

/// The secret's ARN in what came back for looking it up, where there is such a
/// secret.
pub open spec fn found_secret(reply: api::ReplyView) -> Result<
    Option<Seq<char>>,
    Seq<char>,
> {
    match reply {
        Ok(json) => Ok(extract::json_text(json, "ARN"@)),
        Err(e) => if text::contains_text(e.text, "ResourceNotFoundException"@) {
            Ok(None)
        } else {
            Err(e.text)
        },
    }
}

/// The secret's ARN in what came back for looking it up, where there is such a
/// secret.
pub fn describe_secret(reply: &Reply) -> (found: Result<Option<String>, String>)
    ensures
        text::lookup(found) == found_secret(api::answer(*reply)),
{
    match reply {
        Ok(json) => Ok(extract_json_str(json.as_str(), "ARN")),
        Err(e) => {
            if contains(e.text.as_str(), "ResourceNotFoundException") {
                Ok(None)
            } else {
                Err(e.text.clone())
            }
        },
    }
}

/// The call that creates a secret, without a value.
pub open spec fn create_call(
    region: Seq<char>,
    secret_name: Seq<char>,
    description: Seq<char>,
) -> api::ApiCallView {
    sm_post(
        region,
        "secretsmanager.CreateSecret"@,
        r#"{"Name":""#@ + secret_name + r#"","Description":""#@ + description + r#""}"#@,
    )
}

/// The call that creates a secret, without a value.
pub fn create_secret(region: &str, secret_name: &str, description: &str) -> (call: ApiCall)
    ensures
        call@ == create_call(region@, secret_name@, description@),
{
    let mut body = r#"{"Name":""#.to_owned();
    body.append(secret_name);
    body.append(r#"","Description":""#);
    body.append(description);
    body.append(r#""}"#);
    sm_call(region, "secretsmanager.CreateSecret", body)
}

/// The secret's ARN in what came back for creating it.
pub open spec fn created_secret(reply: api::ReplyView) -> Result<
    Seq<char>,
    Seq<char>,
> {
    match reply {
        Err(e) => Err(e.text),
        Ok(json) => match extract::json_text(json, "ARN"@) {
            Some(arn) => Ok(arn),
            None => Err(
                "Secrets Manager CreateSecret: could not parse ARN from response: "@ + json,
            ),
        },
    }
}

/// The secret's ARN in what came back for creating it.
pub fn read_created(reply: &Reply) -> (created: Result<String, String>)
    ensures
        text::outcome(created) == created_secret(api::answer(*reply)),
{
    match reply {
        Err(e) => Err(e.text.clone()),
        Ok(json) => match extract_json_str(json.as_str(), "ARN") {
            Some(arn) => Ok(arn),
            None => Err(
                "Secrets Manager CreateSecret: could not parse ARN from response: ".to_owned().concat(
                    json.as_str(),
                ),
            ),
        },
    }
}

/// The call that schedules a secret for deletion.
pub open spec fn delete_call(
    region: Seq<char>,
    secret_name: Seq<char>,
    recovery_window_days: nat,
) -> api::ApiCallView {
    sm_post(
        region,
        "secretsmanager.DeleteSecret"@,
        r#"{"SecretId":""#@ + secret_name + r#"","RecoveryWindowInDays":"#@ + number::decimal(
            recovery_window_days,
        ) + "}"@,
    )
}

// ── Flows ─────────────────────────────────────────────────────────────────────

/// The flow of [`ensure_secret`]: look the secret up; where it is not there, create
/// it.
pub open spec fn ensure_secret_step(
    region: Seq<char>,
    secret_name: Seq<char>,
    description: Seq<char>,
    replies: Seq<api::ReplyView>,
    at: int,
) -> api::StepView<Seq<char>> {
    if replies.len() <= at {
        api::StepView::Call(describe_call(region, secret_name))
    } else {
        match found_secret(replies[at]) {
            Err(e) => api::StepView::Done(Err(e), at + 1),
            Ok(Some(arn)) => api::StepView::Done(Ok(arn), at + 1),
            Ok(None) => if replies.len() <= at + 1 {
                api::StepView::Call(create_call(region, secret_name, description))
            } else {
                api::StepView::Done(created_secret(replies[at + 1]), at + 2)
            },
        }
    }
}

/// Ensures that a Secrets Manager secret exists, creating it (empty) where it does
/// not.
///
/// Ends with the secret ARN. The secret is created without a value: the application
/// or an operator is responsible for populating it.
pub fn ensure_secret(
    region: &str,
    secret_name: &str,
    description: &str,
    replies: &Vec<Reply>,
    at: usize,
) -> (step: Step<String>)
    requires
        at <= replies@.len(),
    ensures
        step@ == ensure_secret_step(
            region@,
            secret_name@,
            description@,
            api::outcomes(replies@),
            at as int,
        ),
        step matches Step::Done(_, next) ==> at <= next <= replies@.len(),
{
    if at >= replies.len() {
        let body = r#"{"SecretId":""#.to_owned().concat(secret_name).concat(r#""}"#);
        return Step::Call(sm_call(region, "secretsmanager.DescribeSecret", body));
    }
    match describe_secret(&replies[at]) {
        Err(e) => Step::Done(Err(e), at + 1),
        Ok(Some(arn)) => Step::Done(Ok(arn), at + 1),
        Ok(None) => {
            if at + 1 >= replies.len() {
                return Step::Call(create_secret(region, secret_name, description));
            }
            Step::Done(read_created(&replies[at + 1]), at + 2)
        },
    }
}

/// The flow of [`schedule_delete_secret`]: one call, whose reply holds the date.
pub open spec fn delete_secret_step(
    region: Seq<char>,
    secret_name: Seq<char>,
    recovery_window_days: nat,
    replies: Seq<api::ReplyView>,
    at: int,
) -> api::StepView<Seq<char>> {
    if replies.len() <= at {
        api::StepView::Call(delete_call(region, secret_name, recovery_window_days))
    } else {
        match replies[at] {
            Err(e) => api::StepView::Done(Err(e.text), at + 1),
            Ok(json) => api::StepView::Done(
                Ok(settings::text_or(extract::json_text(json, "DeletionDate"@), "unknown"@)),
                at + 1,
            ),
        }
    }
}

/// Schedules a secret for deletion with a recovery window.
///
/// Ends with the deletion date string from AWS (`DeletionDate`). The secret can be
/// restored from the AWS console within `recovery_window_days` (7 to 30).
pub fn schedule_delete_secret(
    region: &str,
    secret_name: &str,
    recovery_window_days: u32,
    replies: &Vec<Reply>,
    at: usize,
) -> (step: Step<String>)
    requires
        at <= replies@.len(),
    ensures
        step@ == delete_secret_step(
            region@,
            secret_name@,
            recovery_window_days as nat,
            api::outcomes(replies@),
            at as int,
        ),
        step matches Step::Done(_, next) ==> at <= next <= replies@.len(),
{
    if at >= replies.len() {
        let mut body = r#"{"SecretId":""#.to_owned();
        body.append(secret_name);
        body.append(r#"","RecoveryWindowInDays":"#);
        body.append(to_decimal(recovery_window_days as u64).as_str());
        body.append("}");
        return Step::Call(sm_call(region, "secretsmanager.DeleteSecret", body));
    }
    match &replies[at] {
        Err(e) => Step::Done(Err(e.text.clone()), at + 1),
        Ok(json) => Step::Done(
            Ok(value_or(extract_json_str(json.as_str(), "DeletionDate"), "unknown")),
            at + 1,
        ),
    }
}

// ── Laws ──────────────────────────────────────────────────────────────────────

/// A secret that is there is left alone: one lookup ends the flow with its ARN, and
/// nothing is created.
pub proof fn existing_secret_is_left_alone(
    region: Seq<char>,
    secret_name: Seq<char>,
    description: Seq<char>,
    replies: Seq<api::ReplyView>,
    at: int,
    arn: Seq<char>,
)
    requires
        0 <= at < replies.len(),
        found_secret(replies[at]) == Ok::<Option<Seq<char>>, Seq<char>>(Some(arn)),
    ensures
        ensure_secret_step(region, secret_name, description, replies, at) == api::StepView::Done(
            Ok::<Seq<char>, Seq<char>>(arn),
            at + 1,
        ),
{
}

/// Ensuring a secret takes two calls at most.
pub proof fn secret_takes_two_calls(
    region: Seq<char>,
    secret_name: Seq<char>,
    description: Seq<char>,
    replies: Seq<api::ReplyView>,
    at: int,
)
    requires
        0 <= at,
        at + 2 <= replies.len(),
    ensures
        ensure_secret_step(region, secret_name, description, replies, at) is Done,
{
}

/// Every call to Secrets Manager goes to the region's own host, names its operation, and is
/// signed for that region.
pub proof fn secrets_manager_is_called(region: Seq<char>, target: Seq<char>, body: Seq<char>)
    ensures
        ({
            let call = sm_post(region, target, body);
            &&& call.api is SecretsManager && call.method == "POST"@ && call.body == Some(body)
            &&& call.target == Some(target) && call.service == "secretsmanager"@
            &&& call.host == "secretsmanager."@ + region + ".amazonaws.com"@
            &&& call.url == "https://"@ + call.host + "/"@ && call.path == "/"@
            &&& call.signing_region == region && call.clock_region == region
            &&& call.content_type == Some("application/x-amz-json-1.1"@) && call.send_hash
        }),
{
    reveal_strlit("secretsmanager");
    reveal_strlit(".");
    reveal_strlit("secretsmanager.");
    assert("secretsmanager"@ + "."@ =~= "secretsmanager."@);
}

/// The secret is looked up, created and deleted under its own name. It is created with its
/// description, and can be recovered for the days given.
pub proof fn secret_is_named(
    region: Seq<char>,
    name: Seq<char>,
    description: Seq<char>,
    days: nat,
)
    ensures
        ({
            let lookup = describe_call(region, name);
            let creation = create_call(region, name, description);
            let deletion = delete_call(region, name, days);
            &&& lookup == sm_post(region, "secretsmanager.DescribeSecret"@, lookup.body->0)
            &&& text::contains_text(lookup.body->0, "\"SecretId\":\""@ + name + "\"}"@)
            &&& creation == sm_post(region, "secretsmanager.CreateSecret"@, creation.body->0)
            &&& text::contains_text(creation.body->0, "\"Name\":\""@ + name + "\","@)
            &&& text::contains_text(
                creation.body->0,
                "\"Description\":\""@ + description + "\"}"@,
            )
            &&& deletion == sm_post(region, "secretsmanager.DeleteSecret"@, deletion.body->0)
            &&& text::contains_text(deletion.body->0, "\"SecretId\":\""@ + name + "\","@)
            &&& text::contains_text(
                deletion.body->0,
                "\"RecoveryWindowInDays\":"@ + number::decimal(days) + "}"@,
            )
        }),
{
    reveal_strlit("{");
    reveal_strlit("}");
    reveal_strlit("\"}");
    reveal_strlit("\",");
    reveal_strlit(r#"{"SecretId":""#);
    reveal_strlit(r#""}"#);
    reveal_strlit(r#"{"Name":""#);
    reveal_strlit(r#"","Description":""#);
    reveal_strlit(r#"","RecoveryWindowInDays":"#);
    reveal_strlit("\"SecretId\":\"");
    reveal_strlit("\"Name\":\"");
    reveal_strlit("\"Description\":\"");
    reveal_strlit("\"RecoveryWindowInDays\":");
    let none = Seq::<char>::empty();
    let lookup = describe_call(region, name).body->0;
    let creation = create_call(region, name, description).body->0;
    let deletion = delete_call(region, name, days).body->0;
    let inner = "\"SecretId\":\""@ + name + "\"}"@;
    assert(lookup =~= "{"@ + inner + none);
    text::middle_is_contained("{"@, inner, none);
    let inner = "\"Name\":\""@ + name + "\","@;
    let after = "\"Description\":\""@ + description + "\"}"@;
    assert(creation =~= "{"@ + inner + after);
    text::middle_is_contained("{"@, inner, after);
    assert(creation =~= "{"@ + inner + after + none);
    text::middle_is_contained("{"@ + inner, after, none);
    let inner = "\"SecretId\":\""@ + name + "\","@;
    let after = "\"RecoveryWindowInDays\":"@ + number::decimal(days) + "}"@;
    assert(deletion =~= "{"@ + inner + after);
    text::middle_is_contained("{"@, inner, after);
    assert(deletion =~= "{"@ + inner + after + none);
    text::middle_is_contained("{"@ + inner, after, none);
}

/// A secret is looked up first. Where an answer tells its ARN, the flow ends with it.
pub proof fn secret_is_the_one_told(
    region: Seq<char>,
    name: Seq<char>,
    description: Seq<char>,
    replies: Seq<api::ReplyView>,
    json: Seq<char>,
    arn: Seq<char>,
)
    requires
        extract::json_text(json, "ARN"@) == Some(arn),
    ensures
        ({
            let at = replies.len() as int;
            &&& ensure_secret_step(region, name, description, replies, at) == api::StepView::<
                Seq<char>,
            >::Call(describe_call(region, name))
            &&& ensure_secret_step(region, name, description, replies.push(Ok(json)), at)
                == api::StepView::Done(Ok::<Seq<char>, Seq<char>>(arn), at + 1)
        }),
{
}

/// A secret that Secrets Manager reports as missing is created, and the flow ends with the
/// ARN that comes back.
pub proof fn missing_secret_is_created(
    region: Seq<char>,
    name: Seq<char>,
    description: Seq<char>,
    replies: Seq<api::ReplyView>,
    status: nat,
    before: Seq<char>,
    after: Seq<char>,
    json: Seq<char>,
    arn: Seq<char>,
)
    requires
        status >= 400,
        extract::json_text(json, "ARN"@) == Some(arn),
    ensures
        ({
            let at = replies.len() as int;
            let missing = api::ApiView::SecretsManager.result(
                status,
                before + "ResourceNotFoundException"@ + after,
            );
            let asked = replies.push(missing);
            &&& ensure_secret_step(region, name, description, asked, at) == api::StepView::<
                Seq<char>,
            >::Call(create_call(region, name, description))
            &&& ensure_secret_step(region, name, description, asked.push(Ok(json)), at)
                == api::StepView::Done(Ok::<Seq<char>, Seq<char>>(arn), at + 2)
        }),
{
    let body = before + "ResourceNotFoundException"@ + after;
    let missing = api::ApiView::SecretsManager.result(status, body);
    let e = missing->Err_0;
    let head = e.text.take(e.text.len() - body.len());
    assert(e.text =~= head + before + "ResourceNotFoundException"@ + after);
    text::middle_is_contained(head + before, "ResourceNotFoundException"@, after);
}

/// A call that failed otherwise fails the flow, with its wording, and so does a creation
/// that tells no ARN.
pub proof fn other_failures_are_passed_on(e: api::ApiErrorView, json: Seq<char>)
    requires
        extract::json_text(json, "ARN"@) is None,
    ensures
        !text::contains_text(e.text, "ResourceNotFoundException"@) ==> found_secret(Err(e))
            == Err::<Option<Seq<char>>, Seq<char>>(e.text),
        created_secret(Err(e)) == Err::<Seq<char>, Seq<char>>(e.text),
        created_secret(Ok(json)) matches Err(text) && json.is_suffix_of(text),
{
    let text = "Secrets Manager CreateSecret: could not parse ARN from response: "@ + json;
    assert(text.subrange(text.len() - json.len(), text.len() as int) =~= json);
}

/// A deletion asks for the recovery window given, and ends with the date that comes back:
/// `unknown` where none does.
pub proof fn deletion_tells_its_date(
    region: Seq<char>,
    name: Seq<char>,
    days: nat,
    replies: Seq<api::ReplyView>,
    json: Seq<char>,
    e: api::ApiErrorView,
)
    ensures
        ({
            let at = replies.len() as int;
            let told = delete_secret_step(region, name, days, replies.push(Ok(json)), at);
            &&& delete_secret_step(region, name, days, replies, at) == api::StepView::<
                Seq<char>,
            >::Call(delete_call(region, name, days))
            &&& extract::json_text(json, "DeletionDate"@) matches Some(date) ==> told
                == api::StepView::Done(Ok::<Seq<char>, Seq<char>>(date), at + 1)
            &&& extract::json_text(json, "DeletionDate"@) is None ==> told == api::StepView::Done(
                Ok::<Seq<char>, Seq<char>>("unknown"@),
                at + 1,
            )
            &&& delete_secret_step(region, name, days, replies.push(Err(e)), at)
                == api::StepView::Done(Err::<Seq<char>, Seq<char>>(e.text), at + 1)
        }),
{
}

} // verus!
