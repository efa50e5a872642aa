//! AWS Backup plan and selection management.
//!
//! Snapshots are managed by the AWS Backup service, not by a Kubernetes `CronJob`.
//! This module produces no Kubernetes resources; all scheduling state lives in AWS
//! Backup.
//!
//! ## API
//!
//! AWS Backup uses a REST-JSON API at `backup.<region>.amazonaws.com`.
//! Sig V4 service name: `"backup"`.
//! Content-Type: `application/x-amz-json-1.1`.
//!
//! ## Required IAM on `backup_role_arn`
//!
//! The IAM role passed as `backup_role_arn` must trust `backup.amazonaws.com`
//! and allow `rds:CreateDBSnapshot`, `rds:DescribeDBSnapshots`, and
//! `backup:*` on the target resource.
//!
//! ## Idempotency
//!
//! The plan and selection are named deterministically from the RDS identifier.
//! Running [`configure_backup`] multiple times is safe: existing plans are left in
//! place; new ones are only created when the list call returns nothing.
use crate::api;
use crate::api::{one_call, regional, Api, ApiCall, Reply, Step};
use crate::extract;
use crate::extract::extract_json_str;
use crate::number;
use crate::number::to_signed_decimal;
use crate::settings;
use crate::settings::value_or;
use crate::split;
use crate::split::{nth_part, Separator};
use crate::text;
use crate::text::{chars_of, find_chars, string_of};
use vstd::prelude::*;
use vstd::string::*;

verus! {

// ── Calls ─────────────────────────────────────────────────────────────────────

/// The call that posts `body` to a path of AWS Backup.
pub open spec fn post_call(region: Seq<char>, path: Seq<char>, body: Seq<char>) -> api::ApiCallView {
    let host = api::regional_host("backup"@, region);
    api::ApiCallView {
        api: api::ApiView::BackupPost,
        method: "POST"@,
        host,
        path,
        query: ""@,
        url: "https://"@ + host + path,
        body: Some(body),
        clock_region: region,
        signing_region: region,
        service: "backup"@,
        content_type: Some("application/x-amz-json-1.1"@),
        target: None,
        send_hash: true,
    }
}

/// The call that posts `body` to a path of AWS Backup.
pub fn backup_post(region: &str, path: &str, body: String) -> (call: ApiCall)
    ensures
        call@ == post_call(region@, path@, body@),
{
    let host = regional("backup", region);
    let url = "https://".to_owned().concat(host.as_str()).concat(path);
    ApiCall {
        api: Api::BackupPost,
        method: "POST".to_owned(),
        host,
        path: path.to_owned(),
        query: "".to_owned(),
        url,
        body: Some(body),
        clock_region: region.to_owned(),
        signing_region: region.to_owned(),
        service: "backup".to_owned(),
        content_type: Some("application/x-amz-json-1.1".to_owned()),
        target: None,
        send_hash: true,
    }
}

/// What stands before the first `?`.
pub open spec fn path_only(path: Seq<char>) -> Seq<char> {
    match text::find_from(path, "?"@, 0) {
        Some(i) => path.take(i),
        None => path,
    }
}

/// What stands after the first `?`.
pub open spec fn query_of(path: Seq<char>) -> Seq<char> {
    match text::find_from(path, "?"@, 0) {
        Some(i) => path.skip(i + 1),
        None => Seq::empty(),
    }
}

/// The call that gets a path, with its query, of AWS Backup.
pub open spec fn get_call(region: Seq<char>, path: Seq<char>) -> api::ApiCallView {
    let host = api::regional_host("backup"@, region);
    api::ApiCallView {
        api: api::ApiView::BackupGet,
        method: "GET"@,
        host,
        path: path_only(path),
        query: query_of(path),
        url: "https://"@ + host + path,
        body: None,
        clock_region: region,
        signing_region: region,
        service: "backup"@,
        content_type: None,
        target: None,
        send_hash: true,
    }
}

/// The call that gets a path, with its query, of AWS Backup.
pub fn backup_get(region: &str, path: &str) -> (call: ApiCall)
    ensures
        call@ == get_call(region@, path@),
{
    let chars = chars_of(path);
    let len: usize = chars.len();
    let mark = chars_of("?");
    proof {
        reveal_strlit("?");
    }
    let (only, query): (String, String) = match find_chars(chars.as_slice(), mark.as_slice(), 0) {
        Some(i) => {
            let only = string_of(chars.as_slice(), 0, i);
            let query = string_of(chars.as_slice(), i + 1, len);
            assert(only@ =~= path@.take(i as int));
            assert(query@ =~= path@.skip(i + 1));
            (only, query)
        },
        None => (path.to_owned(), String::new()),
    };
    let host = regional("backup", region);
    let url = "https://".to_owned().concat(host.as_str()).concat(path);
    ApiCall {
        api: Api::BackupGet,
        method: "GET".to_owned(),
        host,
        path: only,
        query,
        url,
        body: None,
        clock_region: region.to_owned(),
        signing_region: region.to_owned(),
        service: "backup".to_owned(),
        content_type: None,
        target: None,
        send_hash: true,
    }
}

/// The call that lists the backup plans.
pub open spec fn list_call(region: Seq<char>) -> api::ApiCallView {
    get_call(region, "/backup/plans?MaxResults=100"@)
}

// ── Finding a plan ────────────────────────────────────────────────────────────

/// Where the last `{` before `pos` stands, or the beginning where there is none.
pub open spec fn object_start(json: Seq<char>, pos: int) -> int
    decreases pos,
{
    if pos <= 0 {
        0
    } else if json[pos - 1] == '{' {
        pos - 1
    } else {
        object_start(json, pos - 1)
    }
}

/// The position after the first `}` from `pos` on, or the end where there is none.
pub open spec fn object_end(json: Seq<char>, pos: int) -> int {
    match text::find_from(json, "}"@, pos) {
        Some(i) => i + 1,
        None => json.len() as int,
    }
}

/// `"BackupPlanName":"<name>"`.
pub open spec fn name_mark(plan_name: Seq<char>) -> Seq<char> {
    "\"BackupPlanName\":\""@ + plan_name + "\""@
}

/// The ID of the plan of that name in a list of plans.
pub open spec fn plan_id_in(json: Seq<char>, plan_name: Seq<char>) -> Option<Seq<char>> {
    match text::find_from(json, name_mark(plan_name), 0) {
        None => None,
        Some(pos) => extract::json_text(
            json.subrange(object_start(json, pos), object_end(json, pos)),
            "BackupPlanId"@,
        ),
    }
}

/// The ID of the plan of that name in a `ListBackupPlans` JSON response.
pub fn find_plan_id_in_list(json: &str, plan_name: &str) -> (id: Option<String>)
    ensures
        text::opt_text(id) == plan_id_in(json@, plan_name@),
{
    let chars = chars_of(json);
    let len: usize = chars.len();
    let mark = "\"BackupPlanName\":\"".to_owned().concat(plan_name).concat("\"");
    let mark = chars_of(mark.as_str());
    match find_chars(chars.as_slice(), mark.as_slice(), 0) {
        None => None,
        Some(pos) => {
            let mut start: usize = pos;
            while start > 0 && chars[start - 1] != '{'
                invariant
                    start <= pos <= chars@.len(),
                    object_start(chars@, start as int) == object_start(chars@, pos as int),
                decreases start,
            {
                start -= 1;
            }
            if start > 0 {
                start -= 1;
            }
            assert(start == object_start(json@, pos as int));
            let brace = chars_of("}");
            proof {
                reveal_strlit("}");
            }
            let end: usize = match find_chars(chars.as_slice(), brace.as_slice(), pos) {
                Some(i) => i + 1,
                None => len,
            };
            let object = string_of(chars.as_slice(), start, end);
            extract_json_str(object.as_str(), "BackupPlanId")
        },
    }
}

// ── The flow ──────────────────────────────────────────────────────────────────

/// The name of the plan of an instance.
pub open spec fn plan_name_of(rds_identifier: Seq<char>) -> Seq<char> {
    rds_identifier + "-backup"@
}

/// The days that recovery points are retained: one at least.
pub open spec fn retained(retention_days: int) -> int {
    if retention_days < 1 {
        1
    } else {
        retention_days
    }
}

/// The call that creates the plan of an instance.
pub open spec fn create_plan_call(
    rds_identifier: Seq<char>,
    region: Seq<char>,
    schedule: Seq<char>,
    retention_days: int,
) -> api::ApiCallView {
    post_call(
        region,
        "/backup/plans"@,
        r#"{"BackupPlanData":{"BackupPlanName":""#@ + plan_name_of(rds_identifier)
            + r#"","Rules":[{"RuleName":"scheduled-snapshot","TargetBackupVaultName":"Default","ScheduleExpression":""#@
            + schedule + r#"","Lifecycle":{"DeleteAfterDays":"#@ + number::signed_decimal(
            retained(retention_days),
        ) + "}}]}}"@,
    )
}

/// The account of a role: the fifth field of its ARN, or `*` where it has none.
pub open spec fn account_of(role_arn: Seq<char>) -> Seq<char> {
    settings::text_or(split::part_at(role_arn, Separator::Char(':'), 4), "*"@)
}

/// The call that selects an instance for a plan.
pub open spec fn selection_call(
    rds_identifier: Seq<char>,
    region: Seq<char>,
    backup_role_arn: Seq<char>,
    plan_id: Seq<char>,
) -> api::ApiCallView {
    let rds_arn = "arn:aws:rds:"@ + region + ":"@ + account_of(backup_role_arn) + ":db:"@
        + rds_identifier;
    post_call(
        region,
        "/backup/plans/"@ + plan_id + "/selections"@,
        r#"{"BackupSelection":{"SelectionName":""#@ + rds_identifier
            + r#"-selection","IamRoleArn":""#@ + backup_role_arn + r#"","Resources":[""#@ + rds_arn
            + r#""]}}"#@,
    )
}

/// The call that creates the plan of an instance.
fn create_plan(rds_identifier: &str, region: &str, schedule: &str, retention_days: i64) -> (call:
    ApiCall)
    ensures
        call@ == create_plan_call(rds_identifier@, region@, schedule@, retention_days as int),
{
    let plan_name = rds_identifier.to_owned().concat("-backup");
    let retention: i64 = if retention_days < 1 {
        1
    } else {
        retention_days
    };
    let mut body = r#"{"BackupPlanData":{"BackupPlanName":""#.to_owned();
    body.append(plan_name.as_str());
    body.append(
        r#"","Rules":[{"RuleName":"scheduled-snapshot","TargetBackupVaultName":"Default","ScheduleExpression":""#,
    );
    body.append(schedule);
    body.append(r#"","Lifecycle":{"DeleteAfterDays":"#);
    body.append(to_signed_decimal(retention).as_str());
    body.append("}}]}}");
    backup_post(region, "/backup/plans", body)
}

/// The call that selects an instance for a plan.
fn select_instance(rds_identifier: &str, region: &str, backup_role_arn: &str, plan_id: &str) -> (call:
    ApiCall)
    ensures
        call@ == selection_call(rds_identifier@, region@, backup_role_arn@, plan_id@),
{
    let account_id = value_or(nth_part(backup_role_arn, Separator::Char(':'), 4), "*");
    let mut rds_arn = "arn:aws:rds:".to_owned();
    rds_arn.append(region);
    rds_arn.append(":");
    rds_arn.append(account_id.as_str());
    rds_arn.append(":db:");
    rds_arn.append(rds_identifier);
    let mut body = r#"{"BackupSelection":{"SelectionName":""#.to_owned();
    body.append(rds_identifier);
    body.append(r#"-selection","IamRoleArn":""#);
    body.append(backup_role_arn);
    body.append(r#"","Resources":[""#);
    body.append(rds_arn.as_str());
    body.append(r#""]}}"#);
    let path = "/backup/plans/".to_owned().concat(plan_id).concat("/selections");
    backup_post(region, path.as_str(), body)
}

/// The plan's ID in what came back for creating it.
pub open spec fn created_plan(reply: api::ReplyView) -> Result<Seq<char>, Seq<char>> {
    match reply {
        Err(e) => Err(e.text),
        Ok(json) => match extract::json_text(json, "BackupPlanId"@) {
            Some(id) => Ok(id),
            None => Err(
                "configure_backup: could not parse BackupPlanId from response: "@ + json,
            ),
        },
    }
}

/// The plan's ID in what came back for creating it.
pub fn read_created(reply: &Reply) -> (created: Result<String, String>)
    ensures
        text::outcome(created) == created_plan(api::answer(*reply)),
{
    match reply {
        Err(e) => Err(e.text.clone()),
        Ok(json) => match extract_json_str(json.as_str(), "BackupPlanId") {
            Some(id) => Ok(id),
            None => Err(
                "configure_backup: could not parse BackupPlanId from response: ".to_owned().concat(
                    json.as_str(),
                ),
            ),
        },
    }
}

/// The flow of finding or creating the plan of an instance. It ends with the plan's
/// ID.
pub open spec fn ensure_plan_step(
    rds_identifier: Seq<char>,
    region: Seq<char>,
    schedule: Seq<char>,
    retention_days: int,
    replies: Seq<api::ReplyView>,
    at: int,
) -> api::StepView<Seq<char>> {
    if replies.len() <= at {
        api::StepView::Call(list_call(region))
    } else {
        match replies[at] {
            Err(e) => api::StepView::Done(Err(e.text), at + 1),
            Ok(json) => match plan_id_in(json, plan_name_of(rds_identifier)) {
                Some(id) => api::StepView::Done(Ok(id), at + 1),
                None => if replies.len() <= at + 1 {
                    api::StepView::Call(
                        create_plan_call(rds_identifier, region, schedule, retention_days),
                    )
                } else {
                    api::StepView::Done(created_plan(replies[at + 1]), at + 2)
                },
            },
        }
    }
}

/// Finds or creates the plan of an instance. `CreateBackupPlan` is not idempotent: it
/// gives a new plan on every call, so it is not called where the list holds the plan.
pub fn ensure_plan(
    rds_identifier: &str,
    region: &str,
    schedule: &str,
    retention_days: i64,
    replies: &Vec<Reply>,
    at: usize,
) -> (step: Step<String>)
    requires
        at <= replies@.len(),
    ensures
        step@ == ensure_plan_step(
            rds_identifier@,
            region@,
            schedule@,
            retention_days as int,
            api::outcomes(replies@),
            at as int,
        ),
        step matches Step::Done(_, next) ==> at <= next <= replies@.len(),
{
    if at >= replies.len() {
        return Step::Call(backup_get(region, "/backup/plans?MaxResults=100"));
    }
    match &replies[at] {
        Err(e) => Step::Done(Err(e.text.clone()), at + 1),
        Ok(json) => {
            let plan_name = rds_identifier.to_owned().concat("-backup");
            match find_plan_id_in_list(json.as_str(), plan_name.as_str()) {
                Some(id) => Step::Done(Ok(id), at + 1),
                None => {
                    if at + 1 >= replies.len() {
                        return Step::Call(
                            create_plan(rds_identifier, region, schedule, retention_days),
                        );
                    }
                    Step::Done(read_created(&replies[at + 1]), at + 2)
                },
            }
        },
    }
}

/// The flow of [`configure_backup`]: find or create the plan, then select the
/// instance for it.
pub open spec fn configure_backup_step(
    rds_identifier: Seq<char>,
    region: Seq<char>,
    schedule: Seq<char>,
    retention_days: int,
    backup_role_arn: Seq<char>,
    replies: Seq<api::ReplyView>,
    at: int,
) -> api::StepView<()> {
    match ensure_plan_step(rds_identifier, region, schedule, retention_days, replies, at) {
        api::StepView::Call(call) => api::StepView::Call(call),
        api::StepView::Done(Err(e), next) => api::StepView::Done(Err(e), next),
        api::StepView::Done(Ok(id), next) => api::single(
            selection_call(rds_identifier, region, backup_role_arn, id),
            replies,
            next,
        ),
    }
}

/// Creates or verifies an AWS Backup plan and selection for an RDS instance.
///
/// - `rds_identifier`: RDS DB instance identifier.
/// - `region`: AWS region where the instance lives.
/// - `schedule`: AWS EventBridge cron expression, e.g. `"cron(0 3 * * ? *)"`.
/// - `retention_days`: how many days to retain recovery points.
/// - `backup_role_arn`: ARN of an IAM role that `backup.amazonaws.com` can assume.
pub fn configure_backup(
    rds_identifier: &str,
    region: &str,
    schedule: &str,
    retention_days: i64,
    backup_role_arn: &str,
    replies: &Vec<Reply>,
    at: usize,
) -> (step: Step<()>)
    requires
        at <= replies@.len(),
    ensures
        step@ == configure_backup_step(
            rds_identifier@,
            region@,
            schedule@,
            retention_days as int,
            backup_role_arn@,
            api::outcomes(replies@),
            at as int,
        ),
        step matches Step::Done(_, next) ==> at <= next <= replies@.len(),
{
    match ensure_plan(rds_identifier, region, schedule, retention_days, replies, at) {
        Step::Call(call) => Step::Call(call),
        Step::Done(Err(e), next) => Step::Done(Err(e), next),
        Step::Done(Ok(id), next) => {
            let call = select_instance(rds_identifier, region, backup_role_arn, id.as_str());
            one_call(call, replies, next)
        },
    }
}

// ── Laws ──────────────────────────────────────────────────────────────────────

/// A plan that the list holds is left in place: after the list call, the only call
/// that is left is the selection.
pub proof fn listed_plan_is_not_created_again(
    rds_identifier: Seq<char>,
    region: Seq<char>,
    schedule: Seq<char>,
    retention_days: int,
    backup_role_arn: Seq<char>,
    replies: Seq<api::ReplyView>,
    at: int,
    json: Seq<char>,
    id: Seq<char>,
)
    requires
        0 <= at < replies.len(),
        replies[at] == Ok::<Seq<char>, api::ApiErrorView>(json),
        plan_id_in(json, plan_name_of(rds_identifier)) == Some(id),
    ensures
        configure_backup_step(
            rds_identifier,
            region,
            schedule,
            retention_days,
            backup_role_arn,
            replies,
            at,
        ) == api::single(
            selection_call(rds_identifier, region, backup_role_arn, id),
            replies,
            at + 1,
        ),
{
}

/// Configuring the backup takes three calls at most.
pub proof fn backup_takes_three_calls(
    rds_identifier: Seq<char>,
    region: Seq<char>,
    schedule: Seq<char>,
    retention_days: int,
    backup_role_arn: Seq<char>,
    replies: Seq<api::ReplyView>,
    at: int,
)
    requires
        0 <= at,
        at + 3 <= replies.len(),
    ensures
        configure_backup_step(
            rds_identifier,
            region,
            schedule,
            retention_days,
            backup_role_arn,
            replies,
            at,
        ) is Done,
{
}

/// No `{` between two positions: the object begins no later than the first of them.
proof fn object_starts_before(json: Seq<char>, from: int, pos: int)
    requires
        0 <= from <= pos <= json.len(),
        forall|j: int| from <= j < pos ==> json[j] != '{',
    ensures
        object_start(json, pos) == object_start(json, from),
    decreases pos - from,
{
    if from < pos {
        object_starts_before(json, from, pos - 1);
    }
}

/// The ID of a plan is read from its entry of the list, whatever stands around the
/// entry: where the name does not stand earlier.
pub proof fn plan_id_is_read_back(
    before: Seq<char>,
    id: Seq<char>,
    plan_name: Seq<char>,
    after: Seq<char>,
)
    requires
        ({
            let mark = name_mark(plan_name);
            let head = before + "{"@ + extract::json_mark("BackupPlanId"@) + id + "\","@;
            forall|j: int|
                0 <= j < head.len() ==> !text::occurs_at(head + mark + after, mark, j)
        }),
        !id.contains('"'),
        !id.contains('{'),
    ensures
        plan_id_in(
            before + "{"@ + extract::json_mark("BackupPlanId"@) + id + "\","@ + name_mark(plan_name)
                + after,
            plan_name,
        ) == Some(id),
{
    let key = extract::json_mark("BackupPlanId"@);
    let mark = name_mark(plan_name);
    let head = before + "{"@ + key + id + "\","@;
    let json = head + mark + after;
    let pos = head.len() as int;
    reveal_strlit("{");
    reveal_strlit("}");
    reveal_strlit("\"");
    reveal_strlit("\",");
    reveal_strlit("\":\"");
    reveal_strlit("BackupPlanId");
    assert(json.subrange(pos, pos + mark.len()) =~= mark);
    text::find_from_unique(json, mark, 0, pos);

    let open = before.len() as int;
    assert(json[open] == '{');
    assert forall|j: int| open + 1 <= j < pos implies json[j] != '{' by {
        let k = j - open - 1;
        if k < key.len() {
            assert(json[j] == key[k]);
        } else if k < key.len() + id.len() {
            assert(json[j] == id[k - key.len()]);
        } else {
            assert(json[j] == "\","@[k - key.len() - id.len()]);
        }
    }
    object_starts_before(json, open + 1, pos);
    assert(object_start(json, pos) == open);

    let end = object_end(json, pos);
    text::find_from_is_first(json, "}"@, pos);
    assert(pos <= end <= json.len());
    let object = json.subrange(open, end);
    let rest = json.subrange(pos - 1, end);
    assert(object =~= "{"@ + key + id + "\""@ + rest);
    assert forall|j: int| 0 <= j < 1 implies !text::occurs_at(object, key, j) by {
        if text::occurs_at(object, key, j) {
            assert(object.subrange(0, key.len() as int)[0] == key[0]);
            assert(key[0] == '"');
        }
    }
    extract::json_text_reads_back("{"@, "BackupPlanId"@, id, rest);
}

/// Every call to AWS Backup goes to the region's own host, and is signed for that region.
/// What is posted stands in the body, under the path it is posted to.
pub proof fn backup_is_called(region: Seq<char>, path: Seq<char>, body: Seq<char>)
    ensures
        ({
            let post = post_call(region, path, body);
            let get = get_call(region, path);
            &&& post.api is BackupPost && post.method == "POST"@ && post.body == Some(body)
            &&& get.api is BackupGet && get.method == "GET"@ && get.body is None
            &&& post.host == "backup."@ + region + ".amazonaws.com"@ && get.host == post.host
            &&& post.signing_region == region && post.clock_region == region
            &&& get.signing_region == region && get.clock_region == region
            &&& post.service == "backup"@ && get.service == "backup"@
            &&& post.path == path && post.query.len() == 0
            &&& post.content_type == Some("application/x-amz-json-1.1"@) && post.send_hash
            &&& get.content_type is None && get.send_hash
            &&& post.url == "https://"@ + post.host + path && get.url == post.url
        }),
{
    reveal_strlit("backup");
    reveal_strlit(".");
    reveal_strlit("backup.");
    reveal_strlit("");
    assert("backup"@ + "."@ =~= "backup."@);
}

/// The query is what follows the first question mark, and the path what precedes it.
pub proof fn query_is_told_from_path(region: Seq<char>, path: Seq<char>, query: Seq<char>)
    requires
        !path.contains('?'),
    ensures
        get_call(region, path + "?"@ + query).path == path,
        get_call(region, path + "?"@ + query).query == query,
        get_call(region, path).path == path,
        get_call(region, path).query.len() == 0,
{
    reveal_strlit("?");
    let whole = path + "?"@ + query;
    let at = path.len() as int;
    assert forall|j: int| 0 <= j < at implies !text::occurs_at(whole, "?"@, j)
        && !text::occurs_at(path, "?"@, j) by {
        assert(path.contains(path[j]));
        assert(whole.subrange(j, j + 1)[0] == path[j]);
        assert(path.subrange(j, j + 1)[0] == path[j]);
    }
    assert(whole.subrange(at, at + 1) =~= "?"@);
    text::find_from_unique(whole, "?"@, 0, at);
    text::find_from_is_first(path, "?"@, 0);
    assert(whole.take(at) =~= path);
    assert(whole.skip(at + 1) =~= query);
}

/// Recovery points are kept for the days asked for, and for a day where fewer are.
pub proof fn days_asked_for_are_kept(days: int)
    ensures
        days >= 1 ==> retained(days) == days,
        days < 1 ==> retained(days) == 1,
{
}

/// The plan is named after the instance, runs on the schedule asked for, and deletes a
/// recovery point after the days asked for.
pub proof fn plan_is_as_asked_for(
    rds_identifier: Seq<char>,
    region: Seq<char>,
    schedule: Seq<char>,
    days: int,
)
    ensures
        ({
            let call = create_plan_call(rds_identifier, region, schedule, days);
            let body = call.body->0;
            &&& call == post_call(region, "/backup/plans"@, body)
            &&& text::contains_text(
                body,
                "\"BackupPlanName\":\""@ + rds_identifier + "-backup\""@,
            )
            &&& text::contains_text(body, "\"ScheduleExpression\":\""@ + schedule + "\""@)
            &&& days >= 1 ==> text::contains_text(
                body,
                "\"DeleteAfterDays\":"@ + number::signed_decimal(days) + "}"@,
            )
            &&& days < 1 ==> text::contains_text(
                body,
                "\"DeleteAfterDays\":"@ + number::signed_decimal(1) + "}"@,
            )
        }),
{
    reveal_strlit("\"BackupPlanName\":\"");
    reveal_strlit("-backup");
    reveal_strlit("-backup\"");
    reveal_strlit("\"ScheduleExpression\":\"");
    reveal_strlit("\"");
    reveal_strlit("\"DeleteAfterDays\":");
    reveal_strlit("}");
    reveal_strlit("}}]}}");
    reveal_strlit(r#"{"BackupPlanData":{"BackupPlanName":""#);
    reveal_strlit(
        r#"","Rules":[{"RuleName":"scheduled-snapshot","TargetBackupVaultName":"Default","ScheduleExpression":""#,
    );
    reveal_strlit(r#"","Lifecycle":{"DeleteAfterDays":"#);
    let head = r#"{"BackupPlanData":{"BackupPlanName":""#@;
    let rules =
        r#"","Rules":[{"RuleName":"scheduled-snapshot","TargetBackupVaultName":"Default","ScheduleExpression":""#@;
    let cycle = r#"","Lifecycle":{"DeleteAfterDays":"#@;
    let kept = number::signed_decimal(if days < 1 {
        1
    } else {
        days
    });
    let body = create_plan_call(rds_identifier, region, schedule, days).body->0;
    assert(text::contains_text(body, "\"BackupPlanName\":\""@ + rds_identifier + "-backup\""@))
        by {
        let before = head.take(head.len() - 18);
        let inner = "\"BackupPlanName\":\""@ + rds_identifier + "-backup\""@;
        let after = rules.skip(1) + schedule + cycle + kept + "}}]}}"@;
        assert(head =~= before + "\"BackupPlanName\":\""@);
        assert(body =~= before + inner + after);
        text::middle_is_contained(before, inner, after);
    }
    assert(text::contains_text(body, "\"ScheduleExpression\":\""@ + schedule + "\""@)) by {
        let front = rules.take(rules.len() - 22);
        let before = head + rds_identifier + "-backup"@ + front;
        let inner = "\"ScheduleExpression\":\""@ + schedule + "\""@;
        let after = cycle.skip(1) + kept + "}}]}}"@;
        assert(rules =~= front + "\"ScheduleExpression\":\""@);
        assert(body =~= before + inner + after);
        text::middle_is_contained(before, inner, after);
    }
    assert(text::contains_text(body, "\"DeleteAfterDays\":"@ + kept + "}"@)) by {
        let front = cycle.take(cycle.len() - 18);
        let before = head + rds_identifier + "-backup"@ + rules + schedule + front;
        let inner = "\"DeleteAfterDays\":"@ + kept + "}"@;
        let after = "}}]}}"@.skip(1);
        assert(cycle =~= front + "\"DeleteAfterDays\":"@);
        assert(body =~= before + inner + after);
        text::middle_is_contained(before, inner, after);
    }
}

/// The account of a role is the fifth field of its ARN; a text of fewer fields stands for
/// any account.
pub proof fn role_account_is_the_fifth_field(fields: Seq<Seq<char>>)
    requires
        fields.len() > 0,
        forall|i: int| 0 <= i < fields.len() ==> !(#[trigger] fields[i]).contains(':'),
    ensures
        fields.len() > 4 ==> account_of(text::joined(fields, seq![':'])) == fields[4],
        fields.len() <= 4 ==> account_of(text::joined(fields, seq![':'])) == "*"@,
{
    split::joined_parts_are_found(fields, ':');
}

/// The selection is made in the plan, for the role, and of the instance in the role's
/// account.
pub proof fn selection_is_of_the_instance(
    rds_identifier: Seq<char>,
    region: Seq<char>,
    fields: Seq<Seq<char>>,
    plan_id: Seq<char>,
)
    requires
        fields.len() > 4,
        forall|i: int| 0 <= i < fields.len() ==> !(#[trigger] fields[i]).contains(':'),
    ensures
        ({
            let role_arn = text::joined(fields, seq![':']);
            let call = selection_call(rds_identifier, region, role_arn, plan_id);
            let body = call.body->0;
            &&& call == post_call(
                region,
                "/backup/plans/"@ + plan_id + "/selections"@,
                body,
            )
            &&& text::contains_text(
                body,
                "\"SelectionName\":\""@ + rds_identifier + "-selection\""@,
            )
            &&& text::contains_text(body, "\"IamRoleArn\":\""@ + role_arn + "\""@)
            &&& text::contains_text(
                body,
                "\"Resources\":[\"arn:aws:rds:"@ + region + ":"@ + fields[4] + ":db:"@
                    + rds_identifier + "\"]"@,
            )
        }),
{
    role_account_is_the_fifth_field(fields);
    let role_arn = text::joined(fields, seq![':']);
    reveal_strlit("\"SelectionName\":\"");
    reveal_strlit("-selection\"");
    reveal_strlit("\"IamRoleArn\":\"");
    reveal_strlit("\"");
    reveal_strlit("\"]");
    reveal_strlit("\"Resources\":[\"arn:aws:rds:");
    reveal_strlit("arn:aws:rds:");
    reveal_strlit(r#"{"BackupSelection":{"SelectionName":""#);
    reveal_strlit(r#"-selection","IamRoleArn":""#);
    reveal_strlit(r#"","Resources":[""#);
    reveal_strlit(r#""]}}"#);
    let head = r#"{"BackupSelection":{"SelectionName":""#@;
    let role = r#"-selection","IamRoleArn":""#@;
    let list = r#"","Resources":[""#@;
    let tail = r#""]}}"#@;
    let arn = "arn:aws:rds:"@ + region + ":"@ + fields[4] + ":db:"@ + rds_identifier;
    let body = selection_call(rds_identifier, region, role_arn, plan_id).body->0;
    assert(text::contains_text(body, "\"SelectionName\":\""@ + rds_identifier + "-selection\""@))
        by {
        let before = head.take(head.len() - 17);
        let inner = "\"SelectionName\":\""@ + rds_identifier + "-selection\""@;
        let after = role.skip(11) + role_arn + list + arn + tail;
        assert(head =~= before + "\"SelectionName\":\""@);
        assert(role =~= "-selection\""@ + role.skip(11));
        assert(body =~= before + inner + after);
        text::middle_is_contained(before, inner, after);
    }
    assert(text::contains_text(body, "\"IamRoleArn\":\""@ + role_arn + "\""@)) by {
        let front = role.take(role.len() - 14);
        let before = head + rds_identifier + front;
        let inner = "\"IamRoleArn\":\""@ + role_arn + "\""@;
        let after = list.skip(1) + arn + tail;
        assert(role =~= front + "\"IamRoleArn\":\""@);
        assert(body =~= before + inner + after);
        text::middle_is_contained(before, inner, after);
    }
    let inner = "\"Resources\":[\"arn:aws:rds:"@ + region + ":"@ + fields[4] + ":db:"@
        + rds_identifier + "\"]"@;
    assert(text::contains_text(body, inner)) by {
        let front = list.take(2);
        let before = head + rds_identifier + role + role_arn + front;
        let after = tail.skip(2);
        assert(list + "arn:aws:rds:"@ =~= front + "\"Resources\":[\"arn:aws:rds:"@);
        assert(body =~= before + inner + after);
        text::middle_is_contained(before, inner, after);
    }
}

/// The flow begins with listing the plans of the region, and ends there where that fails.
pub proof fn plans_are_listed_first(
    rds_identifier: Seq<char>,
    region: Seq<char>,
    schedule: Seq<char>,
    days: int,
    role_arn: Seq<char>,
    replies: Seq<api::ReplyView>,
    e: api::ApiErrorView,
)
    ensures
        ({
            let at = replies.len() as int;
            let first = configure_backup_step(
                rds_identifier,
                region,
                schedule,
                days,
                role_arn,
                replies,
                at,
            );
            &&& first matches api::StepView::Call(call) && call == get_call(
                region,
                "/backup/plans?MaxResults=100"@,
            )
            &&& configure_backup_step(
                rds_identifier,
                region,
                schedule,
                days,
                role_arn,
                replies.push(Err(e)),
                at,
            ) == api::StepView::<()>::Done(Err(e.text), at + 1)
        }),
{
}

/// A plan that the list does not name is created as asked for; with the ID that comes
/// back the instance is selected for it, under the role.
pub proof fn unlisted_plan_is_created(
    rds_identifier: Seq<char>,
    region: Seq<char>,
    schedule: Seq<char>,
    days: int,
    role_arn: Seq<char>,
    replies: Seq<api::ReplyView>,
    json: Seq<char>,
    created: Seq<char>,
    id: Seq<char>,
)
    requires
        !text::contains_text(json, "\"BackupPlanName\":\""@ + rds_identifier + "-backup\""@),
        extract::json_text(created, "BackupPlanId"@) == Some(id),
    ensures
        ({
            let at = replies.len() as int;
            let listed = replies.push(Ok(json));
            &&& configure_backup_step(
                rds_identifier,
                region,
                schedule,
                days,
                role_arn,
                listed,
                at,
            ) == api::StepView::<()>::Call(
                create_plan_call(rds_identifier, region, schedule, days),
            )
            &&& configure_backup_step(
                rds_identifier,
                region,
                schedule,
                days,
                role_arn,
                listed.push(Ok(created)),
                at,
            ) == api::StepView::<()>::Call(selection_call(rds_identifier, region, role_arn, id))
        }),
{
    reveal_strlit("-backup");
    reveal_strlit("\"");
    reveal_strlit("-backup\"");
    let mark = name_mark(plan_name_of(rds_identifier));
    assert(mark =~= "\"BackupPlanName\":\""@ + rds_identifier + "-backup\""@);
    text::find_from_is_first(json, mark, 0);
}

/// A plan that the list names after the instance is taken by the ID beside its name.
pub proof fn listed_plan_is_selected(
    rds_identifier: Seq<char>,
    region: Seq<char>,
    schedule: Seq<char>,
    days: int,
    role_arn: Seq<char>,
    replies: Seq<api::ReplyView>,
    id: Seq<char>,
    after: Seq<char>,
)
    requires
        !id.contains('"'),
        !id.contains('{'),
        ({
            let mark = "\"BackupPlanName\":\""@ + rds_identifier + "-backup\""@;
            let head = "{\"BackupPlanId\":\""@ + id + "\","@;
            forall|j: int|
                0 <= j < head.len() ==> !text::occurs_at(head + mark + after, mark, j)
        }),
    ensures
        ({
            let json = "{\"BackupPlanId\":\""@ + id + "\",\"BackupPlanName\":\""@ + rds_identifier
                + "-backup\""@ + after;
            configure_backup_step(
                rds_identifier,
                region,
                schedule,
                days,
                role_arn,
                replies.push(Ok(json)),
                replies.len() as int,
            ) == api::StepView::<()>::Call(selection_call(rds_identifier, region, role_arn, id))
        }),
{
    reveal_strlit("-backup");
    reveal_strlit("\"");
    reveal_strlit("-backup\"");
    reveal_strlit("{");
    reveal_strlit("\":\"");
    reveal_strlit("\",");
    reveal_strlit("BackupPlanId");
    reveal_strlit("{\"BackupPlanId\":\"");
    reveal_strlit("\"BackupPlanName\":\"");
    reveal_strlit("\",\"BackupPlanName\":\"");
    let none = Seq::<char>::empty();
    let name = rds_identifier + "-backup"@;
    let mark = "\"BackupPlanName\":\""@ + rds_identifier + "-backup\""@;
    let head = "{\"BackupPlanId\":\""@ + id + "\","@;
    let json = "{\"BackupPlanId\":\""@ + id + "\",\"BackupPlanName\":\""@ + rds_identifier
        + "-backup\""@ + after;
    assert(name_mark(name) =~= mark);
    assert(none + "{"@ + extract::json_mark("BackupPlanId"@) + id + "\","@ =~= head);
    assert(head + mark + after =~= json);
    plan_id_is_read_back(none, id, name, after);
}

/// A creation that brings back no ID fails, with what came back.
pub proof fn plan_without_an_id_fails(created: Seq<char>, e: api::ApiErrorView)
    ensures
        created_plan(Err(e)) == Err::<Seq<char>, Seq<char>>(e.text),
        extract::json_text(created, "BackupPlanId"@) is None ==> (created_plan(
            Ok(created),
        ) matches Err(text) && created.is_suffix_of(text)),
{
    let text = "configure_backup: could not parse BackupPlanId from response: "@ + created;
    assert(text.subrange(text.len() - created.len(), text.len() as int) =~= created);
}

} // verus!
