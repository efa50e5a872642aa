//! IAM role management via the AWS IAM Query API.
//!
//! IAM endpoint and Sig V4 signing region are partition-aware:
//! - Commercial:  `iam.amazonaws.com`,        signing region `us-east-1`
//! - GovCloud:    `iam.us-gov.amazonaws.com`, signing region `us-gov-west-1`
//!
//! ## Trust policy
//!
//! Where `OIDC_PROVIDER_ARN` is configured, [`ensure_role`] gives the role a trust
//! policy scoped to the workload's service account:
//!
//! ```json
//! {
//!   "Version": "2012-10-17",
//!   "Statement": [{
//!     "Effect": "Allow",
//!     "Principal": {"Federated": "arn:aws:iam::<account>:oidc-provider/<url>"},
//!     "Action": "sts:AssumeRoleWithWebIdentity",
//!     "Condition": {
//!       "StringEquals": {
//!         "<oidc-url>:sub": "system:serviceaccount:<ns>:<sa>",
//!         "<oidc-url>:aud": "sts.amazonaws.com"
//!       }
//!     }
//!   }]
//! }
//! ```
//!
//! `UpdateAssumeRolePolicy` is called whenever the role is found, so that an
//! `OIDC_PROVIDER_ARN` added after the role was created takes effect.
use crate::api;
use crate::api::{form_post, one_call, Api, ApiCall, Reply, Step};
use crate::encode;
use crate::encode::url_encode;
use crate::extract;
use crate::extract::extract_tag;
use crate::settings;
use crate::settings::{filled_value, set_value, value_or, ConfigValue, PluginSettings};
use crate::split;
use crate::split::{nth_part, split, Separator};
use crate::text;
use crate::text::{ends_with, join, starts_with, strip_prefixes};
use vstd::prelude::*;
use vstd::string::*;
use vstd::utf8::*;

verus! {

broadcast use crate::text::texts_push;

// ── Endpoint ──────────────────────────────────────────────────────────────────

/// A region of the GovCloud partition.
pub open spec fn gov_cloud(region: Seq<char>) -> bool {
    "us-gov-"@.is_prefix_of(region)
}

/// The IAM host for a workload region.
pub open spec fn iam_host(settings: PluginSettings, region: Seq<char>) -> Seq<char> {
    settings::text_or(
        settings::filled_text(settings.iam_endpoint),
        if gov_cloud(region) {
            "iam.us-gov.amazonaws.com"@
        } else {
            "iam.amazonaws.com"@
        },
    )
}

/// The region that IAM signatures are for, for a workload region.
pub open spec fn iam_region(settings: PluginSettings, region: Seq<char>) -> Seq<char> {
    settings::text_or(
        settings::filled_text(settings.iam_signing_region),
        if gov_cloud(region) {
            "us-gov-west-1"@
        } else {
            "us-east-1"@
        },
    )
}

/// The IAM host and signing region for the given workload region.
pub fn iam_endpoint(settings: &PluginSettings, region: &str) -> (endpoint: (String, String))
    ensures
        endpoint.0@ == iam_host(*settings, region@),
        endpoint.1@ == iam_region(*settings, region@),
{
    let gov = starts_with(region, "us-gov-");
    let host = value_or(
        filled_value(&settings.iam_endpoint),
        if gov {
            "iam.us-gov.amazonaws.com"
        } else {
            "iam.amazonaws.com"
        },
    );
    let signing_region = value_or(
        filled_value(&settings.iam_signing_region),
        if gov {
            "us-gov-west-1"
        } else {
            "us-east-1"
        },
    );
    (host, signing_region)
}

/// The call that posts `body` to IAM.
pub open spec fn iam_call(
    settings: PluginSettings,
    region: Seq<char>,
    body: Seq<char>,
) -> api::ApiCallView {
    api::form_call(
        api::ApiView::Iam,
        "iam"@,
        iam_host(settings, region),
        region,
        iam_region(settings, region),
        body,
        true,
    )
}

/// The call that posts `body` to IAM.
pub fn iam_query(settings: &PluginSettings, region: &str, body: String) -> (call: ApiCall)
    ensures
        call@ == iam_call(*settings, region@, body@),
{
    let (host, signing_region) = iam_endpoint(settings, region);
    form_post(Api::Iam, "iam", host, region, signing_region.as_str(), body, true)
}

// ── Trust policy ──────────────────────────────────────────────────────────────

/// The provider's URL in its ARN `arn:aws[-partition]:iam::<account>:oidc-provider/<url>`.
pub open spec fn oidc_url(arn: Seq<char>) -> Seq<char> {
    text::without_prefixes(split::parts(arn, Separator::Char(':')).last(), "oidc-provider/"@)
}

/// The trust policy for a workload's service account.
pub open spec fn trust_policy(
    oidc_provider: Option<Seq<char>>,
    namespace: Seq<char>,
    sa_name: Seq<char>,
) -> Seq<char> {
    match oidc_provider {
        Some(arn) =>
        r#"{"Version":"2012-10-17","Statement":[{"Effect":"Allow","Principal":{"Federated":""#@ + arn
            + r#""},"Action":"sts:AssumeRoleWithWebIdentity","Condition":{"StringEquals":{""#@
            + oidc_url(arn) + r#":sub":"system:serviceaccount:"#@ + namespace + ":"@ + sa_name
            + r#"",""#@ + oidc_url(arn) + r#":aud":"sts.amazonaws.com"}}}]}"#@,
        None => r#"{"Version":"2012-10-17","Statement":[]}"#@,
    }
}

/// The trust policy for a workload's service account: one that lets it assume the
/// role where an OIDC provider is configured, and one without principals where none
/// is.
pub fn trust_policy_document(oidc_provider: &ConfigValue, namespace: &str, sa_name: &str) -> (policy:
    String)
    ensures
        policy@ == trust_policy(settings::filled_text(*oidc_provider), namespace@, sa_name@),
{
    match filled_value(oidc_provider) {
        Some(arn) => {
            let fields = split(arn.as_str(), Separator::Char(':'));
            proof {
                reveal_strlit("oidc-provider/");
            }
            let url = strip_prefixes(fields[fields.len() - 1].as_str(), "oidc-provider/");
            let mut policy =
                r#"{"Version":"2012-10-17","Statement":[{"Effect":"Allow","Principal":{"Federated":""#.to_owned();
            policy.append(arn.as_str());
            policy.append(
                r#""},"Action":"sts:AssumeRoleWithWebIdentity","Condition":{"StringEquals":{""#,
            );
            policy.append(url.as_str());
            policy.append(r#":sub":"system:serviceaccount:"#);
            policy.append(namespace);
            policy.append(":");
            policy.append(sa_name);
            policy.append(r#"",""#);
            policy.append(url.as_str());
            policy.append(r#":aud":"sts.amazonaws.com"}}}]}"#);
            policy
        },
        None => r#"{"Version":"2012-10-17","Statement":[]}"#.to_owned(),
    }
}

// ── Roles ─────────────────────────────────────────────────────────────────────

/// The path under which roles are created: `ROLE_PATH`, where it begins and ends
/// with a slash.
pub open spec fn role_path(value: ConfigValue) -> Seq<char> {
    match settings::set_text(value) {
        Some(path) if "/"@.is_prefix_of(path) && "/"@.is_suffix_of(path) => path,
        _ => "/deckwatch-plugin/"@,
    }
}

/// The call that looks a role up.
pub open spec fn get_role_call(
    settings: PluginSettings,
    region: Seq<char>,
    role_name: Seq<char>,
) -> api::ApiCallView {
    iam_call(
        settings,
        region,
        "Action=GetRole&Version=2010-05-08&RoleName="@ + encode::url_text(role_name),
    )
}

/// The role's ARN in what came back for looking it up, where there is such a role. IAM
/// answers with the error `NoSuchEntity` where there is none.
pub open spec fn found_role(reply: api::ReplyView) -> Result<Option<Seq<char>>, Seq<char>> {
    match reply {
        Err(e) => if e.code == Some("NoSuchEntity"@) {
            Ok(None)
        } else {
            Err(e.text)
        },
        Ok(xml) => Ok(extract::tag_text(xml, "Arn"@)),
    }
}

/// The call that gives an existing role its trust policy.
pub open spec fn update_trust_call(
    settings: PluginSettings,
    region: Seq<char>,
    role_name: Seq<char>,
    trust: Seq<char>,
) -> api::ApiCallView {
    iam_call(
        settings,
        region,
        "Action=UpdateAssumeRolePolicy&Version=2010-05-08&RoleName="@ + encode::url_text(role_name)
            + "&PolicyDocument="@ + encode::url_text(trust),
    )
}

/// The call that creates a role with its trust policy.
pub open spec fn create_role_call(
    settings: PluginSettings,
    region: Seq<char>,
    role_name: Seq<char>,
    trust: Seq<char>,
) -> api::ApiCallView {
    iam_call(
        settings,
        region,
        "Action=CreateRole&Version=2010-05-08&Path="@ + encode::url_text(
            role_path(settings.role_path),
        ) + "&RoleName="@ + encode::url_text(role_name) + "&AssumeRolePolicyDocument="@
            + encode::url_text(trust),
    )
}

/// The new role's ARN in what came back for creating it.
pub open spec fn created_role(reply: api::ReplyView) -> Result<
    Seq<char>,
    Seq<char>,
> {
    match reply {
        Err(e) => Err(e.text),
        Ok(xml) => match extract::tag_text(xml, "Arn"@) {
            Some(arn) => Ok(arn),
            None => Err("CreateRole: could not parse ARN from response"@),
        },
    }
}

/// The flow of [`ensure_role`]: look the role up; where it is there, give it the
/// trust policy, and else create it with the trust policy.
pub open spec fn ensure_role_step(
    settings: PluginSettings,
    region: Seq<char>,
    role_name: Seq<char>,
    namespace: Seq<char>,
    sa_name: Seq<char>,
    replies: Seq<api::ReplyView>,
    at: int,
) -> api::StepView<Seq<char>> {
    let trust = trust_policy(
        settings::filled_text(settings.oidc_provider_arn),
        namespace,
        sa_name,
    );
    if replies.len() <= at {
        api::StepView::Call(get_role_call(settings, region, role_name))
    } else {
        match found_role(replies[at]) {
            Err(e) => api::StepView::Done(Err(e), at + 1),
            Ok(Some(arn)) => if replies.len() <= at + 1 {
                api::StepView::Call(update_trust_call(settings, region, role_name, trust))
            } else {
                api::StepView::Done(Ok(arn), at + 2)
            },
            Ok(None) => if replies.len() <= at + 1 {
                api::StepView::Call(create_role_call(settings, region, role_name, trust))
            } else {
                api::StepView::Done(created_role(replies[at + 1]), at + 2)
            },
        }
    }
}

/// The role's ARN in what came back for looking it up, where there is such a role.
pub fn get_role(reply: &Reply) -> (found: Result<Option<String>, String>)
    ensures
        text::lookup(found) == found_role(api::answer(*reply)),
{
    match reply {
        Err(e) => {
            if e.has_code("NoSuchEntity") {
                Ok(None)
            } else {
                Err(e.text.clone())
            }
        },
        Ok(xml) => Ok(extract_tag(xml.as_str(), "Arn")),
    }
}

/// The call that gives an existing role its trust policy.
pub fn update_assume_role_policy(
    settings: &PluginSettings,
    region: &str,
    role_name: &str,
    trust: &str,
) -> (call: ApiCall)
    ensures
        call@ == update_trust_call(*settings, region@, role_name@, trust@),
{
    let mut body = "Action=UpdateAssumeRolePolicy&Version=2010-05-08&RoleName=".to_owned();
    body.append(url_encode(role_name).as_str());
    body.append("&PolicyDocument=");
    body.append(url_encode(trust).as_str());
    iam_query(settings, region, body)
}

/// Ensures that a role with the given name exists and has the correct trust policy.
///
/// Creates the role where it does not exist, and calls `UpdateAssumeRolePolicy` where
/// it does, so that a change of `OIDC_PROVIDER_ARN` takes effect. That call's failure
/// is no failure of the flow.
///
/// Ends with the role's ARN.
pub fn ensure_role(
    settings: &PluginSettings,
    region: &str,
    role_name: &str,
    namespace: &str,
    sa_name: &str,
    replies: &Vec<Reply>,
    at: usize,
) -> (step: Step<String>)
    requires
        at <= replies@.len(),
    ensures
        step@ == ensure_role_step(
            *settings,
            region@,
            role_name@,
            namespace@,
            sa_name@,
            api::outcomes(replies@),
            at as int,
        ),
        step matches Step::Done(_, next) ==> at <= next <= replies@.len(),
{
    let trust = trust_policy_document(&settings.oidc_provider_arn, namespace, sa_name);
    if at >= replies.len() {
        let body = "Action=GetRole&Version=2010-05-08&RoleName=".to_owned().concat(
            url_encode(role_name).as_str(),
        );
        return Step::Call(iam_query(settings, region, body));
    }
    match get_role(&replies[at]) {
        Err(e) => Step::Done(Err(e), at + 1),
        Ok(Some(arn)) => {
            if at + 1 >= replies.len() {
                return Step::Call(
                    update_assume_role_policy(settings, region, role_name, trust.as_str()),
                );
            }
            Step::Done(Ok(arn), at + 2)
        },
        Ok(None) => {
            if at + 1 >= replies.len() {
                let path = match set_value(&settings.role_path) {
                    Some(path) => {
                        if starts_with(path.as_str(), "/") && ends_with(path.as_str(), "/") {
                            path
                        } else {
                            "/deckwatch-plugin/".to_owned()
                        }
                    },
                    None => "/deckwatch-plugin/".to_owned(),
                };
                let mut body = "Action=CreateRole&Version=2010-05-08&Path=".to_owned();
                body.append(url_encode(path.as_str()).as_str());
                body.append("&RoleName=");
                body.append(url_encode(role_name).as_str());
                body.append("&AssumeRolePolicyDocument=");
                body.append(url_encode(trust.as_str()).as_str());
                return Step::Call(iam_query(settings, region, body));
            }
            match &replies[at + 1] {
                Err(e) => Step::Done(Err(e.text.clone()), at + 2),
                Ok(xml) => match extract_tag(xml.as_str(), "Arn") {
                    Some(arn) => Step::Done(Ok(arn), at + 2),
                    None => Step::Done(
                        Err("CreateRole: could not parse ARN from response".to_owned()),
                        at + 2,
                    ),
                },
            }
        },
    }
}

// ── Inline policies ───────────────────────────────────────────────────────────

/// The call that embeds a policy in a role.
pub open spec fn put_policy_call(
    settings: PluginSettings,
    region: Seq<char>,
    role_name: Seq<char>,
    policy_name: Seq<char>,
    policy: Seq<char>,
) -> api::ApiCallView {
    iam_call(
        settings,
        region,
        "Action=PutRolePolicy&Version=2010-05-08&RoleName="@ + encode::url_text(role_name)
            + "&PolicyName="@ + policy_name + "&PolicyDocument="@ + encode::url_text(policy),
    )
}

/// The call that embeds a policy in a role.
fn put_policy(
    settings: &PluginSettings,
    region: &str,
    role_name: &str,
    policy_name: &str,
    policy: &str,
) -> (call: ApiCall)
    ensures
        call@ == put_policy_call(*settings, region@, role_name@, policy_name@, policy@),
{
    let mut body = "Action=PutRolePolicy&Version=2010-05-08&RoleName=".to_owned();
    body.append(url_encode(role_name).as_str());
    body.append("&PolicyName=");
    body.append(policy_name);
    body.append("&PolicyDocument=");
    body.append(url_encode(policy).as_str());
    iam_query(settings, region, body)
}

/// The partition of a region.
pub open spec fn partition(region: Seq<char>) -> Seq<char> {
    if gov_cloud(region) {
        "aws-us-gov"@
    } else if "cn-"@.is_prefix_of(region) {
        "aws-cn"@
    } else {
        "aws"@
    }
}

/// The account in an ARN `arn:<partition>:<service>:<region>:<account>:<resource>`.
pub open spec fn account_in(arn: Seq<char>) -> Option<Seq<char>> {
    split::part_at(arn, Separator::Char(':'), 4)
}

/// The account of the plugin's own role, or any where it is not known.
pub open spec fn own_account(role_arn: ConfigValue) -> Seq<char> {
    match settings::set_text(role_arn) {
        Some(arn) => settings::text_or(account_in(arn), "*"@),
        None => "*"@,
    }
}

/// The policy that lets a database user connect with IAM authentication.
pub open spec fn rds_policy(
    partition: Seq<char>,
    region: Seq<char>,
    account: Seq<char>,
    rds_resource_id: Seq<char>,
    db_user: Seq<char>,
) -> Seq<char> {
    r#"{"Version":"2012-10-17","Statement":[{"Effect":"Allow","Action":"rds-db:connect","Resource":"arn:"#@
        + partition + ":rds-db:"@ + region + ":"@ + account + ":dbuser:"@ + rds_resource_id + "/"@
        + db_user + r#""}]}"#@
}

/// The policy that grants object operations on a bucket.
pub open spec fn s3_policy(bucket: Seq<char>) -> Seq<char> {
    r#"{"Version":"2012-10-17","Statement":[{"Effect":"Allow","Action":["s3:GetObject","s3:PutObject","s3:DeleteObject"],"Resource":"arn:aws:s3:::"#@
        + bucket
        + r#"/*"},{"Effect":"Allow","Action":"s3:ListBucket","Resource":"arn:aws:s3:::"#@ + bucket
        + r#""}]}"#@
}

/// The policy that grants image pulls.
pub open spec fn ecr_policy() -> Seq<char> {
    r#"{"Version":"2012-10-17","Statement":[{"Effect":"Allow","Action":["ecr:GetAuthorizationToken"],"Resource":"*"},{"Effect":"Allow","Action":["ecr:BatchCheckLayerAvailability","ecr:GetDownloadUrlForLayer","ecr:BatchGetImage"],"Resource":"*"}]}"#@
}

/// The policy that grants producing to and consuming from a queue.
pub open spec fn sqs_policy(queue_arn: Seq<char>) -> Seq<char> {
    r#"{"Version":"2012-10-17","Statement":[{"Effect":"Allow","Action":["sqs:SendMessage","sqs:ReceiveMessage","sqs:DeleteMessage","sqs:GetQueueUrl","sqs:GetQueueAttributes","sqs:ChangeMessageVisibility"],"Resource":""#@
        + queue_arn + r#""}]}"#@
}

/// The ARNs in quotation marks, separated by commas.
pub open spec fn quoted_list(arns: Seq<Seq<char>>) -> Seq<char> {
    text::joined(arns.map_values(|arn: Seq<char>| "\""@ + arn + "\""@), ","@)
}

/// The policy that grants reading secrets.
pub open spec fn secrets_policy(secret_arns: Seq<Seq<char>>) -> Seq<char> {
    r#"{"Version":"2012-10-17","Statement":[{"Effect":"Allow","Action":["secretsmanager:GetSecretValue","secretsmanager:DescribeSecret"],"Resource":["#@
        + quoted_list(secret_arns) + "]}]}"@
}

/// The call that [`attach_rds_policy`] makes.
pub open spec fn attach_rds_call(
    settings: PluginSettings,
    creds_region: Seq<char>,
    role_name: Seq<char>,
    rds_resource_id: Seq<char>,
    db_user: Seq<char>,
    region: Seq<char>,
) -> api::ApiCallView {
    put_policy_call(
        settings,
        creds_region,
        role_name,
        "deckwatch-rds-connect"@,
        rds_policy(
            partition(region),
            region,
            own_account(settings.role_arn),
            rds_resource_id,
            db_user,
        ),
    )
}

/// Attaches an inline policy granting `rds-db:connect` for the instance.
///
/// An inline (embedded) policy avoids the limit of managed policies per role and ties
/// the policy's lifecycle to the role. `rds_resource_id` is the `DbiResourceId` (e.g.
/// `db-CO2YWIF6C7KV5K3DJQ4IEBP7II`), not the instance identifier, and `db_user` the
/// database user that has `rds_iam` granted. The partition is that of `region`;
/// `creds_region` is the region of the credentials.
pub fn attach_rds_policy(
    settings: &PluginSettings,
    creds_region: &str,
    role_name: &str,
    rds_resource_id: &str,
    db_user: &str,
    region: &str,
    replies: &Vec<Reply>,
    at: usize,
) -> (step: Step<()>)
    requires
        at <= replies@.len(),
    ensures
        step@ == api::single(
            attach_rds_call(
                *settings,
                creds_region@,
                role_name@,
                rds_resource_id@,
                db_user@,
                region@,
            ),
            api::outcomes(replies@),
            at as int,
        ),
        step matches Step::Done(_, next) ==> at <= next <= replies@.len(),
{
    let partition = if starts_with(region, "us-gov-") {
        "aws-us-gov"
    } else if starts_with(region, "cn-") {
        "aws-cn"
    } else {
        "aws"
    };
    let account = match set_value(&settings.role_arn) {
        Some(arn) => value_or(nth_part(arn.as_str(), Separator::Char(':'), 4), "*"),
        None => "*".to_owned(),
    };
    let mut policy =
        r#"{"Version":"2012-10-17","Statement":[{"Effect":"Allow","Action":"rds-db:connect","Resource":"arn:"#.to_owned();
    policy.append(partition);
    policy.append(":rds-db:");
    policy.append(region);
    policy.append(":");
    policy.append(account.as_str());
    policy.append(":dbuser:");
    policy.append(rds_resource_id);
    policy.append("/");
    policy.append(db_user);
    policy.append(r#""}]}"#);
    let call = put_policy(
        settings,
        creds_region,
        role_name,
        "deckwatch-rds-connect",
        policy.as_str(),
    );
    one_call(call, replies, at)
}

/// Attaches an inline policy granting standard S3 object operations on the bucket.
pub fn attach_s3_policy(
    settings: &PluginSettings,
    creds_region: &str,
    role_name: &str,
    bucket_name: &str,
    replies: &Vec<Reply>,
    at: usize,
) -> (step: Step<()>)
    requires
        at <= replies@.len(),
    ensures
        step@ == api::single(
            put_policy_call(
                *settings,
                creds_region@,
                role_name@,
                "deckwatch-s3-access"@,
                s3_policy(bucket_name@),
            ),
            api::outcomes(replies@),
            at as int,
        ),
        step matches Step::Done(_, next) ==> at <= next <= replies@.len(),
{
    let mut policy =
        r#"{"Version":"2012-10-17","Statement":[{"Effect":"Allow","Action":["s3:GetObject","s3:PutObject","s3:DeleteObject"],"Resource":"arn:aws:s3:::"#.to_owned();
    policy.append(bucket_name);
    policy.append(
        r#"/*"},{"Effect":"Allow","Action":"s3:ListBucket","Resource":"arn:aws:s3:::"#,
    );
    policy.append(bucket_name);
    policy.append(r#""}]}"#);
    let call = put_policy(
        settings,
        creds_region,
        role_name,
        "deckwatch-s3-access",
        policy.as_str(),
    );
    one_call(call, replies, at)
}

/// Attaches an inline policy granting ECR image pull operations.
pub fn attach_ecr_policy(
    settings: &PluginSettings,
    creds_region: &str,
    role_name: &str,
    replies: &Vec<Reply>,
    at: usize,
) -> (step: Step<()>)
    requires
        at <= replies@.len(),
    ensures
        step@ == api::single(
            put_policy_call(
                *settings,
                creds_region@,
                role_name@,
                "deckwatch-ecr-pull"@,
                ecr_policy(),
            ),
            api::outcomes(replies@),
            at as int,
        ),
        step matches Step::Done(_, next) ==> at <= next <= replies@.len(),
{
    let policy =
        r#"{"Version":"2012-10-17","Statement":[{"Effect":"Allow","Action":["ecr:GetAuthorizationToken"],"Resource":"*"},{"Effect":"Allow","Action":["ecr:BatchCheckLayerAvailability","ecr:GetDownloadUrlForLayer","ecr:BatchGetImage"],"Resource":"*"}]}"#;
    let call = put_policy(settings, creds_region, role_name, "deckwatch-ecr-pull", policy);
    one_call(call, replies, at)
}

/// Attaches an inline policy granting standard SQS producer and consumer operations.
pub fn attach_sqs_policy(
    settings: &PluginSettings,
    creds_region: &str,
    role_name: &str,
    queue_arn: &str,
    replies: &Vec<Reply>,
    at: usize,
) -> (step: Step<()>)
    requires
        at <= replies@.len(),
    ensures
        step@ == api::single(
            put_policy_call(
                *settings,
                creds_region@,
                role_name@,
                "deckwatch-sqs-access"@,
                sqs_policy(queue_arn@),
            ),
            api::outcomes(replies@),
            at as int,
        ),
        step matches Step::Done(_, next) ==> at <= next <= replies@.len(),
{
    let mut policy =
        r#"{"Version":"2012-10-17","Statement":[{"Effect":"Allow","Action":["sqs:SendMessage","sqs:ReceiveMessage","sqs:DeleteMessage","sqs:GetQueueUrl","sqs:GetQueueAttributes","sqs:ChangeMessageVisibility"],"Resource":""#.to_owned();
    policy.append(queue_arn);
    policy.append(r#""}]}"#);
    let call = put_policy(
        settings,
        creds_region,
        role_name,
        "deckwatch-sqs-access",
        policy.as_str(),
    );
    one_call(call, replies, at)
}

/// Each ARN in quotation marks.
fn quoted(arns: &Vec<String>) -> (list: Vec<String>)
    ensures
        text::texts(list@) == text::texts(arns@).map_values(
            |arn: Seq<char>| "\""@ + arn + "\""@,
        ),
{
    let mut list: Vec<String> = Vec::new();
    let mut i: usize = 0;
    let ghost all = text::texts(arns@).map_values(|arn: Seq<char>| "\""@ + arn + "\""@);
    assert(text::texts(list@) =~= all.take(0));
    while i < arns.len()
        invariant
            i <= arns@.len(),
            all == text::texts(arns@).map_values(|arn: Seq<char>| "\""@ + arn + "\""@),
            text::texts(list@) == all.take(i as int),
        decreases arns@.len() - i,
    {
        list.push("\"".to_owned().concat(arns[i].as_str()).concat("\""));
        assert(all.take(i + 1) =~= all.take(i as int).push(all[i as int]));
        i += 1;
    }
    assert(all.take(all.len() as int) =~= all);
    list
}

/// Attaches an inline policy granting `secretsmanager:GetSecretValue` on the given
/// secret ARNs. Without ARNs there is nothing to attach and no call is made.
pub fn attach_secretsmanager_policy(
    settings: &PluginSettings,
    creds_region: &str,
    role_name: &str,
    secret_arns: &Vec<String>,
    replies: &Vec<Reply>,
    at: usize,
) -> (step: Step<()>)
    requires
        at <= replies@.len(),
    ensures
        secret_arns@.len() == 0 ==> step@ == api::StepView::Done(Ok(()), at as int),
        secret_arns@.len() > 0 ==> step@ == api::single(
            put_policy_call(
                *settings,
                creds_region@,
                role_name@,
                "deckwatch-secretsmanager-access"@,
                secrets_policy(text::texts(secret_arns@)),
            ),
            api::outcomes(replies@),
            at as int,
        ),
        step matches Step::Done(_, next) ==> at <= next <= replies@.len(),
{
    if secret_arns.len() == 0 {
        return Step::Done(Ok(()), at);
    }
    let mut policy =
        r#"{"Version":"2012-10-17","Statement":[{"Effect":"Allow","Action":["secretsmanager:GetSecretValue","secretsmanager:DescribeSecret"],"Resource":["#.to_owned();
    policy.append(join(&quoted(secret_arns), ",").as_str());
    policy.append("]}]}");
    let call = put_policy(
        settings,
        creds_region,
        role_name,
        "deckwatch-secretsmanager-access",
        policy.as_str(),
    );
    one_call(call, replies, at)
}

// ── Laws ──────────────────────────────────────────────────────────────────────

/// The endpoint and the signing region follow the partition of the workload region,
/// unless the configuration overrides them.
pub proof fn endpoint_follows_the_partition(settings: PluginSettings, region: Seq<char>)
    requires
        settings::filled_text(settings.iam_endpoint) is None,
        settings::filled_text(settings.iam_signing_region) is None,
    ensures
        "us-gov-"@.is_prefix_of(region) ==> iam_host(settings, region)
            == "iam.us-gov.amazonaws.com"@ && iam_region(settings, region) == "us-gov-west-1"@,
        !"us-gov-"@.is_prefix_of(region) ==> iam_host(settings, region) == "iam.amazonaws.com"@
            && iam_region(settings, region) == "us-east-1"@,
{
}

/// The URL of an OIDC provider is read from its ARN.
pub proof fn oidc_url_is_read_back(before: Seq<char>, url: Seq<char>)
    requires
        !url.contains(':'),
        !"oidc-provider/"@.is_prefix_of(url),
    ensures
        oidc_url(before + ":oidc-provider/"@ + url) == url,
{
    let sep = Separator::Char(':');
    let label = "oidc-provider/"@;
    let last = label + url;
    let arn = before + ":oidc-provider/"@ + url;
    reveal_strlit("oidc-provider/");
    reveal_strlit(":oidc-provider/");
    assert(arn =~= before.push(':') + last);
    assert forall|i: int| 0 <= i < last.len() implies last[i] != ':' by {
        if i >= label.len() {
            assert(last[i] == url[i - label.len()]);
        }
    }
    split::parts_of_two(before, ':', last, sep);
    split::parts_of_one(last, sep);
    assert(split::parts(arn, sep).last() == last);
    assert(last.skip(label.len() as int) =~= url);
    assert(label.is_prefix_of(last));
    reveal_with_fuel(text::without_prefixes, 2);
}

/// The trust policy of a configured provider names that provider, and the workload's
/// service account as the subject.
pub proof fn trust_is_scoped(arn: Seq<char>, namespace: Seq<char>, sa_name: Seq<char>)
    ensures
        text::contains_text(trust_policy(Some(arn), namespace, sa_name), arn),
        text::contains_text(
            trust_policy(Some(arn), namespace, sa_name),
            oidc_url(arn) + r#":sub":"system:serviceaccount:"#@ + namespace + ":"@ + sa_name
                + "\""@,
        ),
{
    let policy = trust_policy(Some(arn), namespace, sa_name);
    let open =
        r#"{"Version":"2012-10-17","Statement":[{"Effect":"Allow","Principal":{"Federated":""#@;
    let mid = r#""},"Action":"sts:AssumeRoleWithWebIdentity","Condition":{"StringEquals":{""#@;
    let subject = oidc_url(arn) + r#":sub":"system:serviceaccount:"#@ + namespace + ":"@ + sa_name
        + "\""@;
    reveal_strlit("\"");
    reveal_strlit(r#"",""#);
    let i = open.len() as int;
    assert(policy.subrange(i, i + arn.len()) =~= arn);
    assert(text::occurs_at(policy, arn, i));
    let j = (open + arn + mid).len() as int;
    assert(policy.subrange(j, j + subject.len()) =~= subject);
    assert(text::occurs_at(policy, subject, j));
}

/// A role that is there keeps its ARN and gets the current trust policy, whatever
/// comes back for that.
pub proof fn existing_role_gets_its_trust(
    settings: PluginSettings,
    region: Seq<char>,
    role_name: Seq<char>,
    namespace: Seq<char>,
    sa_name: Seq<char>,
    replies: Seq<api::ReplyView>,
    at: int,
    status: nat,
    body: Seq<char>,
    arn: Seq<char>,
)
    requires
        0 <= at < replies.len(),
        status < 400,
        extract::tag_text(body, "Arn"@) == Some(arn),
        replies[at] == api::ApiView::Iam.result(status, body),
    ensures
        ({
            let trust = trust_policy(
                settings::filled_text(settings.oidc_provider_arn),
                namespace,
                sa_name,
            );
            ensure_role_step(settings, region, role_name, namespace, sa_name, replies, at) == if at
                + 1 < replies.len() {
                api::StepView::Done(Ok::<Seq<char>, Seq<char>>(arn), at + 2)
            } else {
                api::StepView::Call(update_trust_call(settings, region, role_name, trust))
            }
        }),
{
}

/// A role that IAM reports as missing is created, with its trust policy, and the flow
/// ends with the ARN in the answer.
pub proof fn missing_role_is_created(
    settings: PluginSettings,
    region: Seq<char>,
    role_name: Seq<char>,
    namespace: Seq<char>,
    sa_name: Seq<char>,
    replies: Seq<api::ReplyView>,
    at: int,
    status: nat,
    body: Seq<char>,
)
    requires
        0 <= at < replies.len(),
        status >= 400,
        extract::tag_text(body, "Code"@) == Some("NoSuchEntity"@),
        replies[at] == api::ApiView::Iam.result(status, body),
    ensures
        ({
            let trust = trust_policy(
                settings::filled_text(settings.oidc_provider_arn),
                namespace,
                sa_name,
            );
            ensure_role_step(settings, region, role_name, namespace, sa_name, replies, at) == if at
                + 1 < replies.len() {
                api::StepView::Done(created_role(replies[at + 1]), at + 2)
            } else {
                api::StepView::Call(create_role_call(settings, region, role_name, trust))
            }
        }),
{
}

/// Ensuring a role takes two calls at most.
pub proof fn role_takes_two_calls(
    settings: PluginSettings,
    region: Seq<char>,
    role_name: Seq<char>,
    namespace: Seq<char>,
    sa_name: Seq<char>,
    replies: Seq<api::ReplyView>,
    at: int,
)
    requires
        0 <= at,
        at + 2 <= replies.len(),
    ensures
        ensure_role_step(settings, region, role_name, namespace, sa_name, replies, at) is Done,
{
}

/// What the configuration overrides is taken from it: the host, the signing region and
/// the path of roles.
pub proof fn overrides_are_taken(settings: PluginSettings, region: Seq<char>, value: Seq<char>)
    ensures
        settings.iam_endpoint matches Ok(Some(v)) && v@ == value && value.len() > 0 ==> iam_host(
            settings,
            region,
        ) == value,
        settings.iam_signing_region matches Ok(Some(v)) && v@ == value && value.len() > 0
            ==> iam_region(settings, region) == value,
        settings.role_path matches Ok(Some(v)) && v@ == value && value.len() > 0 && value.first()
            == '/' && value.last() == '/' ==> role_path(settings.role_path) == value,
{
    reveal_strlit("/");
    if value.len() > 0 && value.first() == '/' && value.last() == '/' {
        assert("/"@ =~= value.subrange(0, 1));
        assert("/"@ =~= value.subrange(value.len() - 1, value.len() as int));
    }
}

/// A path that does not begin and end with a slash is not taken.
pub proof fn other_paths_are_refused(value: ConfigValue)
    ensures
        role_path(value) != "/deckwatch-plugin/"@ ==> (value matches Ok(Some(v)) && v@.len() > 0
            && v@.first() == '/' && v@.last() == '/' && role_path(value) == v@),
{
    reveal_strlit("/");
    if role_path(value) != "/deckwatch-plugin/"@ {
        let v = value->Ok_0->0@;
        assert("/"@ == v.subrange(0, 1));
        assert("/"@ == v.subrange(v.len() - 1, v.len() as int));
        assert(v.subrange(0, 1)[0] == '/');
        assert(v.subrange(v.len() - 1, v.len() as int)[0] == '/');
    }
}

/// Every call to IAM goes to the IAM host and is signed for the IAM region and service,
/// by the clock of the workload's own region.
pub proof fn iam_is_called(settings: PluginSettings, region: Seq<char>, body: Seq<char>)
    ensures
        ({
            let call = iam_call(settings, region, body);
            &&& call.api is Iam && call.service == "iam"@ && call.body == Some(body)
            &&& call.host == iam_host(settings, region) && call.signing_region == iam_region(
                settings,
                region,
            ) && call.clock_region == region && call.send_hash
        }),
{
}

/// Looking a role up, giving it its trust and creating it name the role, and the latter
/// two send the trust policy. A new role gets the path of roles.
pub proof fn role_calls_name_the_role(
    settings: PluginSettings,
    region: Seq<char>,
    role_name: Seq<char>,
    trust: Seq<char>,
)
    ensures
        ({
            let get = get_role_call(settings, region, role_name).body->0;
            let update = update_trust_call(settings, region, role_name, trust).body->0;
            let create = create_role_call(settings, region, role_name, trust).body->0;
            &&& api::sends(get, "RoleName"@, role_name)
            &&& api::sends(update, "RoleName"@, role_name)
            &&& api::sends(update, "PolicyDocument"@, trust)
            &&& api::sends(create, "RoleName"@, role_name)
            &&& api::sends(create, "AssumeRolePolicyDocument"@, trust)
            &&& api::sends(create, "Path"@, role_path(settings.role_path))
        }),
{
    reveal_strlit("=");
    reveal_strlit("RoleName");
    reveal_strlit("PolicyDocument");
    reveal_strlit("AssumeRolePolicyDocument");
    reveal_strlit("Path");
    reveal_strlit("&PolicyDocument=");
    reveal_strlit("&RoleName=");
    reveal_strlit("&AssumeRolePolicyDocument=");
    reveal_strlit("Action=GetRole&Version=2010-05-08&RoleName=");
    reveal_strlit("Action=UpdateAssumeRolePolicy&Version=2010-05-08&RoleName=");
    reveal_strlit("Action=CreateRole&Version=2010-05-08&Path=");
    let none = Seq::<char>::empty();
    let role = encode::url_text(role_name);
    let policy = encode::url_text(trust);
    let path = encode::url_text(role_path(settings.role_path));
    let get = get_role_call(settings, region, role_name).body->0;
    let update = update_trust_call(settings, region, role_name, trust).body->0;
    let create = create_role_call(settings, region, role_name, trust).body->0;
    assert(api::sends(get, "RoleName"@, role_name)) by {
        let head = "Action=GetRole&Version=2010-05-08&RoleName="@;
        let front = head.take(head.len() - 9);
        assert(head =~= front + "RoleName"@ + "="@);
        assert(front.last() == '&');
        assert(get =~= front + "RoleName"@ + "="@ + role + none);
        api::field_is_sent(front, "RoleName"@, role_name, none);
    }
    assert(api::sends(update, "RoleName"@, role_name) && api::sends(
        update,
        "PolicyDocument"@,
        trust,
    )) by {
        let head = "Action=UpdateAssumeRolePolicy&Version=2010-05-08&RoleName="@;
        let front = head.take(head.len() - 9);
        let tail = "&PolicyDocument="@ + policy;
        assert(head =~= front + "RoleName"@ + "="@);
        assert(update =~= front + "RoleName"@ + "="@ + role + tail);
        api::field_is_sent(front, "RoleName"@, role_name, tail);
        let before = head + role + "&"@;
        reveal_strlit("&");
        assert("&PolicyDocument="@ =~= "&"@ + "PolicyDocument"@ + "="@);
        assert(update =~= before + "PolicyDocument"@ + "="@ + policy + none);
        api::field_is_sent(before, "PolicyDocument"@, trust, none);
    }
    assert(api::sends(create, "Path"@, role_path(settings.role_path)) && api::sends(
        create,
        "RoleName"@,
        role_name,
    ) && api::sends(create, "AssumeRolePolicyDocument"@, trust)) by {
        reveal_strlit("&");
        let head = "Action=CreateRole&Version=2010-05-08&Path="@;
        let front = head.take(head.len() - 5);
        assert(head =~= front + "Path"@ + "="@);
        let last = "&AssumeRolePolicyDocument="@ + policy;
        let rest = "&RoleName="@ + role + last;
        assert(create =~= front + "Path"@ + "="@ + path + rest);
        api::field_is_sent(front, "Path"@, role_path(settings.role_path), rest);
        assert("&RoleName="@ =~= "&"@ + "RoleName"@ + "="@);
        let middle = head + path + "&"@;
        assert(create =~= middle + "RoleName"@ + "="@ + role + last);
        api::field_is_sent(middle, "RoleName"@, role_name, last);
        assert("&AssumeRolePolicyDocument="@ =~= "&"@ + "AssumeRolePolicyDocument"@ + "="@);
        let before = head + path + "&RoleName="@ + role + "&"@;
        assert(create =~= before + "AssumeRolePolicyDocument"@ + "="@ + policy + none);
        api::field_is_sent(before, "AssumeRolePolicyDocument"@, trust, none);
    }
}

/// Embedding a policy names the role, and sends the policy.
pub proof fn policy_call_names_the_role(
    settings: PluginSettings,
    region: Seq<char>,
    role_name: Seq<char>,
    policy_name: Seq<char>,
    policy: Seq<char>,
)
    ensures
        ({
            let call = put_policy_call(settings, region, role_name, policy_name, policy);
            let form = call.body->0;
            &&& call == iam_call(settings, region, form)
            &&& call.body is Some
            &&& api::sends(form, "Action"@, "PutRolePolicy"@)
            &&& api::sends(form, "RoleName"@, role_name)
            &&& api::sends(form, "PolicyDocument"@, policy)
            &&& text::contains_text(form, "&PolicyName="@ + policy_name + "&"@)
        }),
{
    reveal_strlit("=");
    reveal_strlit("&");
    reveal_strlit("Action");
    reveal_strlit("PutRolePolicy");
    reveal_strlit("RoleName");
    reveal_strlit("PolicyDocument");
    reveal_strlit("&PolicyDocument=");
    reveal_strlit("&PolicyName=");
    reveal_strlit("Action=PutRolePolicy&Version=2010-05-08&RoleName=");
    let none = Seq::<char>::empty();
    let head = "Action=PutRolePolicy&Version=2010-05-08&RoleName="@;
    let role = encode::url_text(role_name);
    let document = encode::url_text(policy);
    let form = put_policy_call(settings, region, role_name, policy_name, policy).body->0;
    assert(api::sends(form, "RoleName"@, role_name)) by {
        let front = head.take(head.len() - 9);
        let tail = "&PolicyName="@ + policy_name + "&PolicyDocument="@ + document;
        assert(head =~= front + "RoleName"@ + "="@);
        assert(form =~= front + "RoleName"@ + "="@ + role + tail);
        api::field_is_sent(front, "RoleName"@, role_name, tail);
    }
    assert(api::sends(form, "PolicyDocument"@, policy)) by {
        let before = head + role + "&PolicyName="@ + policy_name + "&"@;
        assert("&PolicyDocument="@ =~= "&"@ + "PolicyDocument"@ + "="@);
        assert(form =~= before + "PolicyDocument"@ + "="@ + document + none);
        api::field_is_sent(before, "PolicyDocument"@, policy, none);
    }
    assert(api::sends(form, "Action"@, "PutRolePolicy"@)) by {
        plain_name_is_kept();
        let tail = form.skip(20);
        assert(form =~= none + "Action"@ + "="@ + "PutRolePolicy"@ + tail);
        assert(tail.first() == '&');
        api::field_is_sent(none, "Action"@, "PutRolePolicy"@, tail);
    }
    assert(text::contains_text(form, "&PolicyName="@ + policy_name + "&"@)) by {
        let inner = "&PolicyName="@ + policy_name + "&"@;
        let after = "PolicyDocument"@ + "="@ + document;
        assert("&PolicyDocument="@ =~= "&"@ + "PolicyDocument"@ + "="@);
        assert(form =~= (head + role) + inner + after);
        text::middle_is_contained(head + role, inner, after);
    }
}

/// The name of the action stands for itself in a form.
proof fn plain_name_is_kept()
    ensures
        encode::url_text("PutRolePolicy"@) == "PutRolePolicy"@,
{
    reveal_strlit("PutRolePolicy");
    let s = "PutRolePolicy"@;
    is_ascii_chars_encode_utf8(s);
    let bytes = encode_utf8(s);
    assert forall|i: int| 0 <= i < bytes.len() implies encode::unreserved(#[trigger] bytes[i]) by {
        assert(bytes[i] == s[i] as u8);
    }
    encode::plain_text_is_kept(bytes);
    assert(encode::url_text(s) =~= s);
}

/// The policy for a bucket names that bucket: its objects for reading, writing and
/// deleting, and itself for listing.
pub proof fn bucket_policy_names_the_bucket(bucket: Seq<char>)
    ensures
        text::contains_text(
            s3_policy(bucket),
            r#""Action":["s3:GetObject","s3:PutObject","s3:DeleteObject"],"Resource":"arn:aws:s3:::"#@
                + bucket + r#"/*""#@,
        ),
        text::contains_text(
            s3_policy(bucket),
            r#""Action":"s3:ListBucket","Resource":"arn:aws:s3:::"#@ + bucket + r#"""#@,
        ),
{
    reveal_strlit(
        r#"{"Version":"2012-10-17","Statement":[{"Effect":"Allow","Action":["s3:GetObject","s3:PutObject","s3:DeleteObject"],"Resource":"arn:aws:s3:::"#,
    );
    reveal_strlit(r#"/*"},{"Effect":"Allow","Action":"s3:ListBucket","Resource":"arn:aws:s3:::"#);
    reveal_strlit(r#""}]}"#);
    reveal_strlit(r#"/*""#);
    reveal_strlit(r#"""#);
    reveal_strlit(
        r#""Action":["s3:GetObject","s3:PutObject","s3:DeleteObject"],"Resource":"arn:aws:s3:::"#,
    );
    reveal_strlit(r#""Action":"s3:ListBucket","Resource":"arn:aws:s3:::"#);
    let first =
        r#"{"Version":"2012-10-17","Statement":[{"Effect":"Allow","Action":["s3:GetObject","s3:PutObject","s3:DeleteObject"],"Resource":"arn:aws:s3:::"#@;
    let second = r#"/*"},{"Effect":"Allow","Action":"s3:ListBucket","Resource":"arn:aws:s3:::"#@;
    let third = r#""}]}"#@;
    let objects =
        r#""Action":["s3:GetObject","s3:PutObject","s3:DeleteObject"],"Resource":"arn:aws:s3:::"#@;
    let listing = r#""Action":"s3:ListBucket","Resource":"arn:aws:s3:::"#@;
    let policy = s3_policy(bucket);
    assert(text::contains_text(policy, objects + bucket + r#"/*""#@)) by {
        let before = first.take(first.len() - objects.len());
        let after = second.skip(3) + bucket + third;
        assert(first =~= before + objects);
        assert(second =~= r#"/*""#@ + second.skip(3));
        assert(policy =~= before + (objects + bucket + r#"/*""#@) + after);
        text::middle_is_contained(before, objects + bucket + r#"/*""#@, after);
    }
    assert(text::contains_text(policy, listing + bucket + r#"""#@)) by {
        let before = first + bucket + second.take(second.len() - listing.len());
        assert(second =~= second.take(second.len() - listing.len()) + listing);
        assert(third =~= r#"""#@ + third.skip(1));
        assert(policy =~= before + (listing + bucket + r#"""#@) + third.skip(1));
        text::middle_is_contained(before, listing + bucket + r#"""#@, third.skip(1));
    }
}

/// The policy for a database names the user of that instance in that account and region,
/// in the partition that the region is of.
pub proof fn connect_policy_names_the_user(
    settings: PluginSettings,
    creds_region: Seq<char>,
    role_name: Seq<char>,
    resource_id: Seq<char>,
    db_user: Seq<char>,
    region: Seq<char>,
)
    ensures
        ({
            let place = if "us-gov-"@.is_prefix_of(region) {
                "aws-us-gov"@
            } else if "cn-"@.is_prefix_of(region) {
                "aws-cn"@
            } else {
                "aws"@
            };
            let account = own_account(settings.role_arn);
            let policy = rds_policy(place, region, account, resource_id, db_user);
            let arn = "arn:"@ + place + ":rds-db:"@ + region + ":"@ + account + ":dbuser:"@
                + resource_id + "/"@ + db_user + r#"""#@;
            &&& attach_rds_call(settings, creds_region, role_name, resource_id, db_user, region)
                == put_policy_call(
                settings,
                creds_region,
                role_name,
                "deckwatch-rds-connect"@,
                policy,
            )
            &&& text::contains_text(policy, arn)
            &&& text::contains_text(policy, r#""Action":"rds-db:connect""#@)
        }),
{
    let place = partition(region);
    let account = own_account(settings.role_arn);
    let policy = rds_policy(place, region, account, resource_id, db_user);
    let head =
        r#"{"Version":"2012-10-17","Statement":[{"Effect":"Allow","Action":"rds-db:connect","Resource":"arn:"#@;
    reveal_strlit(
        r#"{"Version":"2012-10-17","Statement":[{"Effect":"Allow","Action":"rds-db:connect","Resource":"arn:"#,
    );
    reveal_strlit("arn:");
    reveal_strlit(r#""}]}"#);
    reveal_strlit(r#"""#);
    reveal_strlit(r#""Action":"rds-db:connect""#);
    let tail = r#""}]}"#@;
    let inner = place + ":rds-db:"@ + region + ":"@ + account + ":dbuser:"@ + resource_id + "/"@
        + db_user;
    let arn = "arn:"@ + place + ":rds-db:"@ + region + ":"@ + account + ":dbuser:"@ + resource_id
        + "/"@ + db_user + r#"""#@;
    let front = head.take(head.len() - 4);
    assert(head =~= front + "arn:"@);
    assert(tail =~= r#"""#@ + tail.skip(1));
    assert(arn =~= "arn:"@ + inner + r#"""#@);
    assert(policy =~= head + inner + tail);
    assert(policy =~= front + arn + tail.skip(1));
    text::middle_is_contained(front, arn, tail.skip(1));
    let action = r#""Action":"rds-db:connect""#@;
    let k: int = 55;
    assert(head.subrange(k, k + action.len()) =~= action);
    assert(policy.subrange(k, k + action.len()) =~= action);
    assert(text::occurs_at(policy, action, k));
}

/// The account of an ARN is its fifth field.
pub proof fn account_is_the_fifth_field(fields: Seq<Seq<char>>, role_arn: ConfigValue)
    requires
        fields.len() > 4,
        forall|i: int| 0 <= i < fields.len() ==> !(#[trigger] fields[i]).contains(':'),
    ensures
        account_in(text::joined(fields, seq![':'])) == Some(fields[4]),
        role_arn matches Ok(Some(arn)) && arn@ == text::joined(fields, seq![':']) ==> own_account(
            role_arn,
        ) == fields[4],
        !(role_arn matches Ok(Some(_))) ==> own_account(role_arn) == "*"@,
{
    split::joined_parts_are_found(fields, ':');
}

/// The policy for a queue names that queue as its only statement's resource.
pub proof fn queue_policy_names_the_queue(queue_arn: Seq<char>)
    ensures
        (r#""Resource":""#@ + queue_arn + r#""}]}"#@).is_suffix_of(sqs_policy(queue_arn)),
{
    reveal_strlit(
        r#"{"Version":"2012-10-17","Statement":[{"Effect":"Allow","Action":["sqs:SendMessage","sqs:ReceiveMessage","sqs:DeleteMessage","sqs:GetQueueUrl","sqs:GetQueueAttributes","sqs:ChangeMessageVisibility"],"Resource":""#,
    );
    reveal_strlit(r#""Resource":""#);
    let policy = sqs_policy(queue_arn);
    let end = r#""Resource":""#@ + queue_arn + r#""}]}"#@;
    assert(policy.subrange(policy.len() - end.len(), policy.len() as int) =~= end);
}

/// The policy for secrets lists exactly those secrets, in quotation marks.
pub proof fn secrets_policy_lists_the_secrets(arns: Seq<Seq<char>>)
    requires
        arns.len() > 0,
        forall|i: int| 0 <= i < arns.len() ==> !(#[trigger] arns[i]).contains(','),
    ensures
        ({
            let listed = split::parts(quoted_list(arns), Separator::Char(','));
            &&& listed.len() == arns.len()
            &&& forall|i: int|
                0 <= i < arns.len() ==> #[trigger] listed[i] == "\""@ + arns[i] + "\""@
            &&& (r#""Resource":["#@ + quoted_list(arns) + "]}]}"@).is_suffix_of(
                secrets_policy(arns),
            )
        }),
{
    reveal_strlit("\"");
    reveal_strlit(",");
    reveal_strlit(r#""Resource":["#);
    reveal_strlit(
        r#"{"Version":"2012-10-17","Statement":[{"Effect":"Allow","Action":["secretsmanager:GetSecretValue","secretsmanager:DescribeSecret"],"Resource":["#,
    );
    assert(","@ =~= seq![',']);
    let quoted = arns.map_values(|arn: Seq<char>| "\""@ + arn + "\""@);
    assert forall|i: int| 0 <= i < quoted.len() implies !(#[trigger] quoted[i]).contains(',') by {
        assert(!arns[i].contains(','));
        assert forall|k: int| 0 <= k < quoted[i].len() implies quoted[i][k] != ',' by {
            if 0 < k <= arns[i].len() {
                assert(quoted[i][k] == arns[i][k - 1]);
                assert(arns[i].contains(arns[i][k - 1]));
            }
        }
    }
    split::joined_parts_are_found(quoted, ',');
    let policy = secrets_policy(arns);
    let end = r#""Resource":["#@ + quoted_list(arns) + "]}]}"@;
    assert(policy.subrange(policy.len() - end.len(), policy.len() as int) =~= end);
}

/// The trust policy is good for AWS's own audience, and without a provider it lets
/// nobody in.
pub proof fn trust_has_its_audience(arn: Seq<char>, namespace: Seq<char>, sa_name: Seq<char>)
    ensures
        (oidc_url(arn) + r#":aud":"sts.amazonaws.com"}}}]}"#@).is_suffix_of(
            trust_policy(Some(arn), namespace, sa_name),
        ),
        text::contains_text(trust_policy(None, namespace, sa_name), r#""Statement":[]"#@),
{
    let policy = trust_policy(Some(arn), namespace, sa_name);
    let end = oidc_url(arn) + r#":aud":"sts.amazonaws.com"}}}]}"#@;
    assert(policy.subrange(policy.len() - end.len(), policy.len() as int) =~= end);
    reveal_strlit(r#"{"Version":"2012-10-17","Statement":[]}"#);
    reveal_strlit(r#""Statement":[]"#);
    let closed = trust_policy(None, namespace, sa_name);
    let inner = r#""Statement":[]"#@;
    assert(closed.subrange(24, 24int + inner.len()) =~= inner);
    assert(text::occurs_at(closed, inner, 24));
}

/// The role is the one that the answer names: the answer to looking it up, or to creating
/// it. A lookup that fails for another reason than a missing role fails.
pub proof fn role_is_the_one_told(xml: Seq<char>, arn: Seq<char>, e: api::ApiErrorView)
    requires
        extract::tag_text(xml, "Arn"@) == Some(arn),
    ensures
        found_role(Ok(xml)) == Ok::<Option<Seq<char>>, Seq<char>>(Some(arn)),
        created_role(Ok(xml)) == Ok::<Seq<char>, Seq<char>>(arn),
        e.code == Some("NoSuchEntity"@) ==> found_role(Err(e)) == Ok::<
            Option<Seq<char>>,
            Seq<char>,
        >(None),
        e.code != Some("NoSuchEntity"@) ==> found_role(Err(e)) == Err::<
            Option<Seq<char>>,
            Seq<char>,
        >(e.text),
        created_role(Err(e)) == Err::<Seq<char>, Seq<char>>(e.text),
{
}

/// Each policy grants what it is for: working on the messages of a queue, reading secrets,
/// connecting to a database, and pulling images.
pub proof fn policies_grant_what_they_are_for(
    queue_arn: Seq<char>,
    arns: Seq<Seq<char>>,
    place: Seq<char>,
    region: Seq<char>,
    account: Seq<char>,
    resource_id: Seq<char>,
    db_user: Seq<char>,
)
    ensures
        text::contains_text(
            sqs_policy(queue_arn),
            r#""Action":["sqs:SendMessage","sqs:ReceiveMessage","sqs:DeleteMessage","#@,
        ),
        text::contains_text(
            secrets_policy(arns),
            r#""Action":["secretsmanager:GetSecretValue","secretsmanager:DescribeSecret"]"#@,
        ),
        text::contains_text(
            rds_policy(place, region, account, resource_id, db_user),
            r#""Action":"rds-db:connect""#@,
        ),
        text::contains_text(
            ecr_policy(),
            r#""Action":["ecr:BatchCheckLayerAvailability","ecr:GetDownloadUrlForLayer","ecr:BatchGetImage"]"#@,
        ),
{
    assert(text::contains_text(sqs_policy(queue_arn), r#""Action":["sqs:SendMessage","sqs:ReceiveMessage","sqs:DeleteMessage","#@)) by {
        reveal_strlit(
            r#"{"Version":"2012-10-17","Statement":[{"Effect":"Allow","Action":["sqs:SendMessage","sqs:ReceiveMessage","sqs:DeleteMessage","sqs:GetQueueUrl","sqs:GetQueueAttributes","sqs:ChangeMessageVisibility"],"Resource":""#,
        );
        reveal_strlit(r#""Action":["sqs:SendMessage","sqs:ReceiveMessage","sqs:DeleteMessage","#);
        let policy = sqs_policy(queue_arn);
        let action = r#""Action":["sqs:SendMessage","sqs:ReceiveMessage","sqs:DeleteMessage","#@;
        assert(policy.subrange(55, 124) =~= action);
        assert(text::occurs_at(policy, action, 55));
    }
    assert(text::contains_text(secrets_policy(arns), r#""Action":["secretsmanager:GetSecretValue","secretsmanager:DescribeSecret"]"#@)) by {
        reveal_strlit(
            r#"{"Version":"2012-10-17","Statement":[{"Effect":"Allow","Action":["secretsmanager:GetSecretValue","secretsmanager:DescribeSecret"],"Resource":["#,
        );
        reveal_strlit(r#""Action":["secretsmanager:GetSecretValue","secretsmanager:DescribeSecret"]"#);
        let policy = secrets_policy(arns);
        let action = r#""Action":["secretsmanager:GetSecretValue","secretsmanager:DescribeSecret"]"#@;
        assert(policy.subrange(55, 129) =~= action);
        assert(text::occurs_at(policy, action, 55));
    }
    assert(text::contains_text(rds_policy(place, region, account, resource_id, db_user), r#""Action":"rds-db:connect""#@)) by {
        reveal_strlit(
            r#"{"Version":"2012-10-17","Statement":[{"Effect":"Allow","Action":"rds-db:connect","Resource":"arn:"#,
        );
        reveal_strlit(r#""Action":"rds-db:connect""#);
        let policy = rds_policy(place, region, account, resource_id, db_user);
        let action = r#""Action":"rds-db:connect""#@;
        assert(policy.subrange(55, 80) =~= action);
        assert(text::occurs_at(policy, action, 55));
    }
    assert(text::contains_text(ecr_policy(), r#""Action":["ecr:BatchCheckLayerAvailability","ecr:GetDownloadUrlForLayer","ecr:BatchGetImage"]"#@)) by {
        reveal_strlit(
            r#"{"Version":"2012-10-17","Statement":[{"Effect":"Allow","Action":["ecr:GetAuthorizationToken"],"Resource":"*"},{"Effect":"Allow","Action":["ecr:BatchCheckLayerAvailability","ecr:GetDownloadUrlForLayer","ecr:BatchGetImage"],"Resource":"*"}]}"#,
        );
        reveal_strlit(r#""Action":["ecr:BatchCheckLayerAvailability","ecr:GetDownloadUrlForLayer","ecr:BatchGetImage"]"#);
        let policy = ecr_policy();
        let action = r#""Action":["ecr:BatchCheckLayerAvailability","ecr:GetDownloadUrlForLayer","ecr:BatchGetImage"]"#@;
        assert(policy.subrange(128, 221) =~= action);
        assert(text::occurs_at(policy, action, 128));
    }
}

/// An answer that names no role stands for none: looked up, it is not there; created, it
/// failed.
pub proof fn unnamed_role_is_none(xml: Seq<char>)
    requires
        extract::tag_text(xml, "Arn"@) is None,
    ensures
        found_role(Ok(xml)) == Ok::<Option<Seq<char>>, Seq<char>>(None),
        created_role(Ok(xml)) is Err,
{
}

} // verus!
