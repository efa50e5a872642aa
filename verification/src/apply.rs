//! Applying the plugin to a deployment: the flow of calls, and the result that it
//! ends with.
use crate::api;
use crate::api::{ApiCall, Reply, Step};
use crate::backup;
use crate::backup::configure_backup;
use crate::config;
use crate::config::{workload_sa_name, AwsConfig, RdsConfig, S3Config};
use crate::context;
use crate::context::PluginContext;
use crate::credentials::AwsCredentials;
use crate::extract;
use crate::iam;
use crate::iam::{attach_rds_policy, attach_s3_policy, ensure_role};
use crate::plugin;
use crate::plugin::{apply_inner, only, push_var, service_account_yaml, PluginResult};
use crate::rds;
use crate::rds::find_or_create;
use crate::s3;
use crate::s3::ensure_bucket;
use crate::settings;
use crate::settings::{value_or, PluginSettings};
use crate::text;
use vstd::prelude::*;
use vstd::string::*;

verus! {

/// Where applying the plugin stands: at a call to be made, or at its end.
pub enum ApplyStep {
    Call(ApiCall),
    Done(PluginResult),
}

/// What an [`ApplyStep`] holds.
#[verifier::ext_equal]
pub enum ApplyStepView {
    Call(api::ApiCallView),
    Done(plugin::PluginResultView),
}

impl View for ApplyStep {
    type V = ApplyStepView;

    open spec fn view(&self) -> ApplyStepView {
        match self {
            ApplyStep::Call(call) => ApplyStepView::Call(call@),
            ApplyStep::Done(result) => ApplyStepView::Done(result@),
        }
    }
}

// ── The database ──────────────────────────────────────────────────────────────

/// What a policy names an instance by: its `DbiResourceId`, or its identifier where the
/// answer does not hold the former.
pub open spec fn policy_resource(
    rds: config::RdsConfigView,
    info: rds::DbInstanceInfoView,
) -> Seq<char> {
    settings::text_or(info.resource_id, rds.identifier)
}

/// The flow of [`provide_database`]: ensure the instance; let the role connect to
/// it; where snapshots are scheduled, configure their backup. It ends with the
/// endpoint, whatever comes back once the instance is ensured.
pub open spec fn database_step(
    settings: PluginSettings,
    region: Seq<char>,
    role_name: Seq<char>,
    rds: config::RdsConfigView,
    replies: Seq<api::ReplyView>,
    at: int,
) -> api::StepView<Seq<char>> {
    match rds::instance_step(region, rds, replies, at) {
        api::StepView::Call(call) => api::StepView::Call(call),
        api::StepView::Done(Err(e), next) => api::StepView::Done(Err(e), next),
        api::StepView::Done(Ok(info), ensured) => match api::single(
            iam::attach_rds_call(
                settings,
                region,
                role_name,
                policy_resource(rds, info),
                "*"@,
                region,
            ),
            replies,
            ensured,
        ) {
            api::StepView::Call(call) => api::StepView::Call(call),
            api::StepView::Done(_, attached) => match rds.snapshot_schedule {
                None => api::StepView::Done(Ok(info.endpoint_address), attached),
                Some(schedule) => match backup::configure_backup_step(
                    rds.identifier,
                    region,
                    schedule,
                    rds.snapshot_retention,
                    rds.backup_role_arn,
                    replies,
                    attached,
                ) {
                    api::StepView::Call(call) => api::StepView::Call(call),
                    api::StepView::Done(_, next) => api::StepView::Done(
                        Ok(info.endpoint_address),
                        next,
                    ),
                },
            },
        },
    }
}

/// Provides the database of a workload, and ends with its endpoint.
pub fn provide_database(
    settings: &PluginSettings,
    region: &str,
    role_name: &str,
    rds: &RdsConfig,
    replies: &Vec<Reply>,
    at: usize,
) -> (step: Step<String>)
    requires
        at <= replies@.len(),
    ensures
        step@ == database_step(
            *settings,
            region@,
            role_name@,
            rds@,
            api::outcomes(replies@),
            at as int,
        ),
        step matches Step::Done(_, next) ==> at <= next <= replies@.len(),
{
    match find_or_create(region, rds, replies, at) {
        Step::Call(call) => Step::Call(call),
        Step::Done(Err(e), next) => Step::Done(Err(e), next),
        Step::Done(Ok(info), ensured) => {
            let resource = value_or(info.resource_id, rds.identifier.as_str());
            let endpoint = info.endpoint_address;
            match attach_rds_policy(
                settings,
                region,
                role_name,
                resource.as_str(),
                "*",
                region,
                replies,
                ensured,
            ) {
                Step::Call(call) => Step::Call(call),
                Step::Done(_, attached) => match &rds.snapshot_schedule {
                    None => Step::Done(Ok(endpoint), attached),
                    Some(schedule) => match configure_backup(
                        rds.identifier.as_str(),
                        region,
                        schedule.as_str(),
                        rds.snapshot_retention,
                        rds.backup_role_arn.as_str(),
                        replies,
                        attached,
                    ) {
                        Step::Call(call) => Step::Call(call),
                        Step::Done(_, next) => Step::Done(Ok(endpoint), next),
                    },
                },
            }
        },
    }
}

// ── The bucket ────────────────────────────────────────────────────────────────

/// The call that lets a role work on a bucket.
pub open spec fn attach_bucket_call(
    settings: PluginSettings,
    region: Seq<char>,
    role_name: Seq<char>,
    full_bucket: Seq<char>,
) -> api::ApiCallView {
    iam::put_policy_call(
        settings,
        region,
        role_name,
        "deckwatch-s3-access"@,
        iam::s3_policy(full_bucket),
    )
}

/// The flow of [`provide_bucket`]: ensure the bucket, and let the role work on it.
pub open spec fn bucket_step(
    settings: PluginSettings,
    region: Seq<char>,
    role_name: Seq<char>,
    s3: config::S3ConfigView,
    full_bucket: Seq<char>,
    replies: Seq<api::ReplyView>,
    at: int,
) -> api::StepView<()> {
    match s3::ensure_bucket_step(s3, full_bucket, replies, at) {
        api::StepView::Call(call) => api::StepView::Call(call),
        api::StepView::Done(Err(e), next) => api::StepView::Done(Err(e), next),
        api::StepView::Done(Ok(_), ensured) => match api::single(
            attach_bucket_call(settings, region, role_name, full_bucket),
            replies,
            ensured,
        ) {
            api::StepView::Call(call) => api::StepView::Call(call),
            api::StepView::Done(_, next) => api::StepView::Done(Ok(()), next),
        },
    }
}

/// Provides the bucket of a workload.
pub fn provide_bucket(
    settings: &PluginSettings,
    region: &str,
    role_name: &str,
    s3: &S3Config,
    full_bucket: &str,
    replies: &Vec<Reply>,
    at: usize,
) -> (step: Step<()>)
    requires
        at <= replies@.len(),
    ensures
        step@ == bucket_step(
            *settings,
            region@,
            role_name@,
            s3@,
            full_bucket@,
            api::outcomes(replies@),
            at as int,
        ),
        step matches Step::Done(_, next) ==> at <= next <= replies@.len(),
{
    match ensure_bucket(s3, full_bucket, replies, at) {
        Step::Call(call) => Step::Call(call),
        Step::Done(Err(e), next) => Step::Done(Err(e), next),
        Step::Done(Ok(_), ensured) => {
            match attach_s3_policy(settings, region, role_name, full_bucket, replies, ensured) {
                Step::Call(call) => Step::Call(call),
                Step::Done(_, next) => Step::Done(Ok(()), next),
            }
        },
    }
}

// ── The result ────────────────────────────────────────────────────────────────

/// The full name of the configured bucket, where one is configured.
pub open spec fn full_bucket(cfg: config::AwsConfigView, bucket_prefix: Seq<char>) -> Option<Seq<char>> {
    match cfg.s3 {
        Some(s3) => Some(bucket_prefix + s3.bucket_name),
        None => None,
    }
}

/// The result once the role is there. `endpoint` is that of the instance, where one
/// was ensured: it is empty while the instance is provisioning.
pub open spec fn live_result(
    ctx: context::PluginContextView,
    bucket_prefix: Seq<char>,
    role_arn: Seq<char>,
    endpoint: Option<Seq<char>>,
) -> plugin::PluginResultView {
    let known = plugin::static_result(ctx, bucket_prefix);
    let sa = config::sa_name_for(ctx.deployment_name);
    let role_outputs = known.outputs.insert("role_arn"@, role_arn).insert(
        "service_account_name"@,
        sa,
    );
    let rds_outputs = match endpoint {
        Some(host) => role_outputs.insert("rds_endpoint"@, host),
        None => role_outputs,
    };
    plugin::PluginResultView {
        env_vars: match endpoint {
            Some(host) if host.len() > 0 => known.env_vars.push(plugin::var("DB_HOST"@, host)),
            _ => known.env_vars,
        },
        kubernetes_resources: seq![plugin::service_account(sa, role_arn, ctx.namespace)],
        service_account_name: known.service_account_name,
        outputs: match full_bucket(config::config_of(ctx), bucket_prefix) {
            Some(bucket) if bucket.len() > 0 => rds_outputs.insert("s3_bucket"@, bucket),
            _ => rds_outputs,
        },
    }
}

/// The result once the role is there: the real role ARN takes the placeholder's
/// place, and what is known of the database and the bucket is added.
fn finish(
    ctx: &PluginContext,
    bucket_prefix: &str,
    role_arn: String,
    endpoint: Option<String>,
    bucket: Option<String>,
) -> (result: PluginResult)
    requires
        text::opt_text(bucket) == full_bucket(config::config_of(ctx@), bucket_prefix@),
    ensures
        result@ == live_result(ctx@, bucket_prefix@, role_arn@, text::opt_text(endpoint)),
{
    let sa = workload_sa_name(ctx.deployment_name.as_str());
    let result = apply_inner(ctx, bucket_prefix);
    let manifest = service_account_yaml(sa.as_str(), role_arn.as_str(), ctx.namespace.as_str());
    let mut outputs = result.outputs;
    outputs.insert("role_arn".to_owned(), role_arn);
    outputs.insert("service_account_name".to_owned(), sa);
    let mut env_vars = result.env_vars;
    if let Some(host) = endpoint {
        if !host.as_str().is_empty() {
            push_var(&mut env_vars, "DB_HOST", host.as_str());
        }
        outputs.insert("rds_endpoint".to_owned(), host);
    }
    if let Some(name) = bucket {
        if !name.as_str().is_empty() {
            outputs.insert("s3_bucket".to_owned(), name);
        }
    }
    PluginResult {
        env_vars,
        kubernetes_resources: only(manifest),
        service_account_name: result.service_account_name,
        outputs,
    }
}

// ── The flow ──────────────────────────────────────────────────────────────────

/// What is left of applying the plugin once the database is settled.
pub open spec fn after_database(
    settings: PluginSettings,
    ctx: context::PluginContextView,
    region: Seq<char>,
    bucket_prefix: Seq<char>,
    role_arn: Seq<char>,
    endpoint: Option<Seq<char>>,
    replies: Seq<api::ReplyView>,
    at: int,
) -> ApplyStepView {
    let cfg = config::config_of(ctx);
    match cfg.s3 {
        None => ApplyStepView::Done(live_result(ctx, bucket_prefix, role_arn, endpoint)),
        Some(s3) => match bucket_step(
            settings,
            region,
            cfg.role_name,
            s3,
            bucket_prefix + s3.bucket_name,
            replies,
            at,
        ) {
            api::StepView::Call(call) => ApplyStepView::Call(call),
            api::StepView::Done(_, _) => ApplyStepView::Done(
                live_result(ctx, bucket_prefix, role_arn, endpoint),
            ),
        },
    }
}

/// The flow of [`apply_with_aws`].
pub open spec fn apply_step(
    settings: PluginSettings,
    ctx: context::PluginContextView,
    region: Seq<char>,
    bucket_prefix: Seq<char>,
    replies: Seq<api::ReplyView>,
) -> ApplyStepView {
    let cfg = config::config_of(ctx);
    if !cfg.enabled {
        ApplyStepView::Done(plugin::PluginResultView::empty())
    } else {
        match iam::ensure_role_step(
            settings,
            region,
            cfg.role_name,
            ctx.namespace,
            config::sa_name_for(ctx.deployment_name),
            replies,
            0,
        ) {
            api::StepView::Call(call) => ApplyStepView::Call(call),
            api::StepView::Done(Err(_), _) => ApplyStepView::Done(
                plugin::static_result(ctx, bucket_prefix),
            ),
            api::StepView::Done(Ok(role_arn), at) => match cfg.rds {
                None => after_database(
                    settings,
                    ctx,
                    region,
                    bucket_prefix,
                    role_arn,
                    None,
                    replies,
                    at,
                ),
                Some(rds) => match database_step(
                    settings,
                    region,
                    cfg.role_name,
                    rds,
                    replies,
                    at,
                ) {
                    api::StepView::Call(call) => ApplyStepView::Call(call),
                    api::StepView::Done(Err(_), next) => after_database(
                        settings,
                        ctx,
                        region,
                        bucket_prefix,
                        role_arn,
                        None,
                        replies,
                        next,
                    ),
                    api::StepView::Done(Ok(endpoint), next) => after_database(
                        settings,
                        ctx,
                        region,
                        bucket_prefix,
                        role_arn,
                        Some(endpoint),
                        replies,
                        next,
                    ),
                },
            },
        }
    }
}

/// What is left of applying the plugin once the database is settled.
fn settle_bucket(
    settings: &PluginSettings,
    ctx: &PluginContext,
    cfg: &AwsConfig,
    region: &str,
    bucket_prefix: &str,
    role_arn: String,
    endpoint: Option<String>,
    replies: &Vec<Reply>,
    at: usize,
) -> (step: ApplyStep)
    requires
        at <= replies@.len(),
        cfg@ == config::config_of(ctx@),
    ensures
        step@ == after_database(
            *settings,
            ctx@,
            region@,
            bucket_prefix@,
            role_arn@,
            text::opt_text(endpoint),
            api::outcomes(replies@),
            at as int,
        ),
{
    match &cfg.s3 {
        None => ApplyStep::Done(finish(ctx, bucket_prefix, role_arn, endpoint, None)),
        Some(s3) => {
            let bucket = bucket_prefix.to_owned().concat(s3.bucket_name.as_str());
            match provide_bucket(
                settings,
                region,
                cfg.role_name.as_str(),
                s3,
                bucket.as_str(),
                replies,
                at,
            ) {
                Step::Call(call) => ApplyStep::Call(call),
                Step::Done(_, _) => ApplyStep::Done(
                    finish(ctx, bucket_prefix, role_arn, endpoint, Some(bucket)),
                ),
            }
        },
    }
}

/// The full flow: ensure the IAM role, provide the database with its backup, provide
/// the bucket, then end with the augmented result.
///
/// Where the role cannot be ensured, the flow ends with the static result, so that
/// the deployment is not blocked. What fails later leaves out what it would have
/// added.
pub fn apply_with_aws(
    settings: &PluginSettings,
    ctx: &PluginContext,
    region: &str,
    bucket_prefix: &str,
    replies: &Vec<Reply>,
) -> (step: ApplyStep)
    ensures
        step@ == apply_step(
            *settings,
            ctx@,
            region@,
            bucket_prefix@,
            api::outcomes(replies@),
        ),
{
    let cfg = AwsConfig::from_context(ctx);
    if !cfg.enabled {
        return ApplyStep::Done(PluginResult::default());
    }
    let sa = workload_sa_name(ctx.deployment_name.as_str());
    match ensure_role(
        settings,
        region,
        cfg.role_name.as_str(),
        ctx.namespace.as_str(),
        sa.as_str(),
        replies,
        0,
    ) {
        Step::Call(call) => ApplyStep::Call(call),
        Step::Done(Err(_), _) => ApplyStep::Done(apply_inner(ctx, bucket_prefix)),
        Step::Done(Ok(role_arn), at) => match &cfg.rds {
            None => settle_bucket(
                settings,
                ctx,
                &cfg,
                region,
                bucket_prefix,
                role_arn,
                None,
                replies,
                at,
            ),
            Some(rds) => match provide_database(
                settings,
                region,
                cfg.role_name.as_str(),
                rds,
                replies,
                at,
            ) {
                Step::Call(call) => ApplyStep::Call(call),
                Step::Done(Err(_), next) => settle_bucket(
                    settings,
                    ctx,
                    &cfg,
                    region,
                    bucket_prefix,
                    role_arn,
                    None,
                    replies,
                    next,
                ),
                Step::Done(Ok(endpoint), next) => settle_bucket(
                    settings,
                    ctx,
                    &cfg,
                    region,
                    bucket_prefix,
                    role_arn,
                    Some(endpoint),
                    replies,
                    next,
                ),
            },
        },
    }
}

/// Applies the plugin to a deployment, with the credentials that were found.
///
/// Without credentials it ends at once, with the static result.
pub fn apply(
    settings: &PluginSettings,
    ctx: &PluginContext,
    creds: &Result<AwsCredentials, String>,
    replies: &Vec<Reply>,
) -> (step: ApplyStep)
    ensures
        step@ == match creds {
            Err(_) => ApplyStepView::Done(plugin::static_result(ctx@, settings.prefix_text())),
            Ok(c) => apply_step(
                *settings,
                ctx@,
                c@.region,
                settings.prefix_text(),
                api::outcomes(replies@),
            ),
        },
        creds is Err ==> step is Done,
        creds matches Ok(c) ==> (config::config_of(ctx@).enabled && replies@.len() == 0 ==> step@
            == ApplyStepView::Call(
            iam::get_role_call(*settings, c@.region, config::config_of(ctx@).role_name),
        )),
        step@ matches ApplyStepView::Done(result) ==> (ctx@.flag("s3.deckwatch.io/enabled"@, false)
            ==> result.env_vars.contains(
            plugin::var(
                "S3_BUCKET"@,
                settings.prefix_text() + config::s3_config(ctx@).bucket_name,
            ),
        )),
{
    proof {
        let prefix = settings.prefix_text();
        if ctx@.flag("s3.deckwatch.io/enabled"@, false) {
            plugin::bucket_is_described(ctx@, prefix);
            if let Ok(c) = creds {
                ended_apply_names_the_bucket(
                    *settings,
                    ctx@,
                    c@.region,
                    prefix,
                    api::outcomes(replies@),
                );
            }
        }
    }
    let prefix = settings.prefix();
    match creds {
        Err(_) => ApplyStep::Done(apply_inner(ctx, prefix.as_str())),
        Ok(c) => apply_with_aws(settings, ctx, c.region.as_str(), prefix.as_str(), replies),
    }
}

// ── Laws ──────────────────────────────────────────────────────────────────────

/// Where the plugin is not enabled, no call is made and nothing is given, whatever
/// the credentials.
pub proof fn disabled_makes_no_call(
    settings: PluginSettings,
    ctx: context::PluginContextView,
    region: Seq<char>,
    bucket_prefix: Seq<char>,
    replies: Seq<api::ReplyView>,
)
    requires
        !config::config_of(ctx).enabled,
    ensures
        apply_step(settings, ctx, region, bucket_prefix, replies) == ApplyStepView::Done(
            plugin::PluginResultView::empty(),
        ),
        plugin::static_result(ctx, bucket_prefix) == plugin::PluginResultView::empty(),
{
}

/// The role comes first: the flow of an enabled plugin begins with looking it up.
pub proof fn role_comes_first(
    settings: PluginSettings,
    ctx: context::PluginContextView,
    region: Seq<char>,
    bucket_prefix: Seq<char>,
)
    requires
        config::config_of(ctx).enabled,
    ensures
        apply_step(settings, ctx, region, bucket_prefix, Seq::empty()) == ApplyStepView::Call(
            iam::get_role_call(settings, region, config::config_of(ctx).role_name),
        ),
{
}

/// A role that cannot be ensured does not block the deployment: the flow ends with
/// the static result.
pub proof fn role_failure_gives_the_static_result(
    settings: PluginSettings,
    ctx: context::PluginContextView,
    region: Seq<char>,
    bucket_prefix: Seq<char>,
    replies: Seq<api::ReplyView>,
)
    requires
        iam::ensure_role_step(
            settings,
            region,
            config::config_of(ctx).role_name,
            ctx.namespace,
            config::sa_name_for(ctx.deployment_name),
            replies,
            0,
        ) matches api::StepView::Done(Err(_), _),
    ensures
        apply_step(settings, ctx, region, bucket_prefix, replies) == ApplyStepView::Done(
            plugin::static_result(ctx, bucket_prefix),
        ),
{
}

/// Once the role is ensured, the flow ends with the role in its result, whatever
/// comes back for the database and the bucket.
pub proof fn later_failures_keep_the_role(
    settings: PluginSettings,
    ctx: context::PluginContextView,
    region: Seq<char>,
    bucket_prefix: Seq<char>,
    replies: Seq<api::ReplyView>,
    role_arn: Seq<char>,
    at: int,
)
    requires
        config::config_of(ctx).enabled,
        iam::ensure_role_step(
            settings,
            region,
            config::config_of(ctx).role_name,
            ctx.namespace,
            config::sa_name_for(ctx.deployment_name),
            replies,
            0,
        ) == api::StepView::Done(Ok::<Seq<char>, Seq<char>>(role_arn), at),
    ensures
        apply_step(settings, ctx, region, bucket_prefix, replies) matches ApplyStepView::Done(
            result,
        ) ==> exists|endpoint: Option<Seq<char>>|
            result == #[trigger] live_result(ctx, bucket_prefix, role_arn, endpoint),
{
}

/// The result of an ensured role names that role, in the `ServiceAccount` and in the
/// outputs.
pub proof fn live_result_names_the_role(
    ctx: context::PluginContextView,
    bucket_prefix: Seq<char>,
    role_arn: Seq<char>,
    endpoint: Option<Seq<char>>,
)
    requires
        config::config_of(ctx).enabled,
    ensures
        ({
            let result = live_result(ctx, bucket_prefix, role_arn, endpoint);
            let sa = config::sa_name_for(ctx.deployment_name);
            &&& result.kubernetes_resources == seq![
                plugin::service_account(sa, role_arn, ctx.namespace),
            ]
            &&& result.service_account_name == Some(sa)
            &&& result.outputs.contains_key("role_arn"@)
            &&& result.outputs["role_arn"@] == role_arn
            &&& result.outputs["service_account_name"@] == sa
        }),
{
    reveal_strlit("role_arn");
    reveal_strlit("service_account_name");
    reveal_strlit("rds_endpoint");
    reveal_strlit("s3_bucket");
    assert("role_arn"@.len() == 8);
    assert("service_account_name"@.len() == 20);
    assert("rds_endpoint"@.len() == 12);
    assert("s3_bucket"@.len() == 9);
}

/// The endpoint of an instance is in the outputs once the instance is ensured, empty
/// while it is provisioning; the host is injected once there is one.
pub proof fn endpoint_is_passed_on(
    ctx: context::PluginContextView,
    bucket_prefix: Seq<char>,
    role_arn: Seq<char>,
    endpoint: Seq<char>,
)
    ensures
        ({
            let result = live_result(ctx, bucket_prefix, role_arn, Some(endpoint));
            &&& result.outputs.contains_key("rds_endpoint"@)
            &&& result.outputs["rds_endpoint"@] == endpoint
            &&& endpoint.len() > 0 ==> result.env_vars.contains(plugin::var("DB_HOST"@, endpoint))
        }),
{
    reveal_strlit("rds_endpoint");
    reveal_strlit("s3_bucket");
    assert("rds_endpoint"@.len() == 12);
    assert("s3_bucket"@.len() == 9);
    let result = live_result(ctx, bucket_prefix, role_arn, Some(endpoint));
    if endpoint.len() > 0 {
        assert(result.env_vars.last() == plugin::var("DB_HOST"@, endpoint));
    }
}

/// The role is let connect to the instance by the `DbiResourceId` that RDS answered
/// with.
pub proof fn policy_names_the_resource(
    settings: PluginSettings,
    region: Seq<char>,
    role_name: Seq<char>,
    rds: config::RdsConfigView,
    replies: Seq<api::ReplyView>,
    at: int,
    info: rds::DbInstanceInfoView,
    resource_id: Seq<char>,
)
    requires
        rds::instance_step(region, rds, replies, at) == api::StepView::Done(
            Ok::<rds::DbInstanceInfoView, Seq<char>>(info),
            replies.len() as int,
        ),
        info.resource_id == Some(resource_id),
    ensures
        database_step(settings, region, role_name, rds, replies, at) == api::StepView::<
            Seq<char>,
        >::Call(iam::attach_rds_call(settings, region, role_name, resource_id, "*"@, region)),
{
}

/// Every bucket name begins with the configured prefix, with credentials and without.
pub proof fn prefix_is_always_applied(
    settings: PluginSettings,
    ctx: context::PluginContextView,
    role_arn: Seq<char>,
    endpoint: Option<Seq<char>>,
)
    requires
        ctx.flag("s3.deckwatch.io/enabled"@, false),
    ensures
        ({
            let prefix = settings.prefix_text();
            let bucket = plugin::var("S3_BUCKET"@, prefix + config::s3_config(ctx).bucket_name);
            &&& plugin::static_result(ctx, prefix).env_vars.contains(bucket)
            &&& live_result(ctx, prefix, role_arn, endpoint).env_vars.contains(bucket)
        }),
{
    let prefix = settings.prefix_text();
    let bucket = plugin::var("S3_BUCKET"@, prefix + config::s3_config(ctx).bucket_name);
    plugin::bucket_is_described(ctx, prefix);
    let known = plugin::static_result(ctx, prefix).env_vars;
    let i = choose|i: int| 0 <= i < known.len() && known[i] == bucket;
    assert(live_result(ctx, prefix, role_arn, endpoint).env_vars[i] == bucket);
}

/// What the annotations alone determine is kept: its variables come first, and only
/// the host may follow them. No password is injected.
pub proof fn live_variables_are_known(
    ctx: context::PluginContextView,
    bucket_prefix: Seq<char>,
    role_arn: Seq<char>,
    endpoint: Option<Seq<char>>,
)
    ensures
        ({
            let known = plugin::static_result(ctx, bucket_prefix).env_vars;
            let list = live_result(ctx, bucket_prefix, role_arn, endpoint).env_vars;
            &&& known.is_prefix_of(list)
            &&& list.len() <= known.len() + 1
            &&& forall|i: int|
                0 <= i < list.len() ==> plugin::known_name((#[trigger] list[i]).name)
                    && list[i].name != "DB_PASSWORD"@
        }),
{
    plugin::password_is_not_known();
    plugin::static_variables_are_known(ctx, bucket_prefix);
    let known = plugin::static_result(ctx, bucket_prefix).env_vars;
    let list = live_result(ctx, bucket_prefix, role_arn, endpoint).env_vars;
    assert(list.subrange(0, known.len() as int) =~= known);
    assert forall|i: int| 0 <= i < list.len() implies plugin::known_name((#[trigger] list[i]).name)
        && list[i].name != "DB_PASSWORD"@ by {
        if i < known.len() {
            assert(list[i] == known[i]);
        }
    }
}

/// Applying the plugin takes thirteen calls at most: two for the role, six for the
/// database and five for the bucket.
pub proof fn apply_takes_thirteen_calls(
    settings: PluginSettings,
    ctx: context::PluginContextView,
    region: Seq<char>,
    bucket_prefix: Seq<char>,
    replies: Seq<api::ReplyView>,
)
    requires
        replies.len() >= 13,
    ensures
        apply_step(settings, ctx, region, bucket_prefix, replies) is Done,
{
    let cfg = config::config_of(ctx);
    let sa = config::sa_name_for(ctx.deployment_name);
    let role = iam::ensure_role_step(
        settings,
        region,
        cfg.role_name,
        ctx.namespace,
        sa,
        replies,
        0,
    );
    iam::role_takes_two_calls(settings, region, cfg.role_name, ctx.namespace, sa, replies, 0);
    if let api::StepView::Done(Ok(_), at) = role {
        let next = match cfg.rds {
            Some(rds) => match database_step(
                settings,
                region,
                cfg.role_name,
                rds,
                replies,
                at,
            ) {
                api::StepView::Done(_, next) => next,
                _ => at,
            },
            None => at,
        };
        if cfg.rds is Some {
            database_takes_six_calls(settings, region, cfg.role_name, cfg.rds->0, replies, at);
        }
        if cfg.s3 is Some {
            bucket_takes_five_calls(
                settings,
                region,
                cfg.role_name,
                cfg.s3->0,
                bucket_prefix + cfg.s3->0.bucket_name,
                replies,
                next,
            );
        }
    }
}

/// Providing a database takes six calls at most.
proof fn database_takes_six_calls(
    settings: PluginSettings,
    region: Seq<char>,
    role_name: Seq<char>,
    rds: config::RdsConfigView,
    replies: Seq<api::ReplyView>,
    at: int,
)
    requires
        0 <= at,
        at + 6 <= replies.len(),
    ensures
        database_step(settings, region, role_name, rds, replies, at) matches api::StepView::Done(
            _,
            next,
        ) && at <= next <= at + 6,
{
}

/// Providing a bucket takes five calls at most.
proof fn bucket_takes_five_calls(
    settings: PluginSettings,
    region: Seq<char>,
    role_name: Seq<char>,
    s3: config::S3ConfigView,
    bucket: Seq<char>,
    replies: Seq<api::ReplyView>,
    at: int,
)
    requires
        0 <= at,
        at + 5 <= replies.len(),
    ensures
        bucket_step(settings, region, role_name, s3, bucket, replies, at) is Done,
{
    s3::settings_are_those_asked_for(s3, bucket);
}

/// A role that was ensured stays so.
proof fn ended_role_stays_ended(
    settings: PluginSettings,
    region: Seq<char>,
    role_name: Seq<char>,
    namespace: Seq<char>,
    sa_name: Seq<char>,
    replies: Seq<api::ReplyView>,
    all: Seq<api::ReplyView>,
)
    requires
        replies.is_prefix_of(all),
    ensures
        ({
            let step = iam::ensure_role_step(
                settings,
                region,
                role_name,
                namespace,
                sa_name,
                replies,
                0,
            );
            step matches api::StepView::Done(_, next) ==> 0 <= next <= replies.len() && step
                == iam::ensure_role_step(settings, region, role_name, namespace, sa_name, all, 0)
        }),
{
    assert(forall|i: int| 0 <= i < replies.len() ==> #[trigger] all[i] == replies[i]);
}

/// A database that was settled stays so.
proof fn ended_database_stays_ended(
    settings: PluginSettings,
    region: Seq<char>,
    role_name: Seq<char>,
    rds: config::RdsConfigView,
    replies: Seq<api::ReplyView>,
    all: Seq<api::ReplyView>,
    at: int,
)
    requires
        replies.is_prefix_of(all),
        0 <= at <= replies.len(),
    ensures
        ({
            let step = database_step(settings, region, role_name, rds, replies, at);
            step matches api::StepView::Done(_, next) ==> at <= next <= replies.len() && step
                == database_step(settings, region, role_name, rds, all, at)
        }),
{
    assert(forall|i: int| 0 <= i < replies.len() ==> #[trigger] all[i] == replies[i]);
}

/// A bucket that was settled stays so.
proof fn ended_bucket_stays_ended(
    settings: PluginSettings,
    region: Seq<char>,
    role_name: Seq<char>,
    s3: config::S3ConfigView,
    bucket: Seq<char>,
    replies: Seq<api::ReplyView>,
    all: Seq<api::ReplyView>,
    at: int,
)
    requires
        replies.is_prefix_of(all),
        0 <= at <= replies.len(),
        bucket_step(settings, region, role_name, s3, bucket, replies, at) is Done,
    ensures
        bucket_step(settings, region, role_name, s3, bucket, all, at) == bucket_step(
            settings,
            region,
            role_name,
            s3,
            bucket,
            replies,
            at,
        ),
{
    assert(forall|i: int| 0 <= i < replies.len() ==> #[trigger] all[i] == replies[i]);
}

/// A flow that has ended stays as it ended, whatever more comes back: only the replies
/// that it asked for count.
pub proof fn ended_apply_stays_ended(
    settings: PluginSettings,
    ctx: context::PluginContextView,
    region: Seq<char>,
    bucket_prefix: Seq<char>,
    replies: Seq<api::ReplyView>,
    more: Seq<api::ReplyView>,
)
    requires
        apply_step(settings, ctx, region, bucket_prefix, replies) is Done,
    ensures
        apply_step(settings, ctx, region, bucket_prefix, replies + more) == apply_step(
            settings,
            ctx,
            region,
            bucket_prefix,
            replies,
        ),
{
    let all = replies + more;
    assert(all.subrange(0, replies.len() as int) =~= replies);
    let cfg = config::config_of(ctx);
    let sa = config::sa_name_for(ctx.deployment_name);
    ended_role_stays_ended(settings, region, cfg.role_name, ctx.namespace, sa, replies, all);
    let role = iam::ensure_role_step(
        settings,
        region,
        cfg.role_name,
        ctx.namespace,
        sa,
        replies,
        0,
    );
    if let api::StepView::Done(Ok(role_arn), at) = role {
        if cfg.rds is Some {
            ended_database_stays_ended(
                settings,
                region,
                cfg.role_name,
                cfg.rds->0,
                replies,
                all,
                at,
            );
        }
        let next = match cfg.rds {
            Some(rds) => match database_step(
                settings,
                region,
                cfg.role_name,
                rds,
                replies,
                at,
            ) {
                api::StepView::Done(_, next) => next,
                _ => at,
            },
            None => at,
        };
        if cfg.enabled && cfg.s3 is Some {
            ended_bucket_stays_ended(
                settings,
                region,
                cfg.role_name,
                cfg.s3->0,
                bucket_prefix + cfg.s3->0.bucket_name,
                replies,
                all,
                next,
            );
        }
    }
}

/// The bucket that the role is let work on is the bucket that was created, under its full
/// name: the policy is put on the role once the bucket is there, and names that bucket's
/// objects and the bucket itself.
pub proof fn granted_bucket_is_the_created_one(
    settings: PluginSettings,
    ctx: context::PluginContextView,
    region: Seq<char>,
    bucket_prefix: Seq<char>,
    role_arn: Seq<char>,
    endpoint: Option<Seq<char>>,
    replies: Seq<api::ReplyView>,
    at: int,
    s3: config::S3ConfigView,
)
    requires
        config::config_of(ctx).s3 == Some(s3),
        s3::ensure_bucket_step(s3, bucket_prefix + s3.bucket_name, replies, at)
            == api::StepView::Done(Ok::<(), Seq<char>>(()), replies.len() as int),
    ensures
        ({
            let bucket = bucket_prefix + s3.bucket_name;
            let policy = iam::s3_policy(bucket);
            let role_name = config::config_of(ctx).role_name;
            let call = iam::put_policy_call(
                settings,
                region,
                role_name,
                "deckwatch-s3-access"@,
                policy,
            );
            &&& bucket_step(settings, region, role_name, s3, bucket, replies, at)
                == api::StepView::<()>::Call(call)
            &&& after_database(
                settings,
                ctx,
                region,
                bucket_prefix,
                role_arn,
                endpoint,
                replies,
                at,
            ) == ApplyStepView::Call(call)
            &&& api::sends(call.body->0, "RoleName"@, role_name)
            &&& api::sends(call.body->0, "PolicyDocument"@, policy)
            &&& text::contains_text(
                policy,
                r#""Resource":"arn:aws:s3:::"#@ + bucket_prefix + s3.bucket_name + r#"/*""#@,
            )
            &&& text::contains_text(
                policy,
                r#""Resource":"arn:aws:s3:::"#@ + bucket_prefix + s3.bucket_name + r#"""#@,
            )
        }),
{
    let bucket = bucket_prefix + s3.bucket_name;
    let role_name = config::config_of(ctx).role_name;
    let policy = iam::s3_policy(bucket);
    iam::policy_call_names_the_role(settings, region, role_name, "deckwatch-s3-access"@, policy);
    let first =
        r#"{"Version":"2012-10-17","Statement":[{"Effect":"Allow","Action":["s3:GetObject","s3:PutObject","s3:DeleteObject"],"Resource":"arn:aws:s3:::"#@;
    let second = r#"/*"},{"Effect":"Allow","Action":"s3:ListBucket","Resource":"arn:aws:s3:::"#@;
    let third = r#""}]}"#@;
    let mark = r#""Resource":"arn:aws:s3:::"#@;
    assert(text::contains_text(policy, mark + bucket_prefix + s3.bucket_name + r#"/*""#@)) by {
        reveal_strlit(
            r#"{"Version":"2012-10-17","Statement":[{"Effect":"Allow","Action":["s3:GetObject","s3:PutObject","s3:DeleteObject"],"Resource":"arn:aws:s3:::"#,
        );
        reveal_strlit(
            r#"/*"},{"Effect":"Allow","Action":"s3:ListBucket","Resource":"arn:aws:s3:::"#,
        );
        reveal_strlit(r#""Resource":"arn:aws:s3:::"#);
        reveal_strlit(r#"/*""#);
        let inner = mark + bucket_prefix + s3.bucket_name + r#"/*""#@;
        let before = first.take(first.len() - mark.len());
        let after = second.skip(3) + bucket + third;
        assert(first =~= before + mark);
        assert(second =~= r#"/*""#@ + second.skip(3));
        assert(policy =~= before + inner + after);
        text::middle_is_contained(before, inner, after);
    }
    assert(text::contains_text(policy, mark + bucket_prefix + s3.bucket_name + r#"""#@)) by {
        reveal_strlit(
            r#"/*"},{"Effect":"Allow","Action":"s3:ListBucket","Resource":"arn:aws:s3:::"#,
        );
        reveal_strlit(r#""Resource":"arn:aws:s3:::"#);
        reveal_strlit(r#""}]}"#);
        reveal_strlit(r#"""#);
        let inner = mark + bucket_prefix + s3.bucket_name + r#"""#@;
        let front = second.take(second.len() - mark.len());
        let before = first + bucket + front;
        let after = third.skip(1);
        assert(second =~= front + mark);
        assert(third =~= r#"""#@ + after);
        assert(policy =~= before + inner + after);
        text::middle_is_contained(before, inner, after);
    }
}

/// The bucket that is created is the one that the workload is told, under its full name:
/// the first call for the bucket goes to that bucket's own host, and the variable and the
/// output name it.
pub proof fn told_bucket_is_the_created_one(
    settings: PluginSettings,
    ctx: context::PluginContextView,
    region: Seq<char>,
    bucket_prefix: Seq<char>,
    role_arn: Seq<char>,
    endpoint: Option<Seq<char>>,
    replies: Seq<api::ReplyView>,
)
    requires
        ctx.flag("s3.deckwatch.io/enabled"@, false),
    ensures
        ({
            let s3 = config::s3_config(ctx);
            let bucket = bucket_prefix + s3.bucket_name;
            let at = replies.len() as int;
            let result = live_result(ctx, bucket_prefix, role_arn, endpoint);
            &&& after_database(
                settings,
                ctx,
                region,
                bucket_prefix,
                role_arn,
                endpoint,
                replies,
                at,
            ) matches ApplyStepView::Call(call) && call.api == api::ApiView::S3("CreateBucket"@)
                && s3::goes_to(call, bucket, s3.region)
            &&& result.env_vars.contains(plugin::var("S3_BUCKET"@, bucket))
            &&& bucket.len() > 0 ==> result.outputs.contains_key("s3_bucket"@)
                && result.outputs["s3_bucket"@] == bucket
        }),
{
    let s3 = config::s3_config(ctx);
    let bucket = bucket_prefix + s3.bucket_name;
    s3::bucket_is_created_first(s3, bucket, replies);
    plugin::bucket_is_described(ctx, bucket_prefix);
    let var = plugin::var("S3_BUCKET"@, bucket);
    let known = plugin::static_result(ctx, bucket_prefix).env_vars;
    let i = choose|i: int| 0 <= i < known.len() && known[i] == var;
    assert(live_result(ctx, bucket_prefix, role_arn, endpoint).env_vars[i] == var);
}

/// Every call for the role is made to IAM, and names the role.
proof fn role_calls_name_it(
    settings: PluginSettings,
    region: Seq<char>,
    role_name: Seq<char>,
    namespace: Seq<char>,
    sa_name: Seq<char>,
    replies: Seq<api::ReplyView>,
    at: int,
)
    ensures
        iam::ensure_role_step(settings, region, role_name, namespace, sa_name, replies, at)
            matches api::StepView::Call(call) ==> call.api is Iam && call.clock_region == region
            && api::sends(call.body->0, "RoleName"@, role_name),
{
    let trust = iam::trust_policy(
        settings::filled_text(settings.oidc_provider_arn),
        namespace,
        sa_name,
    );
    iam::role_calls_name_the_role(settings, region, role_name, trust);
}

/// Every call for the database is made for the instance's region: to RDS, to IAM for the
/// role, and to AWS Backup where snapshots are scheduled.
proof fn database_calls_stay(
    settings: PluginSettings,
    region: Seq<char>,
    role_name: Seq<char>,
    rds: config::RdsConfigView,
    replies: Seq<api::ReplyView>,
    at: int,
)
    requires
        0 <= at,
    ensures
        database_step(settings, region, role_name, rds, replies, at) matches api::StepView::Call(
            call,
        ) ==> match call.api {
            api::ApiView::Iam => api::sends(call.body->0, "RoleName"@, role_name)
                && call.clock_region == region,
            api::ApiView::Rds => call.host == "rds."@ + region + ".amazonaws.com"@,
            api::ApiView::BackupPost | api::ApiView::BackupGet => rds.snapshot_schedule is Some
                && call.host == "backup."@ + region + ".amazonaws.com"@,
            _ => false,
        },
{
    if let api::StepView::Call(call) = database_step(
        settings,
        region,
        role_name,
        rds,
        replies,
        at,
    ) {
        match rds::instance_step(region, rds, replies, at) {
            api::StepView::Call(call) => {
                rds::rds_is_called(region, call.body->0);
            },
            api::StepView::Done(Ok(info), ensured) => {
                let resource = policy_resource(rds, info);
                iam::connect_policy_names_the_user(
                    settings,
                    region,
                    role_name,
                    resource,
                    "*"@,
                    region,
                );
                let policy = iam::rds_policy(
                    iam::partition(region),
                    region,
                    iam::own_account(settings.role_arn),
                    resource,
                    "*"@,
                );
                iam::policy_call_names_the_role(
                    settings,
                    region,
                    role_name,
                    "deckwatch-rds-connect"@,
                    policy,
                );
                backup::backup_is_called(region, call.path, call.body->0);
            },
            _ => {},
        }
    }
}

/// Every call is made for the workload and nothing else: to IAM for its role, to RDS and
/// AWS Backup in the region where a database is configured, and to the host of its own
/// bucket where a bucket is.
pub proof fn calls_are_for_the_workload(
    settings: PluginSettings,
    ctx: context::PluginContextView,
    region: Seq<char>,
    bucket_prefix: Seq<char>,
    replies: Seq<api::ReplyView>,
)
    ensures
        apply_step(settings, ctx, region, bucket_prefix, replies) matches ApplyStepView::Call(
            call,
        ) ==> {
            let cfg = config::config_of(ctx);
            &&& cfg.enabled
            &&& match call.api {
                api::ApiView::Iam => api::sends(call.body->0, "RoleName"@, cfg.role_name)
                    && call.clock_region == region,
                api::ApiView::Rds => cfg.rds is Some && call.host == "rds."@ + region
                    + ".amazonaws.com"@,
                api::ApiView::BackupPost | api::ApiView::BackupGet => cfg.rds is Some
                    && cfg.rds->0.snapshot_schedule is Some && call.host == "backup."@ + region
                    + ".amazonaws.com"@,
                api::ApiView::S3(_) => cfg.s3 is Some && s3::goes_to(
                    call,
                    bucket_prefix + cfg.s3->0.bucket_name,
                    cfg.s3->0.region,
                ),
                _ => false,
            }
        },
{
    let cfg = config::config_of(ctx);
    let sa = config::sa_name_for(ctx.deployment_name);
    role_calls_name_it(settings, region, cfg.role_name, ctx.namespace, sa, replies, 0);
    let role = iam::ensure_role_step(
        settings,
        region,
        cfg.role_name,
        ctx.namespace,
        sa,
        replies,
        0,
    );
    if let api::StepView::Done(Ok(_), at) = role {
        assert(0 <= at);
        let next = match cfg.rds {
            Some(rds) => match database_step(
                settings,
                region,
                cfg.role_name,
                rds,
                replies,
                at,
            ) {
                api::StepView::Done(_, next) => next,
                _ => at,
            },
            None => at,
        };
        if cfg.rds is Some {
            database_calls_stay(settings, region, cfg.role_name, cfg.rds->0, replies, at);
        }
        if cfg.s3 is Some {
            bucket_calls_stay(
                settings,
                region,
                cfg.role_name,
                cfg.s3->0,
                bucket_prefix + cfg.s3->0.bucket_name,
                replies,
                next,
            );
        }
    }
}

/// Every call for the bucket is made to the bucket's own host, or to IAM for the role.
proof fn bucket_calls_stay(
    settings: PluginSettings,
    region: Seq<char>,
    role_name: Seq<char>,
    s3: config::S3ConfigView,
    bucket: Seq<char>,
    replies: Seq<api::ReplyView>,
    at: int,
)
    requires
        0 <= at,
    ensures
        bucket_step(settings, region, role_name, s3, bucket, replies, at) matches
            api::StepView::Call(call) ==> match call.api {
            api::ApiView::Iam => api::sends(call.body->0, "RoleName"@, role_name)
                && call.clock_region == region,
            api::ApiView::S3(_) => s3::goes_to(call, bucket, s3.region),
            _ => false,
        },
{
    s3::flow_stays_with_the_bucket(s3, bucket, replies, at);
    iam::policy_call_names_the_role(
        settings,
        region,
        role_name,
        "deckwatch-s3-access"@,
        iam::s3_policy(bucket),
    );
}

/// The database comes first: it is looked up by its identifier, and let connect to by that
/// identifier where RDS answered with no `DbiResourceId`.
pub proof fn database_goes_by_its_identifier(
    settings: PluginSettings,
    region: Seq<char>,
    role_name: Seq<char>,
    rds: config::RdsConfigView,
    replies: Seq<api::ReplyView>,
    at: int,
    info: rds::DbInstanceInfoView,
)
    requires
        0 <= at,
        rds::instance_step(region, rds, replies, at) == api::StepView::Done(
            Ok::<rds::DbInstanceInfoView, Seq<char>>(info),
            replies.len() as int,
        ),
        info.resource_id is None,
    ensures
        database_step(settings, region, role_name, rds, replies, replies.len() as int)
            == api::StepView::<Seq<char>>::Call(rds::describe_call(region, rds.identifier)),
        database_step(settings, region, role_name, rds, replies, at) == api::StepView::<
            Seq<char>,
        >::Call(iam::attach_rds_call(settings, region, role_name, rds.identifier, "*"@, region)),
{
}

/// Without a schedule nothing is backed up: once the role may connect, or may not, the
/// database is settled with the endpoint of its instance.
pub proof fn unscheduled_database_is_not_backed_up(
    settings: PluginSettings,
    region: Seq<char>,
    role_name: Seq<char>,
    rds: config::RdsConfigView,
    replies: Seq<api::ReplyView>,
    at: int,
    info: rds::DbInstanceInfoView,
    ensured: int,
)
    requires
        0 <= ensured < replies.len(),
        rds::instance_step(region, rds, replies, at) == api::StepView::Done(
            Ok::<rds::DbInstanceInfoView, Seq<char>>(info),
            ensured,
        ),
        rds.snapshot_schedule is None,
    ensures
        database_step(settings, region, role_name, rds, replies, at) == api::StepView::Done(
            Ok::<Seq<char>, Seq<char>>(info.endpoint_address),
            ensured + 1,
        ),
{
}

/// With a schedule the instance is backed up on it: the plans of the region are listed; a
/// plan that is not among them is created on the schedule and with the retention of the
/// instance; the instance is selected for it, under the role for backups. Whatever comes of
/// that, the database is settled with the endpoint of its instance.
pub proof fn scheduled_database_is_backed_up(
    settings: PluginSettings,
    region: Seq<char>,
    role_name: Seq<char>,
    rds: config::RdsConfigView,
    replies: Seq<api::ReplyView>,
    at: int,
    info: rds::DbInstanceInfoView,
    schedule: Seq<char>,
    json: Seq<char>,
    created: Seq<char>,
    id: Seq<char>,
    last: api::ReplyView,
)
    requires
        0 <= at < replies.len(),
        rds::instance_step(region, rds, replies, at) == api::StepView::Done(
            Ok::<rds::DbInstanceInfoView, Seq<char>>(info),
            replies.len() - 1,
        ),
        rds.snapshot_schedule == Some(schedule),
        !text::contains_text(
            json,
            "\"BackupPlanName\":\""@ + rds.identifier + "-backup\""@,
        ),
        extract::json_text(created, "BackupPlanId"@) == Some(id),
    ensures
        ({
            let listed = replies.push(Ok(json));
            let made = listed.push(Ok(created));
            let end = made.push(last);
            &&& database_step(settings, region, role_name, rds, replies, at) == api::StepView::<
                Seq<char>,
            >::Call(backup::get_call(region, "/backup/plans?MaxResults=100"@))
            &&& database_step(settings, region, role_name, rds, listed, at) == api::StepView::<
                Seq<char>,
            >::Call(
                backup::create_plan_call(
                    rds.identifier,
                    region,
                    schedule,
                    rds.snapshot_retention,
                ),
            )
            &&& database_step(settings, region, role_name, rds, made, at) == api::StepView::<
                Seq<char>,
            >::Call(
                backup::selection_call(rds.identifier, region, rds.backup_role_arn, id),
            )
            &&& database_step(settings, region, role_name, rds, end, at) == api::StepView::Done(
                Ok::<Seq<char>, Seq<char>>(info.endpoint_address),
                end.len() as int,
            )
        }),
{
    let listed = replies.push(Ok(json));
    let made = listed.push(Ok(created));
    let end = made.push(last);
    assert(forall|i: int|
        0 <= i < replies.len() ==> #[trigger] listed[i] == replies[i] && made[i] == replies[i]
            && end[i] == replies[i]);
    assert(rds::instance_step(region, rds, listed, at) == rds::instance_step(
        region,
        rds,
        replies,
        at,
    ));
    assert(made[at] == listed[at] && end[at] == listed[at]);
    assert(replies.len() >= at + 2 ==> made[at + 1] == listed[at + 1] && end[at + 1] == listed[at
        + 1]);
    assert(rds::instance_step(region, rds, made, at) == rds::instance_step(
        region,
        rds,
        replies,
        at,
    ));
    assert(rds::instance_step(region, rds, end, at) == rds::instance_step(
        region,
        rds,
        replies,
        at,
    ));
    backup::unlisted_plan_is_created(
        rds.identifier,
        region,
        schedule,
        rds.snapshot_retention,
        rds.backup_role_arn,
        replies,
        json,
        created,
        id,
    );
    assert(end[replies.len() as int] == made[replies.len() as int]);
    assert(end[replies.len() + 1int] == made[replies.len() + 1int]);
}

/// Without an endpoint there is no host, and without a bucket none is told; an instance
/// that has no endpoint yet is told as such.
pub proof fn nothing_is_told_that_is_not_there(
    ctx: context::PluginContextView,
    bucket_prefix: Seq<char>,
    role_arn: Seq<char>,
)
    ensures
        ({
            let known = plugin::static_result(ctx, bucket_prefix);
            let none = live_result(ctx, bucket_prefix, role_arn, None);
            let pending = live_result(ctx, bucket_prefix, role_arn, Some(Seq::empty()));
            &&& none.env_vars == known.env_vars && pending.env_vars == known.env_vars
            &&& none.outputs.contains_key("rds_endpoint"@) <==> known.outputs.contains_key(
                "rds_endpoint"@,
            )
            &&& config::config_of(ctx).s3 is None ==> (none.outputs.contains_key("s3_bucket"@)
                <==> known.outputs.contains_key("s3_bucket"@))
        }),
{
    reveal_strlit("role_arn");
    reveal_strlit("service_account_name");
    reveal_strlit("rds_endpoint");
    reveal_strlit("s3_bucket");
    assert("role_arn"@.len() == 8);
    assert("service_account_name"@.len() == 20);
    assert("rds_endpoint"@.len() == 12);
    assert("s3_bucket"@.len() == 9);
}

/// Once the role is there, what is configured follows in order: the database, then the
/// bucket, and with neither the flow ends.
pub proof fn what_is_configured_follows_the_role(
    settings: PluginSettings,
    ctx: context::PluginContextView,
    region: Seq<char>,
    bucket_prefix: Seq<char>,
    replies: Seq<api::ReplyView>,
    role_arn: Seq<char>,
)
    requires
        config::config_of(ctx).enabled,
        iam::ensure_role_step(
            settings,
            region,
            config::config_of(ctx).role_name,
            ctx.namespace,
            config::sa_name_for(ctx.deployment_name),
            replies,
            0,
        ) == api::StepView::Done(Ok::<Seq<char>, Seq<char>>(role_arn), replies.len() as int),
    ensures
        ({
            let cfg = config::config_of(ctx);
            let step = apply_step(settings, ctx, region, bucket_prefix, replies);
            &&& cfg.rds matches Some(rds) ==> step == ApplyStepView::Call(
                rds::describe_call(region, rds.identifier),
            )
            &&& cfg.rds is None && cfg.s3 is Some ==> step == ApplyStepView::Call(
                s3::create_bucket_call(
                    bucket_prefix + cfg.s3->0.bucket_name,
                    cfg.s3->0.region,
                ),
            )
            &&& cfg.rds is None && cfg.s3 is None ==> step == ApplyStepView::Done(
                live_result(ctx, bucket_prefix, role_arn, None),
            )
        }),
{
}

/// A database that failed holds up no bucket, and no endpoint is told of it.
pub proof fn failed_database_holds_nothing_up(
    settings: PluginSettings,
    ctx: context::PluginContextView,
    region: Seq<char>,
    bucket_prefix: Seq<char>,
    replies: Seq<api::ReplyView>,
    role_arn: Seq<char>,
    at: int,
    why: Seq<char>,
)
    requires
        config::config_of(ctx).enabled,
        config::config_of(ctx).rds is Some,
        iam::ensure_role_step(
            settings,
            region,
            config::config_of(ctx).role_name,
            ctx.namespace,
            config::sa_name_for(ctx.deployment_name),
            replies,
            0,
        ) == api::StepView::Done(Ok::<Seq<char>, Seq<char>>(role_arn), at),
        database_step(
            settings,
            region,
            config::config_of(ctx).role_name,
            config::config_of(ctx).rds->0,
            replies,
            at,
        ) == api::StepView::Done(Err::<Seq<char>, Seq<char>>(why), replies.len() as int),
    ensures
        ({
            let cfg = config::config_of(ctx);
            let step = apply_step(settings, ctx, region, bucket_prefix, replies);
            &&& cfg.s3 matches Some(s3) ==> step == ApplyStepView::Call(
                s3::create_bucket_call(bucket_prefix + s3.bucket_name, s3.region),
            )
            &&& cfg.s3 is None ==> step == ApplyStepView::Done(
                live_result(ctx, bucket_prefix, role_arn, None),
            )
        }),
{
}

/// The endpoint that the database was settled with is told, when the bucket is settled too.
pub proof fn settled_database_is_told(
    settings: PluginSettings,
    ctx: context::PluginContextView,
    region: Seq<char>,
    bucket_prefix: Seq<char>,
    replies: Seq<api::ReplyView>,
    role_arn: Seq<char>,
    at: int,
    endpoint: Seq<char>,
    next: int,
)
    requires
        config::config_of(ctx).enabled,
        config::config_of(ctx).rds is Some,
        iam::ensure_role_step(
            settings,
            region,
            config::config_of(ctx).role_name,
            ctx.namespace,
            config::sa_name_for(ctx.deployment_name),
            replies,
            0,
        ) == api::StepView::Done(Ok::<Seq<char>, Seq<char>>(role_arn), at),
        database_step(
            settings,
            region,
            config::config_of(ctx).role_name,
            config::config_of(ctx).rds->0,
            replies,
            at,
        ) == api::StepView::Done(Ok::<Seq<char>, Seq<char>>(endpoint), next),
    ensures
        apply_step(settings, ctx, region, bucket_prefix, replies) matches ApplyStepView::Done(
            result,
        ) ==> {
            &&& result.outputs.contains_key("rds_endpoint"@)
            &&& result.outputs["rds_endpoint"@] == endpoint
            &&& endpoint.len() > 0 ==> result.env_vars.contains(plugin::var("DB_HOST"@, endpoint))
        },
{
    endpoint_is_passed_on(ctx, bucket_prefix, role_arn, endpoint);
}

/// A database that could not be ensured is a failure, with why it could not.
pub proof fn failed_instance_fails_the_database(
    settings: PluginSettings,
    region: Seq<char>,
    role_name: Seq<char>,
    rds: config::RdsConfigView,
    replies: Seq<api::ReplyView>,
    at: int,
    why: Seq<char>,
    next: int,
)
    requires
        rds::instance_step(region, rds, replies, at) == api::StepView::Done(
            Err::<rds::DbInstanceInfoView, Seq<char>>(why),
            next,
        ),
    ensures
        database_step(settings, region, role_name, rds, replies, at) == api::StepView::Done(
            Err::<Seq<char>, Seq<char>>(why),
            next,
        ),
{
}

/// A bucket that could not be ensured is a failure, with why it could not. One that could is
/// settled, whatever comes back for the policy.
pub proof fn only_a_failed_bucket_fails(
    settings: PluginSettings,
    region: Seq<char>,
    role_name: Seq<char>,
    s3: config::S3ConfigView,
    bucket: Seq<char>,
    replies: Seq<api::ReplyView>,
    at: int,
    why: Seq<char>,
    next: int,
)
    requires
        0 <= next,
    ensures
        s3::ensure_bucket_step(s3, bucket, replies, at) == api::StepView::Done(
            Err::<(), Seq<char>>(why),
            next,
        ) ==> bucket_step(settings, region, role_name, s3, bucket, replies, at)
            == api::StepView::Done(Err::<(), Seq<char>>(why), next),
        s3::ensure_bucket_step(s3, bucket, replies, at) == api::StepView::Done(
            Ok::<(), Seq<char>>(()),
            next,
        ) && next < replies.len() ==> bucket_step(
            settings,
            region,
            role_name,
            s3,
            bucket,
            replies,
            at,
        ) == api::StepView::Done(Ok::<(), Seq<char>>(()), next + 1),
{
}

/// However applying the plugin ends, the bucket that is asked for is told under its full
/// name.
pub proof fn ended_apply_names_the_bucket(
    settings: PluginSettings,
    ctx: context::PluginContextView,
    region: Seq<char>,
    bucket_prefix: Seq<char>,
    replies: Seq<api::ReplyView>,
)
    requires
        ctx.flag("s3.deckwatch.io/enabled"@, false),
    ensures
        apply_step(settings, ctx, region, bucket_prefix, replies) matches ApplyStepView::Done(
            result,
        ) ==> result.env_vars.contains(
            plugin::var("S3_BUCKET"@, bucket_prefix + config::s3_config(ctx).bucket_name),
        ),
{
    plugin::bucket_is_described(ctx, bucket_prefix);
    let var = plugin::var("S3_BUCKET"@, bucket_prefix + config::s3_config(ctx).bucket_name);
    let known = plugin::static_result(ctx, bucket_prefix).env_vars;
    let i = choose|i: int| 0 <= i < known.len() && known[i] == var;
    assert forall|role_arn: Seq<char>, endpoint: Option<Seq<char>>|
        (#[trigger] live_result(ctx, bucket_prefix, role_arn, endpoint)).env_vars.contains(var) by {
        assert(live_result(ctx, bucket_prefix, role_arn, endpoint).env_vars[i] == var);
    }
}

} // verus!
