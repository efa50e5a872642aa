//! What the plugin gives a deployment, as far as its annotations alone determine it.
use crate::config;
use crate::config::{engine_port, workload_sa_name, AwsConfig, RdsConfig, S3Config};
use crate::context;
use crate::context::PluginContext;
use crate::json;
use crate::json::JsonValue;
use crate::number;
use crate::number::to_decimal;
use crate::string_map::StringMap;
use crate::text;
use vstd::prelude::*;
use vstd::string::*;

verus! {

/// An environment variable with a literal value.
pub struct EnvVarSpec {
    pub name: String,
    pub value: String,
}

/// What an [`EnvVarSpec`] holds.
#[verifier::ext_equal]
pub struct EnvVarView {
    pub name: Seq<char>,
    pub value: Seq<char>,
}

impl View for EnvVarSpec {
    type V = EnvVarView;

    open spec fn view(&self) -> EnvVarView {
        EnvVarView { name: self.name@, value: self.value@ }
    }
}

/// The variable of that name with that value.
pub open spec fn var(name: Seq<char>, value: Seq<char>) -> EnvVarView {
    EnvVarView { name, value }
}

impl EnvVarSpec {
    /// The variable of that name with that value.
    pub fn value(name: &str, value: &str) -> (spec: EnvVarSpec)
        ensures
            spec@ == var(name@, value@),
    {
        EnvVarSpec { name: name.to_owned(), value: value.to_owned() }
    }
}

/// What the plugin gives a deployment.
pub struct PluginResult {
    pub env_vars: Vec<EnvVarSpec>,
    pub kubernetes_resources: Vec<JsonValue>,
    pub service_account_name: Option<String>,
    pub outputs: StringMap,
}

/// What a [`PluginResult`] holds.
#[verifier::ext_equal]
pub struct PluginResultView {
    pub env_vars: Seq<EnvVarView>,
    pub kubernetes_resources: Seq<json::JsonView>,
    pub service_account_name: Option<Seq<char>>,
    pub outputs: Map<Seq<char>, Seq<char>>,
}

/// What the variables of a list hold.
pub open spec fn vars(list: Seq<EnvVarSpec>) -> Seq<EnvVarView> {
    list.map_values(|e: EnvVarSpec| e@)
}

/// What the values of a list hold.
pub open spec fn values(list: Seq<JsonValue>) -> Seq<json::JsonView> {
    list.map_values(|v: JsonValue| v@)
}

impl View for PluginResult {
    type V = PluginResultView;

    open spec fn view(&self) -> PluginResultView {
        PluginResultView {
            env_vars: vars(self.env_vars@),
            kubernetes_resources: values(self.kubernetes_resources@),
            service_account_name: text::opt_text(self.service_account_name),
            outputs: self.outputs@,
        }
    }
}

impl PluginResultView {
    /// The result that gives nothing.
    pub open spec fn empty() -> PluginResultView {
        PluginResultView {
            env_vars: Seq::empty(),
            kubernetes_resources: Seq::empty(),
            service_account_name: None,
            outputs: Map::empty(),
        }
    }
}

impl Default for PluginResult {
    /// The result that gives nothing.
    fn default() -> (result: PluginResult)
        ensures
            result@ == PluginResultView::empty(),
    {
        let result = PluginResult {
            env_vars: Vec::new(),
            kubernetes_resources: Vec::new(),
            service_account_name: None,
            outputs: StringMap::new(),
        };
        assert(result@ =~= PluginResultView::empty());
        result
    }
}

/// Adds a variable.
pub(crate) fn push_var(list: &mut Vec<EnvVarSpec>, name: &str, value: &str)
    ensures
        vars(final(list)@) == vars(old(list)@).push(var(name@, value@)),
{
    list.push(EnvVarSpec::value(name, value));
    assert(vars(list@) =~= vars(old(list)@).push(var(name@, value@)));
}

/// The only value of a list.
pub(crate) fn only(value: JsonValue) -> (list: Vec<JsonValue>)
    ensures
        values(list@) == seq![value@],
{
    let mut list: Vec<JsonValue> = Vec::new();
    list.push(value);
    assert(values(list@) =~= seq![value@]);
    list
}

// ── ServiceAccount ────────────────────────────────────────────────────────────

/// The Kubernetes `ServiceAccount` manifest with an IRSA role annotation.
pub open spec fn service_account(
    sa_name: Seq<char>,
    role_arn: Seq<char>,
    namespace: Seq<char>,
) -> json::JsonView {
    let annotations = seq![("eks.amazonaws.com/role-arn"@, json::JsonView::Str(role_arn))];
    let labels = seq![
        ("managed-by"@, json::JsonView::Str("deckwatch"@)),
        ("plugin"@, json::JsonView::Str("deckwatch-plugin-aws"@)),
    ];
    let metadata = seq![
        ("name"@, json::JsonView::Str(sa_name)),
        ("namespace"@, json::JsonView::Str(namespace)),
        ("annotations"@, json::JsonView::Object(annotations)),
        ("labels"@, json::JsonView::Object(labels)),
    ];
    json::JsonView::Object(
        seq![
            ("apiVersion"@, json::JsonView::Str("v1"@)),
            ("kind"@, json::JsonView::Str("ServiceAccount"@)),
            ("metadata"@, json::JsonView::Object(metadata)),
        ],
    )
}

/// The Kubernetes `ServiceAccount` manifest with an IRSA role annotation.
///
/// `role_arn` is empty where it is not known yet.
pub fn service_account_yaml(sa_name: &str, role_arn: &str, namespace: &str) -> (manifest: JsonValue)
    ensures
        manifest@ == service_account(sa_name@, role_arn@, namespace@),
{
    let annotations = JsonValue::object().with(
        "eks.amazonaws.com/role-arn",
        JsonValue::string(role_arn),
    );
    let labels = JsonValue::object().with("managed-by", JsonValue::string("deckwatch")).with(
        "plugin",
        JsonValue::string("deckwatch-plugin-aws"),
    );
    assert(annotations@->Object_0 =~= seq![
        ("eks.amazonaws.com/role-arn"@, json::JsonView::Str(role_arn@)),
    ]);
    assert(labels@->Object_0 =~= seq![
        ("managed-by"@, json::JsonView::Str("deckwatch"@)),
        ("plugin"@, json::JsonView::Str("deckwatch-plugin-aws"@)),
    ]);
    let ghost (annotations_view, labels_view) = (annotations@, labels@);
    let metadata = JsonValue::object().with("name", JsonValue::string(sa_name)).with(
        "namespace",
        JsonValue::string(namespace),
    ).with("annotations", annotations).with("labels", labels);
    assert(metadata@->Object_0 =~= seq![
        ("name"@, json::JsonView::Str(sa_name@)),
        ("namespace"@, json::JsonView::Str(namespace@)),
        ("annotations"@, annotations_view),
        ("labels"@, labels_view),
    ]);
    let ghost metadata_view = metadata@;
    let manifest = JsonValue::object().with("apiVersion", JsonValue::string("v1")).with(
        "kind",
        JsonValue::string("ServiceAccount"),
    ).with("metadata", metadata);
    assert(manifest@->Object_0 =~= seq![
        ("apiVersion"@, json::JsonView::Str("v1"@)),
        ("kind"@, json::JsonView::Str("ServiceAccount"@)),
        ("metadata"@, metadata_view),
    ]);
    manifest
}

// ── Environment variables ─────────────────────────────────────────────────────

/// The variables of an RDS configuration, as far as it is known without the instance.
pub open spec fn rds_vars(rds: config::RdsConfigView) -> Seq<EnvVarView> {
    let known = seq![
        var("DB_ENGINE"@, rds.engine),
        var("DB_PORT"@, number::decimal(config::port_of(rds.engine))),
        var("DB_NAME"@, rds.db_name),
    ];
    if rds.iam_auth {
        known.push(var("DB_IAM_AUTH"@, "true"@))
    } else {
        known
    }
}

/// The variables of an S3 configuration.
pub open spec fn s3_vars(s3: config::S3ConfigView, bucket_prefix: Seq<char>) -> Seq<EnvVarView> {
    seq![
        var("S3_BUCKET"@, bucket_prefix + s3.bucket_name),
        var("S3_REGION"@, s3.region),
        var("AWS_REGION"@, s3.region),
    ]
}

/// The variables of a configuration.
pub open spec fn static_vars(cfg: config::AwsConfigView, bucket_prefix: Seq<char>) -> Seq<EnvVarView> {
    let database = match cfg.rds {
        Some(rds) => rds_vars(rds),
        None => Seq::empty(),
    };
    match cfg.s3 {
        Some(s3) => database + s3_vars(s3, bucket_prefix),
        None => database,
    }
}

/// The variables of an RDS configuration, as far as it is known without the instance.
fn rds_env(rds: &RdsConfig) -> (list: Vec<EnvVarSpec>)
    ensures
        vars(list@) == rds_vars(rds@),
{
    let mut list: Vec<EnvVarSpec> = Vec::new();
    assert(vars(list@) =~= Seq::<EnvVarView>::empty());
    let port = to_decimal(engine_port(rds.engine.as_str()) as u64);
    push_var(&mut list, "DB_ENGINE", rds.engine.as_str());
    push_var(&mut list, "DB_PORT", port.as_str());
    push_var(&mut list, "DB_NAME", rds.db_name.as_str());
    if rds.iam_auth {
        push_var(&mut list, "DB_IAM_AUTH", "true");
    }
    list
}

/// Adds the variables of an S3 configuration.
fn push_s3_env(list: &mut Vec<EnvVarSpec>, s3: &S3Config, bucket_prefix: &str)
    ensures
        vars(final(list)@) == vars(old(list)@) + s3_vars(s3@, bucket_prefix@),
{
    let full_bucket = bucket_prefix.to_owned().concat(s3.bucket_name.as_str());
    push_var(list, "S3_BUCKET", full_bucket.as_str());
    push_var(list, "S3_REGION", s3.region.as_str());
    push_var(list, "AWS_REGION", s3.region.as_str());
    assert(vars(list@) =~= vars(old(list)@) + s3_vars(s3@, bucket_prefix@));
}

// ── The static result ─────────────────────────────────────────────────────────

/// The result that the annotations alone determine.
pub open spec fn static_result(ctx: context::PluginContextView, bucket_prefix: Seq<char>) -> PluginResultView {
    let cfg = config::config_of(ctx);
    let sa = config::sa_name_for(ctx.deployment_name);
    if !cfg.enabled {
        PluginResultView::empty()
    } else {
        PluginResultView {
            env_vars: static_vars(cfg, bucket_prefix),
            kubernetes_resources: seq![service_account(sa, Seq::empty(), ctx.namespace)],
            service_account_name: Some(sa),
            outputs: Map::empty().insert("role_arn"@, Seq::empty()).insert(
                "service_account_name"@,
                sa,
            ),
        }
    }
}

/// The result that the annotations alone determine, without any call to AWS.
///
/// The role ARN is unknown here: the `ServiceAccount` and the `role_arn` output hold
/// an empty placeholder, so that downstream plugins can detect whether this plugin
/// ran. `bucket_prefix` is the value of the `BUCKET_PREFIX` configuration key.
pub fn apply_inner(ctx: &PluginContext, bucket_prefix: &str) -> (result: PluginResult)
    ensures
        result@ == static_result(ctx@, bucket_prefix@),
{
    let cfg = AwsConfig::from_context(ctx);
    if !cfg.enabled {
        return PluginResult::default();
    }
    let sa = workload_sa_name(ctx.deployment_name.as_str());
    let mut env_vars: Vec<EnvVarSpec> = match &cfg.rds {
        Some(rds) => rds_env(rds),
        None => Vec::new(),
    };
    assert(vars(env_vars@) =~= match cfg@.rds {
        Some(rds) => rds_vars(rds),
        None => Seq::empty(),
    });
    if let Some(s3) = &cfg.s3 {
        push_s3_env(&mut env_vars, s3, bucket_prefix);
    }
    let mut outputs = StringMap::new();
    outputs.insert("role_arn".to_owned(), String::new());
    outputs.insert("service_account_name".to_owned(), sa.clone());
    let manifest = service_account_yaml(sa.as_str(), "", ctx.namespace.as_str());
    proof {
        reveal_strlit("");
        assert(""@ =~= Seq::<char>::empty());
    }
    PluginResult {
        env_vars,
        kubernetes_resources: only(manifest),
        service_account_name: Some(sa),
        outputs,
    }
}

// ── Laws ──────────────────────────────────────────────────────────────────────

/// A plugin that is not enabled gives nothing.
pub proof fn disabled_gives_nothing(ctx: context::PluginContextView, bucket_prefix: Seq<char>)
    requires
        !config::config_of(ctx).enabled,
    ensures
        static_result(ctx, bucket_prefix) == PluginResultView::empty(),
{
}

/// The manifest's kind, its name and namespace, and the role that it is annotated
/// with are where Kubernetes looks for them.
pub proof fn service_account_members(
    sa_name: Seq<char>,
    role_arn: Seq<char>,
    namespace: Seq<char>,
)
    ensures
        ({
            let manifest = service_account(sa_name, role_arn, namespace);
            let metadata = manifest.member("metadata"@);
            &&& manifest.member("apiVersion"@) == Some(json::JsonView::Str("v1"@))
            &&& manifest.member("kind"@) == Some(json::JsonView::Str("ServiceAccount"@))
            &&& metadata is Some
            &&& metadata->0.member("name"@) == Some(json::JsonView::Str(sa_name))
            &&& metadata->0.member("namespace"@) == Some(json::JsonView::Str(namespace))
            &&& metadata->0.member("annotations"@) is Some
            &&& metadata->0.member("annotations"@)->0.member("eks.amazonaws.com/role-arn"@) == Some(
                json::JsonView::Str(role_arn),
            )
        }),
{
    reveal_strlit("apiVersion");
    reveal_strlit("kind");
    reveal_strlit("metadata");
    reveal_strlit("name");
    reveal_strlit("namespace");
    reveal_strlit("annotations");
    reveal_with_fuel(json::member_from, 4);
    assert("kind"@.len() != "apiVersion"@.len());
    assert("metadata"@.len() != "apiVersion"@.len());
    assert("metadata"@.len() != "kind"@.len());
    assert("namespace"@.len() != "name"@.len());
    assert("annotations"@.len() != "name"@.len());
    assert("annotations"@.len() != "namespace"@.len());
}

/// A plugin that is enabled gives one `ServiceAccount`, names it, and says so in its
/// outputs, with a placeholder for the role.
pub proof fn enabled_gives_a_service_account(
    ctx: context::PluginContextView,
    bucket_prefix: Seq<char>,
)
    requires
        config::config_of(ctx).enabled,
    ensures
        ({
            let result = static_result(ctx, bucket_prefix);
            let sa = config::sa_name_for(ctx.deployment_name);
            &&& result.kubernetes_resources.len() == 1
            &&& result.kubernetes_resources[0].member("kind"@) == Some(
                json::JsonView::Str("ServiceAccount"@),
            )
            &&& result.service_account_name == Some(sa)
            &&& result.outputs.contains_key("role_arn"@)
            &&& result.outputs["role_arn"@].len() == 0
            &&& result.outputs["service_account_name"@] == sa
        }),
{
    service_account_members(
        config::sa_name_for(ctx.deployment_name),
        Seq::empty(),
        ctx.namespace,
    );
    reveal_strlit("role_arn");
    reveal_strlit("service_account_name");
    assert("role_arn"@.len() != "service_account_name"@.len());
}

/// The name is that of a variable that the plugin sets.
pub open spec fn known_name(name: Seq<char>) -> bool {
    ||| name == "DB_ENGINE"@
    ||| name == "DB_PORT"@
    ||| name == "DB_NAME"@
    ||| name == "DB_IAM_AUTH"@
    ||| name == "DB_HOST"@
    ||| name == "S3_BUCKET"@
    ||| name == "S3_REGION"@
    ||| name == "AWS_REGION"@
}

/// No password is among the variables that the plugin sets.
pub(crate) proof fn password_is_not_known()
    ensures
        !known_name("DB_PASSWORD"@),
{
    reveal_strlit("DB_PASSWORD");
    reveal_strlit("DB_ENGINE");
    reveal_strlit("DB_PORT");
    reveal_strlit("DB_NAME");
    reveal_strlit("DB_IAM_AUTH");
    reveal_strlit("DB_HOST");
    reveal_strlit("S3_BUCKET");
    reveal_strlit("S3_REGION");
    reveal_strlit("AWS_REGION");
    assert("DB_PASSWORD"@.len() == 11);
    assert("DB_ENGINE"@.len() == 9);
    assert("DB_PORT"@.len() == 7);
    assert("DB_NAME"@.len() == 7);
    assert("DB_HOST"@.len() == 7);
    assert("S3_BUCKET"@.len() == 9);
    assert("S3_REGION"@.len() == 9);
    assert("AWS_REGION"@.len() == 10);
    assert("DB_IAM_AUTH"@[3] == 'I');
    assert("DB_PASSWORD"@[3] == 'P');
}

/// Only known variables are set: no password is injected, with IAM authentication or
/// without it.
pub proof fn static_variables_are_known(
    ctx: context::PluginContextView,
    bucket_prefix: Seq<char>,
)
    ensures
        forall|i: int|
            0 <= i < static_result(ctx, bucket_prefix).env_vars.len() ==> known_name(
                (#[trigger] static_result(ctx, bucket_prefix).env_vars[i]).name,
            ) && static_result(ctx, bucket_prefix).env_vars[i].name != "DB_PASSWORD"@,
{
    password_is_not_known();
    let cfg = config::config_of(ctx);
    if cfg.rds is Some {
        let list = rds_vars(cfg.rds->0);
        assert(forall|i: int| 0 <= i < list.len() ==> known_name((#[trigger] list[i]).name));
    }
    if cfg.s3 is Some {
        let list = s3_vars(cfg.s3->0, bucket_prefix);
        assert(forall|i: int| 0 <= i < list.len() ==> known_name((#[trigger] list[i]).name));
    }
}

/// A database that is asked for is described by its engine, the engine's port and its
/// name, and by a flag where it takes IAM authentication.
pub proof fn database_is_described(ctx: context::PluginContextView, bucket_prefix: Seq<char>)
    requires
        ctx.flag("rds.deckwatch.io/enabled"@, false),
    ensures
        ({
            let rds = config::rds_config(ctx);
            let list = static_result(ctx, bucket_prefix).env_vars;
            &&& list.contains(var("DB_ENGINE"@, rds.engine))
            &&& list.contains(var("DB_PORT"@, number::decimal(config::port_of(rds.engine))))
            &&& list.contains(var("DB_NAME"@, rds.db_name))
            &&& rds.iam_auth ==> list.contains(var("DB_IAM_AUTH"@, "true"@))
        }),
{
    let rds = config::rds_config(ctx);
    let list = static_result(ctx, bucket_prefix).env_vars;
    assert(list[0] == var("DB_ENGINE"@, rds.engine));
    assert(list[1] == var("DB_PORT"@, number::decimal(config::port_of(rds.engine))));
    assert(list[2] == var("DB_NAME"@, rds.db_name));
    assert(rds.iam_auth ==> list[3] == var("DB_IAM_AUTH"@, "true"@));
}

/// A bucket that is asked for is described by its full name, the prefix before its own,
/// and by its region.
pub proof fn bucket_is_described(ctx: context::PluginContextView, bucket_prefix: Seq<char>)
    requires
        ctx.flag("s3.deckwatch.io/enabled"@, false),
    ensures
        ({
            let s3 = config::s3_config(ctx);
            let list = static_result(ctx, bucket_prefix).env_vars;
            &&& list.contains(var("S3_BUCKET"@, bucket_prefix + s3.bucket_name))
            &&& list.contains(var("S3_REGION"@, s3.region))
            &&& list.contains(var("AWS_REGION"@, s3.region))
        }),
{
    let s3 = config::s3_config(ctx);
    let list = static_result(ctx, bucket_prefix).env_vars;
    let n = list.len() - 3;
    assert(list[n] == var("S3_BUCKET"@, bucket_prefix + s3.bucket_name));
    assert(list[n + 1] == var("S3_REGION"@, s3.region));
    assert(list[n + 2] == var("AWS_REGION"@, s3.region));
}

/// The manifest of an enabled plugin is that of the workload's own account, in the
/// workload's namespace, and is labelled as the plugin's.
pub proof fn service_account_is_of_the_workload(
    ctx: context::PluginContextView,
    bucket_prefix: Seq<char>,
)
    requires
        config::config_of(ctx).enabled,
    ensures
        ({
            let sa = config::sa_name_for(ctx.deployment_name);
            let metadata =
                static_result(ctx, bucket_prefix).kubernetes_resources[0].member("metadata"@);
            &&& metadata is Some
            &&& metadata->0.member("name"@) == Some(json::JsonView::Str(sa))
            &&& metadata->0.member("namespace"@) == Some(json::JsonView::Str(ctx.namespace))
            &&& metadata->0.member("labels"@) is Some
            &&& metadata->0.member("labels"@)->0.member("managed-by"@) == Some(
                json::JsonView::Str("deckwatch"@),
            )
            &&& metadata->0.member("labels"@)->0.member("plugin"@) == Some(
                json::JsonView::Str("deckwatch-plugin-aws"@),
            )
        }),
{
    let sa = config::sa_name_for(ctx.deployment_name);
    service_account_members(sa, Seq::empty(), ctx.namespace);
    reveal_strlit("apiVersion");
    reveal_strlit("kind");
    reveal_strlit("metadata");
    reveal_strlit("name");
    reveal_strlit("namespace");
    reveal_strlit("annotations");
    reveal_strlit("labels");
    reveal_strlit("managed-by");
    reveal_strlit("plugin");
    reveal_with_fuel(json::member_from, 5);
    assert("kind"@.len() == 4 && "apiVersion"@.len() == 10 && "metadata"@.len() == 8);
    assert("name"@.len() == 4 && "namespace"@.len() == 9 && "annotations"@.len() == 11
        && "labels"@.len() == 6);
    assert("managed-by"@.len() == 10 && "plugin"@.len() == 6);
}

/// A variable is set only for what there is: one of the database where there is a database,
/// one of the bucket where there is a bucket, and that for IAM authentication where the
/// database takes it.
pub proof fn variables_are_of_what_there_is(
    ctx: context::PluginContextView,
    bucket_prefix: Seq<char>,
    i: int,
)
    requires
        0 <= i < static_result(ctx, bucket_prefix).env_vars.len(),
    ensures
        ({
            let cfg = config::config_of(ctx);
            let name = static_result(ctx, bucket_prefix).env_vars[i].name;
            &&& "DB_"@.is_prefix_of(name) ==> cfg.rds is Some
            &&& !"DB_"@.is_prefix_of(name) ==> cfg.s3 is Some
            &&& name == "DB_IAM_AUTH"@ ==> cfg.rds is Some && cfg.rds->0.iam_auth
            &&& name != "DB_HOST"@
        }),
        static_result(ctx, bucket_prefix).env_vars.len() <= (if config::config_of(ctx).rds is Some {
            4int
        } else {
            0
        }) + (if config::config_of(ctx).s3 is Some {
            3int
        } else {
            0
        }),
{
    reveal_strlit("DB_");
    reveal_strlit("DB_ENGINE");
    reveal_strlit("DB_PORT");
    reveal_strlit("DB_NAME");
    reveal_strlit("DB_IAM_AUTH");
    reveal_strlit("DB_HOST");
    reveal_strlit("S3_BUCKET");
    reveal_strlit("S3_REGION");
    reveal_strlit("AWS_REGION");
    assert("DB_ENGINE"@[0] == 'D' && "DB_PORT"@[0] == 'D' && "DB_NAME"@[0] == 'D');
    assert("S3_BUCKET"@[0] == 'S' && "S3_REGION"@[0] == 'S' && "AWS_REGION"@[0] == 'A');
    assert("DB_ENGINE"@[3] == 'E' && "DB_PORT"@[3] == 'P' && "DB_NAME"@[3] == 'N'
        && "DB_HOST"@[3] == 'H' && "DB_IAM_AUTH"@[3] == 'I');
    let cfg = config::config_of(ctx);
    let name = static_result(ctx, bucket_prefix).env_vars[i].name;
    let n: int = match cfg.rds {
        Some(rds) => rds_vars(rds).len() as int,
        None => 0,
    };
    if i < n {
        let list = rds_vars(cfg.rds->0);
        assert(static_result(ctx, bucket_prefix).env_vars[i] == list[i]);
        assert(i == 0 || i == 1 || i == 2 || i == 3);
    } else {
        let list = s3_vars(cfg.s3->0, bucket_prefix);
        assert(static_result(ctx, bucket_prefix).env_vars[i] == list[i - n]);
        assert(i - n == 0 || i - n == 1 || i - n == 2);
        if "DB_"@.is_prefix_of(name) {
            assert(name.subrange(0, 3)[0] == 'D');
        }
    }
}

} // verus!
