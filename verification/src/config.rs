//! What the annotations of a deployment ask for.
use crate::context;
use crate::context::{ann_bool, ann_filled, ann_or, ann_str, ann_under, PluginContext};
use crate::number;
use crate::number::{parse_i64, parse_u32};
use crate::split;
use crate::split::{split, trim, Separator};
use crate::text;
use crate::text::{chars_of, same_text};
use vstd::prelude::*;
use vstd::string::*;
use vstd::utf8::*;

verus! {

broadcast use crate::text::texts_push;

/// Top-level parsed configuration for the plugin.
pub struct AwsConfig {
    /// True where the master opt-in `aws.deckwatch.io/enabled` is set, or implied: any
    /// annotation of the RDS or the S3 sub-namespace implies it, unless that
    /// sub-namespace is switched off.
    pub enabled: bool,
    /// IAM role name to create. Defaults to `<namespace>-<deployment>-role`.
    pub role_name: String,
    /// RDS instance configuration, present when `rds.deckwatch.io/enabled=true`.
    pub rds: Option<RdsConfig>,
    /// S3 bucket configuration, present when `s3.deckwatch.io/enabled=true`.
    pub s3: Option<S3Config>,
}

/// Parsed RDS configuration from `rds.deckwatch.io/*` annotations.
pub struct RdsConfig {
    /// RDS DB instance identifier. Defaults to `<namespace>-<deployment>-db` (max 63 chars).
    pub identifier: String,
    /// Database engine: `"postgres"` (default) or `"mysql"`.
    pub engine: String,
    pub instance_class: String,
    /// Allocated storage in GiB.
    pub allocated_storage: String,
    /// Initial database name. Defaults to `"app"`.
    pub db_name: String,
    pub multi_az: bool,
    pub subnet_group: Option<String>,
    pub security_groups: Vec<String>,
    /// Use IAM database authentication instead of password auth.
    pub iam_auth: bool,
    /// AWS EventBridge cron expression for AWS Backup. `None` if not set.
    pub snapshot_schedule: Option<String>,
    /// AWS Backup retention days. Defaults to 7.
    pub snapshot_retention: i64,
    /// IAM role ARN granted to the AWS Backup service (`backup.amazonaws.com`).
    pub backup_role_arn: String,
    /// AWS region for this RDS instance. Defaults to `"us-east-1"`.
    pub region: String,
}

/// Parsed S3 configuration from `s3.deckwatch.io/*` annotations.
pub struct S3Config {
    /// Bucket name suffix. The full name is `{BUCKET_PREFIX}{bucket_name}`.
    pub bucket_name: String,
    /// AWS region for the bucket. Defaults to `"us-east-1"`.
    pub region: String,
    pub versioning: bool,
    /// Block all public access (default: true).
    pub public_access_block: bool,
    /// Expire objects after N days. `None` means no lifecycle rule.
    pub lifecycle_days: Option<u32>,
}

/// What an [`AwsConfig`] holds.
#[verifier::ext_equal]
pub struct AwsConfigView {
    pub enabled: bool,
    pub role_name: Seq<char>,
    pub rds: Option<RdsConfigView>,
    pub s3: Option<S3ConfigView>,
}

/// What an [`RdsConfig`] holds.
#[verifier::ext_equal]
pub struct RdsConfigView {
    pub identifier: Seq<char>,
    pub engine: Seq<char>,
    pub instance_class: Seq<char>,
    pub allocated_storage: Seq<char>,
    pub db_name: Seq<char>,
    pub multi_az: bool,
    pub subnet_group: Option<Seq<char>>,
    pub security_groups: Seq<Seq<char>>,
    pub iam_auth: bool,
    pub snapshot_schedule: Option<Seq<char>>,
    pub snapshot_retention: int,
    pub backup_role_arn: Seq<char>,
    pub region: Seq<char>,
}

/// What an [`S3Config`] holds.
#[verifier::ext_equal]
pub struct S3ConfigView {
    pub bucket_name: Seq<char>,
    pub region: Seq<char>,
    pub versioning: bool,
    pub public_access_block: bool,
    pub lifecycle_days: Option<nat>,
}

impl View for RdsConfig {
    type V = RdsConfigView;

    open spec fn view(&self) -> RdsConfigView {
        RdsConfigView {
            identifier: self.identifier@,
            engine: self.engine@,
            instance_class: self.instance_class@,
            allocated_storage: self.allocated_storage@,
            db_name: self.db_name@,
            multi_az: self.multi_az,
            subnet_group: text::opt_text(self.subnet_group),
            security_groups: text::texts(self.security_groups@),
            iam_auth: self.iam_auth,
            snapshot_schedule: text::opt_text(self.snapshot_schedule),
            snapshot_retention: self.snapshot_retention as int,
            backup_role_arn: self.backup_role_arn@,
            region: self.region@,
        }
    }
}

impl View for S3Config {
    type V = S3ConfigView;

    open spec fn view(&self) -> S3ConfigView {
        S3ConfigView {
            bucket_name: self.bucket_name@,
            region: self.region@,
            versioning: self.versioning,
            public_access_block: self.public_access_block,
            lifecycle_days: match self.lifecycle_days {
                Some(days) => Some(days as nat),
                None => None,
            },
        }
    }
}

impl View for AwsConfig {
    type V = AwsConfigView;

    open spec fn view(&self) -> AwsConfigView {
        AwsConfigView {
            enabled: self.enabled,
            role_name: self.role_name@,
            rds: match self.rds {
                Some(rds) => Some(rds@),
                None => None,
            },
            s3: match self.s3 {
                Some(s3) => Some(s3@),
                None => None,
            },
        }
    }
}

// ── Names ─────────────────────────────────────────────────────────────────────

/// `<namespace>-<deployment>-role`.
pub open spec fn role_name_for(namespace: Seq<char>, deployment: Seq<char>) -> Seq<char> {
    namespace + "-"@ + deployment + "-role"@
}

/// `<namespace>-<deployment>-role`.
pub fn default_role_name(namespace: &str, deployment: &str) -> (name: String)
    ensures
        name@ == role_name_for(namespace@, deployment@),
{
    namespace.to_owned().concat("-").concat(deployment).concat("-role")
}

/// A character that an RDS identifier may hold: an ASCII letter or digit, or a hyphen.
pub open spec fn identifier_char(c: char) -> bool {
    ||| 'a' <= c <= 'z'
    ||| 'A' <= c <= 'Z'
    ||| '0' <= c <= '9'
    ||| c == '-'
}

/// The text with a hyphen in the place of each character that an RDS identifier may
/// not hold.
pub open spec fn sanitised(s: Seq<char>) -> Seq<char> {
    s.map_values(
        |c: char|
            if identifier_char(c) {
                c
            } else {
                '-'
            },
    )
}

/// At most the first 63 characters of `s`.
pub open spec fn shortened(s: Seq<char>) -> Seq<char> {
    if s.len() > 63 {
        s.take(63)
    } else {
        s
    }
}

/// `<namespace>-<deployment>-db`, made into an RDS identifier.
pub open spec fn rds_identifier_for(namespace: Seq<char>, deployment: Seq<char>) -> Seq<char> {
    shortened(sanitised(namespace + "-"@ + deployment + "-db"@))
}

/// An RDS-safe identifier (≤ 63 ASCII chars, alphanumeric + hyphens).
pub fn default_rds_identifier(namespace: &str, deployment: &str) -> (identifier: String)
    ensures
        identifier@ == rds_identifier_for(namespace@, deployment@),
        identifier@.len() <= 63,
        forall|i: int| 0 <= i < identifier@.len() ==> identifier_char(#[trigger] identifier@[i]),
{
    let raw = namespace.to_owned().concat("-").concat(deployment).concat("-db");
    let chars = chars_of(raw.as_str());
    let ghost clean = sanitised(raw@);
    let len: usize = if chars.len() > 63 {
        63
    } else {
        chars.len()
    };
    let mut identifier = String::new();
    let mut i: usize = 0;
    while i < len
        invariant
            i <= len <= chars@.len(),
            chars@ == raw@,
            clean == sanitised(raw@),
            identifier@ =~= clean.take(i as int),
        decreases len - i,
    {
        let c = chars[i];
        if ('a' <= c && c <= 'z') || ('A' <= c && c <= 'Z') || ('0' <= c && c <= '9') || c == '-' {
            identifier.push(c);
        } else {
            identifier.push('-');
        }
        i += 1;
    }
    assert(identifier@ =~= shortened(clean));
    identifier
}

/// `<deployment>-aws-sa`.
pub open spec fn sa_name_for(deployment: Seq<char>) -> Seq<char> {
    deployment + "-aws-sa"@
}

/// The name of a workload's service account: `<deployment>-aws-sa`.
pub fn workload_sa_name(deployment: &str) -> (name: String)
    ensures
        name@ == sa_name_for(deployment@),
{
    deployment.to_owned().concat("-aws-sa")
}

/// The port that a database engine listens on.
pub open spec fn port_of(engine: Seq<char>) -> nat {
    if engine == "mysql"@ || engine == "mariadb"@ || engine == "aurora-mysql"@ {
        3306
    } else {
        5432
    }
}

/// The port that a database engine listens on.
pub fn engine_port(engine: &str) -> (port: u16)
    ensures
        port == port_of(engine@),
{
    if same_text(engine, "mysql") || same_text(engine, "mariadb") || same_text(
        engine,
        "aurora-mysql",
    ) {
        3306
    } else {
        5432
    }
}

// ── Parsing ───────────────────────────────────────────────────────────────────

/// The items of a comma-separated list, without the white space around them. An
/// empty text is a list without items.
pub open spec fn comma_list(s: Seq<char>) -> Seq<Seq<char>> {
    if s.len() == 0 {
        Seq::empty()
    } else {
        split::parts(s, Separator::Char(',')).map_values(|item: Seq<char>| split::trimmed(item))
    }
}

/// The number of days in a text, where it is a positive 32-bit number.
pub open spec fn positive_days(s: Seq<char>) -> Option<nat> {
    match number::parsed_unsigned(s, u32::MAX as nat) {
        Some(days) if days > 0 => Some(days),
        _ => None,
    }
}

/// The RDS configuration in the annotations.
pub open spec fn rds_config(ctx: context::PluginContextView) -> RdsConfigView {
    RdsConfigView {
        identifier: ctx.string_or(
            "rds.deckwatch.io/identifier"@,
            rds_identifier_for(ctx.namespace, ctx.deployment_name),
        ),
        engine: ctx.string_or("rds.deckwatch.io/engine"@, "postgres"@),
        instance_class: ctx.string_or("rds.deckwatch.io/instance-class"@, "db.t3.micro"@),
        allocated_storage: ctx.string_or("rds.deckwatch.io/allocated-storage"@, "20"@),
        db_name: ctx.string_or("rds.deckwatch.io/db-name"@, "app"@),
        multi_az: ctx.flag("rds.deckwatch.io/multi-az"@, false),
        subnet_group: ctx.filled("rds.deckwatch.io/subnet-group"@),
        security_groups: comma_list(ctx.string("rds.deckwatch.io/security-groups"@)),
        iam_auth: ctx.flag("rds.deckwatch.io/iam-auth"@, false),
        snapshot_schedule: ctx.filled("rds.deckwatch.io/snapshot-schedule"@),
        snapshot_retention: match number::parsed_i64(
            ctx.string("rds.deckwatch.io/snapshot-retention"@),
        ) {
            Some(days) => days,
            None => 7,
        },
        backup_role_arn: ctx.string("rds.deckwatch.io/backup-role-arn"@),
        region: ctx.string_or("rds.deckwatch.io/region"@, "us-east-1"@),
    }
}

/// The S3 configuration in the annotations.
pub open spec fn s3_config(ctx: context::PluginContextView) -> S3ConfigView {
    S3ConfigView {
        bucket_name: ctx.string("s3.deckwatch.io/bucket-name"@),
        region: ctx.string_or("s3.deckwatch.io/region"@, "us-east-1"@),
        versioning: ctx.flag("s3.deckwatch.io/versioning"@, false),
        public_access_block: ctx.flag("s3.deckwatch.io/public-access-block"@, true),
        lifecycle_days: positive_days(ctx.string("s3.deckwatch.io/lifecycle-days"@)),
    }
}

/// The configuration in the annotations. The plugin is enabled by its own switch, and
/// by any annotation of the RDS or the S3 sub-namespace, unless that sub-namespace is
/// switched off.
pub open spec fn config_of(ctx: context::PluginContextView) -> AwsConfigView {
    let rds_enabled = ctx.flag("rds.deckwatch.io/enabled"@, false);
    let s3_enabled = ctx.flag("s3.deckwatch.io/enabled"@, false);
    AwsConfigView {
        enabled: ctx.flag("aws.deckwatch.io/enabled"@, false) || ctx.flag(
            "rds.deckwatch.io/enabled"@,
            ctx.under("rds.deckwatch.io/"@),
        ) || ctx.flag("s3.deckwatch.io/enabled"@, ctx.under("s3.deckwatch.io/"@)),
        role_name: ctx.string_or(
            "aws.deckwatch.io/role-name"@,
            role_name_for(ctx.namespace, ctx.deployment_name),
        ),
        rds: if rds_enabled {
            Some(rds_config(ctx))
        } else {
            None
        },
        s3: if s3_enabled {
            Some(s3_config(ctx))
        } else {
            None
        },
    }
}

/// The items of a comma-separated list, without the white space around them.
fn parse_comma_list(s: &str) -> (items: Vec<String>)
    ensures
        text::texts(items@) == comma_list(s@),
{
    let mut items: Vec<String> = Vec::new();
    assert(text::texts(items@) =~= Seq::<Seq<char>>::empty());
    if s.is_empty() {
        return items;
    }
    let raw = split(s, Separator::Char(','));
    let ghost all = comma_list(s@);
    assert(all.len() == raw@.len());
    assert(all.take(0) =~= Seq::<Seq<char>>::empty());
    let mut i: usize = 0;
    while i < raw.len()
        invariant
            i <= raw@.len(),
            all == text::texts(raw@).map_values(|item: Seq<char>| split::trimmed(item)),
            text::texts(items@) == all.take(i as int),
        decreases raw@.len() - i,
    {
        items.push(trim(raw[i].as_str()));
        assert(all.take(i + 1) =~= all.take(i as int).push(all[i as int]));
        i += 1;
    }
    assert(all.take(all.len() as int) =~= all);
    items
}

/// The RDS configuration in the annotations.
fn parse_rds(ctx: &PluginContext) -> (rds: RdsConfig)
    ensures
        rds@ == rds_config(ctx@),
{
    let default_identifier = default_rds_identifier(
        ctx.namespace.as_str(),
        ctx.deployment_name.as_str(),
    );
    let retention: i64 = match parse_i64(
        ann_str(ctx, "rds.deckwatch.io/snapshot-retention").as_str(),
    ) {
        Some(days) => days,
        None => 7,
    };
    RdsConfig {
        identifier: ann_or(ctx, "rds.deckwatch.io/identifier", default_identifier.as_str()),
        engine: ann_or(ctx, "rds.deckwatch.io/engine", "postgres"),
        instance_class: ann_or(ctx, "rds.deckwatch.io/instance-class", "db.t3.micro"),
        allocated_storage: ann_or(ctx, "rds.deckwatch.io/allocated-storage", "20"),
        db_name: ann_or(ctx, "rds.deckwatch.io/db-name", "app"),
        multi_az: ann_bool(ctx, "rds.deckwatch.io/multi-az", false),
        subnet_group: ann_filled(ctx, "rds.deckwatch.io/subnet-group"),
        security_groups: parse_comma_list(
            ann_str(ctx, "rds.deckwatch.io/security-groups").as_str(),
        ),
        iam_auth: ann_bool(ctx, "rds.deckwatch.io/iam-auth", false),
        snapshot_schedule: ann_filled(ctx, "rds.deckwatch.io/snapshot-schedule"),
        snapshot_retention: retention,
        backup_role_arn: ann_str(ctx, "rds.deckwatch.io/backup-role-arn"),
        region: ann_or(ctx, "rds.deckwatch.io/region", "us-east-1"),
    }
}

/// The S3 configuration in the annotations.
fn parse_s3(ctx: &PluginContext) -> (s3: S3Config)
    ensures
        s3@ == s3_config(ctx@),
{
    let lifecycle_days: Option<u32> = match parse_u32(
        ann_str(ctx, "s3.deckwatch.io/lifecycle-days").as_str(),
    ) {
        Some(days) => if days > 0 {
            Some(days)
        } else {
            None
        },
        None => None,
    };
    S3Config {
        bucket_name: ann_str(ctx, "s3.deckwatch.io/bucket-name"),
        region: ann_or(ctx, "s3.deckwatch.io/region", "us-east-1"),
        versioning: ann_bool(ctx, "s3.deckwatch.io/versioning", false),
        public_access_block: ann_bool(ctx, "s3.deckwatch.io/public-access-block", true),
        lifecycle_days,
    }
}

impl AwsConfig {
    /// The configuration in the annotations of a deployment.
    pub fn from_context(ctx: &PluginContext) -> (config: AwsConfig)
        ensures
            config@ == config_of(ctx@),
    {
        let rds_enabled = ann_bool(ctx, "rds.deckwatch.io/enabled", false);
        let s3_enabled = ann_bool(ctx, "s3.deckwatch.io/enabled", false);
        let rds_implies = ann_bool(
            ctx,
            "rds.deckwatch.io/enabled",
            ann_under(ctx, "rds.deckwatch.io/"),
        );
        let s3_implies = ann_bool(
            ctx,
            "s3.deckwatch.io/enabled",
            ann_under(ctx, "s3.deckwatch.io/"),
        );
        let aws_enabled = ann_bool(ctx, "aws.deckwatch.io/enabled", false) || rds_implies
            || s3_implies;
        let default_name = default_role_name(ctx.namespace.as_str(), ctx.deployment_name.as_str());
        let role_name = ann_or(ctx, "aws.deckwatch.io/role-name", default_name.as_str());
        let rds = if rds_enabled {
            Some(parse_rds(ctx))
        } else {
            None
        };
        let s3 = if s3_enabled {
            Some(parse_s3(ctx))
        } else {
            None
        };
        AwsConfig { enabled: aws_enabled, role_name, rds, s3 }
    }
}

// ── Laws ──────────────────────────────────────────────────────────────────────

/// A default identifier is always one that RDS takes: at most 63 characters, each an
/// ASCII letter, a digit or a hyphen, and never empty.
pub proof fn default_identifier_is_safe(namespace: Seq<char>, deployment: Seq<char>)
    ensures
        0 < rds_identifier_for(namespace, deployment).len() <= 63,
        is_ascii_chars(rds_identifier_for(namespace, deployment)),
        forall|i: int|
            0 <= i < rds_identifier_for(namespace, deployment).len() ==> identifier_char(
                #[trigger] rds_identifier_for(namespace, deployment)[i],
            ),
{
    reveal_strlit("-");
}

/// Names that RDS takes as they are stay as they are:
/// `<namespace>-<deployment>-db`.
pub proof fn default_identifier_keeps_clean_names(namespace: Seq<char>, deployment: Seq<char>)
    requires
        namespace.len() + deployment.len() + 4 <= 63,
        forall|i: int| 0 <= i < namespace.len() ==> identifier_char(#[trigger] namespace[i]),
        forall|i: int| 0 <= i < deployment.len() ==> identifier_char(#[trigger] deployment[i]),
    ensures
        rds_identifier_for(namespace, deployment) == namespace + "-"@ + deployment + "-db"@,
{
    reveal_strlit("-");
    reveal_strlit("-db");
    let raw = namespace + "-"@ + deployment + "-db"@;
    assert forall|i: int| 0 <= i < raw.len() implies identifier_char(#[trigger] raw[i]) by {
        let n = namespace.len() as int;
        let d = deployment.len() as int;
        if i < n {
            assert(raw[i] == namespace[i]);
        } else if n + 1 <= i < n + 1 + d {
            assert(raw[i] == deployment[i - n - 1]);
        }
    }
    assert(sanitised(raw) =~= raw);
}

/// A sub-namespace that is enabled enables the plugin, and has its configuration; one
/// that is not has none.
pub proof fn sub_namespace_implies_enabled(ctx: context::PluginContextView)
    ensures
        config_of(ctx).rds is Some ==> config_of(ctx).enabled,
        config_of(ctx).s3 is Some ==> config_of(ctx).enabled,
        config_of(ctx).rds is Some <==> ctx.flag("rds.deckwatch.io/enabled"@, false),
        config_of(ctx).s3 is Some <==> ctx.flag("s3.deckwatch.io/enabled"@, false),
{
}

/// Any annotation of a sub-namespace enables the plugin, unless the sub-namespace is
/// switched off.
pub proof fn any_annotation_implies_enabled(ctx: context::PluginContextView, key: Seq<char>)
    requires
        ctx.annotations.contains_key(key),
        ({
            ||| "rds.deckwatch.io/"@.is_prefix_of(key) && ctx.flag("rds.deckwatch.io/enabled"@, true)
            ||| "s3.deckwatch.io/"@.is_prefix_of(key) && ctx.flag("s3.deckwatch.io/enabled"@, true)
        }),
    ensures
        config_of(ctx).enabled,
{
}

/// Where no annotation is one of the plugin's, the plugin is not enabled.
pub proof fn unannotated_is_disabled(ctx: context::PluginContextView)
    requires
        !ctx.under("aws.deckwatch.io/"@),
        !ctx.under("rds.deckwatch.io/"@),
        !ctx.under("s3.deckwatch.io/"@),
    ensures
        !config_of(ctx).enabled,
{
    reveal_strlit("aws.deckwatch.io/");
    reveal_strlit("rds.deckwatch.io/");
    reveal_strlit("s3.deckwatch.io/");
    reveal_strlit("aws.deckwatch.io/enabled");
    reveal_strlit("rds.deckwatch.io/enabled");
    reveal_strlit("s3.deckwatch.io/enabled");
    assert("aws.deckwatch.io/"@.is_prefix_of("aws.deckwatch.io/enabled"@));
    assert("rds.deckwatch.io/"@.is_prefix_of("rds.deckwatch.io/enabled"@));
    assert("s3.deckwatch.io/"@.is_prefix_of("s3.deckwatch.io/enabled"@));
}

/// Public access to a bucket stays blocked unless an annotation says otherwise.
pub proof fn public_access_is_blocked_by_default(ctx: context::PluginContextView)
    ensures
        !s3_config(ctx).public_access_block ==> {
            let v = ctx.annotation("s3.deckwatch.io/public-access-block"@);
            v == Some("false"@) || v == Some("no"@) || v == Some("0"@)
        },
{
}

/// The role is the one that the annotation names, and `<namespace>-<deployment>-role`
/// where it names none.
pub proof fn role_is_the_named_one(ctx: context::PluginContextView)
    ensures
        context::told(
            ctx,
            "aws.deckwatch.io/role-name"@,
            ctx.namespace + "-"@ + ctx.deployment_name + "-role"@,
            config_of(ctx).role_name,
        ),
{
}

/// The plugin's own switch enables it, and so does a sub-namespace's.
pub proof fn switches_enable(ctx: context::PluginContextView, key: Seq<char>)
    requires
        key == "aws.deckwatch.io/enabled"@ || key == "rds.deckwatch.io/enabled"@ || key
            == "s3.deckwatch.io/enabled"@,
        ctx.annotations.contains_key(key),
        ctx.annotations[key] == "true"@ || ctx.annotations[key] == "yes"@ || ctx.annotations[key]
            == "1"@,
    ensures
        config_of(ctx).enabled,
        key == "rds.deckwatch.io/enabled"@ ==> config_of(ctx).rds is Some,
        key == "s3.deckwatch.io/enabled"@ ==> config_of(ctx).s3 is Some,
{
    context::annotations_are_read(ctx, key, Seq::empty(), false);
}

/// A plugin that is enabled was asked to be: by its own switch, by a sub-namespace's, or
/// by another annotation of a sub-namespace.
pub proof fn enabling_needs_an_annotation(ctx: context::PluginContextView)
    requires
        config_of(ctx).enabled,
    ensures
        ({
            ||| context::switched(ctx, "aws.deckwatch.io/enabled"@, false, true)
            ||| ctx.under("rds.deckwatch.io/"@) && context::switched(
                ctx,
                "rds.deckwatch.io/enabled"@,
                true,
                true,
            )
            ||| ctx.under("s3.deckwatch.io/"@) && context::switched(
                ctx,
                "s3.deckwatch.io/enabled"@,
                true,
                true,
            )
        }),
{
    context::annotations_are_read(ctx, "aws.deckwatch.io/enabled"@, Seq::empty(), false);
    context::annotations_are_read(ctx, "rds.deckwatch.io/enabled"@, Seq::empty(), true);
    context::annotations_are_read(ctx, "s3.deckwatch.io/enabled"@, Seq::empty(), true);
    if ctx.annotations.contains_key("rds.deckwatch.io/enabled"@) {
        prefix_of_switches();
        assert(ctx.under("rds.deckwatch.io/"@));
    }
    if ctx.annotations.contains_key("s3.deckwatch.io/enabled"@) {
        prefix_of_switches();
        assert(ctx.under("s3.deckwatch.io/"@));
    }
}

/// The switch of a sub-namespace is one of its annotations.
proof fn prefix_of_switches()
    ensures
        "rds.deckwatch.io/"@.is_prefix_of("rds.deckwatch.io/enabled"@),
        "s3.deckwatch.io/"@.is_prefix_of("s3.deckwatch.io/enabled"@),
{
    reveal_strlit("rds.deckwatch.io/");
    reveal_strlit("s3.deckwatch.io/");
    reveal_strlit("rds.deckwatch.io/enabled");
    reveal_strlit("s3.deckwatch.io/enabled");
    assert("rds.deckwatch.io/"@ =~= "rds.deckwatch.io/enabled"@.subrange(0, 17));
    assert("s3.deckwatch.io/"@ =~= "s3.deckwatch.io/enabled"@.subrange(0, 16));
}

/// Each text and each flag of a database comes from its own annotation, with its own
/// default.
pub proof fn database_is_as_annotated(ctx: context::PluginContextView)
    requires
        config_of(ctx).rds is Some,
    ensures
        ({
            let rds = config_of(ctx).rds->0;
            let clean = rds_identifier_for(ctx.namespace, ctx.deployment_name);
            &&& context::told(ctx, "rds.deckwatch.io/identifier"@, clean, rds.identifier)
            &&& context::told(ctx, "rds.deckwatch.io/engine"@, "postgres"@, rds.engine)
            &&& context::told(
                ctx,
                "rds.deckwatch.io/instance-class"@,
                "db.t3.micro"@,
                rds.instance_class,
            )
            &&& context::told(
                ctx,
                "rds.deckwatch.io/allocated-storage"@,
                "20"@,
                rds.allocated_storage,
            )
            &&& context::told(ctx, "rds.deckwatch.io/db-name"@, "app"@, rds.db_name)
            &&& context::told(ctx, "rds.deckwatch.io/region"@, "us-east-1"@, rds.region)
            &&& context::told(
                ctx,
                "rds.deckwatch.io/backup-role-arn"@,
                Seq::empty(),
                rds.backup_role_arn,
            )
            &&& context::switched(ctx, "rds.deckwatch.io/multi-az"@, false, rds.multi_az)
            &&& context::switched(ctx, "rds.deckwatch.io/iam-auth"@, false, rds.iam_auth)
        }),
{
    context::annotations_are_read(ctx, "rds.deckwatch.io/multi-az"@, Seq::empty(), false);
    context::annotations_are_read(ctx, "rds.deckwatch.io/iam-auth"@, Seq::empty(), false);
    let key = "rds.deckwatch.io/backup-role-arn"@;
    if ctx.annotations.contains_key(key) && ctx.annotations[key].len() == 0 {
        assert(ctx.annotations[key] =~= Seq::<char>::empty());
    }
}

/// The optional texts of a database are there if and only if their annotations say
/// something, and say that.
pub proof fn optional_texts_are_as_annotated(ctx: context::PluginContextView)
    requires
        config_of(ctx).rds is Some,
    ensures
        ({
            let rds = config_of(ctx).rds->0;
            let subnet = "rds.deckwatch.io/subnet-group"@;
            let schedule = "rds.deckwatch.io/snapshot-schedule"@;
            &&& rds.subnet_group == if ctx.annotations.contains_key(subnet)
                && ctx.annotations[subnet].len() > 0 {
                Some(ctx.annotations[subnet])
            } else {
                None
            }
            &&& rds.snapshot_schedule == if ctx.annotations.contains_key(schedule)
                && ctx.annotations[schedule].len() > 0 {
                Some(ctx.annotations[schedule])
            } else {
                None
            }
        }),
{
}

/// The retention is the number that the annotation writes, and seven days where it
/// writes none.
pub proof fn retention_is_as_annotated(ctx: context::PluginContextView, days: int)
    requires
        config_of(ctx).rds is Some,
        i64::MIN <= days <= i64::MAX,
    ensures
        ({
            let rds = config_of(ctx).rds->0;
            let key = "rds.deckwatch.io/snapshot-retention"@;
            &&& ctx.annotations.contains_key(key) && ctx.annotations[key] == number::signed_decimal(
                days,
            ) ==> rds.snapshot_retention == days
            &&& !ctx.annotations.contains_key(key) ==> rds.snapshot_retention == 7
        }),
{
    number::parse_reads_signed_decimal_back(days);
}

/// The security groups are those that the annotation lists, between commas, without the
/// blanks around them; without the annotation there are none.
pub proof fn groups_are_as_annotated(ctx: context::PluginContextView, listed: Seq<Seq<char>>)
    requires
        config_of(ctx).rds is Some,
        listed.len() > 0,
        forall|i: int| 0 <= i < listed.len() ==> !(#[trigger] listed[i]).contains(','),
    ensures
        ({
            let groups = config_of(ctx).rds->0.security_groups;
            let key = "rds.deckwatch.io/security-groups"@;
            let all = text::joined(listed, seq![',']);
            &&& ctx.annotations.contains_key(key) && ctx.annotations[key] == all && all.len() > 0
                ==> groups.len() == listed.len() && forall|i: int|
                0 <= i < listed.len() ==> #[trigger] groups[i] == split::trimmed(listed[i])
            &&& !ctx.annotations.contains_key(key) ==> groups.len() == 0
        }),
{
    split::joined_parts_are_found(listed, ',');
}

/// Each text and each flag of a bucket comes from its own annotation, with its own
/// default.
pub proof fn bucket_is_as_annotated(ctx: context::PluginContextView)
    requires
        config_of(ctx).s3 is Some,
    ensures
        ({
            let s3 = config_of(ctx).s3->0;
            &&& context::told(ctx, "s3.deckwatch.io/bucket-name"@, Seq::empty(), s3.bucket_name)
            &&& context::told(ctx, "s3.deckwatch.io/region"@, "us-east-1"@, s3.region)
            &&& context::switched(ctx, "s3.deckwatch.io/versioning"@, false, s3.versioning)
            &&& context::switched(
                ctx,
                "s3.deckwatch.io/public-access-block"@,
                true,
                s3.public_access_block,
            )
        }),
{
    context::annotations_are_read(ctx, "s3.deckwatch.io/versioning"@, Seq::empty(), false);
    context::annotations_are_read(ctx, "s3.deckwatch.io/public-access-block"@, Seq::empty(), true);
    let key = "s3.deckwatch.io/bucket-name"@;
    if ctx.annotations.contains_key(key) && ctx.annotations[key].len() == 0 {
        assert(ctx.annotations[key] =~= Seq::<char>::empty());
    }
}

/// Objects expire after the days that the annotation writes; no days, or none written,
/// is no expiry.
pub proof fn expiry_is_as_annotated(ctx: context::PluginContextView, days: nat)
    requires
        config_of(ctx).s3 is Some,
        days <= u32::MAX,
    ensures
        ({
            let s3 = config_of(ctx).s3->0;
            let key = "s3.deckwatch.io/lifecycle-days"@;
            &&& ctx.annotations.contains_key(key) && ctx.annotations[key] == number::decimal(days)
                ==> s3.lifecycle_days == if days > 0 {
                Some(days)
            } else {
                None
            }
            &&& !ctx.annotations.contains_key(key) ==> s3.lifecycle_days is None
        }),
{
    number::parse_reads_decimal_back(days, u32::MAX as nat);
}

/// The service account is named after the deployment, and told apart by it.
pub proof fn service_accounts_are_told_apart(a: Seq<char>, b: Seq<char>)
    ensures
        a.is_prefix_of(sa_name_for(a)),
        "-aws-sa"@.is_suffix_of(sa_name_for(a)),
        sa_name_for(a).len() == a.len() + 7,
        sa_name_for(a) == sa_name_for(b) ==> a == b,
{
    reveal_strlit("-aws-sa");
    let (x, y) = (sa_name_for(a), sa_name_for(b));
    assert(x.subrange(0, a.len() as int) =~= a);
    assert(y.subrange(0, b.len() as int) =~= b);
    assert(x.subrange(a.len() as int, x.len() as int) =~= "-aws-sa"@);
}

/// The MySQL family listens on 3306, every other engine on 5432.
pub proof fn ports_follow_the_family(engine: Seq<char>)
    ensures
        port_of(engine) == 3306 || port_of(engine) == 5432,
        port_of(engine) == 3306 <==> engine == "mysql"@ || engine == "mariadb"@ || engine
            == "aurora-mysql"@,
{
}

/// A default identifier begins like the name that it is made from, with a hyphen for
/// each character that RDS refuses.
pub proof fn default_identifier_follows_the_name(
    namespace: Seq<char>,
    deployment: Seq<char>,
    i: int,
)
    requires
        0 <= i < rds_identifier_for(namespace, deployment).len(),
    ensures
        ({
            let name = namespace + "-"@ + deployment + "-db"@;
            let c = rds_identifier_for(namespace, deployment)[i];
            &&& i < name.len()
            &&& identifier_char(name[i]) ==> c == name[i]
            &&& !identifier_char(name[i]) ==> c == '-'
            &&& rds_identifier_for(namespace, deployment).len() == if name.len() > 63 {
                63
            } else {
                name.len()
            }
        }),
{
}

} // verus!
