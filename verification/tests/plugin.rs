use deckwatch_plugin_aws::api::{Api, ApiCall, ApiError, Reply};
use deckwatch_plugin_aws::apply::ApplyStep;
use deckwatch_plugin_aws::config::{default_rds_identifier, engine_port, workload_sa_name};
use deckwatch_plugin_aws::context::{ann_bool, ann_str};
use deckwatch_plugin_aws::settings::ConfigValue;
use deckwatch_plugin_aws::{
    apply, apply_inner, metadata, rds_resource, s3_resource, AwsConfig, AwsCredentials,
    PluginContext, PluginResult, PluginSettings, StringMap,
};

fn ctx(annotations: &[(&str, &str)]) -> PluginContext {
    let mut map = StringMap::new();
    for (k, v) in annotations {
        map.insert(k.to_string(), v.to_string());
    }
    PluginContext {
        namespace: "production".into(),
        deployment_name: "my-app".into(),
        annotations: map,
    }
}

fn find_env<'a>(result: &'a PluginResult, name: &str) -> Option<&'a str> {
    result
        .env_vars
        .iter()
        .find(|e| e.name == name)
        .map(|e| e.value.as_str())
}

fn output(result: &PluginResult, key: &str) -> Option<String> {
    result.outputs.get(key).cloned()
}

fn unset() -> ConfigValue {
    Ok(None)
}

fn settings() -> PluginSettings {
    PluginSettings {
        aws_region: unset(),
        aws_default_region: unset(),
        identity_token: unset(),
        role_arn: unset(),
        access_key_id: unset(),
        secret_access_key: unset(),
        session_token: unset(),
        bucket_prefix: Ok(Some("myorg-".to_string())),
        iam_endpoint: unset(),
        iam_signing_region: unset(),
        oidc_provider_arn: unset(),
        role_path: unset(),
    }
}

fn creds() -> Result<AwsCredentials, String> {
    Ok(AwsCredentials {
        access_key: "AKID".into(),
        secret_key: "secret".into(),
        session_token: None,
        region: "us-east-1".into(),
    })
}

fn ok(body: &str) -> Reply {
    Ok(body.to_string())
}

fn err(text: &str) -> Reply {
    Err(ApiError {
        text: text.to_string(),
        code: None,
    })
}

/// What a call gives for an error answer in XML.
fn answered(api: Api, status: u16, code: &str, message: &str) -> Reply {
    api.read(
        status,
        format!(
            "<ErrorResponse><Error><Code>{code}</Code><Message>{message}</Message></Error></ErrorResponse>"
        ),
    )
}

fn action(call: &ApiCall) -> String {
    let body = call.body.clone().unwrap_or_default();
    match &call.api {
        Api::S3(op) => op.clone(),
        Api::BackupGet => "ListBackupPlans".to_string(),
        Api::BackupPost => call.path.clone(),
        _ => body
            .split('&')
            .next()
            .unwrap_or("")
            .trim_start_matches("Action=")
            .to_string(),
    }
}

/// Runs the flow with the given replies, and gives the actions that were asked for.
fn run(
    context: &PluginContext,
    replies: &[Reply],
) -> (Vec<String>, Option<PluginResult>) {
    let mut got: Vec<Reply> = vec![];
    let mut actions = vec![];
    loop {
        match apply(&settings(), context, &creds(), &got) {
            ApplyStep::Done(result) => return (actions, Some(result)),
            ApplyStep::Call(call) => {
                actions.push(action(&call));
                if got.len() == replies.len() {
                    return (actions, None);
                }
                let next = replies[got.len()].clone();
                got.push(next);
            }
        }
    }
}

fn full() -> PluginContext {
    ctx(&[
        ("aws.deckwatch.io/enabled", "true"),
        ("rds.deckwatch.io/enabled", "true"),
        ("rds.deckwatch.io/engine", "postgres"),
        ("rds.deckwatch.io/db-name", "api"),
        ("rds.deckwatch.io/iam-auth", "true"),
        ("rds.deckwatch.io/snapshot-schedule", "cron(0 3 * * ? *)"),
        ("rds.deckwatch.io/snapshot-retention", "14"),
        (
            "rds.deckwatch.io/backup-role-arn",
            "arn:aws:iam::123456789012:role/aws-backup",
        ),
        ("s3.deckwatch.io/enabled", "true"),
        ("s3.deckwatch.io/bucket-name", "uploads"),
        ("s3.deckwatch.io/versioning", "true"),
    ])
}

#[test]
fn no_annotations_returns_empty() {
    let result = apply_inner(&ctx(&[]), "");
    assert!(result.env_vars.is_empty());
    assert!(result.kubernetes_resources.is_empty());
    assert!(result.service_account_name.is_none());
}

#[test]
fn aws_enabled_alone_no_rds_no_s3() {
    let result = apply_inner(&ctx(&[("aws.deckwatch.io/enabled", "true")]), "");
    assert!(
        find_env(&result, "DB_PORT").is_none(),
        "no DB env vars expected"
    );
    assert!(
        find_env(&result, "S3_BUCKET").is_none(),
        "no S3 env vars expected"
    );
    assert!(result.service_account_name.is_some(), "SA must be created");
    assert!(
        !result.kubernetes_resources.is_empty(),
        "SA resource must be emitted"
    );
}

#[test]
fn rds_enabled_sets_db_env_vars() {
    let result = apply_inner(
        &ctx(&[
            ("rds.deckwatch.io/enabled", "true"),
            ("rds.deckwatch.io/engine", "postgres"),
            ("rds.deckwatch.io/db-name", "mydb"),
        ]),
        "",
    );
    assert_eq!(find_env(&result, "DB_PORT"), Some("5432"));
    assert_eq!(find_env(&result, "DB_NAME"), Some("mydb"));
    assert_eq!(find_env(&result, "DB_ENGINE"), Some("postgres"));
}

#[test]
fn s3_enabled_sets_s3_env_vars() {
    let result = apply_inner(
        &ctx(&[
            ("s3.deckwatch.io/enabled", "true"),
            ("s3.deckwatch.io/bucket-name", "assets"),
            ("s3.deckwatch.io/region", "us-west-2"),
        ]),
        "myorg-",
    );
    assert_eq!(find_env(&result, "S3_BUCKET"), Some("myorg-assets"));
    assert_eq!(find_env(&result, "S3_REGION"), Some("us-west-2"));
}

#[test]
fn both_enabled_all_env_vars() {
    let result = apply_inner(
        &ctx(&[
            ("rds.deckwatch.io/enabled", "true"),
            ("rds.deckwatch.io/engine", "postgres"),
            ("s3.deckwatch.io/enabled", "true"),
            ("s3.deckwatch.io/bucket-name", "data"),
        ]),
        "",
    );
    assert!(find_env(&result, "DB_PORT").is_some());
    assert!(find_env(&result, "DB_ENGINE").is_some());
    assert!(find_env(&result, "S3_BUCKET").is_some());
    assert!(find_env(&result, "S3_REGION").is_some());
}

#[test]
fn rds_iam_auth_sets_flag() {
    let result = apply_inner(
        &ctx(&[
            ("rds.deckwatch.io/enabled", "true"),
            ("rds.deckwatch.io/iam-auth", "true"),
        ]),
        "",
    );
    assert_eq!(find_env(&result, "DB_IAM_AUTH"), Some("true"));
    assert!(
        find_env(&result, "DB_PASSWORD").is_none(),
        "DB_PASSWORD must not be injected with IAM auth"
    );
}

#[test]
fn s3_prefix_applied() {
    let result = apply_inner(
        &ctx(&[
            ("s3.deckwatch.io/enabled", "true"),
            ("s3.deckwatch.io/bucket-name", "assets"),
        ]),
        "myorg-",
    );
    assert_eq!(find_env(&result, "S3_BUCKET"), Some("myorg-assets"));
}

#[test]
fn role_name_defaults() {
    let c = ctx(&[("aws.deckwatch.io/enabled", "true")]);
    let cfg = AwsConfig::from_context(&c);
    assert_eq!(cfg.role_name, "production-my-app-role");
}

#[test]
fn rds_identifier_defaults() {
    let c = ctx(&[("rds.deckwatch.io/enabled", "true")]);
    let cfg = AwsConfig::from_context(&c);
    let rds = cfg.rds.unwrap();
    assert_eq!(rds.identifier, "production-my-app-db");
    assert!(rds.identifier.len() <= 63, "identifier exceeds 63 chars");
}

#[test]
fn snapshot_config_parsed() {
    let c = ctx(&[
        ("rds.deckwatch.io/enabled", "true"),
        ("rds.deckwatch.io/snapshot-schedule", "cron(0 3 * * ? *)"),
        ("rds.deckwatch.io/snapshot-retention", "14"),
        (
            "rds.deckwatch.io/backup-role-arn",
            "arn:aws:iam::123456789012:role/backup-role",
        ),
    ]);
    let cfg = AwsConfig::from_context(&c);
    let rds = cfg.rds.unwrap();
    assert_eq!(rds.snapshot_schedule.as_deref(), Some("cron(0 3 * * ? *)"));
    assert_eq!(rds.snapshot_retention, 14);
    assert_eq!(
        rds.backup_role_arn,
        "arn:aws:iam::123456789012:role/backup-role"
    );
}

#[test]
fn service_account_in_kubernetes_resources() {
    let result = apply_inner(&ctx(&[("aws.deckwatch.io/enabled", "true")]), "");
    assert!(
        !result.kubernetes_resources.is_empty(),
        "kubernetes_resources must be non-empty"
    );
    let sa = &result.kubernetes_resources[0];
    assert_eq!(
        sa.get("kind").and_then(|k| k.as_str()),
        Some("ServiceAccount"),
        "first resource must be ServiceAccount"
    );
    assert!(
        result.service_account_name.is_some(),
        "service_account_name must be set"
    );
}

#[test]
fn mysql_port_3306() {
    let result = apply_inner(
        &ctx(&[
            ("rds.deckwatch.io/enabled", "true"),
            ("rds.deckwatch.io/engine", "mysql"),
        ]),
        "",
    );
    assert_eq!(find_env(&result, "DB_PORT"), Some("3306"));
}

#[test]
fn outputs_contains_role_arn_placeholder() {
    let result = apply_inner(&ctx(&[("aws.deckwatch.io/enabled", "true")]), "");
    assert!(
        result.outputs.contains_key("role_arn"),
        "outputs must always contain 'role_arn'"
    );
}

#[test]
fn rds_resource_has_required_fields() {
    let r = rds_resource();
    assert_eq!(r.id, "rds");
    assert!(r.singleton, "RDS must be singleton");
    assert!(
        !r.fields.is_empty(),
        "RDS resource must declare form fields"
    );
    assert!(
        !r.output_keys.is_empty(),
        "RDS resource must declare output env var keys"
    );
    assert!(
        r.output_keys.iter().any(|k| k == "DB_HOST"),
        "DB_HOST must be in output_keys"
    );
}

#[test]
fn s3_resource_has_required_fields() {
    let r = s3_resource();
    assert_eq!(r.id, "s3");
    assert!(r.singleton, "S3 must be singleton");
    assert!(!r.fields.is_empty(), "S3 resource must declare form fields");
    assert!(
        !r.output_keys.is_empty(),
        "S3 resource must declare output env var keys"
    );
    assert!(
        r.output_keys.iter().any(|k| k == "S3_BUCKET"),
        "S3_BUCKET must be in output_keys"
    );
}

// ── Configuration ─────────────────────────────────────────────────────────────

#[test]
fn flags_are_read() {
    let c = ctx(&[("a", "yes"), ("b", "0"), ("c", "maybe"), ("d", "TRUE")]);
    assert!(ann_bool(&c, "a", false));
    assert!(!ann_bool(&c, "b", true));
    assert!(ann_bool(&c, "c", true));
    assert!(!ann_bool(&c, "d", false));
    assert!(ann_bool(&c, "e", true));
    assert_eq!(ann_str(&c, "c"), "maybe");
    assert_eq!(ann_str(&c, "e"), "");
}

#[test]
fn any_annotation_of_a_sub_namespace_enables() {
    let enabled = |list: &[(&str, &str)]| AwsConfig::from_context(&ctx(list)).enabled;
    assert!(enabled(&[("rds.deckwatch.io/engine", "mysql")]));
    assert!(enabled(&[("s3.deckwatch.io/bucket-name", "b")]));
    assert!(!enabled(&[("rds.deckwatch.io/enabled", "false")]));
    assert!(!enabled(&[
        ("rds.deckwatch.io/enabled", "no"),
        ("rds.deckwatch.io/engine", "mysql"),
    ]));
    assert!(!enabled(&[("other.io/enabled", "true")]));
    let cfg = AwsConfig::from_context(&ctx(&[("rds.deckwatch.io/engine", "mysql")]));
    assert!(cfg.rds.is_none());
}

#[test]
fn rds_annotations_are_read() {
    let c = ctx(&[
        ("rds.deckwatch.io/enabled", "1"),
        ("rds.deckwatch.io/security-groups", " sg-abc , sg-def,"),
        ("rds.deckwatch.io/subnet-group", "net"),
        ("rds.deckwatch.io/multi-az", "yes"),
        ("rds.deckwatch.io/snapshot-retention", "-3"),
        ("rds.deckwatch.io/identifier", "mine"),
    ]);
    let rds = AwsConfig::from_context(&c).rds.unwrap();
    assert_eq!(rds.security_groups, vec!["sg-abc", "sg-def", ""]);
    assert_eq!(rds.subnet_group.as_deref(), Some("net"));
    assert!(rds.multi_az);
    assert_eq!(rds.snapshot_retention, -3);
    assert_eq!(rds.identifier, "mine");
    assert_eq!(rds.engine, "postgres");
    assert_eq!(rds.instance_class, "db.t3.micro");
    assert_eq!(rds.allocated_storage, "20");
    assert_eq!(rds.db_name, "app");
    assert_eq!(rds.region, "us-east-1");
    assert_eq!(rds.snapshot_schedule, None);
}

#[test]
fn retention_defaults_to_seven() {
    for value in ["", "x", "7.5", "99999999999999999999"] {
        let c = ctx(&[
            ("rds.deckwatch.io/enabled", "true"),
            ("rds.deckwatch.io/snapshot-retention", value),
        ]);
        assert_eq!(AwsConfig::from_context(&c).rds.unwrap().snapshot_retention, 7);
    }
}

#[test]
fn s3_annotations_are_read() {
    let days = |value: &str| {
        AwsConfig::from_context(&ctx(&[
            ("s3.deckwatch.io/enabled", "true"),
            ("s3.deckwatch.io/lifecycle-days", value),
        ]))
        .s3
        .unwrap()
        .lifecycle_days
    };
    assert_eq!(days("90"), Some(90));
    assert_eq!(days("+5"), Some(5));
    assert_eq!(days("0"), None);
    assert_eq!(days("-1"), None);
    assert_eq!(days("4294967296"), None);
    let s3 = AwsConfig::from_context(&ctx(&[("s3.deckwatch.io/enabled", "true")]))
        .s3
        .unwrap();
    assert!(s3.public_access_block);
    assert!(!s3.versioning);
    assert_eq!(s3.region, "us-east-1");
    assert_eq!(s3.bucket_name, "");
}

#[test]
fn identifiers_are_cleaned_and_shortened() {
    assert_eq!(default_rds_identifier("a_b", "c.d"), "a-b-c-d-db");
    assert_eq!(default_rds_identifier("é", "x"), "--x-db");
    let long = default_rds_identifier("n", &"d".repeat(80));
    assert_eq!(long.len(), 63);
    assert_eq!(long, format!("n-{}", "d".repeat(61)));
}

#[test]
fn ports_follow_the_engine() {
    assert_eq!(engine_port("mariadb"), 3306);
    assert_eq!(engine_port("aurora-mysql"), 3306);
    assert_eq!(engine_port("aurora-postgresql"), 5432);
    assert_eq!(engine_port(""), 5432);
    assert_eq!(workload_sa_name("web"), "web-aws-sa");
}

// ── The static result ─────────────────────────────────────────────────────────

#[test]
fn manifest_is_complete() {
    let result = apply_inner(&ctx(&[("aws.deckwatch.io/enabled", "true")]), "");
    assert_eq!(result.kubernetes_resources.len(), 1);
    let sa = &result.kubernetes_resources[0];
    assert_eq!(sa.get("apiVersion").unwrap().as_str(), Some("v1"));
    let meta = sa.get("metadata").unwrap();
    assert_eq!(meta.as_str(), None);
    assert_eq!(meta.get("name").unwrap().as_str(), Some("my-app-aws-sa"));
    assert_eq!(meta.get("namespace").unwrap().as_str(), Some("production"));
    let arn = meta.get("annotations").unwrap().get("eks.amazonaws.com/role-arn");
    assert_eq!(arn.unwrap().as_str(), Some(""));
    let labels = meta.get("labels").unwrap();
    assert_eq!(labels.get("managed-by").unwrap().as_str(), Some("deckwatch"));
    assert_eq!(labels.get("plugin").unwrap().as_str(), Some("deckwatch-plugin-aws"));
    assert!(sa.get("spec").is_none());
    assert!(sa.get("kind").unwrap().get("x").is_none());
    assert_eq!(result.service_account_name.as_deref(), Some("my-app-aws-sa"));
    assert_eq!(output(&result, "role_arn"), Some(String::new()));
    assert_eq!(
        output(&result, "service_account_name"),
        Some("my-app-aws-sa".to_string())
    );
}

#[test]
fn variables_come_in_order() {
    let result = apply_inner(&full(), "p-");
    let vars: Vec<(&str, &str)> = result
        .env_vars
        .iter()
        .map(|e| (e.name.as_str(), e.value.as_str()))
        .collect();
    assert_eq!(
        vars,
        vec![
            ("DB_ENGINE", "postgres"),
            ("DB_PORT", "5432"),
            ("DB_NAME", "api"),
            ("DB_IAM_AUTH", "true"),
            ("S3_BUCKET", "p-uploads"),
            ("S3_REGION", "us-east-1"),
            ("AWS_REGION", "us-east-1"),
        ]
    );
}

// ── The flow ──────────────────────────────────────────────────────────────────

#[test]
fn disabled_asks_for_nothing() {
    let (actions, result) = run(&ctx(&[]), &[]);
    assert!(actions.is_empty());
    assert!(result.unwrap().outputs.is_empty());
}

#[test]
fn without_credentials_the_result_is_static() {
    let step = apply(&settings(), &full(), &Err("none".to_string()), &vec![]);
    match step {
        ApplyStep::Call(_) => panic!("no call expected"),
        ApplyStep::Done(result) => {
            assert_eq!(find_env(&result, "S3_BUCKET"), Some("myorg-uploads"));
            assert_eq!(output(&result, "role_arn"), Some(String::new()));
        }
    }
}

#[test]
fn role_failure_falls_back() {
    let (actions, result) = run(&full(), &[err("IAM API error 403: no")]);
    assert_eq!(actions, vec!["GetRole"]);
    let result = result.unwrap();
    assert_eq!(output(&result, "role_arn"), Some(String::new()));
    assert_eq!(find_env(&result, "S3_BUCKET"), Some("myorg-uploads"));
}

#[test]
fn first_deployment_creates_everything() {
    let (actions, result) = run(
        &full(),
        &[
            answered(Api::Iam, 404, "NoSuchEntity", "The role cannot be found."),
            ok("<Arn>arn:aws:iam::1:role/r</Arn>"),
            answered(Api::Rds, 404, "DBInstanceNotFound", "DBInstance not found."),
            ok("<DBInstanceIdentifier>x</DBInstanceIdentifier><DbiResourceId>db-ABC</DbiResourceId>"),
            ok(""),
            ok("{\"BackupPlansList\":[]}"),
            ok("{\"BackupPlanId\":\"plan1\"}"),
            ok(""),
            ok(""),
            ok(""),
            ok(""),
            ok(""),
        ],
    );
    assert_eq!(
        actions,
        vec![
            "GetRole",
            "CreateRole",
            "DescribeDBInstances",
            "CreateDBInstance",
            "PutRolePolicy",
            "ListBackupPlans",
            "/backup/plans",
            "/backup/plans/plan1/selections",
            "CreateBucket",
            "PutBucketVersioning",
            "PutPublicAccessBlock",
            "PutRolePolicy",
        ]
    );
    let result = result.unwrap();
    assert_eq!(output(&result, "role_arn"), Some("arn:aws:iam::1:role/r".to_string()));
    assert_eq!(output(&result, "rds_endpoint"), Some(String::new()));
    assert_eq!(output(&result, "s3_bucket"), Some("myorg-uploads".to_string()));
    assert_eq!(find_env(&result, "DB_HOST"), None);
    let arn = result.kubernetes_resources[0]
        .get("metadata")
        .and_then(|m| m.get("annotations"))
        .and_then(|a| a.get("eks.amazonaws.com/role-arn"))
        .and_then(|a| a.as_str());
    assert_eq!(arn, Some("arn:aws:iam::1:role/r"));
    assert_eq!(result.kubernetes_resources.len(), 1);
}

#[test]
fn later_deployment_creates_nothing() {
    let (actions, result) = run(
        &full(),
        &[
            ok("<Arn>arn:aws:iam::1:role/r</Arn>"),
            err("IAM API error 403: update refused"),
            ok("<Address>db.example.com</Address><DbiResourceId>db-ABC</DbiResourceId>"),
            err("IAM API error 403: policy refused"),
            ok("{\"l\":[{\"BackupPlanId\":\"p9\",\"BackupPlanName\":\"production-my-app-db-backup\"}]}"),
            ok(""),
            answered(
                Api::S3("CreateBucket".to_string()),
                409,
                "BucketAlreadyOwnedByYou",
                "you already own it",
            ),
            err("refused"),
            err("refused"),
            err("refused"),
        ],
    );
    assert_eq!(
        actions,
        vec![
            "GetRole",
            "UpdateAssumeRolePolicy",
            "DescribeDBInstances",
            "PutRolePolicy",
            "ListBackupPlans",
            "/backup/plans/p9/selections",
            "CreateBucket",
            "PutBucketVersioning",
            "PutPublicAccessBlock",
            "PutRolePolicy",
        ]
    );
    let result = result.unwrap();
    assert_eq!(find_env(&result, "DB_HOST"), Some("db.example.com"));
    assert_eq!(output(&result, "rds_endpoint"), Some("db.example.com".to_string()));
    assert_eq!(result.env_vars.len(), 8);
    assert!(find_env(&result, "DB_PASSWORD").is_none());
}

#[test]
fn failed_database_and_bucket_leave_the_role() {
    let (actions, result) = run(
        &full(),
        &[
            ok("<Arn>arn</Arn>"),
            ok(""),
            err("RDS API error 500: down"),
            err("S3 CreateBucket error 403: denied"),
        ],
    );
    assert_eq!(
        actions,
        vec!["GetRole", "UpdateAssumeRolePolicy", "DescribeDBInstances", "CreateBucket"]
    );
    let result = result.unwrap();
    assert_eq!(output(&result, "role_arn"), Some("arn".to_string()));
    assert_eq!(output(&result, "rds_endpoint"), None);
    assert_eq!(output(&result, "s3_bucket"), Some("myorg-uploads".to_string()));
    assert_eq!(find_env(&result, "DB_HOST"), None);
}

#[test]
fn role_alone_takes_two_calls() {
    let (actions, result) = run(
        &ctx(&[("aws.deckwatch.io/enabled", "true")]),
        &[ok("<Arn>arn</Arn>"), ok("")],
    );
    assert_eq!(actions.len(), 2);
    let result = result.unwrap();
    assert_eq!(output(&result, "s3_bucket"), None);
    assert_eq!(output(&result, "rds_endpoint"), None);
}

#[test]
fn more_replies_change_nothing() {
    let context = ctx(&[("aws.deckwatch.io/enabled", "true")]);
    let ended = vec![ok("<Arn>arn</Arn>"), ok("")];
    let mut more = ended.clone();
    more.push(err("late"));
    let role = |replies: &Vec<Reply>| {
        match apply(&settings(), &context, &creds(), replies) {
            ApplyStep::Call(_) => panic!("the flow should have ended"),
            ApplyStep::Done(result) => output(&result, "role_arn"),
        }
    };
    assert_eq!(role(&ended), Some("arn".to_string()));
    assert_eq!(role(&more), role(&ended));
}

/// The policy that lets the role connect, after the instance answered as given.
fn connect_policy(replies: Vec<Reply>) -> String {
    match apply(&settings(), &full(), &creds(), &replies) {
        ApplyStep::Call(call) => call.body.unwrap_or_default(),
        ApplyStep::Done(_) => panic!("a call is expected"),
    }
}

#[test]
fn policy_names_the_resource_id() {
    let described = ok("<Address>h</Address><DbiResourceId>db-ABC</DbiResourceId>");
    let policy = connect_policy(vec![ok("<Arn>arn</Arn>"), ok(""), described]);
    assert!(policy.starts_with("Action=PutRolePolicy"));
    assert!(policy.contains("dbuser%3Adb-ABC%2F%2A"));
    let created = connect_policy(vec![
        ok("<Arn>arn</Arn>"),
        ok(""),
        answered(Api::Rds, 404, "DBInstanceNotFound", "DBInstance not found."),
        ok("<DbiResourceId>db-NEW</DbiResourceId>"),
    ]);
    assert!(created.contains("dbuser%3Adb-NEW%2F%2A"));
    let bare = connect_policy(vec![ok("<Arn>arn</Arn>"), ok(""), ok("<Address>h</Address>")]);
    assert!(bare.contains("dbuser%3Aproduction-my-app-db%2F%2A"));
}

// ── Metadata ──────────────────────────────────────────────────────────────────

#[test]
fn metadata_declares_the_plugin() {
    let m = metadata("1.2.3");
    assert_eq!(m.name, "aws");
    assert_eq!(m.version, "1.2.3");
    assert_eq!(
        m.provides,
        vec!["aws:iam-role", "aws:service-account", "aws:rds-connection", "aws:s3-bucket"]
    );
    assert!(m.depends_on.is_empty());
    assert!(m.optional_depends_on.is_empty());
    let keys: Vec<&str> = m.config_schema.iter().map(|f| f.key.as_str()).collect();
    assert_eq!(
        keys,
        vec![
            "AWS_REGION",
            "IAM_ENDPOINT",
            "IAM_SIGNING_REGION",
            "ROLE_PATH",
            "BUCKET_PREFIX",
            "AWS_ACCESS_KEY_ID",
            "AWS_SECRET_ACCESS_KEY",
        ]
    );
    assert!(m.config_schema[0].required);
    assert_eq!(m.config_schema[0].default.as_deref(), Some("us-east-1"));
    assert_eq!(m.config_schema[0].env_source.as_deref(), Some("AWS_REGION"));
    assert_eq!(m.config_schema[4].default.as_deref(), Some(""));
    assert_eq!(m.resources.len(), 2);
    assert_eq!(m.resources[0].fields[1].options, vec!["postgres", "mysql"]);
}
