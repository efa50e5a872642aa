use deckwatch_plugin_aws::api::{Api, ApiCall, ApiError, Reply, Step};
use deckwatch_plugin_aws::backup::{
    backup_get, backup_post, configure_backup, find_plan_id_in_list,
};
use deckwatch_plugin_aws::extract::{extract_json_str, extract_tag};
use deckwatch_plugin_aws::rds::{create_db_instance, ensure_instance};
use deckwatch_plugin_aws::s3::{create_bucket, ensure_bucket, put_bucket_lifecycle, s3_put};
use deckwatch_plugin_aws::secretsmanager::{ensure_secret, schedule_delete_secret};
use deckwatch_plugin_aws::sqs::{
    arn_from_queue_url, canonical_queue_name, delete_queue, ensure_queue, SqsConfig,
};
use deckwatch_plugin_aws::{RdsConfig, S3Config};

fn ok(body: &str) -> Reply {
    Ok(body.to_string())
}

fn err(text: &str) -> Reply {
    Err(ApiError {
        text: text.to_string(),
        code: None,
    })
}

/// What a call gives for an error answer in XML.
fn answered(api: Api, status: u16, code: &str, message: &str) -> Reply {
    api.read(
        status,
        format!(
            "<ErrorResponse><Error><Code>{code}</Code><Message>{message}</Message></Error></ErrorResponse>"
        ),
    )
}

fn replies(list: &[Reply]) -> Vec<Reply> {
    list.to_vec()
}

fn call<T>(step: Step<T>) -> ApiCall {
    match step {
        Step::Call(call) => call,
        Step::Done(_, _) => panic!("a call is expected"),
    }
}

fn done<T>(step: Step<T>) -> (Result<T, String>, usize) {
    match step {
        Step::Call(_) => panic!("the flow should have ended"),
        Step::Done(result, next) => (result, next),
    }
}

fn body<T>(step: Step<T>) -> String {
    call(step).body.unwrap_or_default()
}

// ── Backup ────────────────────────────────────────────────────────────────────

#[test]
fn find_plan_id_finds_matching_plan() {
    let json = r#"{"BackupPlansList":[{"BackupPlanId":"aaa","BackupPlanName":"other-backup"},{"BackupPlanId":"bbb111","BackupPlanName":"mydb-backup","VersionId":"v1"}]}"#;
    assert_eq!(
        find_plan_id_in_list(json, "mydb-backup"),
        Some("bbb111".to_string())
    );
}

#[test]
fn find_plan_id_returns_none_when_not_found() {
    let json =
        r#"{"BackupPlansList":[{"BackupPlanId":"aaa","BackupPlanName":"other-backup"}]}"#;
    assert_eq!(find_plan_id_in_list(json, "mydb-backup"), None);
}

#[test]
fn find_plan_id_empty_list() {
    let json = r#"{"BackupPlansList":[]}"#;
    assert_eq!(find_plan_id_in_list(json, "mydb-backup"), None);
}

#[test]
fn extract_json_str_basic() {
    let json = r#"{"BackupPlanId":"abc123","Other":"val"}"#;
    assert_eq!(
        extract_json_str(json, "BackupPlanId"),
        Some("abc123".to_string())
    );
}

#[test]
fn plan_id_may_follow_the_name() {
    let json = r#"[{"BackupPlanId":"a","BackupPlanName":"x"},{"BackupPlanName":"y","BackupPlanId":"b"}]"#;
    assert_eq!(find_plan_id_in_list(json, "y"), Some("b".to_string()));
    assert_eq!(
        find_plan_id_in_list(r#""BackupPlanName":"y","BackupPlanId":"b""#, "y"),
        Some("b".to_string())
    );
    assert_eq!(
        find_plan_id_in_list(r#"{"BackupPlanId":"a"},{"BackupPlanName":"y"}"#, "y"),
        None
    );
}

#[test]
fn backup_paths_are_split() {
    let get = backup_get("r", "/backup/plans?MaxResults=100");
    assert_eq!(get.path, "/backup/plans");
    assert_eq!(get.query, "MaxResults=100");
    assert_eq!(get.url, "https://backup.r.amazonaws.com/backup/plans?MaxResults=100");
    assert_eq!(get.body, None);
    assert_eq!(get.content_type, None);
    let bare = backup_get("r", "/p");
    assert_eq!(bare.path, "/p");
    assert_eq!(bare.query, "");
    let post = backup_post("r", "/p", "b".to_string());
    assert_eq!(post.method, "POST");
    assert_eq!(post.url, "https://backup.r.amazonaws.com/p");
    assert_eq!(post.content_type.as_deref(), Some("application/x-amz-json-1.1"));
}

#[test]
fn backup_is_configured_from_nothing() {
    let arn = "arn:aws:iam::123456789012:role/backup";
    let run = |list: &[Reply]| {
        configure_backup("db", "us-east-1", "cron(0 3 * * ? *)", 0, arn, &replies(list), 0)
    };
    assert_eq!(call(run(&[])).method, "GET");
    let plan = call(run(&[ok("{}")]));
    assert_eq!(plan.path, "/backup/plans");
    assert_eq!(
        plan.body.as_deref(),
        Some(
            r#"{"BackupPlanData":{"BackupPlanName":"db-backup","Rules":[{"RuleName":"scheduled-snapshot","TargetBackupVaultName":"Default","ScheduleExpression":"cron(0 3 * * ? *)","Lifecycle":{"DeleteAfterDays":1}}]}}"#
        )
    );
    let selection = call(run(&[ok("{}"), ok(r#"{"BackupPlanId":"p1"}"#)]));
    assert_eq!(selection.path, "/backup/plans/p1/selections");
    assert_eq!(
        selection.body.as_deref(),
        Some(
            r#"{"BackupSelection":{"SelectionName":"db-selection","IamRoleArn":"arn:aws:iam::123456789012:role/backup","Resources":["arn:aws:rds:us-east-1:123456789012:db:db"]}}"#
        )
    );
    let end = done(run(&[ok("{}"), ok(r#"{"BackupPlanId":"p1"}"#), ok("")]));
    assert_eq!(end, (Ok(()), 3));
}

#[test]
fn listed_plan_is_kept() {
    let list = r#"{"BackupPlanId":"p7","BackupPlanName":"db-backup"}"#;
    let step = configure_backup("db", "r", "s", 14, "", &replies(&[ok(list)]), 0);
    let selection = call(step);
    assert_eq!(selection.path, "/backup/plans/p7/selections");
    assert!(selection.body.unwrap().contains("arn:aws:rds:r:*:db:db"));
}

#[test]
fn backup_failures_are_passed_on() {
    let run = |list: &[Reply]| {
        done(configure_backup("db", "r", "s", 14, "", &replies(list), 0))
    };
    assert_eq!(run(&[err("list")]), (Err("list".to_string()), 1));
    assert_eq!(run(&[ok(""), err("create")]), (Err("create".to_string()), 2));
    assert_eq!(
        run(&[ok(""), ok("{}")]),
        (
            Err("configure_backup: could not parse BackupPlanId from response: {}".to_string()),
            2
        )
    );
    assert_eq!(
        run(&[ok(""), ok(r#"{"BackupPlanId":"p"}"#), err("select")]),
        (Err("select".to_string()), 3)
    );
}

// ── Secrets Manager ───────────────────────────────────────────────────────────

#[test]
fn extract_arn_from_describe_response() {
    let json = r#"{"ARN":"arn:aws:secretsmanager:us-east-1:123456789012:secret:myapp-AbCdEf","Name":"myapp","VersionId":"xxx"}"#;
    assert_eq!(
        extract_json_str(json, "ARN"),
        Some("arn:aws:secretsmanager:us-east-1:123456789012:secret:myapp-AbCdEf".to_string())
    );
}

#[test]
fn extract_returns_none_for_missing_key() {
    let json = r#"{"Name":"myapp"}"#;
    assert_eq!(extract_json_str(json, "ARN"), None);
}

#[test]
fn secret_is_created_where_missing() {
    let run =
        |list: &[Reply]| ensure_secret("us-east-1", "s", "d", &replies(list), 0);
    let describe = call(run(&[]));
    assert_eq!(describe.target.as_deref(), Some("secretsmanager.DescribeSecret"));
    assert_eq!(describe.host, "secretsmanager.us-east-1.amazonaws.com");
    assert_eq!(describe.body.as_deref(), Some(r#"{"SecretId":"s"}"#));
    let missing = || {
        Api::SecretsManager.read(
            400,
            r#"{"__type":"ResourceNotFoundException","Message":"none"}"#.to_string(),
        )
    };
    let create = call(run(&[missing()]));
    assert_eq!(create.target.as_deref(), Some("secretsmanager.CreateSecret"));
    assert_eq!(create.body.as_deref(), Some(r#"{"Name":"s","Description":"d"}"#));
    assert_eq!(
        done(run(&[missing(), ok(r#"{"ARN":"a"}"#)])),
        (Ok("a".to_string()), 2)
    );
    assert_eq!(
        done(run(&[missing(), ok("{}")])),
        (
            Err("Secrets Manager CreateSecret: could not parse ARN from response: {}".to_string()),
            2
        )
    );
    assert_eq!(done(run(&[missing(), err("x")])), (Err("x".to_string()), 2));
}

#[test]
fn existing_secret_is_kept() {
    let run =
        |list: &[Reply]| ensure_secret("us-east-1", "s", "d", &replies(list), 0);
    assert_eq!(done(run(&[ok(r#"{"ARN":"a"}"#)])), (Ok("a".to_string()), 1));
    assert_eq!(done(run(&[err("denied")])), (Err("denied".to_string()), 1));
}

#[test]
fn secret_is_scheduled_for_deletion() {
    let run =
        |list: &[Reply]| schedule_delete_secret("r", "s", 30, &replies(list), 0);
    let delete = call(run(&[]));
    assert_eq!(delete.target.as_deref(), Some("secretsmanager.DeleteSecret"));
    assert_eq!(
        delete.body.as_deref(),
        Some(r#"{"SecretId":"s","RecoveryWindowInDays":30}"#)
    );
    assert_eq!(
        done(run(&[ok(r#"{"DeletionDate":"2026"}"#)])),
        (Ok("2026".to_string()), 1)
    );
    assert_eq!(done(run(&[ok("{}")])), (Ok("unknown".to_string()), 1));
    assert_eq!(done(run(&[err("e")])), (Err("e".to_string()), 1));
}

// ── SQS ───────────────────────────────────────────────────────────────────────

#[test]
fn arn_from_standard_url() {
    let url = "https://sqs.us-east-1.amazonaws.com/123456789012/MyQueue";
    assert_eq!(
        arn_from_queue_url(url, "us-east-1"),
        Some("arn:aws:sqs:us-east-1:123456789012:MyQueue".to_string())
    );
}

#[test]
fn arn_from_govcloud_url() {
    let url = "https://sqs.us-gov-west-1.amazonaws.com/123456789012/MyQueue";
    assert_eq!(
        arn_from_queue_url(url, "us-gov-west-1"),
        Some("arn:aws:sqs:us-gov-west-1:123456789012:MyQueue".to_string())
    );
}

#[test]
fn arn_from_fifo_url() {
    let url = "https://sqs.us-east-1.amazonaws.com/123456789012/MyQueue.fifo";
    assert_eq!(
        arn_from_queue_url(url, "us-east-1"),
        Some("arn:aws:sqs:us-east-1:123456789012:MyQueue.fifo".to_string())
    );
}

#[test]
fn canonical_name_adds_fifo_suffix() {
    assert_eq!(canonical_queue_name("my-queue", true), "my-queue.fifo");
    assert_eq!(canonical_queue_name("my-queue.fifo", true), "my-queue.fifo");
    assert_eq!(canonical_queue_name("my-queue", false), "my-queue");
}

#[test]
fn arn_of_other_urls() {
    assert_eq!(arn_from_queue_url("https://sqs.r.amazonaws.com/1", "r"), None);
    assert_eq!(arn_from_queue_url("https://sqs.x.amazonaws.com/1/q", "r"), None);
    assert_eq!(
        arn_from_queue_url("https://sqs.r.amazonaws.com/1/a/b", "r"),
        Some("arn:aws:sqs:r:1:a/b".to_string())
    );
}

fn queue(fifo: bool) -> SqsConfig {
    SqsConfig {
        queue_name: "q".to_string(),
        fifo,
        visibility_timeout: 30,
        retention_days: 4,
    }
}

#[test]
fn queue_is_created_where_missing() {
    let absent = || {
        answered(
            Api::Sqs,
            400,
            "AWS.SimpleQueueService.NonExistentQueue",
            "The specified queue does not exist.",
        )
    };
    let run = |fifo: bool, list: &[Reply]| {
        ensure_queue("us-east-1", &queue(fifo), &replies(list), 0)
    };
    assert_eq!(
        body(run(true, &[])),
        "Action=GetQueueUrl&Version=2012-11-05&QueueName=q.fifo"
    );
    assert_eq!(
        body(run(false, &[absent()])),
        "Action=CreateQueue&Version=2012-11-05&QueueName=q\
         &Attribute.1.Name=VisibilityTimeout&Attribute.1.Value=30\
         &Attribute.2.Name=MessageRetentionPeriod&Attribute.2.Value=345600"
    );
    assert_eq!(
        body(run(true, &[answered(Api::Sqs, 400, "QueueDoesNotExist", "gone")])),
        "Action=CreateQueue&Version=2012-11-05&QueueName=q.fifo\
         &Attribute.1.Name=VisibilityTimeout&Attribute.1.Value=30\
         &Attribute.2.Name=MessageRetentionPeriod&Attribute.2.Value=345600\
         &Attribute.3.Name=FifoQueue&Attribute.3.Value=true\
         &Attribute.4.Name=ContentBasedDeduplication&Attribute.4.Value=true"
    );
    let xml = "<QueueUrl>https://sqs.us-east-1.amazonaws.com/1/q</QueueUrl>";
    let (info, next) = done(run(false, &[absent(), ok(xml)]));
    let info = info.unwrap();
    assert_eq!(info.queue_url, "https://sqs.us-east-1.amazonaws.com/1/q");
    assert_eq!(info.queue_arn, "arn:aws:sqs:us-east-1:1:q");
    assert_eq!(next, 2);
    let (failed, _) = done(run(false, &[absent(), ok("")]));
    assert_eq!(
        failed.err().unwrap(),
        "SQS CreateQueue: could not parse QueueUrl from response"
    );
}

#[test]
fn existing_queue_is_kept() {
    let run =
        |list: &[Reply]| ensure_queue("us-east-1", &queue(true), &replies(list), 0);
    let (info, next) = done(run(&[ok("<QueueUrl>http://elsewhere/q</QueueUrl>")]));
    let info = info.unwrap();
    assert_eq!(info.queue_url, "http://elsewhere/q");
    assert_eq!(info.queue_arn, "arn:aws:sqs:us-east-1:*:q.fifo");
    assert_eq!(next, 1);
    assert_eq!(done(run(&[err("e")])).0.err().unwrap(), "e");
    let url = "<QueueUrl>u</QueueUrl><RequestId>NonExistentQueue</RequestId>";
    assert_eq!(done(run(&[ok(url)])).0.unwrap_or_else(|e| panic!("{e}")).queue_url, "u");
    let denied = answered(Api::Sqs, 403, "AccessDenied", "no NonExistentQueue");
    assert_eq!(
        done(run(&[denied])).0.err().unwrap(),
        "SQS API error 403: no NonExistentQueue"
    );
}

#[test]
fn retention_does_not_overflow() {
    let mut cfg = queue(false);
    cfg.retention_days = u32::MAX;
    assert!(body(ensure_queue("r", &cfg, &replies(&[ok("")]), 0)).ends_with("=371085174288000"));
}

#[test]
fn queue_is_deleted() {
    let step = delete_queue("r", "https://x/q", &vec![], 0);
    assert_eq!(
        body(step),
        "Action=DeleteQueue&Version=2012-11-05&QueueUrl=https%3A%2F%2Fx%2Fq"
    );
    assert_eq!(done(delete_queue("r", "u", &replies(&[ok("x")]), 0)), (Ok(()), 1));
    assert_eq!(
        done(delete_queue("r", "u", &replies(&[err("e")]), 0)),
        (Err("e".to_string()), 1)
    );
}

// ── RDS ───────────────────────────────────────────────────────────────────────

fn database() -> RdsConfig {
    RdsConfig {
        identifier: "db 1".to_string(),
        engine: "postgres".to_string(),
        instance_class: "db.t3.micro".to_string(),
        allocated_storage: "20".to_string(),
        db_name: "app".to_string(),
        multi_az: true,
        subnet_group: Some("net".to_string()),
        security_groups: vec!["sg-a".to_string(), "sg-b".to_string()],
        iam_auth: false,
        snapshot_schedule: None,
        snapshot_retention: 7,
        backup_role_arn: String::new(),
        region: "us-east-1".to_string(),
    }
}

#[test]
fn instance_is_created_guarded() {
    let body = create_db_instance("us-east-1", &database()).body.unwrap();
    assert_eq!(
        body,
        "Action=CreateDBInstance&Version=2014-10-31\
         &DBInstanceIdentifier=db%201&DBInstanceClass=db.t3.micro&Engine=postgres\
         &AllocatedStorage=20&DBName=app&MultiAZ=true&EnableIAMDatabaseAuthentication=false\
         &MasterUsername=admin&ManageMasterUserPassword=true&StorageEncrypted=true\
         &StorageType=gp3&PubliclyAccessible=false&DeletionProtection=true\
         &DBSubnetGroupName=net&VpcSecurityGroupIds.member.1=sg-a\
         &VpcSecurityGroupIds.member.2=sg-b"
    );
    assert!(!body.contains("&MasterUserPassword="));
}

#[test]
fn instance_flow() {
    let cfg = database();
    let absent = || answered(Api::Rds, 404, "DBInstanceNotFound", "DBInstance db not found.");
    let run = |list: &[Reply]| ensure_instance("r", &cfg, &replies(list), 0);
    assert_eq!(
        body(run(&[])),
        "Action=DescribeDBInstances&Version=2014-10-31&DBInstanceIdentifier=db 1"
    );
    assert_eq!(
        done(run(&[ok("<Address>\n host </Address>")])),
        (Ok("host".to_string()), 1)
    );
    assert_eq!(done(run(&[ok("<x/>")])), (Ok(String::new()), 1));
    assert_eq!(
        done(run(&[ok("<DBName>DBInstanceNotFound</DBName>")])),
        (Ok(String::new()), 1)
    );
    let document = "<Error><Code>DBInstanceNotFound</Code></Error>";
    assert!(body(run(&[ok(document)])).starts_with("Action=CreateDBInstance"));
    assert_eq!(
        done(run(&[answered(Api::Rds, 403, "AccessDenied", "no DBInstanceNotFound")])),
        (Err("RDS API error 403: no DBInstanceNotFound".to_string()), 1)
    );
    assert_eq!(done(run(&[err("e")])), (Err("e".to_string()), 1));
    assert!(body(run(&[absent()])).starts_with("Action=CreateDBInstance"));
    assert_eq!(
        done(run(&[absent(), ok("")])),
        (Ok(String::new()), 2)
    );
    assert_eq!(
        done(run(&[absent(), ok("<Error><Message>quota</Message></Error>")])),
        (Err("CreateDBInstance error: quota".to_string()), 2)
    );
    assert_eq!(
        done(run(&[absent(), ok("<Error/>")])),
        (Err("CreateDBInstance error: <Error/>".to_string()), 2)
    );
    assert_eq!(
        done(run(&[absent(), ok("Error DBInstanceIdentifier")])),
        (Ok(String::new()), 2)
    );
    assert_eq!(
        done(run(&[absent(), err("e")])),
        (Err("e".to_string()), 2)
    );
}

// ── S3 ────────────────────────────────────────────────────────────────────────

fn bucket(versioning: bool, block: bool, days: Option<u32>) -> S3Config {
    S3Config {
        bucket_name: "b".to_string(),
        region: "eu-west-1".to_string(),
        versioning,
        public_access_block: block,
        lifecycle_days: days,
    }
}

#[test]
fn bucket_is_created_in_its_region() {
    let here = create_bucket("b", "eu-west-1");
    assert_eq!(here.host, "b.s3.eu-west-1.amazonaws.com");
    assert_eq!(here.url, "https://b.s3.eu-west-1.amazonaws.com/");
    assert_eq!(here.query, "");
    assert_eq!(here.content_type.as_deref(), Some("application/xml"));
    assert_eq!(
        here.body.as_deref(),
        Some(
            r#"<CreateBucketConfiguration xmlns="http://s3.amazonaws.com/doc/2006-03-01/"><LocationConstraint>eu-west-1</LocationConstraint></CreateBucketConfiguration>"#
        )
    );
    let home = create_bucket("b", "us-east-1");
    assert_eq!(home.body.as_deref(), Some(""));
    assert_eq!(home.content_type, None);
}

#[test]
fn bucket_settings_are_put() {
    let put = s3_put("b", "r", "acl", "<x/>".to_string(), "PutAcl");
    assert_eq!(put.url, "https://b.s3.r.amazonaws.com/?acl");
    assert_eq!(put.query, "acl");
    assert_eq!(put.path, "/");
    assert!(put.send_hash);
    let days = put_bucket_lifecycle("b", "r", 90).body.unwrap();
    assert!(days.contains("<Expiration><Days>90</Days></Expiration>"));
}

#[test]
fn bucket_flow() {
    let run = |cfg: &S3Config, list: &[Reply]| {
        ensure_bucket(cfg, "full", &replies(list), 0)
    };
    let create = || Api::S3("CreateBucket".to_string());
    let there = |code: &str| answered(create(), 409, code, "the name is taken");
    let all = bucket(true, true, Some(3));
    assert_eq!(call(run(&all, &[])).host, "full.s3.eu-west-1.amazonaws.com");
    assert_eq!(call(run(&all, &[ok("")])).query, "versioning");
    assert_eq!(
        call(run(&all, &[there("BucketAlreadyOwnedByYou"), err("e")])).query,
        "publicAccessBlock"
    );
    assert_eq!(call(run(&all, &[ok(""), err("e"), err("e")])).query, "lifecycle");
    assert_eq!(
        done(run(&all, &[ok(""), err("e"), err("e"), err("e")])),
        (Ok(()), 4)
    );
    assert_eq!(done(run(&all, &[err("denied")])), (Err("denied".to_string()), 1));
    let bare = bucket(false, false, None);
    assert_eq!(done(run(&bare, &[there("BucketAlreadyOwnedByYou")])), (Ok(()), 1));
    assert_eq!(
        done(run(&all, &[there("BucketAlreadyExists")])),
        (Err("S3 CreateBucket error 409: the name is taken".to_string()), 1)
    );
    let worded = answered(create(), 409, "OperationAborted", "BucketAlreadyExists: b");
    assert_eq!(call(run(&all, &[worded])).query, "versioning");
    let plain = create().read(409, "BucketAlreadyExists".to_string());
    assert_eq!(done(run(&bare, &[plain])), (Ok(()), 1));
    let some = bucket(false, false, Some(1));
    assert_eq!(call(run(&some, &[ok("")])).query, "lifecycle");
}

// ── Extracting ────────────────────────────────────────────────────────────────

#[test]
fn tags_are_trimmed() {
    assert_eq!(extract_tag("<a>\t x y\n</a>", "a"), Some("x y".to_string()));
    assert_eq!(extract_tag("<a>1</a><a>2</a>", "a"), Some("1".to_string()));
    assert_eq!(extract_tag("<a>1", "a"), None);
    assert_eq!(extract_tag("</a><a>", "a"), None);
    assert_eq!(extract_json_str("{\"k\":\"v", "k"), None);
    assert_eq!(extract_json_str("{\"k\":\"é\"}", "k"), Some("é".to_string()));
}
