use deckwatch_plugin_aws::api::{Api, ApiCall, ApiError, Reply, Step};
use deckwatch_plugin_aws::credentials::CredentialsStep;
use deckwatch_plugin_aws::encode::url_encode;
use deckwatch_plugin_aws::iam::{
    attach_ecr_policy, attach_rds_policy, attach_s3_policy, attach_secretsmanager_policy,
    attach_sqs_policy, ensure_role, iam_endpoint, trust_policy_document,
};
use deckwatch_plugin_aws::settings::ConfigValue;
use deckwatch_plugin_aws::sts::{
    exchanged_credentials, parse_credentials, read_exchange, try_assume_role_with_web_identity,
};
use deckwatch_plugin_aws::transport::HttpReply;
use deckwatch_plugin_aws::{AwsCredentials, PluginSettings};

fn unset() -> ConfigValue {
    Ok(None)
}

fn set(s: &str) -> ConfigValue {
    Ok(Some(s.to_string()))
}

fn settings() -> PluginSettings {
    PluginSettings {
        aws_region: unset(),
        aws_default_region: unset(),
        identity_token: unset(),
        role_arn: unset(),
        access_key_id: unset(),
        secret_access_key: unset(),
        session_token: unset(),
        bucket_prefix: unset(),
        iam_endpoint: unset(),
        iam_signing_region: unset(),
        oidc_provider_arn: unset(),
        role_path: unset(),
    }
}

fn found(step: CredentialsStep) -> Result<AwsCredentials, String> {
    match step {
        CredentialsStep::Send(_) => panic!("no request is expected"),
        CredentialsStep::Done(creds) => creds,
    }
}

fn error(step: CredentialsStep) -> String {
    match found(step) {
        Ok(_) => panic!("an error is expected"),
        Err(e) => e,
    }
}

fn ok(body: &str) -> Reply {
    Ok(body.to_string())
}

fn err(text: &str) -> Reply {
    Err(ApiError {
        text: text.to_string(),
        code: None,
    })
}

/// What a call gives for an error answer in XML.
fn answered(api: Api, status: u16, code: &str, message: &str) -> Reply {
    api.read(
        status,
        format!(
            "<ErrorResponse><Error><Code>{code}</Code><Message>{message}</Message></Error></ErrorResponse>"
        ),
    )
}

fn replies(list: &[Reply]) -> Vec<Reply> {
    list.to_vec()
}

fn call<T>(step: Step<T>) -> ApiCall {
    match step {
        Step::Call(call) => call,
        Step::Done(_, _) => panic!("a call is expected"),
    }
}

fn done<T>(step: Step<T>) -> (Result<T, String>, usize) {
    match step {
        Step::Call(_) => panic!("the flow should have ended"),
        Step::Done(result, next) => (result, next),
    }
}

fn form(policy_name: &str, policy: &str) -> String {
    format!(
        "Action=PutRolePolicy&Version=2010-05-08&RoleName=r&PolicyName={policy_name}&PolicyDocument={}",
        url_encode(policy)
    )
}

const SAMPLE: &str = r#"
<AssumeRoleWithWebIdentityResponse>
  <AssumeRoleWithWebIdentityResult>
    <Credentials>
      <AccessKeyId>ASIA123</AccessKeyId>
      <SecretAccessKey>secret456</SecretAccessKey>
      <SessionToken>token789</SessionToken>
      <Expiration>2026-08-11T17:00:00Z</Expiration>
    </Credentials>
  </AssumeRoleWithWebIdentityResult>
</AssumeRoleWithWebIdentityResponse>"#;

// ── STS ───────────────────────────────────────────────────────────────────────

#[test]
fn url_encode_role_arn() {
    let arn = "arn:aws-us-gov:iam::591839118651:role/my-role";
    let encoded = url_encode(arn);
    assert!(encoded.contains("%3A")); // colons encoded
    assert!(!encoded.contains(':'));
}

#[test]
fn parse_credentials_from_sample_xml() {
    let creds = parse_credentials(SAMPLE, "us-gov-west-1").unwrap();
    assert_eq!(creds.access_key, "ASIA123");
    assert_eq!(creds.secret_key, "secret456");
    assert_eq!(creds.session_token.as_deref(), Some("token789"));
    assert_eq!(creds.region, "us-gov-west-1");
}

#[test]
fn parse_credentials_missing_field_errors() {
    let xml = "<AssumeRoleWithWebIdentityResponse><Credentials></Credentials></AssumeRoleWithWebIdentityResponse>";
    assert!(parse_credentials(xml, "us-gov-west-1").is_err());
}

#[test]
fn each_missing_field_is_named() {
    let message = |xml: &str| match parse_credentials(xml, "r") {
        Ok(_) => panic!("an error is expected"),
        Err(e) => e,
    };
    assert_eq!(
        message("<SecretAccessKey>s</SecretAccessKey>"),
        "STS response missing AccessKeyId"
    );
    assert_eq!(
        message("<AccessKeyId>a</AccessKeyId>"),
        "STS response missing SecretAccessKey"
    );
    let xml = "<AccessKeyId>a</AccessKeyId><SecretAccessKey>s</SecretAccessKey>";
    let creds = parse_credentials(xml, "r").unwrap();
    assert_eq!(creds.session_token, None);
}

#[test]
fn exchange_is_asked_for() {
    let req = try_assume_role_with_web_identity(&set("t/1"), &set("arn:x"), "us-gov-west-1")
        .unwrap()
        .unwrap();
    assert_eq!(req.method, "POST");
    assert_eq!(req.url, "https://sts.us-gov-west-1.amazonaws.com/");
    assert_eq!(
        req.body.as_deref(),
        Some(
            "Action=AssumeRoleWithWebIdentity&Version=2011-06-15&RoleArn=arn%3Ax\
             &RoleSessionName=deckwatch-plugin&WebIdentityToken=t%2F1&DurationSeconds=3600"
        )
    );
    assert_eq!(req.headers.len(), 2);
}

#[test]
fn exchange_needs_token_and_role() {
    let wanted = |token: ConfigValue, role: ConfigValue| {
        try_assume_role_with_web_identity(&token, &role, "r").map(|w| w.is_some())
    };
    assert_eq!(wanted(unset(), set("r")), Ok(false));
    assert_eq!(wanted(set(""), Err("x".to_string())), Ok(false));
    assert_eq!(wanted(set("t"), unset()), Ok(false));
    assert_eq!(wanted(set("t"), set("")), Ok(false));
    assert_eq!(wanted(set("t"), set("r")), Ok(true));
    assert_eq!(
        wanted(Err("x".to_string()), set("r")),
        Err("config error: x".to_string())
    );
    assert_eq!(
        wanted(set("t"), Err("y".to_string())),
        Err("config error: y".to_string())
    );
}

#[test]
fn exchange_errors_are_worded() {
    let message = |r: Result<AwsCredentials, String>| match r {
        Ok(_) => panic!("an error is expected"),
        Err(e) => e,
    };
    assert_eq!(
        message(read_exchange(403, "<Message>expired</Message>", "r")),
        "STS error 403: expired"
    );
    assert_eq!(message(read_exchange(500, "oops", "r")), "STS error 500: oops");
    assert_eq!(
        message(exchanged_credentials(&Err("down".to_string()), "r")),
        "STS HTTP error: down"
    );
}

// ── Credentials ───────────────────────────────────────────────────────────────

#[test]
fn identity_is_exchanged_first() {
    let mut s = settings();
    s.aws_default_region = set("eu-west-1");
    s.identity_token = set("token");
    s.role_arn = set("arn");
    s.access_key_id = set("AKID");
    s.secret_access_key = set("secret");
    match AwsCredentials::from_config(&s, &None) {
        CredentialsStep::Send(req) => assert_eq!(req.url, "https://sts.eu-west-1.amazonaws.com/"),
        CredentialsStep::Done(_) => panic!("the exchange is expected"),
    }
    let reply = HttpReply {
        status: 200,
        date: None,
        body: SAMPLE.as_bytes().to_vec(),
    };
    let creds = found(AwsCredentials::from_config(&s, &Some(Ok(reply))));
    let creds = creds.unwrap();
    assert_eq!(creds.access_key, "ASIA123");
    assert_eq!(creds.region, "eu-west-1");
    assert_eq!(
        error(AwsCredentials::from_config(&s, &Some(Err("down".to_string())))),
        "STS HTTP error: down"
    );
}

#[test]
fn static_credentials_are_found() {
    let mut s = settings();
    s.access_key_id = set("AKID");
    s.secret_access_key = set("secret");
    s.session_token = set("");
    let creds = found(AwsCredentials::from_config(&s, &None)).unwrap();
    assert_eq!(creds.access_key, "AKID");
    assert_eq!(creds.secret_key, "secret");
    assert_eq!(creds.session_token, None);
    assert_eq!(creds.region, "us-east-1");
    s.session_token = set("tok");
    s.aws_region = set("us-west-2");
    let creds = found(AwsCredentials::from_config(&s, &None)).unwrap();
    assert_eq!(creds.session_token.as_deref(), Some("tok"));
    assert_eq!(creds.region, "us-west-2");
}

#[test]
fn missing_keys_are_named() {
    let mut s = settings();
    let message = |s: &PluginSettings| error(AwsCredentials::from_config(s, &None));
    assert_eq!(
        message(&s),
        "AWS_ACCESS_KEY_ID not set — provide static credentials or configure inherit_env_file_keys for workload identity"
    );
    s.access_key_id = Err("x".to_string());
    assert_eq!(message(&s), "AWS_ACCESS_KEY_ID not in plugin config: x");
    s.access_key_id = set("AKID");
    assert_eq!(message(&s), "AWS_SECRET_ACCESS_KEY not set in plugin config");
    s.secret_access_key = Err("y".to_string());
    assert_eq!(message(&s), "AWS_SECRET_ACCESS_KEY not in plugin config: y");
    s.identity_token = Err("z".to_string());
    assert_eq!(message(&s), "config error: z");
}

// ── IAM ───────────────────────────────────────────────────────────────────────

#[test]
fn endpoint_is_partition_aware() {
    let mut s = settings();
    let pair = |host: &str, region: &str| (host.to_string(), region.to_string());
    assert_eq!(iam_endpoint(&s, "eu-west-1"), pair("iam.amazonaws.com", "us-east-1"));
    assert_eq!(
        iam_endpoint(&s, "us-gov-east-1"),
        pair("iam.us-gov.amazonaws.com", "us-gov-west-1")
    );
    s.iam_endpoint = set("iam.local");
    s.iam_signing_region = set("");
    assert_eq!(iam_endpoint(&s, "us-gov-east-1"), pair("iam.local", "us-gov-west-1"));
    s.iam_signing_region = set("here");
    assert_eq!(iam_endpoint(&s, "eu-west-1"), pair("iam.local", "here"));
}

#[test]
fn trust_policy_names_the_service_account() {
    assert_eq!(
        trust_policy_document(
            &set("arn:aws:iam::1:oidc-provider/oidc.eks.amazonaws.com/id/X"),
            "ns",
            "sa"
        ),
        r#"{"Version":"2012-10-17","Statement":[{"Effect":"Allow","Principal":{"Federated":"arn:aws:iam::1:oidc-provider/oidc.eks.amazonaws.com/id/X"},"Action":"sts:AssumeRoleWithWebIdentity","Condition":{"StringEquals":{"oidc.eks.amazonaws.com/id/X:sub":"system:serviceaccount:ns:sa","oidc.eks.amazonaws.com/id/X:aud":"sts.amazonaws.com"}}}]}"#
    );
    assert_eq!(
        trust_policy_document(&unset(), "ns", "sa"),
        r#"{"Version":"2012-10-17","Statement":[]}"#
    );
}

#[test]
fn role_flow() {
    let missing = || answered(Api::Iam, 404, "NoSuchEntity", "The role cannot be found.");
    let mut s = settings();
    s.role_path = set("/team/");
    let run = |s: &PluginSettings, list: &[Reply]| {
        ensure_role(s, "us-gov-west-1", "r", "ns", "sa", &replies(list), 0)
    };
    let get = call(run(&s, &[]));
    assert_eq!(get.host, "iam.us-gov.amazonaws.com");
    assert_eq!(get.clock_region, "us-gov-west-1");
    assert_eq!(
        get.body.as_deref(),
        Some("Action=GetRole&Version=2010-05-08&RoleName=r")
    );
    let trust = url_encode(r#"{"Version":"2012-10-17","Statement":[]}"#);
    assert_eq!(
        call(run(&s, &[ok("<Arn>a</Arn>")])).body.unwrap(),
        format!(
            "Action=UpdateAssumeRolePolicy&Version=2010-05-08&RoleName=r&PolicyDocument={trust}"
        )
    );
    assert_eq!(
        call(run(&s, &[missing()])).body.unwrap(),
        format!(
            "Action=CreateRole&Version=2010-05-08&Path=%2Fteam%2F&RoleName=r&AssumeRolePolicyDocument={trust}"
        )
    );
    assert!(call(run(&s, &[ok("<RoleName>NoSuchEntity</RoleName><Arn>a</Arn>")]))
        .body
        .unwrap()
        .starts_with("Action=UpdateAssumeRolePolicy"));
    assert_eq!(
        done(run(&s, &[answered(Api::Iam, 403, "AccessDenied", "no NoSuchEntity")])),
        (Err("IAM API error 403: no NoSuchEntity".to_string()), 1)
    );
    s.role_path = set("team/");
    assert!(call(run(&s, &[ok("")]))
        .body
        .unwrap()
        .contains("Path=%2Fdeckwatch-plugin%2F"));
    assert_eq!(
        done(run(&s, &[ok("<Arn>a</Arn>"), err("refused")])),
        (Ok("a".to_string()), 2)
    );
    assert_eq!(
        done(run(&s, &[missing(), ok("<Arn>b</Arn>")])),
        (Ok("b".to_string()), 2)
    );
    assert_eq!(
        done(run(&s, &[missing(), ok("")])),
        (Err("CreateRole: could not parse ARN from response".to_string()), 2)
    );
    assert_eq!(done(run(&s, &[missing(), err("e")])), (Err("e".to_string()), 2));
    assert_eq!(done(run(&s, &[err("e")])), (Err("e".to_string()), 1));
}

#[test]
fn rds_policy_is_attached() {
    let mut s = settings();
    let run = |s: &PluginSettings, region: &str| {
        call(attach_rds_policy(s, "us-east-1", "r", "db-X", "app", region, &vec![], 0))
            .body
            .unwrap()
    };
    let policy = |arn: &str| {
        form(
            "deckwatch-rds-connect",
            &format!(
                r#"{{"Version":"2012-10-17","Statement":[{{"Effect":"Allow","Action":"rds-db:connect","Resource":"{arn}"}}]}}"#
            ),
        )
    };
    assert_eq!(
        run(&s, "us-gov-west-1"),
        policy("arn:aws-us-gov:rds-db:us-gov-west-1:*:dbuser:db-X/app")
    );
    s.role_arn = set("arn:aws:iam::42:role/x");
    assert_eq!(run(&s, "cn-north-1"), policy("arn:aws-cn:rds-db:cn-north-1:42:dbuser:db-X/app"));
    assert_eq!(run(&s, "eu-west-1"), policy("arn:aws:rds-db:eu-west-1:42:dbuser:db-X/app"));
}

#[test]
fn other_policies_are_attached() {
    let s = settings();
    let none = vec![];
    assert_eq!(
        call(attach_s3_policy(&s, "us-east-1", "r", "b", &none, 0)).body.unwrap(),
        form(
            "deckwatch-s3-access",
            r#"{"Version":"2012-10-17","Statement":[{"Effect":"Allow","Action":["s3:GetObject","s3:PutObject","s3:DeleteObject"],"Resource":"arn:aws:s3:::b/*"},{"Effect":"Allow","Action":"s3:ListBucket","Resource":"arn:aws:s3:::b"}]}"#
        )
    );
    assert_eq!(
        call(attach_ecr_policy(&s, "us-east-1", "r", &none, 0)).body.unwrap(),
        form(
            "deckwatch-ecr-pull",
            r#"{"Version":"2012-10-17","Statement":[{"Effect":"Allow","Action":["ecr:GetAuthorizationToken"],"Resource":"*"},{"Effect":"Allow","Action":["ecr:BatchCheckLayerAvailability","ecr:GetDownloadUrlForLayer","ecr:BatchGetImage"],"Resource":"*"}]}"#
        )
    );
    assert_eq!(
        call(attach_sqs_policy(&s, "us-east-1", "r", "q", &none, 0)).body.unwrap(),
        form(
            "deckwatch-sqs-access",
            r#"{"Version":"2012-10-17","Statement":[{"Effect":"Allow","Action":["sqs:SendMessage","sqs:ReceiveMessage","sqs:DeleteMessage","sqs:GetQueueUrl","sqs:GetQueueAttributes","sqs:ChangeMessageVisibility"],"Resource":"q"}]}"#
        )
    );
}

#[test]
fn secrets_policy_lists_the_secrets() {
    let s = settings();
    let arns = vec!["a".to_string(), "b".to_string()];
    assert_eq!(
        call(attach_secretsmanager_policy(&s, "us-east-1", "r", &arns, &vec![], 0))
            .body
            .unwrap(),
        form(
            "deckwatch-secretsmanager-access",
            r#"{"Version":"2012-10-17","Statement":[{"Effect":"Allow","Action":["secretsmanager:GetSecretValue","secretsmanager:DescribeSecret"],"Resource":["a","b"]}]}"#
        )
    );
    assert_eq!(
        done(attach_secretsmanager_policy(&s, "us-east-1", "r", &vec![], &vec![], 0)),
        (Ok(()), 0)
    );
}
