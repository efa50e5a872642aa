use deckwatch_plugin_aws::api::{Api, ApiError, Reply};
use deckwatch_plugin_aws::provision::ProvisionStep;
use deckwatch_plugin_aws::settings::ConfigValue;
use deckwatch_plugin_aws::{
    provision, rds_resource, s3_resource, AwsCredentials, PluginSettings, ResourceProvisionRequest,
    ResourceProvisionResult, StringMap,
};

fn unset() -> ConfigValue {
    Ok(None)
}

fn settings() -> PluginSettings {
    PluginSettings {
        aws_region: unset(),
        aws_default_region: unset(),
        identity_token: unset(),
        role_arn: unset(),
        access_key_id: unset(),
        secret_access_key: unset(),
        session_token: unset(),
        bucket_prefix: Ok(Some("myorg-".to_string())),
        iam_endpoint: unset(),
        iam_signing_region: unset(),
        oidc_provider_arn: unset(),
        role_path: unset(),
    }
}

fn creds() -> Result<AwsCredentials, String> {
    Ok(AwsCredentials {
        access_key: "AKID".into(),
        secret_key: "secret".into(),
        session_token: None,
        region: "eu-west-1".into(),
    })
}

fn request(id: &str, fields: &[(&str, &str)]) -> ResourceProvisionRequest {
    let mut map = StringMap::new();
    for (k, v) in fields {
        map.insert(k.to_string(), v.to_string());
    }
    ResourceProvisionRequest {
        resource_id: id.into(),
        namespace: "prod".into(),
        application_name: "shop".into(),
        fields: map,
    }
}

fn ok(body: &str) -> Reply {
    Ok(body.to_string())
}

fn err(text: &str) -> Reply {
    Err(ApiError {
        text: text.to_string(),
        code: None,
    })
}

/// What a call gives for an error answer in XML.
fn answered(api: Api, status: u16, code: &str, message: &str) -> Reply {
    api.read(
        status,
        format!(
            "<ErrorResponse><Error><Code>{code}</Code><Message>{message}</Message></Error></ErrorResponse>"
        ),
    )
}

fn run(req: &ResourceProvisionRequest, replies: &[Reply]) -> ResourceProvisionResult {
    match provision(&settings(), req, &creds(), &replies.to_vec()) {
        ProvisionStep::Done(result) => result,
        ProvisionStep::Call(_) => panic!("the flow should have ended"),
    }
}

fn keys(result: &ResourceProvisionResult) -> Vec<String> {
    let mut list: Vec<String> = result.state.entries().iter().map(|e| e.0.clone()).collect();
    list.sort();
    list
}

fn sorted(mut list: Vec<String>) -> Vec<String> {
    list.sort();
    list
}

#[test]
fn database_is_provisioned_with_defaults() {
    let req = request("rds", &[("engine", "")]);
    let first = match provision(&settings(), &req, &creds(), &vec![]) {
        ProvisionStep::Call(call) => call,
        ProvisionStep::Done(_) => panic!("a call is expected"),
    };
    assert_eq!(first.host, "rds.eu-west-1.amazonaws.com");
    assert_eq!(
        first.body.as_deref(),
        Some("Action=DescribeDBInstances&Version=2014-10-31&DBInstanceIdentifier=prod-shop-db")
    );
    let result = run(&req, &[ok("<Address>h</Address>")]);
    assert!(result.errors.is_empty());
    assert_eq!(result.state.get("DB_HOST").unwrap(), "h");
    assert_eq!(result.state.get("DB_PORT").unwrap(), "5432");
    assert_eq!(result.state.get("DB_ENGINE").unwrap(), "postgres");
    assert_eq!(result.state.get("DB_NAME").unwrap(), "app");
    assert_eq!(keys(&result), sorted(rds_resource().output_keys));
}

#[test]
fn new_database_has_no_host_yet() {
    let req = request(
        "rds",
        &[("engine", "mysql"), ("db_name", "d"), ("identifier", "i")],
    );
    let result = run(&req, &[answered(Api::Rds, 404, "DBInstanceNotFound", "none"), ok("")]);
    assert_eq!(result.state.get("DB_HOST").unwrap(), "");
    assert_eq!(result.state.get("DB_PORT").unwrap(), "3306");
    assert_eq!(result.state.get("DB_NAME").unwrap(), "d");
}

#[test]
fn database_failure_is_reported() {
    let result = run(&request("rds", &[]), &[err("RDS API error 500: down")]);
    assert_eq!(
        result.errors,
        vec!["RDS provisioning error: RDS API error 500: down"]
    );
    assert!(result.state.is_empty());
}

#[test]
fn bucket_is_provisioned() {
    let req = request("s3", &[("bucket_name", "files")]);
    let result = run(&req, &[ok(""), err("ignored")]);
    assert!(result.errors.is_empty());
    assert_eq!(result.state.get("S3_BUCKET").unwrap(), "myorg-files");
    assert_eq!(result.state.get("S3_REGION").unwrap(), "eu-west-1");
    assert_eq!(result.state.get("AWS_REGION").unwrap(), "eu-west-1");
    assert_eq!(keys(&result), sorted(s3_resource().output_keys));
}

#[test]
fn bucket_region_can_be_chosen() {
    let req = request("s3", &[("bucket_name", "files"), ("region", "us-west-2")]);
    let first = match provision(&settings(), &req, &creds(), &vec![]) {
        ProvisionStep::Call(call) => call,
        ProvisionStep::Done(_) => panic!("a call is expected"),
    };
    assert_eq!(first.host, "myorg-files.s3.us-west-2.amazonaws.com");
    let second = match provision(&settings(), &req, &creds(), &vec![Ok(String::new())]) {
        ProvisionStep::Call(call) => call,
        ProvisionStep::Done(_) => panic!("a call is expected"),
    };
    assert_eq!(second.query, "publicAccessBlock");
}

#[test]
fn bucket_failure_is_reported() {
    let result = run(&request("s3", &[]), &[err("S3 CreateBucket error 403: no")]);
    assert_eq!(
        result.errors,
        vec!["S3 provisioning error: S3 CreateBucket error 403: no"]
    );
    assert!(result.state.is_empty());
}

#[test]
fn other_resources_are_unknown() {
    let result = run(&request("dynamo", &[]), &[]);
    assert_eq!(result.errors, vec!["unknown resource_id: dynamo"]);
}

#[test]
fn missing_credentials_are_reported() {
    match provision(&settings(), &request("rds", &[]), &Err("none".to_string()), &vec![]) {
        ProvisionStep::Call(_) => panic!("no call is expected"),
        ProvisionStep::Done(result) => {
            assert_eq!(result.errors, vec!["credentials error: none"]);
            assert!(result.state.is_empty());
        }
    }
}
