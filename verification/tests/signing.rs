use deckwatch_plugin_aws::api::{Api, ApiCall, ApiError};
use deckwatch_plugin_aws::aws_sign::{
    authorization_header, canonical_request, covered_headers, hmac_sha256, sha256_hex, signing_key,
};
use deckwatch_plugin_aws::clock::{clock_request, parse_http_date, utc_now_iso8601};
use deckwatch_plugin_aws::encode::hex;
use deckwatch_plugin_aws::rds::rds_query;
use deckwatch_plugin_aws::transport::HttpReply;
use deckwatch_plugin_aws::AwsCredentials;

fn creds(token: Option<&str>) -> AwsCredentials {
    AwsCredentials {
        access_key: "AKID".to_string(),
        secret_key: "secret".to_string(),
        session_token: token.map(|t| t.to_string()),
        region: "us-east-1".to_string(),
    }
}

fn reply(status: u16, date: Option<&str>, body: &[u8]) -> HttpReply {
    HttpReply {
        status,
        date: date.map(|d| d.to_string()),
        body: body.to_vec(),
    }
}

fn header<'a>(headers: &'a [(String, String)], name: &str) -> Option<&'a str> {
    headers
        .iter()
        .find(|h| h.0 == name)
        .map(|h| h.1.as_str())
}

#[test]
fn hash_of_empty_text() {
    assert_eq!(
        sha256_hex(""),
        "e3b0c44298fc1c149afbf4c8996fb92427ae41e4649b934ca495991b7852b855"
    );
}

#[test]
fn hash_of_texts() {
    assert_eq!(
        sha256_hex("abc"),
        "ba7816bf8f01cfea414140de5dae2223b00361a396177a9cb410ff61f20015ad"
    );
    assert_eq!(
        sha256_hex("é"),
        "4a99557e4033c3539de2eb65472017cad5f9557f7a0625a09f1c3f6e2ba69c4c"
    );
}

#[test]
fn code_of_a_text() {
    let code = hmac_sha256(b"key", "The quick brown fox jumps over the lazy dog");
    assert_eq!(
        hex(&code),
        "f7bc83f430538424b13298e6aa6fb143ef4d59a14946175997479dbc2d1a3cd8"
    );
}

#[test]
fn key_of_the_documented_example() {
    let key = signing_key(
        "wJalrXUtnFEMI/K7MDENG+bPxRfiCYEXAMPLEKEY",
        "20150830",
        "us-east-1",
        "iam",
    );
    assert_eq!(
        hex(&key),
        "c4afb1cc5771d871763a393e44b703571b55cc28424d1a5e86da6ed3c154a4b9"
    );
}

#[test]
fn signature_of_the_documented_example() {
    let value = authorization_header(
        "GET",
        "iam.amazonaws.com",
        "/",
        "Action=ListUsers&Version=2010-05-08",
        "",
        "20150830T123600Z",
        "us-east-1",
        "iam",
        "AKIDEXAMPLE",
        "wJalrXUtnFEMI/K7MDENG+bPxRfiCYEXAMPLEKEY",
        None,
        Some("application/x-www-form-urlencoded; charset=utf-8"),
    );
    assert_eq!(
        value,
        "AWS4-HMAC-SHA256 Credential=AKIDEXAMPLE/20150830/us-east-1/iam/aws4_request, \
         SignedHeaders=content-type;host;x-amz-date, \
         Signature=5d672d79c15b13162d9279b0855cfba6789a8edb4c82c400e06b5924a6f2b5d7"
    );
}

#[test]
fn signature_without_content_type() {
    let value = authorization_header(
        "PUT",
        "b.s3.us-east-1.amazonaws.com",
        "/",
        "versioning",
        "<x/>",
        "20260812T134712Z",
        "us-east-1",
        "s3",
        "AKID",
        "secret",
        None,
        None,
    );
    assert_eq!(
        value,
        "AWS4-HMAC-SHA256 Credential=AKID/20260812/us-east-1/s3/aws4_request, \
         SignedHeaders=host;x-amz-date, \
         Signature=c90e7e4be63c29b118a277d3eb0f2bd4decf090e7460822619db4fb4698aae11"
    );
}

#[test]
fn canonical_request_is_laid_out() {
    let headers = covered_headers("h", "20260812T134712Z", Some("tok"), Some("ct"));
    assert_eq!(
        canonical_request("POST", "/p", "q=1", &headers, "hash"),
        "POST\n/p\nq=1\ncontent-type:ct\nhost:h\nx-amz-date:20260812T134712Z\n\
         x-amz-security-token:tok\n\ncontent-type;host;x-amz-date;x-amz-security-token\nhash"
    );
}

#[test]
fn covered_headers_follow_the_options() {
    let names = |token: Option<&str>, content_type: Option<&str>| -> Vec<String> {
        covered_headers("h", "d", token, content_type)
            .iter()
            .map(|h| h.0.clone())
            .collect()
    };
    assert_eq!(names(None, None), vec!["host", "x-amz-date"]);
    assert_eq!(
        names(Some("t"), Some("c")),
        vec!["content-type", "host", "x-amz-date", "x-amz-security-token"]
    );
}

#[test]
fn database_call_is_signed() {
    let body = "Action=DescribeDBInstances&Version=2014-10-31&DBInstanceIdentifier=db";
    let call = rds_query("us-east-1", body.to_string());
    let req = call.signed_request(&creds(Some("token")), "20260812T134712Z");
    assert_eq!(req.method, "POST");
    assert_eq!(req.url, "https://rds.us-east-1.amazonaws.com/");
    assert_eq!(req.body.as_deref(), Some(body));
    assert_eq!(header(&req.headers, "Host"), Some("rds.us-east-1.amazonaws.com"));
    assert_eq!(header(&req.headers, "X-Amz-Date"), Some("20260812T134712Z"));
    assert_eq!(header(&req.headers, "X-Amz-Security-Token"), Some("token"));
    assert_eq!(header(&req.headers, "X-Amz-Content-Sha256"), None);
    assert_eq!(header(&req.headers, "X-Amz-Target"), None);
    assert_eq!(
        header(&req.headers, "Content-Type"),
        Some("application/x-www-form-urlencoded")
    );
    assert_eq!(
        header(&req.headers, "Authorization"),
        Some(
            "AWS4-HMAC-SHA256 Credential=AKID/20260812/us-east-1/rds/aws4_request, \
             SignedHeaders=content-type;host;x-amz-date;x-amz-security-token, \
             Signature=5b49cdee93c5793a5bc3274aa392413f3faaab524ed40c7f2f6f737958beaeff"
        )
    );
}

#[test]
fn call_without_token_and_body_is_signed() {
    let call = ApiCall {
        api: Api::BackupGet,
        method: "GET".to_string(),
        host: "h".to_string(),
        path: "/p".to_string(),
        query: "a=1".to_string(),
        url: "https://h/p?a=1".to_string(),
        body: None,
        clock_region: "us-east-1".to_string(),
        signing_region: "us-east-1".to_string(),
        service: "backup".to_string(),
        content_type: None,
        target: Some("t.Op".to_string()),
        send_hash: true,
    };
    let req = call.signed_request(&creds(None), "20260812T134712Z");
    let names: Vec<&str> = req.headers.iter().map(|h| h.0.as_str()).collect();
    assert_eq!(
        names,
        vec!["X-Amz-Target", "Host", "X-Amz-Content-Sha256", "X-Amz-Date", "Authorization"]
    );
    assert_eq!(
        header(&req.headers, "X-Amz-Content-Sha256"),
        Some("e3b0c44298fc1c149afbf4c8996fb92427ae41e4649b934ca495991b7852b855")
    );
    assert_eq!(req.body, None);
}

#[test]
fn errors_are_worded_by_the_api() {
    let read = |api: Api, status: u16, body: &str| {
        api.read(status, body.to_string()).map_err(|e| e.text)
    };
    assert_eq!(read(Api::Iam, 399, "ok"), Ok("ok".to_string()));
    assert_eq!(
        read(Api::Iam, 403, "<Message> no </Message>"),
        Err("IAM API error 403: no".to_string())
    );
    assert_eq!(
        read(Api::Rds, 400, "<message>low</message>"),
        Err("RDS API error 400: low".to_string())
    );
    assert_eq!(
        read(Api::Sqs, 500, "plain"),
        Err("SQS API error 500: plain".to_string())
    );
    assert_eq!(
        read(Api::SecretsManager, 400, "{\"message\":\"m\"}"),
        Err("Secrets Manager error 400: {\"message\":\"m\"}".to_string())
    );
    assert_eq!(
        read(Api::BackupPost, 400, "{\"Message\":\"m\"}"),
        Err("AWS Backup API error 400: m".to_string())
    );
    assert_eq!(read(Api::BackupPost, 409, "there"), Ok("there".to_string()));
    assert_eq!(
        read(Api::BackupGet, 409, "{\"message\":\"m\"}"),
        Err("AWS Backup GET error 409: m".to_string())
    );
    assert_eq!(
        read(Api::S3("CreateBucket".to_string()), 409, "<Message>x</Message>"),
        Err("S3 CreateBucket error 409: x".to_string())
    );
    assert_eq!(
        read(Api::S3("Put".to_string()), 400, "<message>x</message>"),
        Err("S3 Put error 400: <message>x</message>".to_string())
    );
}

#[test]
fn error_codes_are_handed_on() {
    let code = |api: Api, body: &str| match api.read(404, body.to_string()) {
        Ok(_) => panic!("an error is expected"),
        Err(e) => e.code,
    };
    let xml = "<Error><Code> NoSuchEntity </Code><Message>m</Message></Error>";
    assert_eq!(code(Api::Iam, xml), Some("NoSuchEntity".to_string()));
    assert_eq!(code(Api::Rds, xml), Some("NoSuchEntity".to_string()));
    assert_eq!(code(Api::Sqs, xml), Some("NoSuchEntity".to_string()));
    assert_eq!(code(Api::S3("Put".to_string()), xml), Some("NoSuchEntity".to_string()));
    assert_eq!(code(Api::Iam, "plain"), None);
    assert_eq!(code(Api::SecretsManager, xml), None);
    assert_eq!(code(Api::BackupGet, xml), None);
}

#[test]
fn outcome_of_what_came_back() {
    let call = rds_query("us-east-1", String::new());
    assert_eq!(
        call.outcome(&Err("refused".to_string())),
        Err(ApiError {
            text: "RDS API HTTP error: refused".to_string(),
            code: None,
        })
    );
    assert_eq!(call.outcome(&Ok(reply(200, None, b"fine"))), Ok("fine".to_string()));
}

#[test]
fn bytes_that_are_not_text_are_replaced() {
    assert_eq!(reply(200, None, b"a\xffb").text(), "a\u{fffd}b");
    assert_eq!(reply(200, None, "é".as_bytes()).text(), "é");
}

#[test]
fn date_header_is_read() {
    assert_eq!(
        parse_http_date("Tue, 12 Aug 2026 13:47:12 GMT"),
        Some("20260812T134712Z".to_string())
    );
    assert_eq!(
        parse_http_date("Thu, 1 Jan 1970 00:00:09 GMT"),
        Some("19700101T000009Z".to_string())
    );
}

#[test]
fn other_dates_are_refused() {
    assert_eq!(parse_http_date(""), None);
    assert_eq!(parse_http_date("12 Aug 2026 13:47:12"), None);
    assert_eq!(parse_http_date("Tue, 12 aug 2026 13:47:12 GMT"), None);
    assert_eq!(parse_http_date("Tue, 12 Aug 2026 13:47 GMT"), None);
    assert_eq!(parse_http_date("Tue, x Aug 2026 13:47:12 GMT"), None);
    assert_eq!(parse_http_date("Tue, 12 Aug 2026 13:47:1x GMT"), None);
}

#[test]
fn every_month_is_read() {
    let months = [
        "Jan", "Feb", "Mar", "Apr", "May", "Jun", "Jul", "Aug", "Sep", "Oct", "Nov", "Dec",
    ];
    for (i, month) in months.iter().enumerate() {
        assert_eq!(
            parse_http_date(&format!("Tue, 02 {month} 2026 03:04:05 GMT")),
            Some(format!("2026{:02}02T030405Z", i + 1))
        );
    }
}

#[test]
fn time_comes_from_the_service() {
    let req = clock_request("eu-west-1");
    assert_eq!(req.method, "HEAD");
    assert_eq!(req.url, "https://sts.eu-west-1.amazonaws.com/");
    assert_eq!(
        req.headers,
        vec![("Host".to_string(), "sts.eu-west-1.amazonaws.com".to_string())]
    );
    assert_eq!(
        utc_now_iso8601(&Ok(reply(302, Some("Tue, 12 Aug 2026 13:47:12 GMT"), b""))),
        "20260812T134712Z"
    );
}

#[test]
fn time_falls_back_to_the_epoch() {
    assert_eq!(utc_now_iso8601(&Err("down".to_string())), "19700101T000000Z");
    assert_eq!(utc_now_iso8601(&Ok(reply(200, None, b""))), "19700101T000000Z");
    assert_eq!(
        utc_now_iso8601(&Ok(reply(200, Some("yesterday"), b""))),
        "19700101T000000Z"
    );
}
