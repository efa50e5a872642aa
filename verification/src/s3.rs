//! S3 bucket provisioning via the AWS S3 REST API.
//!
//! Uses virtual-hosted-style endpoints (`{bucket}.s3.{region}.amazonaws.com`) and
//! sends `X-Amz-Content-Sha256` with all signed requests. `CreateBucket` is called
//! directly, as it is idempotent for owned buckets.
use crate::api;
use crate::api::{Api, ApiCall, ApiError, Reply, Step};
use crate::config;
use crate::config::S3Config;
use crate::extract;
use crate::number;
use crate::number::to_decimal;
use crate::text;
use crate::text::{contains, same_text};
use vstd::prelude::*;
use vstd::string::*;

verus! {

// ── Calls ─────────────────────────────────────────────────────────────────────

/// A PUT to a bucket's own host.
pub open spec fn bucket_call(
    op: Seq<char>,
    bucket: Seq<char>,
    region: Seq<char>,
    query: Seq<char>,
    target: Seq<char>,
    body: Seq<char>,
    content_type: Option<Seq<char>>,
) -> api::ApiCallView {
    let host = bucket + ".s3."@ + region + ".amazonaws.com"@;
    api::ApiCallView {
        api: api::ApiView::S3(op),
        method: "PUT"@,
        host,
        path: "/"@,
        query,
        url: "https://"@ + host + target,
        body: Some(body),
        clock_region: region,
        signing_region: region,
        service: "s3"@,
        content_type,
        target: None,
        send_hash: true,
    }
}

/// A PUT to a bucket's own host. `target` is what follows the host in the URL.
fn bucket_put(
    op: &str,
    bucket: &str,
    region: &str,
    query: &str,
    target: &str,
    body: String,
    content_type: Option<String>,
) -> (call: ApiCall)
    ensures
        call@ == bucket_call(
            op@,
            bucket@,
            region@,
            query@,
            target@,
            body@,
            text::opt_text(content_type),
        ),
{
    let host = bucket.to_owned().concat(".s3.").concat(region).concat(".amazonaws.com");
    let url = "https://".to_owned().concat(host.as_str()).concat(target);
    ApiCall {
        api: Api::S3(op.to_owned()),
        method: "PUT".to_owned(),
        host,
        path: "/".to_owned(),
        query: query.to_owned(),
        url,
        body: Some(body),
        clock_region: region.to_owned(),
        signing_region: region.to_owned(),
        service: "s3".to_owned(),
        content_type,
        target: None,
        send_hash: true,
    }
}

/// The call that creates a bucket. `us-east-1` must not be named in its body.
pub open spec fn create_bucket_call(bucket: Seq<char>, region: Seq<char>) -> api::ApiCallView {
    if region == "us-east-1"@ {
        bucket_call("CreateBucket"@, bucket, region, ""@, "/"@, Seq::empty(), None)
    } else {
        bucket_call(
            "CreateBucket"@,
            bucket,
            region,
            ""@,
            "/"@,
            r#"<CreateBucketConfiguration xmlns="http://s3.amazonaws.com/doc/2006-03-01/"><LocationConstraint>"#@
                + region + "</LocationConstraint></CreateBucketConfiguration>"@,
            Some("application/xml"@),
        )
    }
}

/// The call that creates a bucket.
pub fn create_bucket(bucket: &str, region: &str) -> (call: ApiCall)
    ensures
        call@ == create_bucket_call(bucket@, region@),
{
    if same_text(region, "us-east-1") {
        bucket_put("CreateBucket", bucket, region, "", "/", String::new(), None)
    } else {
        let mut body =
            r#"<CreateBucketConfiguration xmlns="http://s3.amazonaws.com/doc/2006-03-01/"><LocationConstraint>"#.to_owned();
        body.append(region);
        body.append("</LocationConstraint></CreateBucketConfiguration>");
        bucket_put(
            "CreateBucket",
            bucket,
            region,
            "",
            "/",
            body,
            Some("application/xml".to_owned()),
        )
    }
}

/// The call that puts a bucket's configuration.
pub open spec fn s3_put_call(
    bucket: Seq<char>,
    region: Seq<char>,
    sub_resource: Seq<char>,
    body: Seq<char>,
    op: Seq<char>,
) -> api::ApiCallView {
    bucket_call(
        op,
        bucket,
        region,
        sub_resource,
        "/?"@ + sub_resource,
        body,
        Some("application/xml"@),
    )
}

/// The call that puts a bucket's configuration.
pub fn s3_put(bucket: &str, region: &str, sub_resource: &str, body: String, op: &str) -> (call:
    ApiCall)
    ensures
        call@ == s3_put_call(bucket@, region@, sub_resource@, body@, op@),
{
    let target = "/?".to_owned().concat(sub_resource);
    bucket_put(
        op,
        bucket,
        region,
        sub_resource,
        target.as_str(),
        body,
        Some("application/xml".to_owned()),
    )
}

/// The call that turns versioning on.
pub open spec fn versioning_call(bucket: Seq<char>, region: Seq<char>) -> api::ApiCallView {
    s3_put_call(
        bucket,
        region,
        "versioning"@,
        r#"<VersioningConfiguration xmlns="http://s3.amazonaws.com/doc/2006-03-01/"><Status>Enabled</Status></VersioningConfiguration>"#@,
        "PutBucketVersioning"@,
    )
}

/// The call that turns versioning on.
pub fn put_bucket_versioning(bucket: &str, region: &str) -> (call: ApiCall)
    ensures
        call@ == versioning_call(bucket@, region@),
{
    s3_put(
        bucket,
        region,
        "versioning",
        r#"<VersioningConfiguration xmlns="http://s3.amazonaws.com/doc/2006-03-01/"><Status>Enabled</Status></VersioningConfiguration>"#.to_owned(),
        "PutBucketVersioning",
    )
}

/// The call that blocks all public access.
pub open spec fn access_block_call(bucket: Seq<char>, region: Seq<char>) -> api::ApiCallView {
    s3_put_call(
        bucket,
        region,
        "publicAccessBlock"@,
        r#"<PublicAccessBlockConfiguration xmlns="http://s3.amazonaws.com/doc/2006-03-01/"><BlockPublicAcls>true</BlockPublicAcls><IgnorePublicAcls>true</IgnorePublicAcls><BlockPublicPolicy>true</BlockPublicPolicy><RestrictPublicBuckets>true</RestrictPublicBuckets></PublicAccessBlockConfiguration>"#@,
        "PutPublicAccessBlock"@,
    )
}

/// The call that blocks all public access.
pub fn put_public_access_block(bucket: &str, region: &str) -> (call: ApiCall)
    ensures
        call@ == access_block_call(bucket@, region@),
{
    s3_put(
        bucket,
        region,
        "publicAccessBlock",
        r#"<PublicAccessBlockConfiguration xmlns="http://s3.amazonaws.com/doc/2006-03-01/"><BlockPublicAcls>true</BlockPublicAcls><IgnorePublicAcls>true</IgnorePublicAcls><BlockPublicPolicy>true</BlockPublicPolicy><RestrictPublicBuckets>true</RestrictPublicBuckets></PublicAccessBlockConfiguration>"#.to_owned(),
        "PutPublicAccessBlock",
    )
}

/// The call that has objects expire after some days.
pub open spec fn lifecycle_call(bucket: Seq<char>, region: Seq<char>, days: nat) -> api::ApiCallView {
    s3_put_call(
        bucket,
        region,
        "lifecycle"@,
        r#"<LifecycleConfiguration xmlns="http://s3.amazonaws.com/doc/2006-03-01/"><Rule><ID>deckwatch-expire</ID><Status>Enabled</Status><Filter></Filter><Expiration><Days>"#@
            + number::decimal(days) + "</Days></Expiration></Rule></LifecycleConfiguration>"@,
        "PutBucketLifecycleConfiguration"@,
    )
}

/// The call that has objects expire after some days.
pub fn put_bucket_lifecycle(bucket: &str, region: &str, days: u32) -> (call: ApiCall)
    ensures
        call@ == lifecycle_call(bucket@, region@, days as nat),
{
    let mut body =
        r#"<LifecycleConfiguration xmlns="http://s3.amazonaws.com/doc/2006-03-01/"><Rule><ID>deckwatch-expire</ID><Status>Enabled</Status><Filter></Filter><Expiration><Days>"#.to_owned();
    body.append(to_decimal(days as u64).as_str());
    body.append("</Days></Expiration></Rule></LifecycleConfiguration>");
    s3_put(bucket, region, "lifecycle", body, "PutBucketLifecycleConfiguration")
}

// ── The flow ──────────────────────────────────────────────────────────────────

/// Whether creating the bucket failed for another reason than that it is there: neither
/// the error code says that it is owned, nor the wording that it is owned or exists.
pub open spec fn bucket_missing(reply: api::ReplyView) -> bool {
    match reply {
        Ok(_) => false,
        Err(e) => e.code != Some("BucketAlreadyOwnedByYou"@) && !text::contains_text(
            e.text,
            "BucketAlreadyOwnedByYou"@,
        ) && !text::contains_text(e.text, "BucketAlreadyExists"@),
    }
}

/// Whether creating the bucket failed for another reason than that it is there.
fn is_missing(e: &ApiError) -> (missing: bool)
    ensures
        missing == bucket_missing(Err(e@)),
{
    !e.has_code("BucketAlreadyOwnedByYou") && !contains(
        e.text.as_str(),
        "BucketAlreadyOwnedByYou",
    ) && !contains(e.text.as_str(), "BucketAlreadyExists")
}

/// The calls that configure a bucket, in their order.
pub open spec fn settings_calls(
    cfg: config::S3ConfigView,
    full_bucket: Seq<char>,
) -> Seq<api::ApiCallView> {
    let first = if cfg.versioning {
        seq![versioning_call(full_bucket, cfg.region)]
    } else {
        Seq::empty()
    };
    let second = if cfg.public_access_block {
        first.push(access_block_call(full_bucket, cfg.region))
    } else {
        first
    };
    match cfg.lifecycle_days {
        Some(days) => second.push(lifecycle_call(full_bucket, cfg.region, days)),
        None => second,
    }
}

/// The flow of [`ensure_bucket`]: create the bucket and, where it is there then,
/// configure it, one call after the other, whatever comes back for them.
pub open spec fn ensure_bucket_step(
    cfg: config::S3ConfigView,
    full_bucket: Seq<char>,
    replies: Seq<api::ReplyView>,
    at: int,
) -> api::StepView<()> {
    let calls = settings_calls(cfg, full_bucket);
    if replies.len() <= at {
        api::StepView::Call(create_bucket_call(full_bucket, cfg.region))
    } else if bucket_missing(replies[at]) {
        api::StepView::Done(Err(replies[at]->Err_0.text), at + 1)
    } else if replies.len() - (at + 1) < calls.len() {
        api::StepView::Call(calls[replies.len() - (at + 1)])
    } else {
        api::StepView::Done(Ok(()), at + 1 + calls.len())
    }
}

/// Ensures that the S3 bucket exists, creating it where it does not, and configures it.
pub fn ensure_bucket(
    cfg: &S3Config,
    full_bucket: &str,
    replies: &Vec<Reply>,
    at: usize,
) -> (step: Step<()>)
    requires
        at <= replies@.len(),
    ensures
        step@ == ensure_bucket_step(cfg@, full_bucket@, api::outcomes(replies@), at as int),
        step matches Step::Done(_, next) ==> at <= next <= replies@.len(),
{
    let region: &str = cfg.region.as_str();
    if at >= replies.len() {
        return Step::Call(create_bucket(full_bucket, region));
    }
    if let Err(e) = &replies[at] {
        if is_missing(e) {
            return Step::Done(Err(e.text.clone()), at + 1);
        }
    }
    let mut next: usize = at + 1;
    if cfg.versioning {
        if next >= replies.len() {
            return Step::Call(put_bucket_versioning(full_bucket, region));
        }
        next += 1;
    }
    if cfg.public_access_block {
        if next >= replies.len() {
            return Step::Call(put_public_access_block(full_bucket, region));
        }
        next += 1;
    }
    if let Some(days) = cfg.lifecycle_days {
        if next >= replies.len() {
            return Step::Call(put_bucket_lifecycle(full_bucket, region, days));
        }
        next += 1;
    }
    Step::Done(Ok(()), next)
}

// ── Laws ──────────────────────────────────────────────────────────────────────

/// A bucket that is there, created now or before, is ready whatever comes back for
/// its configuration.
pub proof fn configuration_never_fails_a_bucket(
    cfg: config::S3ConfigView,
    full_bucket: Seq<char>,
    replies: Seq<api::ReplyView>,
    at: int,
)
    requires
        0 <= at < replies.len(),
        !bucket_missing(replies[at]),
        at + 1 + settings_calls(cfg, full_bucket).len() <= replies.len(),
    ensures
        ensure_bucket_step(cfg, full_bucket, replies, at) == api::StepView::Done(
            Ok::<(), Seq<char>>(()),
            at + 1 + settings_calls(cfg, full_bucket).len(),
        ),
{
}

/// A bucket that S3 reports as owned already is ready, and configured like a new one,
/// whatever the message.
pub proof fn owned_bucket_is_configured(
    cfg: config::S3ConfigView,
    full_bucket: Seq<char>,
    replies: Seq<api::ReplyView>,
    at: int,
    status: nat,
    body: Seq<char>,
)
    requires
        0 <= at < replies.len(),
        status >= 400,
        extract::tag_text(body, "Code"@) == Some("BucketAlreadyOwnedByYou"@),
        replies[at] == api::ApiView::S3("CreateBucket"@).result(status, body),
    ensures
        ({
            let calls = settings_calls(cfg, full_bucket);
            let made = replies.len() - (at + 1);
            ensure_bucket_step(cfg, full_bucket, replies, at) == if made < calls.len() {
                api::StepView::Call(calls[made])
            } else {
                api::StepView::Done(Ok::<(), Seq<char>>(()), at + 1 + calls.len())
            }
        }),
{
}

/// A bucket that could not be created is not configured.
pub proof fn missing_bucket_is_not_configured(
    cfg: config::S3ConfigView,
    full_bucket: Seq<char>,
    replies: Seq<api::ReplyView>,
    at: int,
)
    requires
        0 <= at < replies.len(),
        bucket_missing(replies[at]),
    ensures
        ensure_bucket_step(cfg, full_bucket, replies, at) == api::StepView::Done(
            Err::<(), Seq<char>>(replies[at]->Err_0.text),
            at + 1,
        ),
{
}

/// Public access is blocked on every bucket for which that is not switched off.
pub proof fn public_access_is_blocked(cfg: config::S3ConfigView, full_bucket: Seq<char>)
    requires
        cfg.public_access_block,
    ensures
        settings_calls(cfg, full_bucket).contains(access_block_call(full_bucket, cfg.region)),
{
    let at = if cfg.versioning {
        1int
    } else {
        0int
    };
    assert(settings_calls(cfg, full_bucket)[at] == access_block_call(full_bucket, cfg.region));
}

/// A call goes to the bucket's own host, and is signed for the bucket's region.
pub open spec fn goes_to(call: api::ApiCallView, bucket: Seq<char>, region: Seq<char>) -> bool {
    &&& call.api is S3 && call.method == "PUT"@ && call.service == "s3"@ && call.path == "/"@
    &&& call.host == bucket + ".s3."@ + region + ".amazonaws.com"@
    &&& call.signing_region == region && call.clock_region == region
    &&& call.send_hash && call.target is None && call.body is Some
    &&& call.query.len() == 0 ==> call.url == "https://"@ + call.host + "/"@
    &&& call.query.len() > 0 ==> call.url == "https://"@ + call.host + "/?"@ + call.query
}

/// A bucket is created at its own host, in its region: outside `us-east-1` the region is
/// named in the request, and there nothing is.
pub proof fn bucket_is_created_in_its_region(bucket: Seq<char>, region: Seq<char>)
    ensures
        ({
            let call = create_bucket_call(bucket, region);
            &&& goes_to(call, bucket, region)
            &&& call.api == api::ApiView::S3("CreateBucket"@)
            &&& call.query.len() == 0
            &&& region == "us-east-1"@ ==> call.body->0.len() == 0 && call.content_type is None
            &&& region != "us-east-1"@ ==> text::contains_text(
                call.body->0,
                "<LocationConstraint>"@ + region + "</LocationConstraint>"@,
            ) && call.content_type == Some("application/xml"@)
        }),
{
    reveal_strlit("");
    let call = create_bucket_call(bucket, region);
    if region != "us-east-1"@ {
        reveal_strlit("<LocationConstraint>");
        reveal_strlit("</LocationConstraint>");
        reveal_strlit("</LocationConstraint></CreateBucketConfiguration>");
        reveal_strlit(
            r#"<CreateBucketConfiguration xmlns="http://s3.amazonaws.com/doc/2006-03-01/"><LocationConstraint>"#,
        );
        let head =
            r#"<CreateBucketConfiguration xmlns="http://s3.amazonaws.com/doc/2006-03-01/"><LocationConstraint>"#@;
        let tail = "</LocationConstraint></CreateBucketConfiguration>"@;
        let inner = "<LocationConstraint>"@ + region + "</LocationConstraint>"@;
        let before = head.take(head.len() - 20);
        let after = tail.skip(21);
        assert(head =~= before + "<LocationConstraint>"@);
        assert(tail =~= "</LocationConstraint>"@ + after);
        assert(call.body->0 =~= before + inner + after);
        text::middle_is_contained(before, inner, after);
    }
}

/// The settings are put on the bucket itself, each under its own name and as what it
/// says: versioning enabled, every kind of public access blocked, expiry after the days.
pub proof fn settings_say_what_they_are_for(bucket: Seq<char>, region: Seq<char>, days: nat)
    ensures
        ({
            let versions = versioning_call(bucket, region);
            let block = access_block_call(bucket, region);
            let expiry = lifecycle_call(bucket, region, days);
            &&& versions.content_type == Some("application/xml"@)
            &&& block.content_type == Some("application/xml"@)
            &&& expiry.content_type == Some("application/xml"@)
            &&& goes_to(versions, bucket, region) && versions.query == "versioning"@
            &&& text::contains_text(versions.body->0, "<Status>Enabled</Status>"@)
            &&& goes_to(block, bucket, region) && block.query == "publicAccessBlock"@
            &&& text::contains_text(block.body->0, "<BlockPublicAcls>true<"@)
            &&& text::contains_text(block.body->0, "<IgnorePublicAcls>true<"@)
            &&& text::contains_text(block.body->0, "<BlockPublicPolicy>true<"@)
            &&& text::contains_text(block.body->0, "<RestrictPublicBuckets>true<"@)
            &&& goes_to(expiry, bucket, region) && expiry.query == "lifecycle"@
            &&& text::contains_text(expiry.body->0, "<Status>Enabled</Status>"@)
            &&& text::contains_text(
                expiry.body->0,
                "<Expiration><Days>"@ + number::decimal(days) + "</Days></Expiration>"@,
            )
        }),
{
    reveal_strlit("versioning");
    reveal_strlit("publicAccessBlock");
    reveal_strlit("lifecycle");
    reveal_strlit("/?");
    let versions = versioning_call(bucket, region);
    let block = access_block_call(bucket, region);
    let expiry = lifecycle_call(bucket, region, days);
    assert(goes_to(versions, bucket, region) && goes_to(block, bucket, region) && goes_to(
        expiry,
        bucket,
        region,
    )) by {
        let at = "https://"@ + (bucket + ".s3."@ + region + ".amazonaws.com"@);
        assert(at + ("/?"@ + "versioning"@) =~= at + "/?"@ + "versioning"@);
        assert(at + ("/?"@ + "publicAccessBlock"@) =~= at + "/?"@ + "publicAccessBlock"@);
        assert(at + ("/?"@ + "lifecycle"@) =~= at + "/?"@ + "lifecycle"@);
    }
    versioning_is_enabled(bucket, region);
    access_is_blocked(bucket, region);
    expiry_is_set(bucket, region, days);
}

/// What turns versioning on says so.
proof fn versioning_is_enabled(bucket: Seq<char>, region: Seq<char>)
    ensures
        text::contains_text(
            versioning_call(bucket, region).body->0,
            "<Status>Enabled</Status>"@,
        ),
{
    reveal_strlit("<Status>Enabled</Status>");
    reveal_strlit(
        r#"<VersioningConfiguration xmlns="http://s3.amazonaws.com/doc/2006-03-01/"><Status>Enabled</Status></VersioningConfiguration>"#,
    );
    let body = versioning_call(bucket, region).body->0;
    let at: int = 73;
    assert(body.subrange(at, at + 24) =~= "<Status>Enabled</Status>"@);
    assert(text::occurs_at(body, "<Status>Enabled</Status>"@, at));
}

/// What blocks public access names each kind of it.
proof fn access_is_blocked(bucket: Seq<char>, region: Seq<char>)
    ensures
        ({
            let body = access_block_call(bucket, region).body->0;
            &&& text::contains_text(body, "<BlockPublicAcls>true<"@)
            &&& text::contains_text(body, "<IgnorePublicAcls>true<"@)
            &&& text::contains_text(body, "<BlockPublicPolicy>true<"@)
            &&& text::contains_text(body, "<RestrictPublicBuckets>true<"@)
        }),
{
    reveal_strlit("<BlockPublicAcls>true<");
    reveal_strlit("<IgnorePublicAcls>true<");
    reveal_strlit("<BlockPublicPolicy>true<");
    reveal_strlit("<RestrictPublicBuckets>true<");
    reveal_strlit(
        r#"<PublicAccessBlockConfiguration xmlns="http://s3.amazonaws.com/doc/2006-03-01/"><BlockPublicAcls>true</BlockPublicAcls><IgnorePublicAcls>true</IgnorePublicAcls><BlockPublicPolicy>true</BlockPublicPolicy><RestrictPublicBuckets>true</RestrictPublicBuckets></PublicAccessBlockConfiguration>"#,
    );
    let body = access_block_call(bucket, region).body->0;
    let (a, b, c, d): (int, int, int, int) = (80, 119, 160, 203);
    assert(body.subrange(a, a + 22) =~= "<BlockPublicAcls>true<"@);
    assert(text::occurs_at(body, "<BlockPublicAcls>true<"@, a));
    assert(body.subrange(b, b + 23) =~= "<IgnorePublicAcls>true<"@);
    assert(text::occurs_at(body, "<IgnorePublicAcls>true<"@, b));
    assert(body.subrange(c, c + 24) =~= "<BlockPublicPolicy>true<"@);
    assert(text::occurs_at(body, "<BlockPublicPolicy>true<"@, c));
    assert(body.subrange(d, d + 28) =~= "<RestrictPublicBuckets>true<"@);
    assert(text::occurs_at(body, "<RestrictPublicBuckets>true<"@, d));
}

/// What has objects expire is enabled, and says after how many days.
proof fn expiry_is_set(bucket: Seq<char>, region: Seq<char>, days: nat)
    ensures
        ({
            let body = lifecycle_call(bucket, region, days).body->0;
            &&& text::contains_text(body, "<Status>Enabled</Status>"@)
            &&& text::contains_text(
                body,
                "<Expiration><Days>"@ + number::decimal(days) + "</Days></Expiration>"@,
            )
        }),
{
    reveal_strlit("<Status>Enabled</Status>");
    reveal_strlit("<Expiration><Days>");
    reveal_strlit("</Days></Expiration>");
    reveal_strlit("</Days></Expiration></Rule></LifecycleConfiguration>");
    reveal_strlit(
        r#"<LifecycleConfiguration xmlns="http://s3.amazonaws.com/doc/2006-03-01/"><Rule><ID>deckwatch-expire</ID><Status>Enabled</Status><Filter></Filter><Expiration><Days>"#,
    );
    let head =
        r#"<LifecycleConfiguration xmlns="http://s3.amazonaws.com/doc/2006-03-01/"><Rule><ID>deckwatch-expire</ID><Status>Enabled</Status><Filter></Filter><Expiration><Days>"#@;
    let tail = "</Days></Expiration></Rule></LifecycleConfiguration>"@;
    let body = lifecycle_call(bucket, region, days).body->0;
    let at: int = 103;
    assert(body.subrange(at, at + 24) =~= "<Status>Enabled</Status>"@);
    assert(text::occurs_at(body, "<Status>Enabled</Status>"@, at));
    let before = head.take(head.len() - 18);
    let inner = "<Expiration><Days>"@ + number::decimal(days) + "</Days></Expiration>"@;
    assert(head =~= before + "<Expiration><Days>"@);
    assert(tail =~= "</Days></Expiration>"@ + tail.skip(20));
    assert(body =~= before + inner + tail.skip(20));
    text::middle_is_contained(before, inner, tail.skip(20));
}

/// A bucket gets exactly the settings that are asked for, in a fixed order, and all of
/// them on itself in its region.
pub proof fn settings_are_those_asked_for(cfg: config::S3ConfigView, full_bucket: Seq<char>)
    ensures
        ({
            let calls = settings_calls(cfg, full_bucket);
            &&& calls.contains(versioning_call(full_bucket, cfg.region)) <==> cfg.versioning
            &&& cfg.versioning ==> calls[0] == versioning_call(full_bucket, cfg.region)
            &&& calls.contains(access_block_call(full_bucket, cfg.region))
                <==> cfg.public_access_block
            &&& forall|days: nat|
                #[trigger] calls.contains(lifecycle_call(full_bucket, cfg.region, days))
                    ==> cfg.lifecycle_days is Some
            &&& cfg.lifecycle_days is Some ==> calls.last() == lifecycle_call(
                full_bucket,
                cfg.region,
                cfg.lifecycle_days->0,
            )
            &&& calls.len() == (if cfg.versioning {
                1int
            } else {
                0
            }) + (if cfg.public_access_block {
                1int
            } else {
                0
            }) + (if cfg.lifecycle_days is Some {
                1int
            } else {
                0
            })
            &&& forall|i: int|
                0 <= i < calls.len() ==> goes_to(#[trigger] calls[i], full_bucket, cfg.region)
        }),
{
    let calls = settings_calls(cfg, full_bucket);
    let days = match cfg.lifecycle_days {
        Some(days) => days,
        None => 0nat,
    };
    settings_say_what_they_are_for(full_bucket, cfg.region, days);
    queries_are_told_apart();
    let versions = versioning_call(full_bucket, cfg.region);
    let block = access_block_call(full_bucket, cfg.region);
    let at: int = if cfg.versioning {
        1
    } else {
        0
    };
    if cfg.versioning {
        assert(calls[0] == versions);
    }
    if cfg.public_access_block {
        assert(calls[at] == block);
    }
}

/// The settings are put under different names.
proof fn queries_are_told_apart()
    ensures
        "versioning"@ != "publicAccessBlock"@,
        "versioning"@ != "lifecycle"@,
        "publicAccessBlock"@ != "lifecycle"@,
{
    reveal_strlit("versioning");
    reveal_strlit("publicAccessBlock");
    reveal_strlit("lifecycle");
    assert("versioning"@.len() == 10 && "publicAccessBlock"@.len() == 17 && "lifecycle"@.len()
        == 9);
}

/// The flow begins with creating the bucket under its full name, in its region.
pub proof fn bucket_is_created_first(
    cfg: config::S3ConfigView,
    full_bucket: Seq<char>,
    replies: Seq<api::ReplyView>,
)
    ensures
        ensure_bucket_step(cfg, full_bucket, replies, replies.len() as int) matches
            api::StepView::Call(call) && call.api == api::ApiView::S3("CreateBucket"@) && goes_to(
            call,
            full_bucket,
            cfg.region,
        ),
{
    bucket_is_created_in_its_region(full_bucket, cfg.region);
}

/// Whatever the flow asks for, it asks of the bucket itself in its region.
pub proof fn flow_stays_with_the_bucket(
    cfg: config::S3ConfigView,
    full_bucket: Seq<char>,
    replies: Seq<api::ReplyView>,
    at: int,
)
    requires
        0 <= at,
    ensures
        ensure_bucket_step(cfg, full_bucket, replies, at) matches api::StepView::Call(call)
            ==> goes_to(call, full_bucket, cfg.region),
{
    bucket_is_created_in_its_region(full_bucket, cfg.region);
    settings_are_those_asked_for(cfg, full_bucket);
}

/// A creation that failed is passed over if and only if the code says that the bucket is
/// owned, or the wording that it is owned or exists.
pub proof fn only_an_existing_bucket_is_passed_over(e: api::ApiErrorView)
    ensures
        !bucket_missing(Err(e)) <==> {
            ||| e.code == Some("BucketAlreadyOwnedByYou"@)
            ||| text::contains_text(e.text, "BucketAlreadyOwnedByYou"@)
            ||| text::contains_text(e.text, "BucketAlreadyExists"@)
        },
{
}

} // verus!
