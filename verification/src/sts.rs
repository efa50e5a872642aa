//! STS `AssumeRoleWithWebIdentity`: a workload identity token for temporary AWS
//! credentials.
//!
//! The call is not signed: the web identity token itself authenticates it.
use crate::api;
use crate::credentials;
use crate::credentials::AwsCredentials;
use crate::encode;
use crate::encode::url_encode;
use crate::extract;
use crate::extract::extract_tag;
use crate::number;
use crate::number::to_decimal;
use crate::settings;
use crate::settings::{value_or, ConfigValue};
use crate::split;
use crate::text;
use crate::transport;
use crate::transport::{HttpReply, HttpRequest};
use vstd::prelude::*;
use vstd::string::*;

verus! {

/// The request that exchanges a token for the credentials of a role.
pub open spec fn exchange_call(
    token: Seq<char>,
    role_arn: Seq<char>,
    region: Seq<char>,
) -> transport::HttpRequestView {
    let host = "sts."@ + region + ".amazonaws.com"@;
    transport::HttpRequestView {
        method: "POST"@,
        url: "https://"@ + host + "/"@,
        headers: seq![
            ("Content-Type"@, "application/x-www-form-urlencoded"@),
            ("Host"@, host),
        ],
        body: Some(
            "Action=AssumeRoleWithWebIdentity&Version=2011-06-15&RoleArn="@ + encode::url_text(
                role_arn,
            ) + "&RoleSessionName=deckwatch-plugin&WebIdentityToken="@ + encode::url_text(token)
                + "&DurationSeconds=3600"@,
        ),
    }
}

/// The request that exchanges a token for the credentials of a role.
pub fn call_sts(token: &str, role_arn: &str, region: &str) -> (req: HttpRequest)
    ensures
        req@ == exchange_call(token@, role_arn@, region@),
{
    let host = "sts.".to_owned().concat(region).concat(".amazonaws.com");
    let url = "https://".to_owned().concat(host.as_str()).concat("/");
    let mut body = "Action=AssumeRoleWithWebIdentity&Version=2011-06-15&RoleArn=".to_owned();
    body.append(url_encode(role_arn).as_str());
    body.append("&RoleSessionName=deckwatch-plugin&WebIdentityToken=");
    body.append(url_encode(token).as_str());
    body.append("&DurationSeconds=3600");
    let req = HttpRequest::new("POST", url.as_str()).with_header(
        "Content-Type",
        "application/x-www-form-urlencoded",
    ).with_header("Host", host.as_str()).with_body(Some(body));
    assert(req@ =~= exchange_call(token@, role_arn@, region@));
    req
}

/// What the token and the role in the configuration ask for: an exchange where both
/// are there and not empty, none where one is not, an error where one could not be
/// read.
pub open spec fn exchange_wanted(
    token: ConfigValue,
    role_arn: ConfigValue,
    region: Seq<char>,
) -> Result<Option<transport::HttpRequestView>, Seq<char>> {
    match token {
        Err(e) => Err("config error: "@ + e@),
        Ok(_) => match settings::filled_text(token) {
            None => Ok(None),
            Some(t) => match role_arn {
                Err(e) => Err("config error: "@ + e@),
                Ok(_) => match settings::filled_text(role_arn) {
                    None => Ok(None),
                    Some(r) => Ok(Some(exchange_call(t, r, region))),
                },
            },
        },
    }
}

/// The exchange of a workload identity token for temporary credentials.
///
/// Gives the request to send where both `AWS_IDENTITY_TOKEN` and `AWS_ROLE_ARN` are
/// in the configuration, and `None` where the token or the role is absent, so that
/// the caller falls through to static credentials.
pub fn try_assume_role_with_web_identity(
    token: &ConfigValue,
    role_arn: &ConfigValue,
    region: &str,
) -> (wanted: Result<Option<HttpRequest>, String>)
    ensures
        text::lookup(wanted) == exchange_wanted(*token, *role_arn, region@),
{
    match token {
        Err(e) => Err("config error: ".to_owned().concat(e.as_str())),
        Ok(None) => Ok(None),
        Ok(Some(t)) => {
            if t.as_str().is_empty() {
                return Ok(None);
            }
            match role_arn {
                Err(e) => Err("config error: ".to_owned().concat(e.as_str())),
                Ok(None) => Ok(None),
                Ok(Some(r)) => {
                    if r.as_str().is_empty() {
                        return Ok(None);
                    }
                    Ok(Some(call_sts(t.as_str(), r.as_str(), region)))
                },
            }
        },
    }
}

/// The credentials in an STS reply.
pub open spec fn credentials_in(
    xml: Seq<char>,
    region: Seq<char>,
) -> Result<credentials::AwsCredentialsView, Seq<char>> {
    match (extract::tag_text(xml, "AccessKeyId"@), extract::tag_text(xml, "SecretAccessKey"@)) {
        (None, _) => Err("STS response missing AccessKeyId"@),
        (_, None) => Err("STS response missing SecretAccessKey"@),
        (Some(access_key), Some(secret_key)) => Ok(
            credentials::AwsCredentialsView {
                access_key,
                secret_key,
                session_token: extract::tag_text(xml, "SessionToken"@),
                region,
            },
        ),
    }
}

/// The credentials in an STS reply.
pub fn parse_credentials(xml: &str, region: &str) -> (creds: Result<AwsCredentials, String>)
    ensures
        text::outcome(creds) == credentials_in(xml@, region@),
{
    let access_key = match extract_tag(xml, "AccessKeyId") {
        Some(key) => key,
        None => return Err("STS response missing AccessKeyId".to_owned()),
    };
    let secret_key = match extract_tag(xml, "SecretAccessKey") {
        Some(key) => key,
        None => return Err("STS response missing SecretAccessKey".to_owned()),
    };
    let session_token = extract_tag(xml, "SessionToken");
    Ok(AwsCredentials { access_key, secret_key, session_token, region: region.to_owned() })
}

/// What the exchange gives for a reply with this status and text.
pub open spec fn exchange_result(
    status: nat,
    body: Seq<char>,
    region: Seq<char>,
) -> Result<credentials::AwsCredentialsView, Seq<char>> {
    if status >= 400 {
        Err(
            "STS error "@ + number::decimal(status) + ": "@ + settings::text_or(
                extract::tag_text(body, "Message"@),
                body,
            ),
        )
    } else {
        credentials_in(body, region)
    }
}

/// What the exchange gives for a reply with this status and text.
pub fn read_exchange(status: u16, body: &str, region: &str) -> (creds: Result<
    AwsCredentials,
    String,
>)
    ensures
        text::outcome(creds) == exchange_result(status as nat, body@, region@),
{
    if status >= 400 {
        let msg = value_or(extract_tag(body, "Message"), body);
        let mut error = "STS error ".to_owned();
        error.append(to_decimal(status as u64).as_str());
        error.append(": ");
        error.append(msg.as_str());
        return Err(error);
    }
    parse_credentials(body, region)
}

/// What the exchange gives for what came back.
pub open spec fn exchanged(
    reply: Result<HttpReply, String>,
    region: Seq<char>,
) -> Result<credentials::AwsCredentialsView, Seq<char>> {
    match reply {
        Err(e) => Err("STS HTTP error: "@ + e@),
        Ok(reply) => exchange_result(
            reply.status as nat,
            transport::utf8_lossy(reply.body@),
            region,
        ),
    }
}

/// The credentials that the exchange gives for what came back.
pub fn exchanged_credentials(reply: &Result<HttpReply, String>, region: &str) -> (creds: Result<
    AwsCredentials,
    String,
>)
    ensures
        text::outcome(creds) == exchanged(*reply, region@),
{
    match reply {
        Err(e) => Err("STS HTTP error: ".to_owned().concat(e.as_str())),
        Ok(reply) => read_exchange(reply.status, reply.text().as_str(), region),
    }
}

// ── Laws ──────────────────────────────────────────────────────────────────────

/// An element with a text.
pub open spec fn element(tag: Seq<char>, value: Seq<char>) -> Seq<char> {
    extract::open_tag(tag) + value + extract::close_tag(tag)
}

/// No element of that name begins before position `i`.
pub open spec fn first_at(xml: Seq<char>, tag: Seq<char>, i: int) -> bool {
    forall|j: int| 0 <= j < i ==> !text::occurs_at(xml, extract::open_tag(tag), j)
}

/// The credentials are read back from a reply that holds them, whatever stands around
/// them: where their elements do not begin earlier, and the values hold no markup and
/// no white space around them.
pub proof fn credentials_are_read_back(
    before: Seq<char>,
    access_key: Seq<char>,
    then: Seq<char>,
    secret_key: Seq<char>,
    next: Seq<char>,
    token: Seq<char>,
    after: Seq<char>,
    region: Seq<char>,
)
    requires
        ({
            let head = before + element("AccessKeyId"@, access_key) + then;
            let front = head + element("SecretAccessKey"@, secret_key) + next;
            let xml = front + element("SessionToken"@, token) + after;
            &&& first_at(xml, "AccessKeyId"@, before.len() as int)
            &&& first_at(xml, "SecretAccessKey"@, head.len() as int)
            &&& first_at(xml, "SessionToken"@, front.len() as int)
        }),
        !access_key.contains('<'),
        !secret_key.contains('<'),
        !token.contains('<'),
        split::trimmed(access_key) == access_key,
        split::trimmed(secret_key) == secret_key,
        split::trimmed(token) == token,
    ensures
        credentials_in(
            before + element("AccessKeyId"@, access_key) + then + element(
                "SecretAccessKey"@,
                secret_key,
            ) + next + element("SessionToken"@, token) + after,
            region,
        ) == Ok::<credentials::AwsCredentialsView, Seq<char>>(
            credentials::AwsCredentialsView {
                access_key,
                secret_key,
                session_token: Some(token),
                region,
            },
        ),
{
    let head = before + element("AccessKeyId"@, access_key) + then;
    let front = head + element("SecretAccessKey"@, secret_key) + next;
    let xml = front + element("SessionToken"@, token) + after;
    let after_access = then + element("SecretAccessKey"@, secret_key) + next + element(
        "SessionToken"@,
        token,
    ) + after;
    let after_secret = next + element("SessionToken"@, token) + after;
    element_reads_back(xml, before, "AccessKeyId"@, access_key, after_access);
    element_reads_back(xml, head, "SecretAccessKey"@, secret_key, after_secret);
    element_reads_back(xml, front, "SessionToken"@, token, after);
}

/// The text of an element is read back from where it stands.
proof fn element_reads_back(
    xml: Seq<char>,
    before: Seq<char>,
    tag: Seq<char>,
    value: Seq<char>,
    after: Seq<char>,
)
    requires
        xml =~= before + element(tag, value) + after,
        first_at(xml, tag, before.len() as int),
        !value.contains('<'),
    ensures
        extract::tag_text(xml, tag) == Some(split::trimmed(value)),
{
    assert(xml =~= before + extract::open_tag(tag) + value + extract::close_tag(tag) + after);
    extract::tag_text_reads_back(before, tag, value, after);
}

/// An exchange is asked of the region's own host, without a signature. It sends the role and
/// the token, and asks for credentials that last an hour.
pub proof fn exchange_sends_the_token(token: Seq<char>, role_arn: Seq<char>, region: Seq<char>)
    ensures
        ({
            let req = exchange_call(token, role_arn, region);
            let host = "sts."@ + region + ".amazonaws.com"@;
            &&& req.method == "POST"@ && req.url == "https://"@ + host + "/"@
            &&& req.headers.contains(("Host"@, host))
            &&& forall|i: int|
                0 <= i < req.headers.len() ==> (#[trigger] req.headers[i]).0 != "Authorization"@
            &&& req.body matches Some(form) && {
                &&& "Action=AssumeRoleWithWebIdentity&"@.is_prefix_of(form)
                &&& api::sends(form, "RoleArn"@, role_arn)
                &&& api::sends(form, "WebIdentityToken"@, token)
                &&& "&DurationSeconds=3600"@.is_suffix_of(form)
            }
        }),
{
    reveal_strlit("=");
    reveal_strlit("Host");
    reveal_strlit("Content-Type");
    reveal_strlit("Authorization");
    reveal_strlit("RoleArn");
    reveal_strlit("WebIdentityToken");
    reveal_strlit("&DurationSeconds=3600");
    reveal_strlit("Action=AssumeRoleWithWebIdentity&");
    reveal_strlit("Action=AssumeRoleWithWebIdentity&Version=2011-06-15&RoleArn=");
    reveal_strlit("&RoleSessionName=deckwatch-plugin&WebIdentityToken=");
    let req = exchange_call(token, role_arn, region);
    assert("Authorization"@.len() == 13 && "Host"@.len() == 4 && "Content-Type"@.len() == 12);
    assert(req.headers[1].0 == "Host"@);
    let form = req.body->0;
    let head = "Action=AssumeRoleWithWebIdentity&Version=2011-06-15&RoleArn="@;
    let session = "&RoleSessionName=deckwatch-plugin&WebIdentityToken="@;
    let tail = "&DurationSeconds=3600"@;
    assert(form.subrange(0, 33) =~= "Action=AssumeRoleWithWebIdentity&"@);
    assert(form.subrange(form.len() - tail.len(), form.len() as int) =~= tail);
    assert(api::sends(form, "RoleArn"@, role_arn)) by {
        let before = head.take(52);
        let after = session + encode::url_text(token) + tail;
        assert(head =~= before + "RoleArn"@ + "="@);
        assert(form =~= before + "RoleArn"@ + "="@ + encode::url_text(role_arn) + after);
        api::field_is_sent(before, "RoleArn"@, role_arn, after);
    }
    assert(api::sends(form, "WebIdentityToken"@, token)) by {
        let front = session.take(34);
        let before = head + encode::url_text(role_arn) + front;
        assert(session =~= front + "WebIdentityToken"@ + "="@);
        assert(form =~= before + "WebIdentityToken"@ + "="@ + encode::url_text(token) + tail);
        api::field_is_sent(before, "WebIdentityToken"@, token, tail);
    }
}

/// An exchange is asked for if and only if there is a token and a role, neither of them
/// empty. What could not be read is an error that says why.
pub proof fn exchange_needs_a_token_and_a_role(
    token: ConfigValue,
    role_arn: ConfigValue,
    region: Seq<char>,
)
    ensures
        exchange_wanted(token, role_arn, region) matches Ok(Some(_)) <==> {
            &&& token matches Ok(Some(t)) && t@.len() > 0
            &&& role_arn matches Ok(Some(r)) && r@.len() > 0
        },
        token matches Err(e) ==> (exchange_wanted(token, role_arn, region) matches Err(why)
            && e@.is_suffix_of(why)),
        token matches Ok(Some(t)) && t@.len() > 0 ==> (role_arn matches Err(e) ==> (
        exchange_wanted(token, role_arn, region) matches Err(why) && e@.is_suffix_of(why))),
{
    if let Err(e) = token {
        let why = "config error: "@ + e@;
        assert(why.subrange(why.len() - e@.len(), why.len() as int) =~= e@);
    }
    if let Err(e) = role_arn {
        let why = "config error: "@ + e@;
        assert(why.subrange(why.len() - e@.len(), why.len() as int) =~= e@);
    }
}

/// A reply gives credentials if and only if it is no error and holds both keys: those keys,
/// the session token where there is one, and the region asked for.
pub proof fn reply_gives_its_credentials(status: nat, body: Seq<char>, region: Seq<char>)
    ensures
        exchange_result(status, body, region) is Ok <==> status < 400 && extract::tag_text(
            body,
            "AccessKeyId"@,
        ) is Some && extract::tag_text(body, "SecretAccessKey"@) is Some,
        exchange_result(status, body, region) matches Ok(creds) ==> {
            &&& extract::tag_text(body, "AccessKeyId"@) == Some(creds.access_key)
            &&& extract::tag_text(body, "SecretAccessKey"@) == Some(creds.secret_key)
            &&& extract::tag_text(body, "SessionToken"@) == creds.session_token
            &&& creds.region == region
        },
{
}

/// An error reply is worded by its status and its message, or its whole text where it holds
/// none; a request that could not be sent, by what went wrong.
pub proof fn failed_exchange_is_worded(
    status: nat,
    body: Seq<char>,
    region: Seq<char>,
    e: String,
)
    requires
        status >= 400,
    ensures
        exchange_result(status, body, region) matches Err(why) && {
            &&& text::contains_text(why, " "@ + number::decimal(status) + ": "@)
            &&& extract::tag_text(body, "Message"@) matches Some(m) ==> m.is_suffix_of(why)
            &&& extract::tag_text(body, "Message"@) is None ==> body.is_suffix_of(why)
        },
        exchanged(Err(e), region) matches Err(why) && e@.is_suffix_of(why),
{
    reveal_strlit("STS error ");
    reveal_strlit("STS error");
    reveal_strlit(" ");
    let said = settings::text_or(extract::tag_text(body, "Message"@), body);
    let why = "STS error "@ + number::decimal(status) + ": "@ + said;
    let inner = " "@ + number::decimal(status) + ": "@;
    assert(why =~= "STS error"@ + inner + said);
    text::middle_is_contained("STS error"@, inner, said);
    assert(why.subrange(why.len() - said.len(), why.len() as int) =~= said);
    let why = "STS HTTP error: "@ + e@;
    assert(why.subrange(why.len() - e@.len(), why.len() as int) =~= e@);
}

} // verus!
