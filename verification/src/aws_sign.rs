//! AWS Signature Version 4.
//!
//! Reference: <https://docs.aws.amazon.com/general/latest/gr/sigv4-create-canonical-request.html>
use crate::encode;
use crate::encode::hex;
use crate::split;
use crate::split::Separator;
use crate::text;
use crate::text::join;
use hmac::{Hmac, Mac};
use sha2::{Digest, Sha256};
use vstd::prelude::*;
use vstd::string::*;
use vstd::utf8::*;

verus! {

broadcast use {crate::text::texts_push, crate::text::pairs_push};

// ── Hashes ────────────────────────────────────────────────────────────────────

/// The SHA-256 digest of the data.
pub uninterp spec fn sha256_digest(data: Seq<u8>) -> Seq<u8>;

/// The HMAC-SHA-256 code of the data under the key.
pub uninterp spec fn hmac_sha256_code(key: Seq<u8>, data: Seq<u8>) -> Seq<u8>;

/// `sha2::Sha256::digest` gives the 32 bytes of the SHA-256 digest, a function of
/// the data alone.
#[verifier::external_body]
fn sha256(data: &[u8]) -> (digest: Vec<u8>)
    ensures
        digest@ == sha256_digest(data@),
        digest@.len() == 32,
{
    Sha256::digest(data).to_vec()
}

/// `hmac::Hmac<Sha256>`, made from a key of any length, updated once with the data
/// and finalized, gives the 32 bytes of the HMAC-SHA-256 code, a function of the
/// key and the data alone.
#[verifier::external_body]
fn hmac_code(key: &[u8], data: &[u8]) -> (code: Vec<u8>)
    ensures
        code@ == hmac_sha256_code(key@, data@),
        code@.len() == 32,
{
    let mut mac = Hmac::<Sha256>::new_from_slice(key).expect("HMAC accepts any key length");
    mac.update(data);
    mac.finalize().into_bytes().to_vec()
}

/// The hexadecimal SHA-256 digest of a text's UTF-8 bytes.
pub open spec fn text_hash(data: Seq<char>) -> Seq<char> {
    encode::hex_text(sha256_digest(encode_utf8(data)))
}

/// The hexadecimal SHA-256 digest of a text's UTF-8 bytes.
pub fn sha256_hex(data: &str) -> (digest: String)
    ensures
        digest@ == text_hash(data@),
{
    hex(sha256(data.as_bytes()).as_slice())
}

/// The HMAC-SHA-256 code of a text's UTF-8 bytes.
pub fn hmac_sha256(key: &[u8], data: &str) -> (code: Vec<u8>)
    ensures
        code@ == hmac_sha256_code(key@, encode_utf8(data@)),
        code@.len() == 32,
{
    hmac_code(key, data.as_bytes())
}

/// The key that signs requests of one day to one service in one region.
pub open spec fn key_for(
    secret: Seq<char>,
    date: Seq<char>,
    region: Seq<char>,
    service: Seq<char>,
) -> Seq<u8> {
    let k_date = hmac_sha256_code(encode_utf8("AWS4"@ + secret), encode_utf8(date));
    let k_region = hmac_sha256_code(k_date, encode_utf8(region));
    let k_service = hmac_sha256_code(k_region, encode_utf8(service));
    hmac_sha256_code(k_service, encode_utf8("aws4_request"@))
}

/// The key that signs requests of one day to one service in one region.
pub fn signing_key(secret: &str, date: &str, region: &str, service: &str) -> (key: Vec<u8>)
    ensures
        key@ == key_for(secret@, date@, region@, service@),
        key@.len() == 32,
{
    let seed = "AWS4".to_owned().concat(secret);
    let k_date = hmac_sha256(seed.as_str().as_bytes(), date);
    let k_region = hmac_sha256(k_date.as_slice(), region);
    let k_service = hmac_sha256(k_region.as_slice(), service);
    hmac_sha256(k_service.as_slice(), "aws4_request")
}

// ── Canonical request ─────────────────────────────────────────────────────────

/// The headers that a signature covers, in the alphabetical order of their names.
pub open spec fn covered(
    host: Seq<char>,
    datetime: Seq<char>,
    session_token: Option<Seq<char>>,
    content_type: Option<Seq<char>>,
) -> Seq<(Seq<char>, Seq<char>)> {
    let first = match content_type {
        Some(ct) => seq![("content-type"@, ct)],
        None => Seq::empty(),
    };
    let always = first.push(("host"@, host)).push(("x-amz-date"@, datetime));
    match session_token {
        Some(tok) => always.push(("x-amz-security-token"@, tok)),
        None => always,
    }
}

/// The names of headers, separated by semicolons.
pub open spec fn name_list(headers: Seq<(Seq<char>, Seq<char>)>) -> Seq<char> {
    text::joined(headers.map_values(|h: (Seq<char>, Seq<char>)| h.0), ";"@)
}

/// A line `name:value` for each header.
pub open spec fn header_lines(headers: Seq<(Seq<char>, Seq<char>)>) -> Seq<char>
    decreases headers.len(),
{
    if headers.len() == 0 {
        Seq::empty()
    } else {
        header_lines(headers.drop_last()) + headers.last().0 + ":"@ + headers.last().1 + "\n"@
    }
}

/// The form of a request that is hashed for its signature.
pub open spec fn canonical_text(
    method: Seq<char>,
    path: Seq<char>,
    query: Seq<char>,
    headers: Seq<(Seq<char>, Seq<char>)>,
    payload_hash: Seq<char>,
) -> Seq<char> {
    method + "\n"@ + path + "\n"@ + query + "\n"@ + header_lines(headers) + "\n"@ + name_list(headers)
        + "\n"@ + payload_hash
}

/// The headers that a signature covers, in the alphabetical order of their names.
pub fn covered_headers(
    host: &str,
    datetime: &str,
    session_token: Option<&str>,
    content_type: Option<&str>,
) -> (headers: Vec<(String, String)>)
    ensures
        text::pairs(headers@) == covered(
            host@,
            datetime@,
            text::opt_str(session_token),
            text::opt_str(content_type),
        ),
{
    let mut headers: Vec<(String, String)> = Vec::new();
    assert(text::pairs(headers@) =~= Seq::<(Seq<char>, Seq<char>)>::empty());
    if let Some(ct) = content_type {
        headers.push(("content-type".to_owned(), ct.to_owned()));
        assert(text::pairs(headers@) =~= seq![("content-type"@, ct@)]);
    }
    headers.push(("host".to_owned(), host.to_owned()));
    headers.push(("x-amz-date".to_owned(), datetime.to_owned()));
    if let Some(tok) = session_token {
        headers.push(("x-amz-security-token".to_owned(), tok.to_owned()));
    }
    headers
}

/// The names of headers, separated by semicolons.
pub fn signed_header_names(headers: &Vec<(String, String)>) -> (names: String)
    ensures
        names@ == name_list(text::pairs(headers@)),
{
    let mut names: Vec<String> = Vec::new();
    let mut i: usize = 0;
    while i < headers.len()
        invariant
            i <= headers@.len(),
            text::texts(names@) =~= text::pairs(headers@).take(i as int).map_values(
                |h: (Seq<char>, Seq<char>)| h.0,
            ),
        decreases headers@.len() - i,
    {
        names.push(headers[i].0.clone());
        i += 1;
    }
    assert(text::pairs(headers@).take(headers@.len() as int) =~= text::pairs(headers@));
    join(&names, ";")
}

/// A line `name:value` for each header.
pub fn canonical_headers(headers: &Vec<(String, String)>) -> (lines: String)
    ensures
        lines@ == header_lines(text::pairs(headers@)),
{
    let mut lines = String::new();
    let mut i: usize = 0;
    let ghost all = text::pairs(headers@);
    assert(all.take(0) =~= Seq::<(Seq<char>, Seq<char>)>::empty());
    while i < headers.len()
        invariant
            i <= headers@.len(),
            all == text::pairs(headers@),
            lines@ == header_lines(all.take(i as int)),
        decreases headers@.len() - i,
    {
        proof {
            assert(all.take(i + 1).drop_last() =~= all.take(i as int));
            assert(all.take(i + 1).last() == all[i as int]);
        }
        lines.append(headers[i].0.as_str());
        lines.append(":");
        lines.append(headers[i].1.as_str());
        lines.append("\n");
        i += 1;
    }
    assert(all.take(all.len() as int) =~= all);
    lines
}

/// The form of a request that is hashed for its signature.
pub fn canonical_request(
    method: &str,
    path: &str,
    query: &str,
    headers: &Vec<(String, String)>,
    payload_hash: &str,
) -> (request: String)
    ensures
        request@ == canonical_text(
            method@,
            path@,
            query@,
            text::pairs(headers@),
            payload_hash@,
        ),
{
    let mut request = method.to_owned();
    request.append("\n");
    request.append(path);
    request.append("\n");
    request.append(query);
    request.append("\n");
    request.append(canonical_headers(headers).as_str());
    request.append("\n");
    request.append(signed_header_names(headers).as_str());
    request.append("\n");
    request.append(payload_hash);
    request
}

// ── String to sign and signature ──────────────────────────────────────────────

/// The timestamp begins with a date of eight bytes.
pub open spec fn dated(datetime: Seq<char>) -> bool {
    is_char_boundary(encode_utf8(datetime), 8)
}

/// The first eight bytes of the timestamp, as text.
pub open spec fn date_of(datetime: Seq<char>) -> Seq<char> {
    decode_utf8(encode_utf8(datetime).subrange(0, 8))
}

/// The scope in which a signing key is good.
pub open spec fn scope_text(date: Seq<char>, region: Seq<char>, service: Seq<char>) -> Seq<char> {
    date + "/"@ + region + "/"@ + service + "/aws4_request"@
}

/// The text that is signed.
pub open spec fn to_sign(
    datetime: Seq<char>,
    scope: Seq<char>,
    request_hash: Seq<char>,
) -> Seq<char> {
    "AWS4-HMAC-SHA256\n"@ + datetime + "\n"@ + scope + "\n"@ + request_hash
}

/// The value of an `Authorization` header.
pub open spec fn authorization_text(
    access_key: Seq<char>,
    scope: Seq<char>,
    names: Seq<char>,
    signature: Seq<char>,
) -> Seq<char> {
    "AWS4-HMAC-SHA256 Credential="@ + access_key + "/"@ + scope + ", SignedHeaders="@ + names
        + ", Signature="@ + signature
}

/// What a request's `Authorization` header is made from.
pub struct SigningInput {
    pub method: Seq<char>,
    pub host: Seq<char>,
    pub path: Seq<char>,
    pub query: Seq<char>,
    pub body: Seq<char>,
    pub datetime: Seq<char>,
    pub region: Seq<char>,
    pub service: Seq<char>,
    pub access_key: Seq<char>,
    pub secret_key: Seq<char>,
    pub session_token: Option<Seq<char>>,
    pub content_type: Option<Seq<char>>,
}

impl SigningInput {
    /// The headers that the signature covers.
    pub open spec fn headers(self) -> Seq<(Seq<char>, Seq<char>)> {
        covered(self.host, self.datetime, self.session_token, self.content_type)
    }

    /// The scope of the signing key.
    pub open spec fn scope(self) -> Seq<char> {
        scope_text(date_of(self.datetime), self.region, self.service)
    }

    /// The form of the request that is hashed.
    pub open spec fn request(self) -> Seq<char> {
        canonical_text(
            self.method,
            self.path,
            self.query,
            self.headers(),
            text_hash(self.body),
        )
    }

    /// The text that is signed.
    pub open spec fn message(self) -> Seq<char> {
        to_sign(self.datetime, self.scope(), text_hash(self.request()))
    }

    /// The hexadecimal signature of the request.
    pub open spec fn signature(self) -> Seq<char> {
        let key = key_for(self.secret_key, date_of(self.datetime), self.region, self.service);
        encode::hex_text(hmac_sha256_code(key, encode_utf8(self.message())))
    }

    /// The value of the `Authorization` header.
    pub open spec fn authorization(self) -> Seq<char> {
        authorization_text(
            self.access_key,
            self.scope(),
            name_list(self.headers()),
            self.signature(),
        )
    }
}

/// The scope in which a signing key is good.
pub fn credential_scope(date: &str, region: &str, service: &str) -> (scope: String)
    ensures
        scope@ == scope_text(date@, region@, service@),
{
    let mut scope = date.to_owned();
    scope.append("/");
    scope.append(region);
    scope.append("/");
    scope.append(service);
    scope.append("/aws4_request");
    scope
}

/// The text that is signed.
pub fn string_to_sign(datetime: &str, scope: &str, request_hash: &str) -> (message: String)
    ensures
        message@ == to_sign(datetime@, scope@, request_hash@),
{
    let mut message = "AWS4-HMAC-SHA256\n".to_owned();
    message.append(datetime);
    message.append("\n");
    message.append(scope);
    message.append("\n");
    message.append(request_hash);
    message
}

/// The value of an `Authorization` header.
pub fn authorization_value(access_key: &str, scope: &str, names: &str, signature: &str) -> (value:
    String)
    ensures
        value@ == authorization_text(access_key@, scope@, names@, signature@),
{
    let mut value = "AWS4-HMAC-SHA256 Credential=".to_owned();
    value.append(access_key);
    value.append("/");
    value.append(scope);
    value.append(", SignedHeaders=");
    value.append(names);
    value.append(", Signature=");
    value.append(signature);
    value
}

/// The `Authorization` header value for an AWS Signature V4 request.
///
/// - `method`: HTTP method (e.g. `"PUT"`)
/// - `host`: the service hostname (e.g. `"s3.us-east-1.amazonaws.com"`)
/// - `path`: URI path (e.g. `"/my-bucket"`)
/// - `query`: canonical query string (e.g. `"versioning"`, empty for POST body requests)
/// - `body`: request body (XML, URL-encoded, or empty)
/// - `datetime`: `YYYYMMDDTHHmmSSZ`, as in the `X-Amz-Date` header
/// - `region` / `service`: e.g. `"us-east-1"` / `"s3"`
/// - `access_key` / `secret_key` / `session_token`
/// - `content_type`: `Some("application/xml")` or
///   `Some("application/x-www-form-urlencoded")` for requests with a body; `None`
///   leaves the `Content-Type` header out of the signed headers.
pub fn authorization_header(
    method: &str,
    host: &str,
    path: &str,
    query: &str,
    body: &str,
    datetime: &str,
    region: &str,
    service: &str,
    access_key: &str,
    secret_key: &str,
    session_token: Option<&str>,
    content_type: Option<&str>,
) -> (value: String)
    requires
        dated(datetime@),
    ensures
        value@ == (SigningInput {
            method: method@,
            host: host@,
            path: path@,
            query: query@,
            body: body@,
            datetime: datetime@,
            region: region@,
            service: service@,
            access_key: access_key@,
            secret_key: secret_key@,
            session_token: text::opt_str(session_token),
            content_type: text::opt_str(content_type),
        }).authorization(),
{
    let date = datetime.split_at(8).0;
    proof {
        encode_utf8_decode_utf8(date@);
    }
    let headers = covered_headers(host, datetime, session_token, content_type);
    let request = canonical_request(method, path, query, &headers, sha256_hex(body).as_str());
    let scope = credential_scope(date, region, service);
    let message = string_to_sign(
        datetime,
        scope.as_str(),
        sha256_hex(request.as_str()).as_str(),
    );
    let key = signing_key(secret_key, date, region, service);
    let signature = hex(hmac_sha256(key.as_slice(), message.as_str()).as_slice());
    authorization_value(
        access_key,
        scope.as_str(),
        signed_header_names(&headers).as_str(),
        signature.as_str(),
    )
}

// ── Laws ──────────────────────────────────────────────────────────────────────

/// `a` stands before `b` in alphabetical order: the first character in which they
/// differ is the smaller in `a`.
pub open spec fn alphabetical(a: Seq<char>, b: Seq<char>) -> bool {
    exists|k: int|
        0 <= k < a.len() && k < b.len() && a.take(k) == b.take(k) && #[trigger] a[k] < b[k]
}

/// The names of the covered headers are in alphabetical order, whichever of the
/// optional headers are there.
pub proof fn covered_headers_are_sorted(
    host: Seq<char>,
    datetime: Seq<char>,
    session_token: Option<Seq<char>>,
    content_type: Option<Seq<char>>,
)
    ensures
        ({
            let headers = covered(host, datetime, session_token, content_type);
            forall|i: int, j: int|
                0 <= i < j < headers.len() ==> alphabetical(
                    #[trigger] headers[i].0,
                    #[trigger] headers[j].0,
                )
        }),
{
    reveal_strlit("content-type");
    reveal_strlit("host");
    reveal_strlit("x-amz-date");
    reveal_strlit("x-amz-security-token");
    let (c, h, d, t) = ("content-type"@, "host"@, "x-amz-date"@, "x-amz-security-token"@);
    assert(c.take(0) =~= h.take(0) && c[0] < h[0]);
    assert(c.take(0) =~= d.take(0) && c[0] < d[0]);
    assert(c.take(0) =~= t.take(0) && c[0] < t[0]);
    assert(h.take(0) =~= d.take(0) && h[0] < d[0]);
    assert(h.take(0) =~= t.take(0) && h[0] < t[0]);
    assert(d.take(6) =~= t.take(6) && d[6] < t[6]);
    assert(alphabetical(c, h) && alphabetical(c, d) && alphabetical(c, t));
    assert(alphabetical(h, d) && alphabetical(h, t) && alphabetical(d, t));
}

/// A session token is covered by the signature if and only if there is one, and
/// so is a content type; the host and the timestamp always are.
pub proof fn covered_headers_are_complete(
    host: Seq<char>,
    datetime: Seq<char>,
    session_token: Option<Seq<char>>,
    content_type: Option<Seq<char>>,
)
    ensures
        ({
            let headers = covered(host, datetime, session_token, content_type);
            &&& headers.contains(("host"@, host))
            &&& headers.contains(("x-amz-date"@, datetime))
            &&& forall|v: Seq<char>|
                headers.contains(("content-type"@, v)) <==> content_type == Some(v)
            &&& forall|v: Seq<char>|
                headers.contains(("x-amz-security-token"@, v)) <==> session_token == Some(v)
        }),
{
    reveal_strlit("content-type");
    reveal_strlit("host");
    reveal_strlit("x-amz-date");
    reveal_strlit("x-amz-security-token");
    let (c, h, d, t) = ("content-type"@, "host"@, "x-amz-date"@, "x-amz-security-token"@);
    assert(c.len() == 12 && h.len() == 4 && d.len() == 10 && t.len() == 20);
    let headers = covered(host, datetime, session_token, content_type);
    let n = if content_type is Some {
        1int
    } else {
        0int
    };
    assert(headers[n] == (h, host));
    assert(headers[n + 1] == (d, datetime));
    if content_type is Some {
        assert(headers[0] == (c, content_type->0));
    }
    if session_token is Some {
        assert(headers[n + 2] == (t, session_token->0));
    }
    assert forall|v: Seq<char>| headers.contains((c, v)) <==> content_type == Some(v) by {}
    assert forall|v: Seq<char>| headers.contains((t, v)) <==> session_token == Some(v) by {}
}

/// A timestamp of ASCII characters, at least eight of them, begins with a date:
/// its first eight characters.
pub proof fn ascii_timestamp_is_dated(datetime: Seq<char>)
    requires
        is_ascii_chars(datetime),
        datetime.len() >= 8,
    ensures
        dated(datetime),
        date_of(datetime) == datetime.take(8),
{
    let (date, rest) = (datetime.take(8), datetime.skip(8));
    let bytes = encode_utf8(datetime);
    is_ascii_chars_encode_utf8(datetime);
    is_ascii_chars_encode_utf8(date);
    encode_utf8_decode_utf8(date);
    encode_utf8_valid_utf8(datetime);
    assert(bytes.subrange(0, 8) =~= encode_utf8(date));
    if datetime.len() == 8 {
        is_char_boundary_start_end_of_seq(bytes);
    } else {
        is_char_boundary_iff_not_is_continuation_byte(bytes, 8);
    }
}

/// The text is one line.
pub open spec fn one_line(s: Seq<char>) -> bool {
    !s.contains('\n')
}

/// Nothing that a request is signed with breaks a line.
pub open spec fn in_lines(i: SigningInput) -> bool {
    &&& one_line(i.method) && one_line(i.path) && one_line(i.query)
    &&& one_line(i.host) && one_line(i.datetime)
    &&& i.content_type is Some ==> one_line(i.content_type->0)
    &&& i.session_token is Some ==> one_line(i.session_token->0)
}

/// The lines of the headers that are signed: the content type and the session token
/// where there are such, the host and the timestamp always.
pub open spec fn signed_lines(i: SigningInput) -> Seq<Seq<char>> {
    let kind = match i.content_type {
        Some(ct) => seq!["content-type:"@ + ct],
        None => Seq::empty(),
    };
    let token = match i.session_token {
        Some(tok) => seq!["x-amz-security-token:"@ + tok],
        None => Seq::empty(),
    };
    kind + seq!["host:"@ + i.host, "x-amz-date:"@ + i.datetime] + token
}

/// The names of the headers that are signed.
pub open spec fn signed_names(i: SigningInput) -> Seq<Seq<char>> {
    let kind = if i.content_type is Some {
        seq!["content-type"@]
    } else {
        Seq::empty()
    };
    let token = if i.session_token is Some {
        seq!["x-amz-security-token"@]
    } else {
        Seq::empty()
    };
    kind + seq!["host"@, "x-amz-date"@] + token
}

/// The hashed form of a request has the request's own method, path and query as its
/// first lines, then a line for each signed header and an empty line, then the names of
/// those headers, and last the hash of the body.
pub proof fn request_has_its_lines(i: SigningInput)
    requires
        in_lines(i),
    ensures
        ({
            let lines = split::parts(i.request(), Separator::Char('\n'));
            let n = signed_lines(i).len() as int;
            &&& lines.len() == n + 6
            &&& lines[0] == i.method
            &&& lines[1] == i.path
            &&& lines[2] == i.query
            &&& forall|k: int| 0 <= k < n ==> #[trigger] lines[3 + k] == signed_lines(i)[k]
            &&& lines[3 + n].len() == 0
            &&& split::parts(lines[4 + n], Separator::Char(';')) == signed_names(i)
            &&& lines[5 + n] == encode::hex_text(sha256_digest(encode_utf8(i.body)))
        }),
{
    let nl = Separator::Char('\n');
    reveal_strlit("\n");
    reveal_strlit(";");
    reveal_strlit(":");
    reveal_strlit("host");
    reveal_strlit("x-amz-date");
    reveal_strlit("content-type");
    reveal_strlit("x-amz-security-token");
    reveal_strlit("host:");
    reveal_strlit("x-amz-date:");
    reveal_strlit("content-type:");
    reveal_strlit("x-amz-security-token:");
    assert("\n"@ =~= seq!['\n']);
    assert(";"@ =~= seq![';']);
    assert("host"@ + ":"@ =~= "host:"@);
    assert("x-amz-date"@ + ":"@ =~= "x-amz-date:"@);
    assert("content-type"@ + ":"@ =~= "content-type:"@);
    assert("x-amz-security-token"@ + ":"@ =~= "x-amz-security-token:"@);
    let hash = text_hash(i.body);
    let names = name_list(i.headers());
    let headers = signed_lines(i);
    let lines = seq![i.method, i.path, i.query] + headers + seq![Seq::empty(), names, hash];
    names_are_listed(i);
    hash_is_one_line(i.body);
    assert forall|k: int| 0 <= k < lines.len() implies !(#[trigger] lines[k]).contains('\n') by {
        if 3 <= k < 3 + headers.len() {
            assert(lines[k] == headers[k - 3]);
            header_line_is_one(i, k - 3);
        }
    }
    headers_are_lines(i);
    let first = seq![i.method];
    split::joined_grows(first, i.path, seq!['\n']);
    split::joined_grows(first.push(i.path), i.query, seq!['\n']);
    let three = first.push(i.path).push(i.query);
    let front = i.method + "\n"@ + i.path + "\n"@ + i.query;
    assert(text::joined(three, seq!['\n']) == front);
    joined_lines(three, headers);
    let heads = three + headers;
    split::joined_grows(heads, Seq::empty(), seq!['\n']);
    split::joined_grows(heads.push(Seq::empty()), names, seq!['\n']);
    split::joined_grows(heads.push(Seq::empty()).push(names), hash, seq!['\n']);
    assert(lines =~= heads.push(Seq::empty()).push(names).push(hash));
    assert(text::joined(lines, seq!['\n']) =~= i.request());
    split::joined_parts_are_found(lines, '\n');
}

/// The names are separated by semicolons, and stand on one line.
proof fn names_are_listed(i: SigningInput)
    ensures
        split::parts(name_list(i.headers()), Separator::Char(';')) == signed_names(i),
        one_line(name_list(i.headers())),
{
    reveal_strlit(";");
    reveal_strlit("host");
    reveal_strlit("x-amz-date");
    reveal_strlit("content-type");
    reveal_strlit("x-amz-security-token");
    assert(";"@ =~= seq![';']);
    let list = i.headers().map_values(|h: (Seq<char>, Seq<char>)| h.0);
    assert(list =~= signed_names(i));
    assert forall|k: int| 0 <= k < list.len() implies !(#[trigger] list[k]).contains(';')
        && one_line(list[k]) by {
        let n = list[k];
        assert(n == "host"@ || n == "x-amz-date"@ || n == "content-type"@ || n
            == "x-amz-security-token"@);
    }
    split::joined_parts_are_found(list, ';');
    joined_stays_one_line(list);
}

/// Texts on one line, joined by semicolons, stay on one line.
proof fn joined_stays_one_line(list: Seq<Seq<char>>)
    requires
        forall|k: int| 0 <= k < list.len() ==> one_line(#[trigger] list[k]),
    ensures
        one_line(text::joined(list, ";"@)),
    decreases list.len(),
{
    reveal_strlit(";");
    if list.len() == 1 {
        assert(one_line(list[0]));
    } else if list.len() > 1 {
        let init = list.drop_last();
        assert forall|k: int| 0 <= k < init.len() implies one_line(#[trigger] init[k]) by {
            assert(init[k] == list[k]);
        }
        joined_stays_one_line(init);
        assert(one_line(list[list.len() - 1]));
        let front = text::joined(init, ";"@);
        let all = front + ";"@ + list.last();
        assert forall|k: int| 0 <= k < all.len() implies all[k] != '\n' by {
            if k < front.len() {
                assert(front.contains(front[k]));
            } else if k > front.len() {
                assert(list.last().contains(list.last()[k - front.len() - 1]));
            }
        }
    }
}

/// A hexadecimal hash stands on one line.
proof fn hash_is_one_line(data: Seq<char>)
    ensures
        one_line(text_hash(data)),
{
    let bytes = sha256_digest(encode_utf8(data));
    let s = text_hash(data);
    encode::hex_text_is_faithful(bytes, bytes);
    assert forall|k: int| 0 <= k < s.len() implies s[k] != '\n' by {
        encode::hex_digits_read_back(bytes, k / 2);
        assert(k == 2 * (k / 2) || k == 2 * (k / 2) + 1);
    }
}

/// Each line of a header is one line.
proof fn header_line_is_one(i: SigningInput, k: int)
    requires
        in_lines(i),
        0 <= k < signed_lines(i).len(),
    ensures
        one_line(signed_lines(i)[k]),
{
    reveal_strlit("host:");
    reveal_strlit("x-amz-date:");
    reveal_strlit("content-type:");
    reveal_strlit("x-amz-security-token:");
    let at: int = if i.content_type is Some {
        1
    } else {
        0
    };
    let (label, value) = if k < at {
        ("content-type:"@, i.content_type->0)
    } else if k == at {
        ("host:"@, i.host)
    } else if k == at + 1 {
        ("x-amz-date:"@, i.datetime)
    } else {
        ("x-amz-security-token:"@, i.session_token->0)
    };
    let line = signed_lines(i)[k];
    assert(line == label + value);
    assert forall|j: int| 0 <= j < line.len() implies line[j] != '\n' by {
        if j >= label.len() {
            assert(value.contains(value[j - label.len()]));
        }
    }
}

/// The lines of the headers, each with its end.
pub open spec fn ended(lines: Seq<Seq<char>>) -> Seq<char>
    decreases lines.len(),
{
    if lines.len() == 0 {
        Seq::empty()
    } else {
        ended(lines.drop_last()) + lines.last() + "\n"@
    }
}

/// The headers are written as their lines.
proof fn headers_are_lines(i: SigningInput)
    ensures
        header_lines(i.headers()) == ended(signed_lines(i)),
{
    reveal_strlit("host");
    reveal_strlit("x-amz-date");
    reveal_strlit("content-type");
    reveal_strlit("x-amz-security-token");
    reveal_strlit(":");
    reveal_strlit("host:");
    reveal_strlit("x-amz-date:");
    reveal_strlit("content-type:");
    reveal_strlit("x-amz-security-token:");
    assert("host"@ + ":"@ =~= "host:"@);
    assert("x-amz-date"@ + ":"@ =~= "x-amz-date:"@);
    assert("content-type"@ + ":"@ =~= "content-type:"@);
    assert("x-amz-security-token"@ + ":"@ =~= "x-amz-security-token:"@);
    let lines = i.headers().map_values(|h: (Seq<char>, Seq<char>)| h.0 + ":"@ + h.1);
    assert(lines =~= signed_lines(i));
    lines_of_headers(i.headers());
}

/// Headers are written one line each.
proof fn lines_of_headers(headers: Seq<(Seq<char>, Seq<char>)>)
    ensures
        header_lines(headers) == ended(
            headers.map_values(|h: (Seq<char>, Seq<char>)| h.0 + ":"@ + h.1),
        ),
    decreases headers.len(),
{
    let lines = headers.map_values(|h: (Seq<char>, Seq<char>)| h.0 + ":"@ + h.1);
    if headers.len() > 0 {
        lines_of_headers(headers.drop_last());
        assert(lines.drop_last() =~= headers.drop_last().map_values(
            |h: (Seq<char>, Seq<char>)| h.0 + ":"@ + h.1,
        ));
        let before = header_lines(headers.drop_last());
        assert(before + headers.last().0 + ":"@ + headers.last().1 =~= before + lines.last());
    }
}

/// Lines joined after others are those others, a line's end, and each line with its end
/// but the last.
proof fn joined_lines(front: Seq<Seq<char>>, lines: Seq<Seq<char>>)
    requires
        front.len() > 0,
    ensures
        text::joined(front + lines, seq!['\n']) + seq!['\n'] == text::joined(front, seq!['\n'])
            + seq!['\n'] + ended(lines),
    decreases lines.len(),
{
    reveal_strlit("\n");
    assert("\n"@ =~= seq!['\n']);
    let nl = seq!['\n'];
    if lines.len() > 0 {
        let init = lines.drop_last();
        joined_lines(front, init);
        split::joined_grows(front + init, lines.last(), nl);
        assert((front + init).push(lines.last()) =~= front + lines);
        assert(text::joined(front + lines, nl) + nl =~= (text::joined(front + init, nl) + nl)
            + lines.last() + nl);
        assert(text::joined(front, nl) + nl + ended(lines) =~= (text::joined(front, nl) + nl
            + ended(init)) + lines.last() + nl);
    } else {
        assert(front + lines =~= front);
        assert(text::joined(front, nl) + nl + ended(lines) =~= text::joined(front, nl) + nl);
    }
}

/// What is signed is the algorithm, the timestamp, the scope and the hash of the
/// request, on a line each. The key is derived from the secret by the date, the region
/// and the service, in that order.
pub proof fn signature_is_over_the_request(i: SigningInput)
    requires
        one_line(i.datetime),
        one_line(date_of(i.datetime)),
        one_line(i.region),
        one_line(i.service),
    ensures
        ({
            let date = date_of(i.datetime);
            let lines = split::parts(i.message(), Separator::Char('\n'));
            let day = hmac_sha256_code(encode_utf8("AWS4"@ + i.secret_key), encode_utf8(date));
            let place = hmac_sha256_code(day, encode_utf8(i.region));
            let service = hmac_sha256_code(place, encode_utf8(i.service));
            let key = hmac_sha256_code(service, encode_utf8("aws4_request"@));
            &&& lines.len() == 4
            &&& lines[0] == "AWS4-HMAC-SHA256"@
            &&& lines[1] == i.datetime
            &&& lines[2] == date + "/"@ + i.region + "/"@ + i.service + "/aws4_request"@
            &&& lines[3] == encode::hex_text(sha256_digest(encode_utf8(i.request())))
            &&& i.signature() == encode::hex_text(
                hmac_sha256_code(key, encode_utf8(i.message())),
            )
        }),
{
    reveal_strlit("\n");
    reveal_strlit("/");
    reveal_strlit("/aws4_request");
    reveal_strlit("AWS4-HMAC-SHA256");
    reveal_strlit("AWS4-HMAC-SHA256\n");
    assert("\n"@ =~= seq!['\n']);
    let algorithm = "AWS4-HMAC-SHA256"@;
    let scope = i.scope();
    let hash = text_hash(i.request());
    hash_is_one_line(i.request());
    let date = date_of(i.datetime);
    let (a, b, c) = (date.len() as int, i.region.len() as int, i.service.len() as int);
    assert forall|k: int| 0 <= k < scope.len() implies scope[k] != '\n' by {
        if k < a {
            assert(date.contains(scope[k]));
        } else if a < k < a + 1 + b {
            assert(scope[k] == i.region[k - a - 1]);
            assert(i.region.contains(scope[k]));
        } else if a + 1 + b < k < a + 2 + b + c {
            assert(scope[k] == i.service[k - a - b - 2]);
            assert(i.service.contains(scope[k]));
        }
    }
    let lines = seq![algorithm, i.datetime, scope, hash];
    assert forall|k: int| 0 <= k < lines.len() implies !(#[trigger] lines[k]).contains('\n') by {
    }
    let nl = seq!['\n'];
    split::joined_grows(seq![algorithm], i.datetime, nl);
    split::joined_grows(seq![algorithm].push(i.datetime), scope, nl);
    split::joined_grows(seq![algorithm].push(i.datetime).push(scope), hash, nl);
    assert(lines =~= seq![algorithm].push(i.datetime).push(scope).push(hash));
    assert("AWS4-HMAC-SHA256\n"@ =~= algorithm + nl);
    assert(text::joined(lines, nl) =~= i.message());
    split::joined_parts_are_found(lines, '\n');
}

/// The header's value names the key's owner and scope, the signed headers and the
/// signature, in that order.
pub proof fn authorization_names_its_parts(i: SigningInput)
    ensures
        ({
            let scope = date_of(i.datetime) + "/"@ + i.region + "/"@ + i.service
                + "/aws4_request"@;
            let credential = "AWS4-HMAC-SHA256 Credential="@ + i.access_key + "/"@ + scope
                + ", SignedHeaders="@;
            let signature = ", Signature="@ + i.signature();
            let all = i.authorization();
            &&& credential.is_prefix_of(all)
            &&& signature.is_suffix_of(all)
            &&& split::parts(
                all.subrange(credential.len() as int, all.len() - signature.len()),
                Separator::Char(';'),
            ) == signed_names(i)
        }),
{
    let scope = date_of(i.datetime) + "/"@ + i.region + "/"@ + i.service + "/aws4_request"@;
    let credential = "AWS4-HMAC-SHA256 Credential="@ + i.access_key + "/"@ + scope
        + ", SignedHeaders="@;
    let signature = ", Signature="@ + i.signature();
    let names = name_list(i.headers());
    let all = i.authorization();
    assert(all =~= credential + names + signature);
    assert(all.subrange(0, credential.len() as int) =~= credential);
    assert(all.subrange(all.len() - signature.len(), all.len() as int) =~= signature);
    assert(all.subrange(credential.len() as int, all.len() - signature.len()) =~= names);
    names_are_listed(i);
}

} // verus!
