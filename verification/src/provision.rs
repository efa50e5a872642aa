//! Provisioning one resource on behalf of an application.
use crate::api;
use crate::api::{ApiCall, Reply, Step};
use crate::config;
use crate::config::{default_rds_identifier, engine_port, RdsConfig, S3Config};
use crate::credentials;
use crate::credentials::AwsCredentials;
use crate::metadata;
use crate::number;
use crate::number::to_decimal;
use crate::rds;
use crate::rds::ensure_instance;
use crate::s3;
use crate::s3::ensure_bucket;
use crate::settings::PluginSettings;
use crate::string_map::StringMap;
use crate::text;
use crate::text::same_text;
use vstd::prelude::*;
use vstd::string::*;

verus! {

broadcast use crate::text::texts_push;

/// What an operator submitted for a resource.
pub struct ResourceProvisionRequest {
    pub resource_id: String,
    pub namespace: String,
    pub application_name: String,
    pub fields: StringMap,
}

/// What a [`ResourceProvisionRequest`] holds.
pub struct ProvisionRequestView {
    pub resource_id: Seq<char>,
    pub namespace: Seq<char>,
    pub application_name: Seq<char>,
    pub fields: Map<Seq<char>, Seq<char>>,
}

impl View for ResourceProvisionRequest {
    type V = ProvisionRequestView;

    open spec fn view(&self) -> ProvisionRequestView {
        ProvisionRequestView {
            resource_id: self.resource_id@,
            namespace: self.namespace@,
            application_name: self.application_name@,
            fields: self.fields@,
        }
    }
}

impl ProvisionRequestView {
    /// The value of a field, empty where it is not there.
    pub open spec fn entered(self, key: Seq<char>) -> Seq<char> {
        if self.fields.contains_key(key) {
            self.fields[key]
        } else {
            Seq::empty()
        }
    }

    /// The value of a field, or another where it is not there or is empty.
    pub open spec fn entered_or(self, key: Seq<char>, other: Seq<char>) -> Seq<char> {
        if self.entered(key).len() == 0 {
            other
        } else {
            self.entered(key)
        }
    }
}

impl ResourceProvisionRequest {
    /// The value of a field, empty where it is not there.
    fn entered(&self, key: &str) -> (value: String)
        ensures
            value@ == self@.entered(key@),
    {
        match self.fields.get(key) {
            Some(value) => value.clone(),
            None => String::new(),
        }
    }

    /// The value of a field, or another where it is not there or is empty.
    fn entered_or(&self, key: &str, other: &str) -> (value: String)
        ensures
            value@ == self@.entered_or(key@, other@),
    {
        let value = self.entered(key);
        if value.as_str().is_empty() {
            other.to_owned()
        } else {
            value
        }
    }
}

/// What provisioning gives: state that is injected into the application's
/// deployments, or errors.
pub struct ResourceProvisionResult {
    pub state: StringMap,
    pub errors: Vec<String>,
}

/// What a [`ResourceProvisionResult`] holds.
#[verifier::ext_equal]
pub struct ProvisionResultView {
    pub state: Map<Seq<char>, Seq<char>>,
    pub errors: Seq<Seq<char>>,
}

impl View for ResourceProvisionResult {
    type V = ProvisionResultView;

    open spec fn view(&self) -> ProvisionResultView {
        ProvisionResultView { state: self.state@, errors: text::texts(self.errors@) }
    }
}

impl Default for ResourceProvisionResult {
    /// Neither state nor errors.
    fn default() -> (result: ResourceProvisionResult)
        ensures
            result@ == (ProvisionResultView { state: Map::empty(), errors: Seq::empty() }),
    {
        let result = ResourceProvisionResult { state: StringMap::new(), errors: Vec::new() };
        assert(result@.errors =~= Seq::<Seq<char>>::empty());
        result
    }
}

/// One error and no state.
pub open spec fn failure(error: Seq<char>) -> ProvisionResultView {
    ProvisionResultView { state: Map::empty(), errors: seq![error] }
}

/// State and no error.
pub open spec fn success(state: Map<Seq<char>, Seq<char>>) -> ProvisionResultView {
    ProvisionResultView { state, errors: Seq::empty() }
}

/// One error and no state.
fn failed(error: String) -> (result: ResourceProvisionResult)
    ensures
        result@ == failure(error@),
{
    let mut result = ResourceProvisionResult::default();
    let mut errors: Vec<String> = result.errors;
    errors.push(error);
    result.errors = errors;
    assert(result@.errors =~= seq![error@]);
    result
}

/// State and no error.
fn succeeded(state: StringMap) -> (result: ResourceProvisionResult)
    ensures
        result@ == success(state@),
{
    let mut result = ResourceProvisionResult::default();
    result.state = state;
    result
}

/// Where provisioning stands: at a call to be made, or at its end.
pub enum ProvisionStep {
    Call(ApiCall),
    Done(ResourceProvisionResult),
}

/// What a [`ProvisionStep`] holds.
#[verifier::ext_equal]
pub enum ProvisionStepView {
    Call(api::ApiCallView),
    Done(ProvisionResultView),
}

impl View for ProvisionStep {
    type V = ProvisionStepView;

    open spec fn view(&self) -> ProvisionStepView {
        match self {
            ProvisionStep::Call(call) => ProvisionStepView::Call(call@),
            ProvisionStep::Done(result) => ProvisionStepView::Done(result@),
        }
    }
}

// ── RDS ───────────────────────────────────────────────────────────────────────

/// The instance that a request asks for.
pub open spec fn requested_rds(req: ProvisionRequestView, region: Seq<char>) -> config::RdsConfigView {
    config::RdsConfigView {
        identifier: req.entered_or(
            "identifier"@,
            config::rds_identifier_for(req.namespace, req.application_name),
        ),
        engine: req.entered_or("engine"@, "postgres"@),
        instance_class: req.entered_or("instance_class"@, "db.t3.micro"@),
        allocated_storage: "20"@,
        db_name: req.entered_or("db_name"@, "app"@),
        multi_az: false,
        subnet_group: None,
        security_groups: Seq::empty(),
        iam_auth: false,
        snapshot_schedule: None,
        snapshot_retention: 7,
        backup_role_arn: Seq::empty(),
        region,
    }
}

/// The state of an instance with that endpoint.
pub open spec fn rds_state(rds: config::RdsConfigView, endpoint: Seq<char>) -> Map<
    Seq<char>,
    Seq<char>,
> {
    Map::empty().insert("DB_HOST"@, endpoint).insert(
        "DB_PORT"@,
        number::decimal(config::port_of(rds.engine)),
    ).insert("DB_ENGINE"@, rds.engine).insert("DB_NAME"@, rds.db_name)
}

/// The flow of [`provision_rds`].
pub open spec fn provision_rds_step(
    req: ProvisionRequestView,
    region: Seq<char>,
    replies: Seq<api::ReplyView>,
) -> ProvisionStepView {
    let rds = requested_rds(req, region);
    match rds::ensure_instance_step(region, rds, replies, 0) {
        api::StepView::Call(call) => ProvisionStepView::Call(call),
        api::StepView::Done(Ok(endpoint), _) => ProvisionStepView::Done(
            success(rds_state(rds, endpoint)),
        ),
        api::StepView::Done(Err(e), _) => ProvisionStepView::Done(
            failure("RDS provisioning error: "@ + e),
        ),
    }
}

/// The instance that a request asks for.
fn rds_request(req: &ResourceProvisionRequest, region: &str) -> (rds: RdsConfig)
    ensures
        rds@ == requested_rds(req@, region@),
{
    let default_identifier = default_rds_identifier(
        req.namespace.as_str(),
        req.application_name.as_str(),
    );
    let rds = RdsConfig {
        identifier: req.entered_or("identifier", default_identifier.as_str()),
        engine: req.entered_or("engine", "postgres"),
        instance_class: req.entered_or("instance_class", "db.t3.micro"),
        allocated_storage: "20".to_owned(),
        db_name: req.entered_or("db_name", "app"),
        multi_az: false,
        subnet_group: None,
        security_groups: Vec::new(),
        iam_auth: false,
        snapshot_schedule: None,
        snapshot_retention: 7,
        backup_role_arn: String::new(),
        region: region.to_owned(),
    };
    assert(rds@.security_groups =~= Seq::<Seq<char>>::empty());
    rds
}

/// Provisions the instance that a request asks for.
pub fn provision_rds(
    req: &ResourceProvisionRequest,
    region: &str,
    replies: &Vec<Reply>,
) -> (step: ProvisionStep)
    ensures
        step@ == provision_rds_step(req@, region@, api::outcomes(replies@)),
{
    let rds = rds_request(req, region);
    match ensure_instance(region, &rds, replies, 0) {
        Step::Call(call) => ProvisionStep::Call(call),
        Step::Done(Ok(endpoint), _) => {
            let port = to_decimal(engine_port(rds.engine.as_str()) as u64);
            let mut state = StringMap::new();
            state.insert("DB_HOST".to_owned(), endpoint);
            state.insert("DB_PORT".to_owned(), port);
            state.insert("DB_ENGINE".to_owned(), rds.engine.clone());
            state.insert("DB_NAME".to_owned(), rds.db_name.clone());
            ProvisionStep::Done(succeeded(state))
        },
        Step::Done(Err(e), _) => ProvisionStep::Done(
            failed("RDS provisioning error: ".to_owned().concat(e.as_str())),
        ),
    }
}

// ── S3 ────────────────────────────────────────────────────────────────────────

/// The bucket that a request asks for. Its region is that of the credentials where
/// none is entered.
pub open spec fn requested_s3(req: ProvisionRequestView, region: Seq<char>) -> config::S3ConfigView {
    config::S3ConfigView {
        bucket_name: req.entered("bucket_name"@),
        region: req.entered_or("region"@, region),
        versioning: false,
        public_access_block: true,
        lifecycle_days: None,
    }
}

/// The state of a bucket.
pub open spec fn s3_state(full_bucket: Seq<char>, region: Seq<char>) -> Map<Seq<char>, Seq<char>> {
    Map::empty().insert("S3_BUCKET"@, full_bucket).insert("S3_REGION"@, region).insert(
        "AWS_REGION"@,
        region,
    )
}

/// The flow of [`provision_s3`].
pub open spec fn provision_s3_step(
    req: ProvisionRequestView,
    region: Seq<char>,
    bucket_prefix: Seq<char>,
    replies: Seq<api::ReplyView>,
) -> ProvisionStepView {
    let s3 = requested_s3(req, region);
    let full_bucket = bucket_prefix + s3.bucket_name;
    match s3::ensure_bucket_step(s3, full_bucket, replies, 0) {
        api::StepView::Call(call) => ProvisionStepView::Call(call),
        api::StepView::Done(Ok(_), _) => ProvisionStepView::Done(
            success(s3_state(full_bucket, s3.region)),
        ),
        api::StepView::Done(Err(e), _) => ProvisionStepView::Done(
            failure("S3 provisioning error: "@ + e),
        ),
    }
}

/// Provisions the bucket that a request asks for.
pub fn provision_s3(
    req: &ResourceProvisionRequest,
    region: &str,
    bucket_prefix: &str,
    replies: &Vec<Reply>,
) -> (step: ProvisionStep)
    ensures
        step@ == provision_s3_step(req@, region@, bucket_prefix@, api::outcomes(replies@)),
{
    let s3 = S3Config {
        bucket_name: req.entered("bucket_name"),
        region: req.entered_or("region", region),
        versioning: false,
        public_access_block: true,
        lifecycle_days: None,
    };
    let full_bucket = bucket_prefix.to_owned().concat(s3.bucket_name.as_str());
    match ensure_bucket(&s3, full_bucket.as_str(), replies, 0) {
        Step::Call(call) => ProvisionStep::Call(call),
        Step::Done(Ok(_), _) => {
            let mut state = StringMap::new();
            state.insert("S3_BUCKET".to_owned(), full_bucket);
            state.insert("S3_REGION".to_owned(), s3.region.clone());
            state.insert("AWS_REGION".to_owned(), s3.region.clone());
            ProvisionStep::Done(succeeded(state))
        },
        Step::Done(Err(e), _) => ProvisionStep::Done(
            failed("S3 provisioning error: ".to_owned().concat(e.as_str())),
        ),
    }
}

// ── The flow ──────────────────────────────────────────────────────────────────

/// The flow of [`provision`].
pub open spec fn provision_step(
    settings: PluginSettings,
    req: ProvisionRequestView,
    creds: Result<credentials::AwsCredentialsView, Seq<char>>,
    replies: Seq<api::ReplyView>,
) -> ProvisionStepView {
    match creds {
        Err(e) => ProvisionStepView::Done(failure("credentials error: "@ + e)),
        Ok(c) => if req.resource_id == "rds"@ {
            provision_rds_step(req, c.region, replies)
        } else if req.resource_id == "s3"@ {
            provision_s3_step(req, c.region, settings.prefix_text(), replies)
        } else {
            ProvisionStepView::Done(failure("unknown resource_id: "@ + req.resource_id))
        },
    }
}

/// Provisions a single infrastructure resource on behalf of an application, with the
/// credentials that were found.
///
/// The result's state is persisted at application level and injected as environment
/// variables into all deployments on the next reconcile cycle.
pub fn provision(
    settings: &PluginSettings,
    req: &ResourceProvisionRequest,
    creds: &Result<AwsCredentials, String>,
    replies: &Vec<Reply>,
) -> (step: ProvisionStep)
    ensures
        step@ == provision_step(
            *settings,
            req@,
            text::outcome(*creds),
            api::outcomes(replies@),
        ),
{
    match creds {
        Err(e) => ProvisionStep::Done(failed("credentials error: ".to_owned().concat(e.as_str()))),
        Ok(c) => {
            let id: &str = req.resource_id.as_str();
            if same_text(id, "rds") {
                provision_rds(req, c.region.as_str(), replies)
            } else if same_text(id, "s3") {
                let prefix = settings.prefix();
                provision_s3(req, c.region.as_str(), prefix.as_str(), replies)
            } else {
                ProvisionStep::Done(failed("unknown resource_id: ".to_owned().concat(id)))
            }
        },
    }
}

// ── Laws ──────────────────────────────────────────────────────────────────────

/// Provisioning a database gives exactly the keys that the resource declares, or one
/// error and no state.
pub proof fn rds_gives_its_output_keys(
    req: ProvisionRequestView,
    region: Seq<char>,
    replies: Seq<api::ReplyView>,
)
    ensures
        provision_rds_step(req, region, replies) matches ProvisionStepView::Done(result) ==> {
            ||| result.errors.len() == 0 && result.state.dom() == metadata::rds_declaration().output_keys.to_set()
            ||| result.errors.len() == 1 && result.state.dom() == Set::<Seq<char>>::empty()
        },
{
    let list = metadata::rds_declaration().output_keys;
    assert(list[0] == "DB_HOST"@);
    assert(list[1] == "DB_PORT"@);
    assert(list[2] == "DB_ENGINE"@);
    assert(list[3] == "DB_NAME"@);
    let rds = requested_rds(req, region);
    assert forall|endpoint: Seq<char>| #[trigger] rds_state(rds, endpoint).dom() == list.to_set() by {
        assert(rds_state(rds, endpoint).dom() =~= list.to_set());
    }
    assert(Map::<Seq<char>, Seq<char>>::empty().dom() =~= Set::<Seq<char>>::empty());
}

/// Provisioning a bucket gives exactly the keys that the resource declares, or one
/// error and no state.
pub proof fn s3_gives_its_output_keys(
    req: ProvisionRequestView,
    region: Seq<char>,
    bucket_prefix: Seq<char>,
    replies: Seq<api::ReplyView>,
)
    ensures
        provision_s3_step(req, region, bucket_prefix, replies) matches ProvisionStepView::Done(
            result,
        ) ==> {
            ||| result.errors.len() == 0 && result.state.dom() == metadata::s3_declaration().output_keys.to_set()
            ||| result.errors.len() == 1 && result.state.dom() == Set::<Seq<char>>::empty()
        },
{
    let list = metadata::s3_declaration().output_keys;
    assert(list[0] == "S3_BUCKET"@);
    assert(list[1] == "S3_REGION"@);
    assert(list[2] == "AWS_REGION"@);
    let s3 = requested_s3(req, region);
    assert(s3_state(bucket_prefix + s3.bucket_name, s3.region).dom() =~= list.to_set());
    assert(Map::<Seq<char>, Seq<char>>::empty().dom() =~= Set::<Seq<char>>::empty());
}

/// Every resource that the plugin declares can be provisioned: no request for one of
/// them is answered as unknown before a call is made.
pub proof fn declared_resources_are_known(
    settings: PluginSettings,
    req: ProvisionRequestView,
    creds: credentials::AwsCredentialsView,
    version: Seq<char>,
    i: int,
)
    requires
        0 <= i < metadata::declaration(version).resources.len(),
        req.resource_id == metadata::declaration(version).resources[i].id,
    ensures
        provision_step(settings, req, Ok(creds), Seq::empty()) is Call,
{
    assert(i == 0 || i == 1);
}

/// A bucket that is provisioned for an application is closed to the public.
pub proof fn provisioned_bucket_is_closed(
    req: ProvisionRequestView,
    region: Seq<char>,
    bucket_prefix: Seq<char>,
)
    ensures
        ({
            let s3 = requested_s3(req, region);
            let full_bucket = bucket_prefix + s3.bucket_name;
            s3::settings_calls(s3, full_bucket) == seq![
                s3::access_block_call(full_bucket, s3.region),
            ]
        }),
{
    let s3 = requested_s3(req, region);
    let full_bucket = bucket_prefix + s3.bucket_name;
    assert(s3::settings_calls(s3, full_bucket) =~= seq![
        s3::access_block_call(full_bucket, s3.region),
    ]);
}

/// Provisioning takes two calls at most, whatever the resource.
pub proof fn provision_takes_two_calls(
    settings: PluginSettings,
    req: ProvisionRequestView,
    creds: Result<credentials::AwsCredentialsView, Seq<char>>,
    replies: Seq<api::ReplyView>,
)
    requires
        replies.len() >= 2,
    ensures
        provision_step(settings, req, creds, replies) is Done,
{
}

/// A flow that has ended stays as it ended, whatever more comes back.
pub proof fn ended_provision_stays_ended(
    settings: PluginSettings,
    req: ProvisionRequestView,
    creds: Result<credentials::AwsCredentialsView, Seq<char>>,
    replies: Seq<api::ReplyView>,
    more: Seq<api::ReplyView>,
)
    requires
        provision_step(settings, req, creds, replies) is Done,
    ensures
        provision_step(settings, req, creds, replies + more) == provision_step(
            settings,
            req,
            creds,
            replies,
        ),
{
    let all = replies + more;
    assert(forall|i: int| 0 <= i < replies.len() ==> #[trigger] all[i] == replies[i]);
}

/// A value is what was entered in a field, where something was, and another otherwise.
pub open spec fn chosen(
    req: ProvisionRequestView,
    key: Seq<char>,
    other: Seq<char>,
    value: Seq<char>,
) -> bool {
    if req.fields.contains_key(key) && req.fields[key].len() > 0 {
        value == req.fields[key]
    } else {
        value == other
    }
}

/// The instance is what was entered, field by field, and the declared default where nothing
/// was. What no field asks for is left off.
pub proof fn instance_is_as_entered(req: ProvisionRequestView, region: Seq<char>)
    ensures
        ({
            let rds = requested_rds(req, region);
            &&& chosen(
                req,
                "identifier"@,
                config::rds_identifier_for(req.namespace, req.application_name),
                rds.identifier,
            )
            &&& chosen(req, "engine"@, "postgres"@, rds.engine)
            &&& chosen(req, "instance_class"@, "db.t3.micro"@, rds.instance_class)
            &&& chosen(req, "db_name"@, "app"@, rds.db_name)
            &&& rds.allocated_storage == "20"@ && rds.region == region
            &&& !rds.multi_az && !rds.iam_auth
            &&& rds.subnet_group is None && rds.security_groups.len() == 0
            &&& rds.snapshot_schedule is None
        }),
{
}

/// The bucket is what was entered: in the region entered, or that of the credentials where
/// none was. It is closed to the public, and nothing else is set on it.
pub proof fn bucket_is_as_entered(req: ProvisionRequestView, region: Seq<char>)
    ensures
        ({
            let s3 = requested_s3(req, region);
            &&& chosen(req, "bucket_name"@, Seq::empty(), s3.bucket_name)
            &&& chosen(req, "region"@, region, s3.region)
            &&& s3.public_access_block && !s3.versioning && s3.lifecycle_days is None
        }),
{
    assert(req.entered("bucket_name"@).len() == 0 ==> req.entered("bucket_name"@)
        =~= Seq::<char>::empty());
}

/// A request for a database is met in the region of the credentials: the instance is looked
/// up by its identifier, and once it is ensured the state tells where it is, what it runs
/// and what its database is called.
pub proof fn requested_database_is_told(
    settings: PluginSettings,
    req: ProvisionRequestView,
    creds: credentials::AwsCredentialsView,
    replies: Seq<api::ReplyView>,
    endpoint: Seq<char>,
    next: int,
)
    requires
        req.resource_id == "rds"@,
        rds::ensure_instance_step(
            creds.region,
            requested_rds(req, creds.region),
            replies,
            0,
        ) == api::StepView::Done(Ok::<Seq<char>, Seq<char>>(endpoint), next),
    ensures
        ({
            let rds = requested_rds(req, creds.region);
            &&& provision_step(settings, req, Ok(creds), Seq::empty()) == ProvisionStepView::Call(
                rds::describe_call(creds.region, rds.identifier),
            )
            &&& provision_step(settings, req, Ok(creds), replies) matches ProvisionStepView::Done(
                result,
            ) && {
                &&& result.errors.len() == 0
                &&& result.state["DB_HOST"@] == endpoint
                &&& result.state["DB_NAME"@] == rds.db_name
                &&& result.state["DB_ENGINE"@] == rds.engine
                &&& result.state["DB_PORT"@] == number::decimal(config::port_of(rds.engine))
            }
        }),
{
    reveal_strlit("DB_HOST");
    reveal_strlit("DB_PORT");
    reveal_strlit("DB_ENGINE");
    reveal_strlit("DB_NAME");
    assert("DB_HOST"@.len() == 7 && "DB_PORT"@.len() == 7 && "DB_ENGINE"@.len() == 9
        && "DB_NAME"@.len() == 7);
    assert("DB_HOST"@[3] == 'H' && "DB_PORT"@[3] == 'P' && "DB_NAME"@[3] == 'N');
}

/// A request for a bucket is met under its full name: the bucket is created at its own host,
/// and once it is ensured the state tells its full name and its region.
pub proof fn requested_bucket_is_told(
    settings: PluginSettings,
    req: ProvisionRequestView,
    creds: credentials::AwsCredentialsView,
    replies: Seq<api::ReplyView>,
    next: int,
)
    requires
        req.resource_id == "s3"@,
        ({
            let s3 = requested_s3(req, creds.region);
            s3::ensure_bucket_step(s3, settings.prefix_text() + s3.bucket_name, replies, 0)
                == api::StepView::Done(Ok::<(), Seq<char>>(()), next)
        }),
    ensures
        ({
            let s3 = requested_s3(req, creds.region);
            let bucket = settings.prefix_text() + s3.bucket_name;
            &&& provision_step(settings, req, Ok(creds), Seq::empty()) matches
                ProvisionStepView::Call(call) && call.api == api::ApiView::S3("CreateBucket"@)
                && s3::goes_to(call, bucket, s3.region)
            &&& provision_step(settings, req, Ok(creds), replies) matches ProvisionStepView::Done(
                result,
            ) && {
                &&& result.errors.len() == 0
                &&& result.state["S3_BUCKET"@] == bucket
                &&& result.state["S3_REGION"@] == s3.region
                &&& result.state["AWS_REGION"@] == s3.region
            }
        }),
{
    resources_are_told_apart();
    let s3 = requested_s3(req, creds.region);
    s3::bucket_is_created_first(s3, settings.prefix_text() + s3.bucket_name, Seq::empty());
    reveal_strlit("S3_BUCKET");
    reveal_strlit("S3_REGION");
    reveal_strlit("AWS_REGION");
    assert("S3_BUCKET"@.len() == 9 && "S3_REGION"@.len() == 9 && "AWS_REGION"@.len() == 10);
    assert("S3_BUCKET"@[3] == 'B' && "S3_REGION"@[3] == 'R');
}

/// A database and a bucket are asked for by different names.
proof fn resources_are_told_apart()
    ensures
        "rds"@ != "s3"@,
{
    reveal_strlit("rds");
    reveal_strlit("s3");
    assert("rds"@.len() == 3 && "s3"@.len() == 2);
}

/// What fails gives no state, and one error that says why: the credentials, a resource that
/// is not known, or what the flow of the resource ended with.
pub proof fn failures_are_told(
    settings: PluginSettings,
    req: ProvisionRequestView,
    creds: credentials::AwsCredentialsView,
    replies: Seq<api::ReplyView>,
    why: Seq<char>,
)
    ensures
        provision_step(settings, req, Err(why), replies) matches ProvisionStepView::Done(r)
            && r.state == Map::<Seq<char>, Seq<char>>::empty() && r.errors.len() == 1
            && why.is_suffix_of(r.errors[0]),
        req.resource_id != "rds"@ && req.resource_id != "s3"@ ==> (provision_step(
            settings,
            req,
            Ok(creds),
            replies,
        ) matches ProvisionStepView::Done(r) && r.state == Map::<Seq<char>, Seq<char>>::empty()
            && r.errors.len() == 1 && req.resource_id.is_suffix_of(r.errors[0])),
        req.resource_id == "rds"@ && (exists|next: int| #[trigger] rds::ensure_instance_step(
            creds.region,
            requested_rds(req, creds.region),
            replies,
            0,
        ) == api::StepView::Done(Err::<Seq<char>, Seq<char>>(why), next)) ==> (provision_step(
            settings,
            req,
            Ok(creds),
            replies,
        ) matches ProvisionStepView::Done(r) && r.state == Map::<Seq<char>, Seq<char>>::empty()
            && r.errors.len() == 1 && why.is_suffix_of(r.errors[0])),
        req.resource_id == "s3"@ && (exists|next: int| #[trigger] s3::ensure_bucket_step(
            requested_s3(req, creds.region),
            settings.prefix_text() + requested_s3(req, creds.region).bucket_name,
            replies,
            0,
        ) == api::StepView::Done(Err::<(), Seq<char>>(why), next)) ==> (provision_step(
            settings,
            req,
            Ok(creds),
            replies,
        ) matches ProvisionStepView::Done(r) && r.state == Map::<Seq<char>, Seq<char>>::empty()
            && r.errors.len() == 1 && why.is_suffix_of(r.errors[0])),
{
    resources_are_told_apart();
    ends_with_its_reason("S3 provisioning error: "@, why);
    ends_with_its_reason("credentials error: "@, why);
    ends_with_its_reason("unknown resource_id: "@, req.resource_id);
    ends_with_its_reason("RDS provisioning error: "@, why);
}

/// What is said before a reason leaves the reason at the end.
proof fn ends_with_its_reason(before: Seq<char>, why: Seq<char>)
    ensures
        why.is_suffix_of(before + why),
{
    let s = before + why;
    assert(s.subrange(s.len() - why.len(), s.len() as int) =~= why);
}

/// What a field declares as its default is what is taken where nothing is entered. Only a
/// bucket's name is required.
pub proof fn declared_defaults_are_taken(req: ProvisionRequestView, region: Seq<char>)
    requires
        req.fields == Map::<Seq<char>, Seq<char>>::empty(),
    ensures
        ({
            let fields = metadata::rds_declaration().fields;
            let rds = requested_rds(req, region);
            &&& forall|i: int|
                0 <= i < fields.len() && (#[trigger] fields[i]).key == "engine"@
                    ==> fields[i].default == Some(rds.engine) && fields[i].options.contains(
                    rds.engine,
                )
            &&& forall|i: int|
                0 <= i < fields.len() && (#[trigger] fields[i]).key == "instance_class"@
                    ==> fields[i].default == Some(rds.instance_class)
            &&& forall|i: int|
                0 <= i < fields.len() && (#[trigger] fields[i]).key == "db_name"@
                    ==> fields[i].default == Some(rds.db_name)
            &&& forall|i: int| 0 <= i < fields.len() ==> !(#[trigger] fields[i]).required
            &&& forall|i: int|
                0 <= i < metadata::s3_declaration().fields.len() ==> ((
                #[trigger] metadata::s3_declaration().fields[i]).required
                    <==> metadata::s3_declaration().fields[i].key == "bucket_name"@)
        }),
{
    reveal_strlit("identifier");
    reveal_strlit("engine");
    reveal_strlit("instance_class");
    reveal_strlit("db_name");
    reveal_strlit("bucket_name");
    reveal_strlit("region");
    assert("identifier"@.len() == 10 && "engine"@.len() == 6 && "instance_class"@.len() == 14
        && "db_name"@.len() == 7);
    assert("bucket_name"@.len() == 11 && "region"@.len() == 6);
    let fields = metadata::rds_declaration().fields;
    let rds = requested_rds(req, region);
    assert(fields[1].options[0] == rds.engine);
}

} // verus!
