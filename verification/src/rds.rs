//! RDS instance provisioning via the AWS RDS Query API.
//!
//! The RDS Query API is a POST endpoint at `https://rds.<region>.amazonaws.com/`
//! with an `application/x-www-form-urlencoded` body. Responses are XML.
use crate::api;
use crate::api::{form_post, regional, Api, ApiCall, Reply, Step};
use crate::config;
use crate::config::RdsConfig;
use crate::encode;
use crate::encode::url_encode;
use crate::extract;
use crate::extract::extract_tag;
use crate::number;
use crate::number::to_decimal;
use crate::settings;
use crate::settings::value_or;
use crate::text;
use crate::text::{contains, same_text};
use vstd::prelude::*;
use vstd::string::*;

verus! {

broadcast use crate::text::pairs_push;

/// The call that posts `body` to RDS.
pub open spec fn rds_call(region: Seq<char>, body: Seq<char>) -> api::ApiCallView {
    api::form_call(
        api::ApiView::Rds,
        "rds"@,
        api::regional_host("rds"@, region),
        region,
        region,
        body,
        false,
    )
}

/// The call that posts `body` to RDS.
pub fn rds_query(region: &str, body: String) -> (call: ApiCall)
    ensures
        call@ == rds_call(region@, body@),
{
    form_post(Api::Rds, "rds", regional("rds", region), region, region, body, false)
}

// ── Looking an instance up ────────────────────────────────────────────────────

/// The call that looks an instance up.
pub open spec fn describe_call(region: Seq<char>, identifier: Seq<char>) -> api::ApiCallView {
    rds_call(
        region,
        "Action=DescribeDBInstances&Version=2014-10-31&DBInstanceIdentifier="@ + identifier,
    )
}

/// What is known of an instance.
pub struct DbInstanceInfo {
    /// Its endpoint, empty while it has none.
    pub endpoint_address: String,
    /// Its `DbiResourceId`, which policies name it by.
    pub resource_id: Option<String>,
}

/// What a [`DbInstanceInfo`] holds.
#[verifier::ext_equal]
pub struct DbInstanceInfoView {
    pub endpoint_address: Seq<char>,
    pub resource_id: Option<Seq<char>>,
}

impl View for DbInstanceInfo {
    type V = DbInstanceInfoView;

    open spec fn view(&self) -> DbInstanceInfoView {
        DbInstanceInfoView {
            endpoint_address: self.endpoint_address@,
            resource_id: text::opt_text(self.resource_id),
        }
    }
}

/// The instance in what came back for looking it up, where there is such an instance.
/// RDS answers with the error code `DBInstanceNotFound` where there is none, whatever
/// the status of that answer.
pub open spec fn found_instance(reply: api::ReplyView) -> Result<
    Option<DbInstanceInfoView>,
    Seq<char>,
> {
    match reply {
        Err(e) => if e.code == Some("DBInstanceNotFound"@) {
            Ok(None)
        } else {
            Err(e.text)
        },
        Ok(xml) => if extract::tag_text(xml, "Code"@) == Some("DBInstanceNotFound"@) {
            Ok(None)
        } else {
            Ok(
                Some(
                    DbInstanceInfoView {
                        endpoint_address: settings::text_or(
                            extract::tag_text(xml, "Address"@),
                            Seq::empty(),
                        ),
                        resource_id: extract::tag_text(xml, "DbiResourceId"@),
                    },
                ),
            )
        },
    }
}

/// The instance in what came back for looking it up, where there is such an instance.
pub fn describe_db_instance(reply: &Reply) -> (found: Result<Option<DbInstanceInfo>, String>)
    ensures
        text::lookup(found) == found_instance(api::answer(*reply)),
{
    match reply {
        Err(e) => {
            if e.has_code("DBInstanceNotFound") {
                Ok(None)
            } else {
                Err(e.text.clone())
            }
        },
        Ok(xml) => {
            if let Some(code) = extract_tag(xml.as_str(), "Code") {
                if same_text(code.as_str(), "DBInstanceNotFound") {
                    return Ok(None);
                }
            }
            let endpoint_address = match extract_tag(xml.as_str(), "Address") {
                Some(endpoint) => endpoint,
                None => String::new(),
            };
            let resource_id = extract_tag(xml.as_str(), "DbiResourceId");
            Ok(Some(DbInstanceInfo { endpoint_address, resource_id }))
        },
    }
}

// ── Creating an instance ──────────────────────────────────────────────────────

/// `true` or `false`.
pub open spec fn flag_text(flag: bool) -> Seq<char> {
    if flag {
        "true"@
    } else {
        "false"@
    }
}

/// The parameters of an instance's creation. The password of the master user is left
/// to AWS Secrets Manager, so that no plaintext credential is among them.
pub open spec fn create_params(cfg: config::RdsConfigView) -> Seq<(Seq<char>, Seq<char>)> {
    let always = seq![
        ("DBInstanceIdentifier"@, cfg.identifier),
        ("DBInstanceClass"@, cfg.instance_class),
        ("Engine"@, cfg.engine),
        ("AllocatedStorage"@, cfg.allocated_storage),
        ("DBName"@, cfg.db_name),
        ("MultiAZ"@, flag_text(cfg.multi_az)),
        ("EnableIAMDatabaseAuthentication"@, flag_text(cfg.iam_auth)),
        ("MasterUsername"@, "admin"@),
        ("ManageMasterUserPassword"@, "true"@),
        ("StorageEncrypted"@, "true"@),
        ("StorageType"@, "gp3"@),
        ("PubliclyAccessible"@, "false"@),
        ("DeletionProtection"@, "true"@),
    ];
    let placed = match cfg.subnet_group {
        Some(group) => always.push(("DBSubnetGroupName"@, group)),
        None => always,
    };
    placed + Seq::new(
        cfg.security_groups.len(),
        |i: int|
            (
                "VpcSecurityGroupIds.member."@ + number::decimal((i + 1) as nat),
                cfg.security_groups[i],
            ),
    )
}

/// A form: the action and, after it, each parameter with its value.
pub open spec fn form_text(action: Seq<char>, params: Seq<(Seq<char>, Seq<char>)>) -> Seq<char>
    decreases params.len(),
{
    if params.len() == 0 {
        action
    } else {
        form_text(action, params.drop_last()) + "&"@ + encode::url_text(params.last().0) + "="@
            + encode::url_text(params.last().1)
    }
}

/// The call that creates an instance.
pub open spec fn create_call(region: Seq<char>, cfg: config::RdsConfigView) -> api::ApiCallView {
    rds_call(
        region,
        form_text("Action=CreateDBInstance&Version=2014-10-31"@, create_params(cfg)),
    )
}

/// The instance in what came back for creating it. It has no endpoint yet.
pub open spec fn created_instance(reply: api::ReplyView) -> Result<DbInstanceInfoView, Seq<char>> {
    match reply {
        Err(e) => Err(e.text),
        Ok(xml) => if text::contains_text(xml, "Error"@) && !text::contains_text(
            xml,
            "DBInstanceIdentifier"@,
        ) {
            Err(
                "CreateDBInstance error: "@ + settings::text_or(
                    extract::tag_text(xml, "Message"@),
                    xml,
                ),
            )
        } else {
            Ok(
                DbInstanceInfoView {
                    endpoint_address: Seq::empty(),
                    resource_id: extract::tag_text(xml, "DbiResourceId"@),
                },
            )
        },
    }
}

/// `true` or `false`.
fn flag_string(flag: bool) -> (s: String)
    ensures
        s@ == flag_text(flag),
{
    if flag {
        "true".to_owned()
    } else {
        "false".to_owned()
    }
}

/// Adds a parameter.
fn add_param(params: &mut Vec<(String, String)>, name: &str, value: &str)
    ensures
        text::pairs(final(params)@) == text::pairs(old(params)@).push((name@, value@)),
{
    params.push((name.to_owned(), value.to_owned()));
}

/// The parameters of an instance's creation.
fn params_of(cfg: &RdsConfig) -> (params: Vec<(String, String)>)
    ensures
        text::pairs(params@) == create_params(cfg@),
{
    let mut params: Vec<(String, String)> = Vec::new();
    assert(text::pairs(params@) =~= Seq::<(Seq<char>, Seq<char>)>::empty());
    add_param(&mut params, "DBInstanceIdentifier", cfg.identifier.as_str());
    add_param(&mut params, "DBInstanceClass", cfg.instance_class.as_str());
    add_param(&mut params, "Engine", cfg.engine.as_str());
    add_param(&mut params, "AllocatedStorage", cfg.allocated_storage.as_str());
    add_param(&mut params, "DBName", cfg.db_name.as_str());
    add_param(&mut params, "MultiAZ", flag_string(cfg.multi_az).as_str());
    add_param(&mut params, "EnableIAMDatabaseAuthentication", flag_string(cfg.iam_auth).as_str());
    add_param(&mut params, "MasterUsername", "admin");
    add_param(&mut params, "ManageMasterUserPassword", "true");
    add_param(&mut params, "StorageEncrypted", "true");
    add_param(&mut params, "StorageType", "gp3");
    add_param(&mut params, "PubliclyAccessible", "false");
    add_param(&mut params, "DeletionProtection", "true");
    if let Some(group) = &cfg.subnet_group {
        add_param(&mut params, "DBSubnetGroupName", group.as_str());
    }
    let ghost all = create_params(cfg@);
    let ghost placed = text::pairs(params@);
    let mut i: usize = 0;
    assert(all.take(placed.len() as int) =~= placed);
    while i < cfg.security_groups.len()
        invariant
            i <= cfg.security_groups@.len(),
            all == create_params(cfg@),
            all == placed + Seq::new(
                cfg@.security_groups.len(),
                |i: int|
                    (
                        "VpcSecurityGroupIds.member."@ + number::decimal((i + 1) as nat),
                        cfg@.security_groups[i],
                    ),
            ),
            text::pairs(params@) == all.take(placed.len() + i),
        decreases cfg.security_groups@.len() - i,
    {
        let mut name = "VpcSecurityGroupIds.member.".to_owned();
        name.append(to_decimal(i as u64 + 1).as_str());
        add_param(&mut params, name.as_str(), cfg.security_groups[i].as_str());
        assert(all.take(placed.len() + i + 1) =~= all.take(placed.len() + i).push(
            all[placed.len() + i],
        ));
        i += 1;
    }
    assert(all.take(all.len() as int) =~= all);
    params
}

/// A form: the action and, after it, each parameter with its value.
fn form(action: &str, params: &Vec<(String, String)>) -> (body: String)
    ensures
        body@ == form_text(action@, text::pairs(params@)),
{
    let ghost all = text::pairs(params@);
    let mut body = action.to_owned();
    let mut i: usize = 0;
    while i < params.len()
        invariant
            i <= params@.len(),
            all == text::pairs(params@),
            body@ == form_text(action@, all.take(i as int)),
        decreases params@.len() - i,
    {
        body.append("&");
        body.append(url_encode(params[i].0.as_str()).as_str());
        body.append("=");
        body.append(url_encode(params[i].1.as_str()).as_str());
        proof {
            assert(all.take(i + 1).drop_last() =~= all.take(i as int));
            assert(all.take(i + 1).last() == all[i as int]);
        }
        i += 1;
    }
    assert(all.take(all.len() as int) =~= all);
    body
}

/// The call that creates an instance.
pub fn create_db_instance(region: &str, cfg: &RdsConfig) -> (call: ApiCall)
    ensures
        call@ == create_call(region@, cfg@),
{
    rds_query(region, form("Action=CreateDBInstance&Version=2014-10-31", &params_of(cfg)))
}

/// The instance in what came back for creating it.
pub fn read_created(reply: &Reply) -> (created: Result<DbInstanceInfo, String>)
    ensures
        text::outcome(created) == created_instance(api::answer(*reply)),
{
    match reply {
        Err(e) => Err(e.text.clone()),
        Ok(xml) => {
            let xml: &str = xml.as_str();
            if contains(xml, "Error") && !contains(xml, "DBInstanceIdentifier") {
                let msg = value_or(extract_tag(xml, "Message"), xml);
                Err("CreateDBInstance error: ".to_owned().concat(msg.as_str()))
            } else {
                let resource_id = extract_tag(xml, "DbiResourceId");
                Ok(DbInstanceInfo { endpoint_address: String::new(), resource_id })
            }
        },
    }
}

// ── The flow ──────────────────────────────────────────────────────────────────

/// The flow of [`find_or_create`]: look the instance up; where it is not there, create
/// it.
pub open spec fn instance_step(
    region: Seq<char>,
    cfg: config::RdsConfigView,
    replies: Seq<api::ReplyView>,
    at: int,
) -> api::StepView<DbInstanceInfoView> {
    if replies.len() <= at {
        api::StepView::Call(describe_call(region, cfg.identifier))
    } else {
        match found_instance(replies[at]) {
            Err(e) => api::StepView::Done(Err(e), at + 1),
            Ok(Some(info)) => api::StepView::Done(Ok(info), at + 1),
            Ok(None) => if replies.len() <= at + 1 {
                api::StepView::Call(create_call(region, cfg))
            } else {
                api::StepView::Done(created_instance(replies[at + 1]), at + 2)
            },
        }
    }
}

/// Looks an RDS DB instance up, and creates it where it does not exist. Ends with what
/// is known of it.
pub fn find_or_create(region: &str, cfg: &RdsConfig, replies: &Vec<Reply>, at: usize) -> (step: Step<
    DbInstanceInfo,
>)
    requires
        at <= replies@.len(),
    ensures
        step@ == instance_step(region@, cfg@, api::outcomes(replies@), at as int),
        step matches Step::Done(_, next) ==> at <= next <= replies@.len(),
{
    if at >= replies.len() {
        let body = "Action=DescribeDBInstances&Version=2014-10-31&DBInstanceIdentifier=".to_owned().concat(
            cfg.identifier.as_str(),
        );
        return Step::Call(rds_query(region, body));
    }
    match describe_db_instance(&replies[at]) {
        Err(e) => Step::Done(Err(e), at + 1),
        Ok(Some(info)) => Step::Done(Ok(info), at + 1),
        Ok(None) => {
            if at + 1 >= replies.len() {
                return Step::Call(create_db_instance(region, cfg));
            }
            Step::Done(read_created(&replies[at + 1]), at + 2)
        },
    }
}

/// The flow of [`ensure_instance`]: that of [`find_or_create`], ending with the
/// endpoint alone.
pub open spec fn ensure_instance_step(
    region: Seq<char>,
    cfg: config::RdsConfigView,
    replies: Seq<api::ReplyView>,
    at: int,
) -> api::StepView<Seq<char>> {
    match instance_step(region, cfg, replies, at) {
        api::StepView::Call(call) => api::StepView::Call(call),
        api::StepView::Done(Err(e), next) => api::StepView::Done(Err(e), next),
        api::StepView::Done(Ok(info), next) => api::StepView::Done(
            Ok(info.endpoint_address),
            next,
        ),
    }
}

/// Ensures that an RDS DB instance exists, creating it where it does not.
///
/// Ends with the endpoint hostname. It is empty where the instance was just created
/// and is not yet available: callers treat an empty endpoint as "provisioning in
/// progress" and do not block the deployment.
pub fn ensure_instance(region: &str, cfg: &RdsConfig, replies: &Vec<Reply>, at: usize) -> (step: Step<
    String,
>)
    requires
        at <= replies@.len(),
    ensures
        step@ == ensure_instance_step(region@, cfg@, api::outcomes(replies@), at as int),
        step matches Step::Done(_, next) ==> at <= next <= replies@.len(),
{
    match find_or_create(region, cfg, replies, at) {
        Step::Call(call) => Step::Call(call),
        Step::Done(Err(e), next) => Step::Done(Err(e), next),
        Step::Done(Ok(info), next) => Step::Done(Ok(info.endpoint_address), next),
    }
}

// ── Laws ──────────────────────────────────────────────────────────────────────

/// Every instance is created encrypted, closed to the public, protected against
/// deletion, and with its master password in AWS Secrets Manager: no password is
/// among the parameters.
pub proof fn created_instance_is_guarded(cfg: config::RdsConfigView)
    ensures
        create_params(cfg).contains(("StorageEncrypted"@, "true"@)),
        create_params(cfg).contains(("PubliclyAccessible"@, "false"@)),
        create_params(cfg).contains(("DeletionProtection"@, "true"@)),
        create_params(cfg).contains(("ManageMasterUserPassword"@, "true"@)),
        forall|i: int|
            0 <= i < create_params(cfg).len() ==> (#[trigger] create_params(cfg)[i]).0
                != "MasterUserPassword"@,
{
    let params = create_params(cfg);
    assert(params[8] == ("ManageMasterUserPassword"@, "true"@));
    assert(params[9] == ("StorageEncrypted"@, "true"@));
    assert(params[11] == ("PubliclyAccessible"@, "false"@));
    assert(params[12] == ("DeletionProtection"@, "true"@));
    assert forall|i: int| 0 <= i < params.len() implies (#[trigger] params[i]).0
        != "MasterUserPassword"@ by {
        reveal_strlit("MasterUserPassword");
        reveal_strlit("DBInstanceIdentifier");
        reveal_strlit("DBInstanceClass");
        reveal_strlit("Engine");
        reveal_strlit("AllocatedStorage");
        reveal_strlit("DBName");
        reveal_strlit("MultiAZ");
        reveal_strlit("EnableIAMDatabaseAuthentication");
        reveal_strlit("MasterUsername");
        reveal_strlit("ManageMasterUserPassword");
        reveal_strlit("StorageEncrypted");
        reveal_strlit("StorageType");
        reveal_strlit("PubliclyAccessible");
        reveal_strlit("DeletionProtection");
        reveal_strlit("DBSubnetGroupName");
        reveal_strlit("VpcSecurityGroupIds.member.");
        assert("PubliclyAccessible"@[0] == 'P');
        assert("DeletionProtection"@[0] == 'D');
        assert("MasterUserPassword"@[0] == 'M');
        if i < 13 {
            assert(params[0].0 == "DBInstanceIdentifier"@);
            assert(params[1].0 == "DBInstanceClass"@);
            assert(params[2].0 == "Engine"@);
            assert(params[3].0 == "AllocatedStorage"@);
            assert(params[4].0 == "DBName"@);
            assert(params[5].0 == "MultiAZ"@);
            assert(params[6].0 == "EnableIAMDatabaseAuthentication"@);
            assert(params[7].0 == "MasterUsername"@);
            assert(params[8].0 == "ManageMasterUserPassword"@);
            assert(params[9].0 == "StorageEncrypted"@);
            assert(params[10].0 == "StorageType"@);
            assert(params[11].0 == "PubliclyAccessible"@);
            assert(params[12].0 == "DeletionProtection"@);
        } else if i == 13 && cfg.subnet_group is Some {
            assert(params[i].0 == "DBSubnetGroupName"@);
        } else {
            let before: int = if cfg.subnet_group is Some {
                14
            } else {
                13
            };
            assert(params[i].0 == "VpcSecurityGroupIds.member."@ + number::decimal(
                (i - before + 1) as nat,
            ));
            assert(params[i].0.len() >= 27);
        }
    }
}

/// An instance that is there is left alone: one lookup ends the flow with its endpoint,
/// and nothing is created.
pub proof fn existing_instance_is_left_alone(
    region: Seq<char>,
    cfg: config::RdsConfigView,
    replies: Seq<api::ReplyView>,
    at: int,
    status: nat,
    body: Seq<char>,
)
    requires
        0 <= at < replies.len(),
        status < 400,
        extract::tag_text(body, "Code"@) != Some("DBInstanceNotFound"@),
        replies[at] == api::ApiView::Rds.result(status, body),
    ensures
        ensure_instance_step(region, cfg, replies, at) == api::StepView::Done(
            Ok::<Seq<char>, Seq<char>>(
                settings::text_or(extract::tag_text(body, "Address"@), Seq::empty()),
            ),
            at + 1,
        ),
{
}

/// An instance that RDS reports as missing, with any status, is created. The flow then ends with an empty
/// endpoint, or with the error of the creation.
pub proof fn missing_instance_is_created(
    region: Seq<char>,
    cfg: config::RdsConfigView,
    replies: Seq<api::ReplyView>,
    at: int,
    status: nat,
    body: Seq<char>,
)
    requires
        0 <= at < replies.len(),
        extract::tag_text(body, "Code"@) == Some("DBInstanceNotFound"@),
        replies[at] == api::ApiView::Rds.result(status, body),
    ensures
        ensure_instance_step(region, cfg, replies, at) == if at + 1 < replies.len() {
            match created_instance(replies[at + 1]) {
                Ok(_) => api::StepView::Done(Ok::<Seq<char>, Seq<char>>(Seq::empty()), at + 2),
                Err(e) => api::StepView::Done(Err(e), at + 2),
            }
        } else {
            api::StepView::Call(create_call(region, cfg))
        },
{
}

/// Ensuring an instance takes two calls at most.
pub proof fn instance_takes_two_calls(
    region: Seq<char>,
    cfg: config::RdsConfigView,
    replies: Seq<api::ReplyView>,
    at: int,
)
    requires
        0 <= at,
        at + 2 <= replies.len(),
    ensures
        ensure_instance_step(region, cfg, replies, at) is Done,
{
}

/// Every call to RDS goes to the region's own host, and is signed for that region.
pub proof fn rds_is_called(region: Seq<char>, body: Seq<char>)
    ensures
        ({
            let call = rds_call(region, body);
            &&& call.api is Rds && call.service == "rds"@ && call.body == Some(body)
            &&& call.host == "rds."@ + region + ".amazonaws.com"@
            &&& call.signing_region == region && call.clock_region == region
        }),
{
    reveal_strlit("rds");
    reveal_strlit(".");
    reveal_strlit("rds.");
    assert("rds"@ + "."@ =~= "rds."@);
}

/// Looking an instance up asks for that instance.
pub proof fn lookup_names_the_instance(region: Seq<char>, identifier: Seq<char>)
    ensures
        ({
            let call = describe_call(region, identifier);
            &&& call == rds_call(region, call.body->0)
            &&& "Action=DescribeDBInstances&"@.is_prefix_of(call.body->0)
            &&& ("&DBInstanceIdentifier="@ + identifier).is_suffix_of(call.body->0)
        }),
{
    reveal_strlit("Action=DescribeDBInstances&");
    reveal_strlit("&DBInstanceIdentifier=");
    reveal_strlit("Action=DescribeDBInstances&Version=2014-10-31&DBInstanceIdentifier=");
    let body = describe_call(region, identifier).body->0;
    let end = "&DBInstanceIdentifier="@ + identifier;
    assert(body.subrange(0, 27) =~= "Action=DescribeDBInstances&"@);
    assert(body.subrange(body.len() - end.len(), body.len() as int) =~= end);
}

/// Where each parameter stands.
proof fn parameters_in_order(cfg: config::RdsConfigView)
    ensures
        ({
            let params = create_params(cfg);
            let fixed: int = if cfg.subnet_group is Some {
                14
            } else {
                13
            };
            &&& params.len() == fixed + cfg.security_groups.len()
            &&& params[0] == ("DBInstanceIdentifier"@, cfg.identifier)
            &&& params[1] == ("DBInstanceClass"@, cfg.instance_class)
            &&& params[2] == ("Engine"@, cfg.engine)
            &&& params[3] == ("AllocatedStorage"@, cfg.allocated_storage)
            &&& params[4] == ("DBName"@, cfg.db_name)
            &&& params[5] == ("MultiAZ"@, flag_text(cfg.multi_az))
            &&& params[6] == ("EnableIAMDatabaseAuthentication"@, flag_text(cfg.iam_auth))
            &&& params[7] == ("MasterUsername"@, "admin"@)
            &&& params[8] == ("ManageMasterUserPassword"@, "true"@)
            &&& params[9] == ("StorageEncrypted"@, "true"@)
            &&& params[10] == ("StorageType"@, "gp3"@)
            &&& params[11] == ("PubliclyAccessible"@, "false"@)
            &&& params[12] == ("DeletionProtection"@, "true"@)
            &&& cfg.subnet_group is Some ==> params[13] == (
                "DBSubnetGroupName"@,
                cfg.subnet_group->0,
            )
            &&& forall|i: int|
                0 <= i < cfg.security_groups.len() ==> #[trigger] params[fixed + i] == (
                    "VpcSecurityGroupIds.member."@ + number::decimal((i + 1) as nat),
                    cfg.security_groups[i],
                )
        }),
{
}

/// A flag, a subnet group or a security group is found under its own name alone.
proof fn parameter_names_are_told_apart(cfg: config::RdsConfigView, i: int)
    requires
        0 <= i < create_params(cfg).len(),
    ensures
        ({
            let name = create_params(cfg)[i].0;
            &&& name == "MultiAZ"@ ==> i == 5
            &&& name == "EnableIAMDatabaseAuthentication"@ ==> i == 6
            &&& name == "DBSubnetGroupName"@ ==> i == 13 && cfg.subnet_group is Some
        }),
{
    reveal_strlit("DBInstanceIdentifier");
    reveal_strlit("DBInstanceClass");
    reveal_strlit("Engine");
    reveal_strlit("AllocatedStorage");
    reveal_strlit("DBName");
    reveal_strlit("MultiAZ");
    reveal_strlit("EnableIAMDatabaseAuthentication");
    reveal_strlit("MasterUsername");
    reveal_strlit("ManageMasterUserPassword");
    reveal_strlit("StorageEncrypted");
    reveal_strlit("StorageType");
    reveal_strlit("PubliclyAccessible");
    reveal_strlit("DeletionProtection");
    reveal_strlit("DBSubnetGroupName");
    reveal_strlit("VpcSecurityGroupIds.member.");
    parameters_in_order(cfg);
    assert("MultiAZ"@.len() == 7);
    assert("EnableIAMDatabaseAuthentication"@.len() == 31);
    assert("EnableIAMDatabaseAuthentication"@[0] == 'E');
    assert("DBSubnetGroupName"@.len() == 17);
    let fixed: int = if cfg.subnet_group is Some {
        14
    } else {
        13
    };
    let name = create_params(cfg)[i].0;
    if i >= fixed {
        assert(create_params(cfg)[fixed + (i - fixed)].0 == "VpcSecurityGroupIds.member."@
            + number::decimal((i - fixed + 1) as nat));
        assert(name[0] == 'V');
        assert(name.len() >= 27);
    }
}

/// The instance is created as configured: each text under its name, each flag as it is
/// set, the subnet group where there is one, and each security group under its number.
pub proof fn parameters_are_as_configured(cfg: config::RdsConfigView)
    ensures
        ({
            let params = create_params(cfg);
            &&& params.contains(("DBInstanceIdentifier"@, cfg.identifier))
            &&& params.contains(("DBInstanceClass"@, cfg.instance_class))
            &&& params.contains(("Engine"@, cfg.engine))
            &&& params.contains(("AllocatedStorage"@, cfg.allocated_storage))
            &&& params.contains(("DBName"@, cfg.db_name))
            &&& params.contains(("MasterUsername"@, "admin"@))
            &&& params.contains(("StorageType"@, "gp3"@))
            &&& params.contains(("MultiAZ"@, "true"@)) <==> cfg.multi_az
            &&& params.contains(("MultiAZ"@, "false"@)) <==> !cfg.multi_az
            &&& params.contains(("EnableIAMDatabaseAuthentication"@, "true"@)) <==> cfg.iam_auth
            &&& params.contains(("EnableIAMDatabaseAuthentication"@, "false"@)) <==> !cfg.iam_auth
            &&& forall|group: Seq<char>|
                #[trigger] params.contains(("DBSubnetGroupName"@, group)) <==> cfg.subnet_group
                    == Some(group)
            &&& forall|i: int|
                0 <= i < cfg.security_groups.len() ==> params.contains(
                    (
                        "VpcSecurityGroupIds.member."@ + number::decimal((i + 1) as nat),
                        #[trigger] cfg.security_groups[i],
                    ),
                )
        }),
{
    parameters_in_order(cfg);
    reveal_strlit("true");
    reveal_strlit("false");
    assert("true"@.len() != "false"@.len());
    let params = create_params(cfg);
    let fixed: int = if cfg.subnet_group is Some {
        14
    } else {
        13
    };
    assert(params[5] == ("MultiAZ"@, flag_text(cfg.multi_az)));
    assert(params[6] == ("EnableIAMDatabaseAuthentication"@, flag_text(cfg.iam_auth)));
    assert forall|name: Seq<char>, value: Seq<char>| #[trigger]
        params.contains((name, value)) implies {
        &&& name == "MultiAZ"@ ==> value == flag_text(cfg.multi_az)
        &&& name == "EnableIAMDatabaseAuthentication"@ ==> value == flag_text(cfg.iam_auth)
        &&& name == "DBSubnetGroupName"@ ==> cfg.subnet_group == Some(value)
    } by {
        let i = choose|i: int| 0 <= i < params.len() && params[i] == (name, value);
        parameter_names_are_told_apart(cfg, i);
    }
    assert forall|i: int| 0 <= i < cfg.security_groups.len() implies params.contains(
        (
            "VpcSecurityGroupIds.member."@ + number::decimal((i + 1) as nat),
            #[trigger] cfg.security_groups[i],
        ),
    ) by {
        assert(params[fixed + i].1 == cfg.security_groups[i]);
    }
    if cfg.subnet_group is Some {
        assert(params[13] == ("DBSubnetGroupName"@, cfg.subnet_group->0));
    }
}

/// Every parameter of an instance is sent, under its name.
pub proof fn every_parameter_is_sent(region: Seq<char>, cfg: config::RdsConfigView, i: int)
    requires
        0 <= i < create_params(cfg).len(),
    ensures
        ({
            let call = create_call(region, cfg);
            let (name, value) = create_params(cfg)[i];
            &&& call == rds_call(region, call.body->0)
            &&& "Action=CreateDBInstance&"@.is_prefix_of(call.body->0)
            &&& api::sends(call.body->0, encode::url_text(name), value)
        }),
{
    let action = "Action=CreateDBInstance&Version=2014-10-31"@;
    let params = create_params(cfg);
    let body = create_call(region, cfg).body->0;
    reveal_strlit("Action=CreateDBInstance&Version=2014-10-31");
    reveal_strlit("Action=CreateDBInstance&");
    form_begins(action, params);
    assert(body.subrange(0, 24) =~= "Action=CreateDBInstance&"@);
    form_sends(action, params, i, Seq::empty());
    assert(body + Seq::<char>::empty() =~= body);
}

/// A form begins with its action.
proof fn form_begins(action: Seq<char>, params: Seq<(Seq<char>, Seq<char>)>)
    ensures
        form_text(action, params).len() >= action.len(),
        form_text(action, params).subrange(0, action.len() as int) == action,
    decreases params.len(),
{
    if params.len() > 0 {
        form_begins(action, params.drop_last());
        let front = form_text(action, params.drop_last());
        assert(form_text(action, params).subrange(0, action.len() as int) =~= front.subrange(
            0,
            action.len() as int,
        ));
    } else {
        assert(action.subrange(0, action.len() as int) =~= action);
    }
}

/// A form sends each of its parameters, whatever further ones follow.
proof fn form_sends(
    action: Seq<char>,
    params: Seq<(Seq<char>, Seq<char>)>,
    i: int,
    after: Seq<char>,
)
    requires
        0 <= i < params.len(),
        after.len() == 0 || after.first() == '&',
    ensures
        api::sends(
            form_text(action, params) + after,
            encode::url_text(params[i].0),
            params[i].1,
        ),
    decreases params.len(),
{
    reveal_strlit("&");
    reveal_strlit("=");
    let init = params.drop_last();
    let (name, value) = params.last();
    let front = form_text(action, init);
    if i < init.len() {
        let rest = "&"@ + encode::url_text(name) + "="@ + encode::url_text(value) + after;
        form_sends(action, init, i, rest);
        assert(form_text(action, params) + after =~= front + rest);
    } else {
        api::field_is_sent(front + "&"@, encode::url_text(name), value, after);
    }
}

/// What is known of an instance is read from the answer that described or created it.
pub proof fn answers_are_read(status: nat, body: Seq<char>)
    requires
        status < 400,
    ensures
        ({
            let reply = api::ApiView::Rds.result(status, body);
            &&& found_instance(reply) matches Ok(Some(info)) ==> info.resource_id
                == extract::tag_text(body, "DbiResourceId"@)
            &&& created_instance(reply) matches Ok(info) ==> info.endpoint_address.len() == 0
                && info.resource_id == extract::tag_text(body, "DbiResourceId"@)
            &&& !text::contains_text(body, "Error"@) ==> created_instance(reply) is Ok
            &&& text::contains_text(body, "DBInstanceIdentifier"@) ==> created_instance(reply) is Ok
            &&& text::contains_text(body, "Error"@) && !text::contains_text(
                body,
                "DBInstanceIdentifier"@,
            ) ==> created_instance(reply) is Err
        }),
{
}

/// A call that failed for another reason fails the flow, with its wording.
pub proof fn other_failures_are_passed_on(e: api::ApiErrorView)
    ensures
        e.code != Some("DBInstanceNotFound"@) ==> found_instance(Err(e)) == Err::<
            Option<DbInstanceInfoView>,
            Seq<char>,
        >(e.text),
        created_instance(Err(e)) == Err::<DbInstanceInfoView, Seq<char>>(e.text),
{
}

/// A creation that is answered with an error document fails with its message, and with
/// the whole document where it holds none.
pub proof fn error_document_is_worded(xml: Seq<char>)
    requires
        text::contains_text(xml, "Error"@),
        !text::contains_text(xml, "DBInstanceIdentifier"@),
    ensures
        created_instance(Ok(xml)) matches Err(e) && {
            &&& extract::tag_text(xml, "Message"@) matches Some(m) ==> m.is_suffix_of(e)
            &&& extract::tag_text(xml, "Message"@) is None ==> xml.is_suffix_of(e)
        },
{
    let said = settings::text_or(extract::tag_text(xml, "Message"@), xml);
    let e = "CreateDBInstance error: "@ + said;
    assert(e.subrange(e.len() - said.len(), e.len() as int) =~= said);
}

} // verus!
