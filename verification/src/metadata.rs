//! What the plugin declares of itself: its capabilities, its configuration keys and
//! the resources that it provisions.
use crate::iam;
use crate::settings;
use crate::settings::PluginSettings;
use crate::text;
use vstd::prelude::*;
use vstd::string::*;

verus! {

broadcast use crate::text::texts_push;

/// How the value of a field is entered.
#[derive(Clone, Copy, Debug, PartialEq, Eq, Structural)]
pub enum ConfigFieldType {
    String,
    Secret,
    Select,
}

/// A value that an operator enters.
pub struct ConfigField {
    pub key: String,
    pub label: String,
    pub description: String,
    pub field_type: ConfigFieldType,
    pub default: Option<String>,
    pub required: bool,
    /// What can be selected, for a field of that type.
    pub options: Vec<String>,
    /// The environment variable that the value can be taken from.
    pub env_source: Option<String>,
}

/// What a [`ConfigField`] holds.
#[verifier::ext_equal]
pub struct ConfigFieldView {
    pub key: Seq<char>,
    pub label: Seq<char>,
    pub description: Seq<char>,
    pub field_type: ConfigFieldType,
    pub default: Option<Seq<char>>,
    pub required: bool,
    pub options: Seq<Seq<char>>,
    pub env_source: Option<Seq<char>>,
}

impl View for ConfigField {
    type V = ConfigFieldView;

    open spec fn view(&self) -> ConfigFieldView {
        ConfigFieldView {
            key: self.key@,
            label: self.label@,
            description: self.description@,
            field_type: self.field_type,
            default: text::opt_text(self.default),
            required: self.required,
            options: text::texts(self.options@),
            env_source: text::opt_text(self.env_source),
        }
    }
}

/// A resource that an operator can have provisioned.
pub struct PluginResource {
    pub id: String,
    pub label: String,
    pub icon: String,
    pub description: String,
    /// At most one per application.
    pub singleton: bool,
    pub fields: Vec<ConfigField>,
    /// The keys of the state that provisioning gives.
    pub output_keys: Vec<String>,
}

/// What a [`PluginResource`] holds.
#[verifier::ext_equal]
pub struct PluginResourceView {
    pub id: Seq<char>,
    pub label: Seq<char>,
    pub icon: Seq<char>,
    pub description: Seq<char>,
    pub singleton: bool,
    pub fields: Seq<ConfigFieldView>,
    pub output_keys: Seq<Seq<char>>,
}

/// What the fields of a list hold.
pub open spec fn fields_of(list: Seq<ConfigField>) -> Seq<ConfigFieldView> {
    list.map_values(|f: ConfigField| f@)
}

/// What the resources of a list hold.
pub open spec fn resources_of(list: Seq<PluginResource>) -> Seq<PluginResourceView> {
    list.map_values(|r: PluginResource| r@)
}

impl View for PluginResource {
    type V = PluginResourceView;

    open spec fn view(&self) -> PluginResourceView {
        PluginResourceView {
            id: self.id@,
            label: self.label@,
            icon: self.icon@,
            description: self.description@,
            singleton: self.singleton,
            fields: fields_of(self.fields@),
            output_keys: text::texts(self.output_keys@),
        }
    }
}

/// What the plugin declares of itself.
pub struct PluginMetadata {
    pub name: String,
    pub version: String,
    pub description: String,
    pub provides: Vec<String>,
    pub depends_on: Vec<String>,
    pub optional_depends_on: Vec<String>,
    pub config_schema: Vec<ConfigField>,
    pub resources: Vec<PluginResource>,
}

/// What a [`PluginMetadata`] holds.
#[verifier::ext_equal]
pub struct PluginMetadataView {
    pub name: Seq<char>,
    pub version: Seq<char>,
    pub description: Seq<char>,
    pub provides: Seq<Seq<char>>,
    pub depends_on: Seq<Seq<char>>,
    pub optional_depends_on: Seq<Seq<char>>,
    pub config_schema: Seq<ConfigFieldView>,
    pub resources: Seq<PluginResourceView>,
}

impl View for PluginMetadata {
    type V = PluginMetadataView;

    open spec fn view(&self) -> PluginMetadataView {
        PluginMetadataView {
            name: self.name@,
            version: self.version@,
            description: self.description@,
            provides: text::texts(self.provides@),
            depends_on: text::texts(self.depends_on@),
            optional_depends_on: text::texts(self.optional_depends_on@),
            config_schema: fields_of(self.config_schema@),
            resources: resources_of(self.resources@),
        }
    }
}

// ── Building blocks ───────────────────────────────────────────────────────────

/// A field without options.
pub open spec fn plain_field(
    key: Seq<char>,
    label: Seq<char>,
    description: Seq<char>,
    field_type: ConfigFieldType,
    default: Option<Seq<char>>,
    required: bool,
    env_source: Option<Seq<char>>,
) -> ConfigFieldView {
    ConfigFieldView {
        key,
        label,
        description,
        field_type,
        default,
        required,
        options: Seq::empty(),
        env_source,
    }
}

/// The strings with one more.
fn listed(list: Vec<String>, s: &str) -> (longer: Vec<String>)
    ensures
        text::texts(longer@) == text::texts(list@).push(s@),
{
    let mut list = list;
    list.push(s.to_owned());
    list
}

/// No strings.
fn none() -> (list: Vec<String>)
    ensures
        text::texts(list@) == Seq::<Seq<char>>::empty(),
{
    let list: Vec<String> = Vec::new();
    assert(text::texts(list@) =~= Seq::<Seq<char>>::empty());
    list
}

/// An owned copy, where there is something.
fn owned(s: Option<&str>) -> (copy: Option<String>)
    ensures
        text::opt_text(copy) == text::opt_str(s),
{
    match s {
        Some(s) => Some(s.to_owned()),
        None => None,
    }
}

/// A field without options.
fn field(
    key: &str,
    label: &str,
    description: &str,
    field_type: ConfigFieldType,
    default: Option<&str>,
    required: bool,
    env_source: Option<&str>,
) -> (field: ConfigField)
    ensures
        field@ == plain_field(
            key@,
            label@,
            description@,
            field_type,
            text::opt_str(default),
            required,
            text::opt_str(env_source),
        ),
{
    ConfigField {
        key: key.to_owned(),
        label: label.to_owned(),
        description: description.to_owned(),
        field_type,
        default: owned(default),
        required,
        options: none(),
        env_source: owned(env_source),
    }
}

/// The fields with one more.
fn with_field(list: Vec<ConfigField>, f: ConfigField) -> (longer: Vec<ConfigField>)
    ensures
        fields_of(longer@) == fields_of(list@).push(f@),
{
    let ghost before = list@;
    let mut list = list;
    list.push(f);
    assert(fields_of(list@) =~= fields_of(before).push(f@));
    list
}

/// No fields.
fn no_fields() -> (list: Vec<ConfigField>)
    ensures
        fields_of(list@) == Seq::<ConfigFieldView>::empty(),
{
    let list: Vec<ConfigField> = Vec::new();
    assert(fields_of(list@) =~= Seq::<ConfigFieldView>::empty());
    list
}

// ── Resources ─────────────────────────────────────────────────────────────────

/// The RDS database.
pub open spec fn rds_declaration() -> PluginResourceView {
    PluginResourceView {
        id: "rds"@,
        label: "RDS Database"@,
        icon: "mdi-database"@,
        description: "Provision an Amazon RDS instance for this application."@,
        singleton: true,
        fields: seq![
            plain_field(
                "identifier"@,
                "DB Identifier"@,
                "RDS instance identifier (default: {namespace}-{app_name}-db)"@,
                ConfigFieldType::String,
                None,
                false,
                None,
            ),
            ConfigFieldView {
                key: "engine"@,
                label: "Engine"@,
                description: "Database engine: postgres or mysql"@,
                field_type: ConfigFieldType::Select,
                default: Some("postgres"@),
                required: false,
                options: seq!["postgres"@, "mysql"@],
                env_source: None,
            },
            plain_field(
                "instance_class"@,
                "Instance Class"@,
                "RDS instance class"@,
                ConfigFieldType::String,
                Some("db.t3.micro"@),
                false,
                None,
            ),
            plain_field(
                "db_name"@,
                "Database Name"@,
                "Name for the initial database"@,
                ConfigFieldType::String,
                Some("app"@),
                false,
                None,
            ),
        ],
        output_keys: seq!["DB_HOST"@, "DB_PORT"@, "DB_ENGINE"@, "DB_NAME"@],
    }
}

/// The RDS database.
pub fn rds_resource() -> (resource: PluginResource)
    ensures
        resource@ == rds_declaration(),
{
    let identifier = field(
        "identifier",
        "DB Identifier",
        "RDS instance identifier (default: {namespace}-{app_name}-db)",
        ConfigFieldType::String,
        None,
        false,
        None,
    );
    let engine = ConfigField {
        key: "engine".to_owned(),
        label: "Engine".to_owned(),
        description: "Database engine: postgres or mysql".to_owned(),
        field_type: ConfigFieldType::Select,
        default: Some("postgres".to_owned()),
        required: false,
        options: listed(listed(none(), "postgres"), "mysql"),
        env_source: None,
    };
    assert(engine@ == rds_declaration().fields[1]);
    let instance_class = field(
        "instance_class",
        "Instance Class",
        "RDS instance class",
        ConfigFieldType::String,
        Some("db.t3.micro"),
        false,
        None,
    );
    let db_name = field(
        "db_name",
        "Database Name",
        "Name for the initial database",
        ConfigFieldType::String,
        Some("app"),
        false,
        None,
    );
    let fields = with_field(
        with_field(with_field(with_field(no_fields(), identifier), engine), instance_class),
        db_name,
    );
    assert(fields_of(fields@) =~= rds_declaration().fields);
    PluginResource {
        id: "rds".to_owned(),
        label: "RDS Database".to_owned(),
        icon: "mdi-database".to_owned(),
        description: "Provision an Amazon RDS instance for this application.".to_owned(),
        singleton: true,
        fields,
        output_keys: listed(
            listed(listed(listed(none(), "DB_HOST"), "DB_PORT"), "DB_ENGINE"),
            "DB_NAME",
        ),
    }
}

/// The S3 bucket.
pub open spec fn s3_declaration() -> PluginResourceView {
    PluginResourceView {
        id: "s3"@,
        label: "S3 Bucket"@,
        icon: "mdi-bucket"@,
        description: "Provision an Amazon S3 bucket for this application."@,
        singleton: true,
        fields: seq![
            plain_field(
                "bucket_name"@,
                "Bucket Name"@,
                "S3 bucket name (a prefix will be applied automatically)"@,
                ConfigFieldType::String,
                None,
                true,
                None,
            ),
            plain_field(
                "region"@,
                "Region"@,
                "AWS region for the bucket (defaults to credentials region)"@,
                ConfigFieldType::String,
                None,
                false,
                None,
            ),
        ],
        output_keys: seq!["S3_BUCKET"@, "S3_REGION"@, "AWS_REGION"@],
    }
}

/// The S3 bucket.
pub fn s3_resource() -> (resource: PluginResource)
    ensures
        resource@ == s3_declaration(),
{
    let bucket_name = field(
        "bucket_name",
        "Bucket Name",
        "S3 bucket name (a prefix will be applied automatically)",
        ConfigFieldType::String,
        None,
        true,
        None,
    );
    let region = field(
        "region",
        "Region",
        "AWS region for the bucket (defaults to credentials region)",
        ConfigFieldType::String,
        None,
        false,
        None,
    );
    let fields = with_field(with_field(no_fields(), bucket_name), region);
    assert(fields_of(fields@) =~= s3_declaration().fields);
    PluginResource {
        id: "s3".to_owned(),
        label: "S3 Bucket".to_owned(),
        icon: "mdi-bucket".to_owned(),
        description: "Provision an Amazon S3 bucket for this application.".to_owned(),
        singleton: true,
        fields,
        output_keys: listed(listed(listed(none(), "S3_BUCKET"), "S3_REGION"), "AWS_REGION"),
    }
}

// ── Metadata ──────────────────────────────────────────────────────────────────

/// The configuration keys.
pub open spec fn schema() -> Seq<ConfigFieldView> {
    seq![
        plain_field(
            "AWS_REGION"@,
            "AWS Region"@,
            "Region for provisioned resources. Typically inherited from the pod environment via inherit_env_keys."@,
            ConfigFieldType::String,
            Some("us-east-1"@),
            true,
            Some("AWS_REGION"@),
        ),
        plain_field(
            "IAM_ENDPOINT"@,
            "IAM Endpoint"@,
            "Override IAM hostname. Auto-detected from region (iam.us-gov.amazonaws.com for GovCloud)."@,
            ConfigFieldType::String,
            None,
            false,
            None,
        ),
        plain_field(
            "IAM_SIGNING_REGION"@,
            "IAM Signing Region"@,
            "Override Sig V4 region for IAM. Auto-detected from region."@,
            ConfigFieldType::String,
            None,
            false,
            None,
        ),
        plain_field(
            "ROLE_PATH"@,
            "IAM Role Path"@,
            "Path prefix for created roles. Must start and end with /. Must match your IAM policy resource."@,
            ConfigFieldType::String,
            Some("/deckwatch-plugin/"@),
            false,
            None,
        ),
        plain_field(
            "BUCKET_PREFIX"@,
            "S3 Bucket Prefix"@,
            "Prepended to all S3 bucket names (e.g. myorg-)."@,
            ConfigFieldType::String,
            Some(""@),
            false,
            None,
        ),
        plain_field(
            "AWS_ACCESS_KEY_ID"@,
            "Access Key ID"@,
            "Static AWS access key. Leave blank when using IRSA."@,
            ConfigFieldType::Secret,
            None,
            false,
            Some("AWS_ACCESS_KEY_ID"@),
        ),
        plain_field(
            "AWS_SECRET_ACCESS_KEY"@,
            "Secret Access Key"@,
            "Static AWS secret key. Leave blank when using IRSA."@,
            ConfigFieldType::Secret,
            None,
            false,
            Some("AWS_SECRET_ACCESS_KEY"@),
        ),
    ]
}

/// What the plugin declares of itself, in the given version.
pub open spec fn declaration(version: Seq<char>) -> PluginMetadataView {
    PluginMetadataView {
        name: "aws"@,
        version,
        description: "Provisions AWS resources (IAM, RDS, S3) with a unified per-workload IAM role"@,
        provides: seq![
            "aws:iam-role"@,
            "aws:service-account"@,
            "aws:rds-connection"@,
            "aws:s3-bucket"@,
        ],
        depends_on: Seq::empty(),
        optional_depends_on: Seq::empty(),
        config_schema: schema(),
        resources: seq![rds_declaration(), s3_declaration()],
    }
}

/// The configuration keys.
fn config_schema() -> (list: Vec<ConfigField>)
    ensures
        fields_of(list@) == schema(),
{
    let list = with_field(
        no_fields(),
        field(
            "AWS_REGION",
            "AWS Region",
            "Region for provisioned resources. Typically inherited from the pod environment via inherit_env_keys.",
            ConfigFieldType::String,
            Some("us-east-1"),
            true,
            Some("AWS_REGION"),
        ),
    );
    let list = with_field(
        list,
        field(
            "IAM_ENDPOINT",
            "IAM Endpoint",
            "Override IAM hostname. Auto-detected from region (iam.us-gov.amazonaws.com for GovCloud).",
            ConfigFieldType::String,
            None,
            false,
            None,
        ),
    );
    let list = with_field(
        list,
        field(
            "IAM_SIGNING_REGION",
            "IAM Signing Region",
            "Override Sig V4 region for IAM. Auto-detected from region.",
            ConfigFieldType::String,
            None,
            false,
            None,
        ),
    );
    let list = with_field(
        list,
        field(
            "ROLE_PATH",
            "IAM Role Path",
            "Path prefix for created roles. Must start and end with /. Must match your IAM policy resource.",
            ConfigFieldType::String,
            Some("/deckwatch-plugin/"),
            false,
            None,
        ),
    );
    let list = with_field(
        list,
        field(
            "BUCKET_PREFIX",
            "S3 Bucket Prefix",
            "Prepended to all S3 bucket names (e.g. myorg-).",
            ConfigFieldType::String,
            Some(""),
            false,
            None,
        ),
    );
    let list = with_field(
        list,
        field(
            "AWS_ACCESS_KEY_ID",
            "Access Key ID",
            "Static AWS access key. Leave blank when using IRSA.",
            ConfigFieldType::Secret,
            None,
            false,
            Some("AWS_ACCESS_KEY_ID"),
        ),
    );
    let list = with_field(
        list,
        field(
            "AWS_SECRET_ACCESS_KEY",
            "Secret Access Key",
            "Static AWS secret key. Leave blank when using IRSA.",
            ConfigFieldType::Secret,
            None,
            false,
            Some("AWS_SECRET_ACCESS_KEY"),
        ),
    );
    assert(fields_of(list@) =~= schema());
    list
}

/// What the plugin declares of itself, in the given version.
pub fn metadata(version: &str) -> (declared: PluginMetadata)
    ensures
        declared@ == declaration(version@),
{
    let mut resources: Vec<PluginResource> = Vec::new();
    resources.push(rds_resource());
    resources.push(s3_resource());
    assert(resources_of(resources@) =~= seq![rds_declaration(), s3_declaration()]);
    let provides = listed(
        listed(listed(listed(none(), "aws:iam-role"), "aws:service-account"), "aws:rds-connection"),
        "aws:s3-bucket",
    );
    let declared = PluginMetadata {
        name: "aws".to_owned(),
        version: version.to_owned(),
        description:
            "Provisions AWS resources (IAM, RDS, S3) with a unified per-workload IAM role".to_owned(),
        provides,
        depends_on: none(),
        optional_depends_on: none(),
        config_schema: config_schema(),
        resources,
    };
    assert(declared@.provides =~= declaration(version@).provides);
    declared
}

// ── Laws ──────────────────────────────────────────────────────────────────────

/// The plugin declares the version that it is given. What it declares as a secret, and as
/// nothing else, are the static credentials; only the region is required.
pub proof fn secrets_are_declared_as_such(version: Seq<char>, i: int)
    requires
        0 <= i < declaration(version).config_schema.len(),
    ensures
        declaration(version).version == version,
        ({
            let f = declaration(version).config_schema[i];
            &&& f.field_type is Secret <==> f.key == "AWS_ACCESS_KEY_ID"@ || f.key
                == "AWS_SECRET_ACCESS_KEY"@
            &&& f.field_type is Secret ==> f.default is None && f.env_source == Some(f.key)
            &&& f.required <==> f.key == "AWS_REGION"@
        }),
{
    reveal_strlit("AWS_REGION");
    reveal_strlit("IAM_ENDPOINT");
    reveal_strlit("IAM_SIGNING_REGION");
    reveal_strlit("ROLE_PATH");
    reveal_strlit("BUCKET_PREFIX");
    reveal_strlit("AWS_ACCESS_KEY_ID");
    reveal_strlit("AWS_SECRET_ACCESS_KEY");
    assert("AWS_REGION"@.len() == 10 && "IAM_ENDPOINT"@.len() == 12
        && "IAM_SIGNING_REGION"@.len() == 18 && "ROLE_PATH"@.len() == 9
        && "BUCKET_PREFIX"@.len() == 13 && "AWS_ACCESS_KEY_ID"@.len() == 17
        && "AWS_SECRET_ACCESS_KEY"@.len() == 21);
}

/// What a configuration key declares as its default is what is taken where it has no value.
pub proof fn declared_defaults_are_taken(settings: PluginSettings, i: int)
    requires
        0 <= i < schema().len(),
        settings::set_text(settings.aws_region) is None,
        settings::set_text(settings.aws_default_region) is None,
        settings::set_text(settings.role_path) is None,
        settings::set_text(settings.bucket_prefix) is None,
    ensures
        schema()[i].key == "AWS_REGION"@ ==> schema()[i].default == Some(settings.region_text()),
        schema()[i].key == "ROLE_PATH"@ ==> schema()[i].default == Some(
            iam::role_path(settings.role_path),
        ),
        schema()[i].key == "BUCKET_PREFIX"@ ==> schema()[i].default == Some(
            settings.prefix_text(),
        ),
{
    reveal_strlit("");
    assert(""@ =~= Seq::<char>::empty());
    reveal_strlit("AWS_REGION");
    reveal_strlit("IAM_ENDPOINT");
    reveal_strlit("IAM_SIGNING_REGION");
    reveal_strlit("ROLE_PATH");
    reveal_strlit("BUCKET_PREFIX");
    reveal_strlit("AWS_ACCESS_KEY_ID");
    reveal_strlit("AWS_SECRET_ACCESS_KEY");
    assert("AWS_REGION"@.len() == 10 && "IAM_ENDPOINT"@.len() == 12
        && "IAM_SIGNING_REGION"@.len() == 18 && "ROLE_PATH"@.len() == 9
        && "BUCKET_PREFIX"@.len() == 13 && "AWS_ACCESS_KEY_ID"@.len() == 17
        && "AWS_SECRET_ACCESS_KEY"@.len() == 21);
}

} // verus!
