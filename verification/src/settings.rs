//! The plugin's configuration values.
use vstd::prelude::*;

verus! {

/// What the host answered for a configuration key: a value, none, or why it could
/// not be read.
pub type ConfigValue = Result<Option<String>, String>;

/// The configuration values that the plugin reads.
pub struct PluginSettings {
    /// `AWS_REGION`
    pub aws_region: ConfigValue,
    /// `AWS_DEFAULT_REGION`
    pub aws_default_region: ConfigValue,
    /// `AWS_IDENTITY_TOKEN`
    pub identity_token: ConfigValue,
    /// `AWS_ROLE_ARN`
    pub role_arn: ConfigValue,
    /// `AWS_ACCESS_KEY_ID`
    pub access_key_id: ConfigValue,
    /// `AWS_SECRET_ACCESS_KEY`
    pub secret_access_key: ConfigValue,
    /// `AWS_SESSION_TOKEN`
    pub session_token: ConfigValue,
    /// `BUCKET_PREFIX`
    pub bucket_prefix: ConfigValue,
    /// `IAM_ENDPOINT`
    pub iam_endpoint: ConfigValue,
    /// `IAM_SIGNING_REGION`
    pub iam_signing_region: ConfigValue,
    /// `OIDC_PROVIDER_ARN`
    pub oidc_provider_arn: ConfigValue,
    /// `ROLE_PATH`
    pub role_path: ConfigValue,
}

/// The value of a key, where it has one that could be read.
pub open spec fn set_text(value: ConfigValue) -> Option<Seq<char>> {
    match value {
        Ok(Some(s)) => Some(s@),
        _ => None,
    }
}

/// The value of a key, where it has one that could be read and is not empty.
pub open spec fn filled_text(value: ConfigValue) -> Option<Seq<char>> {
    match value {
        Ok(Some(s)) if s@.len() > 0 => Some(s@),
        _ => None,
    }
}

/// A text, or another where there is none.
pub open spec fn text_or(value: Option<Seq<char>>, other: Seq<char>) -> Seq<char> {
    match value {
        Some(s) => s,
        None => other,
    }
}

/// The value of a key, where it has one that could be read.
pub fn set_value(value: &ConfigValue) -> (s: Option<String>)
    ensures
        crate::text::opt_text(s) == set_text(*value),
{
    match value {
        Ok(Some(s)) => Some(s.clone()),
        _ => None,
    }
}

/// The value of a key, where it has one that could be read and is not empty.
pub fn filled_value(value: &ConfigValue) -> (s: Option<String>)
    ensures
        crate::text::opt_text(s) == filled_text(*value),
{
    match value {
        Ok(Some(s)) => {
            if s.as_str().is_empty() {
                None
            } else {
                Some(s.clone())
            }
        },
        _ => None,
    }
}

/// A text, or another where there is none.
pub fn value_or(value: Option<String>, other: &str) -> (s: String)
    ensures
        s@ == text_or(crate::text::opt_text(value), other@),
{
    match value {
        Some(s) => s,
        None => other.to_owned(),
    }
}

impl PluginSettings {
    /// The region of the credentials: `AWS_REGION`, else `AWS_DEFAULT_REGION`, else
    /// `us-east-1`.
    pub open spec fn region_text(self) -> Seq<char> {
        text_or(set_text(self.aws_region), text_or(set_text(self.aws_default_region), "us-east-1"@))
    }

    /// The region of the credentials: `AWS_REGION`, else `AWS_DEFAULT_REGION`, else
    /// `us-east-1`.
    pub fn region(&self) -> (region: String)
        ensures
            region@ == self.region_text(),
    {
        let other = value_or(set_value(&self.aws_default_region), "us-east-1");
        value_or(set_value(&self.aws_region), other.as_str())
    }

    /// What is prepended to every bucket name: `BUCKET_PREFIX`, else nothing.
    pub open spec fn prefix_text(self) -> Seq<char> {
        text_or(set_text(self.bucket_prefix), Seq::empty())
    }

    /// What is prepended to every bucket name: `BUCKET_PREFIX`, else nothing.
    pub fn prefix(&self) -> (prefix: String)
        ensures
            prefix@ == self.prefix_text(),
    {
        match set_value(&self.bucket_prefix) {
            Some(prefix) => prefix,
            None => String::new(),
        }
    }
}

// ── Laws ──────────────────────────────────────────────────────────────────────

/// A key counts where it could be read and holds a value, and counts as filled where
/// that value is not empty.
pub proof fn keys_count_where_they_hold_a_value(value: ConfigValue, other: Seq<char>)
    ensures
        value is Err ==> set_text(value) is None && filled_text(value) is None,
        value matches Ok(None) ==> set_text(value) is None && filled_text(value) is None,
        value matches Ok(Some(s)) ==> {
            &&& set_text(value) == Some(s@)
            &&& s@.len() > 0 ==> filled_text(value) == Some(s@)
            &&& s@.len() == 0 ==> filled_text(value) is None
            &&& text_or(set_text(value), other) == s@
        },
        text_or(None, other) == other,
{
}

/// `AWS_REGION` comes before `AWS_DEFAULT_REGION`, and `us-east-1` last.
pub proof fn region_has_an_order(settings: PluginSettings)
    ensures
        settings.aws_region matches Ok(Some(r)) ==> settings.region_text() == r@,
        !(settings.aws_region matches Ok(Some(_))) ==> {
            &&& settings.aws_default_region matches Ok(Some(r)) ==> settings.region_text() == r@
            &&& !(settings.aws_default_region matches Ok(Some(_))) ==> settings.region_text()
                == "us-east-1"@
        },
{
}

/// The bucket prefix is the value of `BUCKET_PREFIX`, and empty without one.
pub proof fn prefix_is_the_configured_one(settings: PluginSettings)
    ensures
        settings.bucket_prefix matches Ok(Some(p)) ==> settings.prefix_text() == p@,
        !(settings.bucket_prefix matches Ok(Some(_))) ==> settings.prefix_text().len() == 0,
{
}

} // verus!
