//! The AWS credentials that requests are signed with.
use crate::settings;
use crate::settings::{filled_value, PluginSettings};
use crate::sts;
use crate::sts::{exchanged_credentials, try_assume_role_with_web_identity};
use crate::text;
use crate::transport;
use crate::transport::{HttpReply, HttpRequest};
use vstd::prelude::*;
use vstd::string::*;

verus! {

/// AWS credentials out of the plugin's configuration.
pub struct AwsCredentials {
    pub access_key: String,
    pub secret_key: String,
    pub session_token: Option<String>,
    pub region: String,
}

/// What [`AwsCredentials`] hold.
#[verifier::ext_equal]
pub struct AwsCredentialsView {
    pub access_key: Seq<char>,
    pub secret_key: Seq<char>,
    pub session_token: Option<Seq<char>>,
    pub region: Seq<char>,
}

impl View for AwsCredentials {
    type V = AwsCredentialsView;

    open spec fn view(&self) -> AwsCredentialsView {
        AwsCredentialsView {
            access_key: self.access_key@,
            secret_key: self.secret_key@,
            session_token: text::opt_text(self.session_token),
            region: self.region@,
        }
    }
}

/// Where the search for credentials stands: at a request to be sent first, or at
/// its end.
pub enum CredentialsStep {
    Send(HttpRequest),
    Done(Result<AwsCredentials, String>),
}

/// What a [`CredentialsStep`] holds.
pub enum CredentialsStepView {
    Send(transport::HttpRequestView),
    Done(Result<AwsCredentialsView, Seq<char>>),
}

impl View for CredentialsStep {
    type V = CredentialsStepView;

    open spec fn view(&self) -> CredentialsStepView {
        match self {
            CredentialsStep::Send(req) => CredentialsStepView::Send(req@),
            CredentialsStep::Done(creds) => CredentialsStepView::Done(text::outcome(*creds)),
        }
    }
}

/// The credentials that stand in the configuration itself.
pub open spec fn static_credentials(settings: PluginSettings) -> Result<
    AwsCredentialsView,
    Seq<char>,
> {
    match settings.access_key_id {
        Err(e) => Err("AWS_ACCESS_KEY_ID not in plugin config: "@ + e@),
        Ok(None) => Err(
            "AWS_ACCESS_KEY_ID not set — provide static credentials or configure inherit_env_file_keys for workload identity"@,
        ),
        Ok(Some(access_key)) => match settings.secret_access_key {
            Err(e) => Err("AWS_SECRET_ACCESS_KEY not in plugin config: "@ + e@),
            Ok(None) => Err("AWS_SECRET_ACCESS_KEY not set in plugin config"@),
            Ok(Some(secret_key)) => Ok(
                AwsCredentialsView {
                    access_key: access_key@,
                    secret_key: secret_key@,
                    session_token: settings::filled_text(settings.session_token),
                    region: settings.region_text(),
                },
            ),
        },
    }
}

/// The credentials for these settings, `exchange` being what came back for the
/// token exchange, where it was sent.
pub open spec fn credentials_step(
    settings: PluginSettings,
    exchange: Option<Result<HttpReply, String>>,
) -> CredentialsStepView {
    match sts::exchange_wanted(
        settings.identity_token,
        settings.role_arn,
        settings.region_text(),
    ) {
        Err(e) => CredentialsStepView::Done(Err(e)),
        Ok(None) => CredentialsStepView::Done(static_credentials(settings)),
        Ok(Some(req)) => match exchange {
            None => CredentialsStepView::Send(req),
            Some(reply) => CredentialsStepView::Done(
                sts::exchanged(reply, settings.region_text()),
            ),
        },
    }
}

/// The credentials that stand in the configuration itself.
fn from_static(settings: &PluginSettings) -> (creds: Result<AwsCredentials, String>)
    ensures
        text::outcome(creds) == static_credentials(*settings),
{
    let access_key = match &settings.access_key_id {
        Err(e) => return Err(
            "AWS_ACCESS_KEY_ID not in plugin config: ".to_owned().concat(e.as_str()),
        ),
        Ok(None) => return Err(
            "AWS_ACCESS_KEY_ID not set — provide static credentials or configure inherit_env_file_keys for workload identity".to_owned(),
        ),
        Ok(Some(key)) => key.clone(),
    };
    let secret_key = match &settings.secret_access_key {
        Err(e) => return Err(
            "AWS_SECRET_ACCESS_KEY not in plugin config: ".to_owned().concat(e.as_str()),
        ),
        Ok(None) => return Err("AWS_SECRET_ACCESS_KEY not set in plugin config".to_owned()),
        Ok(Some(key)) => key.clone(),
    };
    let session_token = filled_value(&settings.session_token);
    Ok(AwsCredentials { access_key, secret_key, session_token, region: settings.region() })
}

impl AwsCredentials {
    /// The credentials for these settings.
    ///
    /// 1. Where `AWS_IDENTITY_TOKEN` and `AWS_ROLE_ARN` are there, they come from the
    ///    (unsigned) STS call `AssumeRoleWithWebIdentity`, whose reply is handed back
    ///    in `exchange`.
    /// 2. Else they are the static `AWS_ACCESS_KEY_ID` and `AWS_SECRET_ACCESS_KEY`.
    pub fn from_config(
        settings: &PluginSettings,
        exchange: &Option<Result<HttpReply, String>>,
    ) -> (step: CredentialsStep)
        ensures
            step@ == credentials_step(*settings, *exchange),
    {
        let region = settings.region();
        match try_assume_role_with_web_identity(
            &settings.identity_token,
            &settings.role_arn,
            region.as_str(),
        ) {
            Err(e) => CredentialsStep::Done(Err(e)),
            Ok(None) => CredentialsStep::Done(from_static(settings)),
            Ok(Some(req)) => match exchange {
                None => CredentialsStep::Send(req),
                Some(reply) => CredentialsStep::Done(
                    exchanged_credentials(reply, region.as_str()),
                ),
            },
        }
    }
}

// ── Laws ──────────────────────────────────────────────────────────────────────

/// Workload identity comes first: with a token and a role the exchange is asked for,
/// and what it gives is final. The static credentials play no part.
pub proof fn identity_comes_first(
    settings: PluginSettings,
    token: Seq<char>,
    role_arn: Seq<char>,
    reply: Result<HttpReply, String>,
)
    requires
        settings::filled_text(settings.identity_token) == Some(token),
        settings::filled_text(settings.role_arn) == Some(role_arn),
    ensures
        credentials_step(settings, None) == CredentialsStepView::Send(
            sts::exchange_call(token, role_arn, settings.region_text()),
        ),
        credentials_step(settings, Some(reply)) == CredentialsStepView::Done(
            sts::exchanged(reply, settings.region_text()),
        ),
{
}

/// Without a token or without a role, the static credentials are taken, and no request
/// is sent.
pub proof fn static_credentials_are_the_fallback(
    settings: PluginSettings,
    exchange: Option<Result<HttpReply, String>>,
)
    requires
        settings.identity_token is Ok,
        settings.role_arn is Ok,
        settings::filled_text(settings.identity_token) is None || settings::filled_text(
            settings.role_arn,
        ) is None,
    ensures
        credentials_step(settings, exchange) == CredentialsStepView::Done(
            static_credentials(settings),
        ),
{
}

/// Static credentials are found if and only if both keys are there and could be read,
/// and they are those keys.
pub proof fn static_credentials_need_both_keys(settings: PluginSettings)
    ensures
        static_credentials(settings) is Ok <==> settings::set_text(settings.access_key_id) is Some
            && settings::set_text(settings.secret_access_key) is Some,
        static_credentials(settings) matches Ok(creds) ==> {
            &&& settings::set_text(settings.access_key_id) == Some(creds.access_key)
            &&& settings::set_text(settings.secret_access_key) == Some(creds.secret_key)
            &&& creds.session_token == settings::filled_text(settings.session_token)
            &&& creds.region == settings.region_text()
        },
{
}

/// A token or a role that could not be read is an error, and the static credentials are not
/// taken in its place.
pub proof fn unreadable_identity_is_no_fallback(
    settings: PluginSettings,
    exchange: Option<Result<HttpReply, String>>,
    e: String,
)
    requires
        ({
            ||| settings.identity_token == Err::<Option<String>, String>(e)
            ||| settings::filled_text(settings.identity_token) is Some && settings.role_arn
                == Err::<Option<String>, String>(e)
        }),
    ensures
        credentials_step(settings, exchange) matches CredentialsStepView::Done(Err(why))
            && e@.is_suffix_of(why),
{
    sts::exchange_needs_a_token_and_a_role(
        settings.identity_token,
        settings.role_arn,
        settings.region_text(),
    );
}

/// A key that could not be read fails with why it could not.
pub proof fn unreadable_key_is_told(settings: PluginSettings, e: String)
    ensures
        settings.access_key_id == Err::<Option<String>, String>(e) ==> (static_credentials(settings)
            matches Err(why) && e@.is_suffix_of(why)),
        settings.access_key_id matches Ok(Some(_)) && settings.secret_access_key == Err::<
            Option<String>,
            String,
        >(e) ==> (static_credentials(settings) matches Err(why) && e@.is_suffix_of(why)),
{
    let first = "AWS_ACCESS_KEY_ID not in plugin config: "@ + e@;
    assert(first.subrange(first.len() - e@.len(), first.len() as int) =~= e@);
    let second = "AWS_SECRET_ACCESS_KEY not in plugin config: "@ + e@;
    assert(second.subrange(second.len() - e@.len(), second.len() as int) =~= e@);
}

} // verus!
