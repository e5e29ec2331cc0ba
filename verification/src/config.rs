//! The program's settings, read from the text of its environment variables.

use vstd::prelude::*;
use vstd::string::*;
use crate::colour::{embed_color, parse_embed_color_number, rgb_number};
use crate::numbers::{decimal, parse_u64};

verus! {

/// The settings, by the variable that holds each.
#[derive(Clone, Copy, Debug, PartialEq, Eq, Structural)]
pub enum Setting {
    DefaultEmbedColor,
    Token,
    OwnerId,
    ApplicationId,
    Prefix,
    DefaultInteractionTimeout,
    HubServerId,
    HubStdoutId,
    SupportChannelId,
    HelperRoleId,
    StaffRoleId,
}

/// Why the settings could not be read.
#[derive(Clone, Copy, Debug, PartialEq, Eq, Structural)]
pub enum ConfigError {
    /// The variable is not set.
    Missing(Setting),
    /// The variable's text is not of the form that the setting takes.
    Invalid(Setting),
}

/// The text of each variable, `None` where the variable is not set.
#[derive(Clone, Debug, PartialEq, Eq)]
pub struct RawEnv {
    pub default_embed_color: Option<String>,
    pub token: Option<String>,
    pub owner_id: Option<String>,
    pub application_id: Option<String>,
    pub prefix: Option<String>,
    pub default_interaction_timeout: Option<String>,
    pub hub_server_id: Option<String>,
    pub hub_stdout_id: Option<String>,
    pub support_channel_id: Option<String>,
    pub helper_role_id: Option<String>,
    pub staff_role_id: Option<String>,
}

/// The settings.
#[derive(Clone, Debug, PartialEq, Eq)]
pub struct Env {
    pub token: String,
    pub owner_id: String,
    pub application_id: u64,
    pub prefix: String,
    /// The colour of embeds, as the number `0xRRGGBB`.
    pub default_embed_color: u32,
    /// Seconds after which an interaction is given up.
    pub default_interaction_timeout: u64,
    pub hub_server_id: u64,
    pub hub_stdout_id: u64,
    /// The intake channel: a message there opens a case.
    pub support_channel_id: u64,
    pub helper_role_id: u64,
    pub staff_role_id: u64,
}

/// The mathematical value of an [`Env`].
pub struct EnvView {
    pub token: Seq<char>,
    pub owner_id: Seq<char>,
    pub application_id: u64,
    pub prefix: Seq<char>,
    pub default_embed_color: u32,
    pub default_interaction_timeout: u64,
    pub hub_server_id: u64,
    pub hub_stdout_id: u64,
    pub support_channel_id: u64,
    pub helper_role_id: u64,
    pub staff_role_id: u64,
}

impl View for Env {
    type V = EnvView;

    open spec fn view(&self) -> EnvView {
        EnvView {
            token: self.token@,
            owner_id: self.owner_id@,
            application_id: self.application_id,
            prefix: self.prefix@,
            default_embed_color: self.default_embed_color,
            default_interaction_timeout: self.default_interaction_timeout,
            hub_server_id: self.hub_server_id,
            hub_stdout_id: self.hub_stdout_id,
            support_channel_id: self.support_channel_id,
            helper_role_id: self.helper_role_id,
            staff_role_id: self.staff_role_id,
        }
    }
}

/// The directories that hold the program's data.
#[derive(Clone, Debug, PartialEq, Eq)]
pub struct DataPath {
    /// The directory for data that changes while the program runs.
    pub dynamic: String,
}

/// The settings and the data directories.
#[derive(Clone, Debug, PartialEq, Eq)]
pub struct Config {
    pub env: Env,
    pub data_path: DataPath,
}

/// A setting that is taken as it stands.
pub open spec fn text_setting(value: Option<String>, which: Setting) -> Result<
    Seq<char>,
    ConfigError,
> {
    match value {
        Some(text) => Ok(text@),
        None => Err(ConfigError::Missing(which)),
    }
}

/// A setting that is a number: an optional `+`, then digits, up to
/// 18446744073709551615.
pub open spec fn number_setting(value: Option<String>, which: Setting) -> Result<u64, ConfigError> {
    match value {
        Some(text) => match decimal(text@, u64::MAX as nat) {
            Some(v) => Ok(v as u64),
            None => Err(ConfigError::Invalid(which)),
        },
        None => Err(ConfigError::Missing(which)),
    }
}

/// The colour setting, as the number `0xRRGGBB`.
pub open spec fn colour_setting(value: Option<String>) -> Result<u32, ConfigError> {
    match value {
        Some(text) => match embed_color(text@) {
            Some(rgb) => Ok(rgb_number(rgb)),
            None => Err(ConfigError::Invalid(Setting::DefaultEmbedColor)),
        },
        None => Err(ConfigError::Missing(Setting::DefaultEmbedColor)),
    }
}

/// The settings that the variables stand for, or the first fault, in the
/// order in which the settings are read: the colour first, then the fields
/// of `Env` in their order, the colour left out.
pub open spec fn env_of(raw: RawEnv) -> Result<EnvView, ConfigError> {
    let colour = colour_setting(raw.default_embed_color);
    let token = text_setting(raw.token, Setting::Token);
    let owner = text_setting(raw.owner_id, Setting::OwnerId);
    let application = number_setting(raw.application_id, Setting::ApplicationId);
    let prefix = text_setting(raw.prefix, Setting::Prefix);
    let timeout = number_setting(
        raw.default_interaction_timeout,
        Setting::DefaultInteractionTimeout,
    );
    let hub_server = number_setting(raw.hub_server_id, Setting::HubServerId);
    let hub_stdout = number_setting(raw.hub_stdout_id, Setting::HubStdoutId);
    let support = number_setting(raw.support_channel_id, Setting::SupportChannelId);
    let helper = number_setting(raw.helper_role_id, Setting::HelperRoleId);
    let staff = number_setting(raw.staff_role_id, Setting::StaffRoleId);
    if colour is Err {
        Err(colour->Err_0)
    } else if token is Err {
        Err(token->Err_0)
    } else if owner is Err {
        Err(owner->Err_0)
    } else if application is Err {
        Err(application->Err_0)
    } else if prefix is Err {
        Err(prefix->Err_0)
    } else if timeout is Err {
        Err(timeout->Err_0)
    } else if hub_server is Err {
        Err(hub_server->Err_0)
    } else if hub_stdout is Err {
        Err(hub_stdout->Err_0)
    } else if support is Err {
        Err(support->Err_0)
    } else if helper is Err {
        Err(helper->Err_0)
    } else if staff is Err {
        Err(staff->Err_0)
    } else {
        Ok(
            EnvView {
                token: token->Ok_0,
                owner_id: owner->Ok_0,
                application_id: application->Ok_0,
                prefix: prefix->Ok_0,
                default_embed_color: colour->Ok_0,
                default_interaction_timeout: timeout->Ok_0,
                hub_server_id: hub_server->Ok_0,
                hub_stdout_id: hub_stdout->Ok_0,
                support_channel_id: support->Ok_0,
                helper_role_id: helper->Ok_0,
                staff_role_id: staff->Ok_0,
            },
        )
    }
}

/// A result of `Env::load` with the settings taken by their value.
pub open spec fn env_view(loaded: Result<Env, ConfigError>) -> Result<EnvView, ConfigError> {
    match loaded {
        Ok(env) => Ok(env@),
        Err(e) => Err(e),
    }
}

/// Reads a setting that is taken as it stands.
fn required_text(value: Option<String>, which: Setting) -> (text: Result<String, ConfigError>)
    ensures
        match text {
            Ok(t) => text_setting(value, which) == Ok::<Seq<char>, ConfigError>(t@),
            Err(e) => text_setting(value, which) == Err::<Seq<char>, ConfigError>(e),
        },
{
    match value {
        Some(text) => Ok(text),
        None => Err(ConfigError::Missing(which)),
    }
}

/// Reads a setting that is a number.
fn required_number(value: &Option<String>, which: Setting) -> (number: Result<u64, ConfigError>)
    ensures
        number == number_setting(*value, which),
{
    match value {
        Some(text) => match parse_u64(text.as_str()) {
            Some(v) => Ok(v),
            None => Err(ConfigError::Invalid(which)),
        },
        None => Err(ConfigError::Missing(which)),
    }
}

/// Reads the colour setting.
fn required_colour(value: &Option<String>) -> (number: Result<u32, ConfigError>)
    ensures
        number == colour_setting(*value),
{
    match value {
        Some(text) => match parse_embed_color_number(text.as_str()) {
            Some(v) => Ok(v),
            None => Err(ConfigError::Invalid(Setting::DefaultEmbedColor)),
        },
        None => Err(ConfigError::Missing(Setting::DefaultEmbedColor)),
    }
}

impl Env {
    /// Reads the settings from the text of the variables. Answers with the
    /// first fault, in the order in which the settings are read.
    pub fn load(raw: RawEnv) -> (loaded: Result<Env, ConfigError>)
        ensures
            env_view(loaded) == env_of(raw),
    {
        let default_embed_color = required_colour(&raw.default_embed_color)?;
        let token = required_text(raw.token, Setting::Token)?;
        let owner_id = required_text(raw.owner_id, Setting::OwnerId)?;
        let application_id = required_number(&raw.application_id, Setting::ApplicationId)?;
        let prefix = required_text(raw.prefix, Setting::Prefix)?;
        let default_interaction_timeout = required_number(
            &raw.default_interaction_timeout,
            Setting::DefaultInteractionTimeout,
        )?;
        let hub_server_id = required_number(&raw.hub_server_id, Setting::HubServerId)?;
        let hub_stdout_id = required_number(&raw.hub_stdout_id, Setting::HubStdoutId)?;
        let support_channel_id = required_number(
            &raw.support_channel_id,
            Setting::SupportChannelId,
        )?;
        let helper_role_id = required_number(&raw.helper_role_id, Setting::HelperRoleId)?;
        let staff_role_id = required_number(&raw.staff_role_id, Setting::StaffRoleId)?;
        Ok(
            Env {
                token,
                owner_id,
                application_id,
                prefix,
                default_embed_color,
                default_interaction_timeout,
                hub_server_id,
                hub_stdout_id,
                support_channel_id,
                helper_role_id,
                staff_role_id,
            },
        )
    }
}

impl DataPath {
    /// The data directories below the base directory `data`.
    pub fn load() -> (path: DataPath)
        ensures
            path.dynamic@ == "data/dynamic"@,
    {
        let dynamic = "data".to_owned().concat("/dynamic");
        proof {
            reveal_strlit("data");
            reveal_strlit("/dynamic");
            reveal_strlit("data/dynamic");
            assert(dynamic@ =~= "data/dynamic"@);
        }
        DataPath { dynamic }
    }
}

impl Config {
    /// Reads the settings from the text of the variables and adds the data
    /// directories.
    pub fn load(raw: RawEnv) -> (loaded: Result<Config, ConfigError>)
        ensures
            match loaded {
                Ok(config) => env_of(raw) == Ok::<EnvView, ConfigError>(config.env@)
                    && config.data_path.dynamic@ == "data/dynamic"@,
                Err(e) => env_of(raw) == Err::<EnvView, ConfigError>(e),
            },
    {
        match Env::load(raw) {
            Ok(env) => Ok(Config { env, data_path: DataPath::load() }),
            Err(e) => Err(e),
        }
    }
}

} // verus!
