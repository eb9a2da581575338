//! The computational side of the REST client: the immutable client
//! configuration, the classification of response status codes, and the
//! bulk command upload body and URLs. The transport itself lives in the
//! embedding application.

use vstd::prelude::*;
use vstd::string::StringExecFns;
use crate::model::{Command, CommandView};
use crate::serialize::{commands_body_json, spec_commands_body_json};
use crate::text::{spec_u64_dec, u64_dec};

verus! {

/// The base URL of the REST API.
pub open spec fn spec_base_url() -> Seq<char> {
    "https://discord.com/api/v10"@
}

/// The user agent the REST client sends.
pub open spec fn spec_user_agent() -> Seq<char> {
    "Discord Bot (https://github.com/sizumita/edgelord 0.0.1)"@
}

/// The immutable configuration of the REST client: the authorization
/// header value, the application id, and the user agent. The transport
/// that carries requests lives in the embedding application.
#[derive(Debug, PartialEq)]
pub struct HttpClient {
    pub token: String,
    pub application_id: String,
    pub ua: String,
}

/// The view of an `HttpClient`.
#[verifier::ext_equal]
pub struct HttpClientView {
    pub token: Seq<char>,
    pub application_id: Seq<char>,
    pub ua: Seq<char>,
}

impl DeepView for HttpClient {
    type V = HttpClientView;

    open spec fn deep_view(&self) -> HttpClientView {
        HttpClientView {
            token: self.token@,
            application_id: self.application_id@,
            ua: self.ua@,
        }
    }
}

impl HttpClientView {
    /// The URL a guild is fetched from.
    pub open spec fn guild_url(self, guild_id: u64) -> Seq<char> {
        spec_base_url() + "/guilds/"@ + spec_u64_dec(guild_id as nat)
    }

    /// The URL a follow-up message for an interaction is posted to.
    pub open spec fn followup_url(self, interaction_token: Seq<char>) -> Seq<char> {
        spec_base_url() + "/webhooks/"@ + self.application_id + "/"@ + interaction_token
    }
}

impl Clone for HttpClient {
    fn clone(&self) -> (res: Self)
        ensures
            res.deep_view() == self.deep_view(),
    {
        let res = HttpClient {
            token: self.token.clone(),
            application_id: self.application_id.clone(),
            ua: self.ua.clone(),
        };
        proof {
            assert(res.deep_view() =~= self.deep_view());
        }
        res
    }
}

impl HttpClient {
    /// Builds the client configuration: the authorization header is
    /// `Bot {token}`, and the user agent is fixed.
    pub fn new(token: &str, application_id: &str) -> (r: Self)
        ensures
            r.deep_view() == (HttpClientView {
                token: "Bot "@ + token@,
                application_id: application_id@,
                ua: spec_user_agent(),
            }),
    {
        let mut auth = String::from_str("Bot ");
        auth.append(token);
        let r = HttpClient {
            token: auth,
            application_id: application_id.to_owned(),
            ua: String::from_str("Discord Bot (https://github.com/sizumita/edgelord 0.0.1)"),
        };
        proof {
            assert(r.deep_view() =~= (HttpClientView {
                token: "Bot "@ + token@,
                application_id: application_id@,
                ua: spec_user_agent(),
            }));
        }
        r
    }

    /// Renders the URL a guild is fetched from.
    pub fn guild_url(&self, guild_id: u64) -> (r: String)
        ensures
            r@ == self.deep_view().guild_url(guild_id),
    {
        let mut out = String::from_str("https://discord.com/api/v10");
        out.append("/guilds/");
        let id = u64_dec(guild_id);
        out.append(id.as_str());
        proof {
            assert(out@ =~= self.deep_view().guild_url(guild_id));
        }
        out
    }

    /// Renders the URL a follow-up message for an interaction is posted
    /// to.
    pub fn followup_url(&self, interaction_token: &str) -> (r: String)
        ensures
            r@ == self.deep_view().followup_url(interaction_token@),
    {
        let mut out = String::from_str("https://discord.com/api/v10");
        out.append("/webhooks/");
        out.append(self.application_id.as_str());
        out.append("/");
        out.append(interaction_token);
        proof {
            assert(out@ =~= self.deep_view().followup_url(interaction_token@));
        }
        out
    }
}

/// How a REST response status is treated: `204` carries no body, any other
/// status below 399 carries a body to decode, `403` and `404` map to their
/// errors, and everything else is a failure.
#[derive(Debug, Clone, Copy, PartialEq, Eq, Structural)]
pub enum StatusOutcome {
    NoContent,
    Success,
    Forbidden,
    NotFound,
    Failure,
}

/// The classification of one status code, in the order the client checks:
/// no-content first, then general success, then the known errors.
pub open spec fn spec_status_outcome(status: u16) -> StatusOutcome {
    if status == 204 {
        StatusOutcome::NoContent
    } else if status < 399 {
        StatusOutcome::Success
    } else if status == 403 {
        StatusOutcome::Forbidden
    } else if status == 404 {
        StatusOutcome::NotFound
    } else {
        StatusOutcome::Failure
    }
}

/// Classifies one REST response status code.
pub fn status_outcome(status: u16) -> (r: StatusOutcome)
    ensures
        r == spec_status_outcome(status),
{
    if status == 204 {
        StatusOutcome::NoContent
    } else if status < 399 {
        StatusOutcome::Success
    } else if status == 403 {
        StatusOutcome::Forbidden
    } else if status == 404 {
        StatusOutcome::NotFound
    } else {
        StatusOutcome::Failure
    }
}

/// The error a REST response status maps to, if any: `403` is a permission
/// error, `404` a missing endpoint, and any other failing status a general
/// HTTP error.
pub fn status_error(outcome: StatusOutcome) -> (r: Option<crate::error::Error>)
    ensures
        r == match outcome {
            StatusOutcome::NoContent => None::<crate::error::Error>,
            StatusOutcome::Success => None::<crate::error::Error>,
            StatusOutcome::Forbidden => Some(crate::error::Error::Forbidden),
            StatusOutcome::NotFound => Some(crate::error::Error::NotFound),
            StatusOutcome::Failure => Some(crate::error::Error::HttpError),
        },
{
    match outcome {
        StatusOutcome::NoContent => None,
        StatusOutcome::Success => None,
        StatusOutcome::Forbidden => Some(crate::error::Error::Forbidden),
        StatusOutcome::NotFound => Some(crate::error::Error::NotFound),
        StatusOutcome::Failure => Some(crate::error::Error::HttpError),
    }
}

/// Accumulates commands for a bulk upload to the command registration
/// endpoint, and renders the request body and URL; the embedding
/// application performs the PUT.
#[derive(Debug, PartialEq)]
pub struct CommandUploader {
    commands: Vec<Command>,
    token: String,
    guild_id: Option<String>,
    application_id: String,
}

/// The view of a `CommandUploader`.
#[verifier::ext_equal]
pub struct CommandUploaderView {
    pub commands: Seq<CommandView>,
    pub token: Seq<char>,
    pub guild_id: Option<Seq<char>>,
    pub application_id: Seq<char>,
}

impl DeepView for CommandUploader {
    type V = CommandUploaderView;

    closed spec fn deep_view(&self) -> CommandUploaderView {
        CommandUploaderView {
            commands: self.commands.deep_view(),
            token: self.token@,
            guild_id: self.guild_id.deep_view(),
            application_id: self.application_id@,
        }
    }
}

impl CommandUploaderView {
    /// The URL the upload is PUT to: the global application route, or the
    /// guild route when a guild id was set.
    pub open spec fn upload_url(self) -> Seq<char> {
        match self.guild_id {
            None => spec_base_url() + "/applications/"@ + self.application_id + "/commands"@,
            Some(g) => spec_base_url() + "/applications/"@ + self.application_id + "/guilds/"@ + g
                + "/commands"@,
        }
    }
}

impl CommandUploader {
    /// Returns an uploader with no commands and no guild id.
    pub fn new(token: &str, application_id: &str) -> (r: Self)
        ensures
            r.deep_view() == (CommandUploaderView {
                commands: Seq::empty(),
                token: token@,
                guild_id: None,
                application_id: application_id@,
            }),
    {
        let r = CommandUploader {
            commands: Vec::new(),
            token: token.to_owned(),
            guild_id: None,
            application_id: application_id.to_owned(),
        };
        proof {
            assert(r.deep_view() =~= (CommandUploaderView {
                commands: Seq::<CommandView>::empty(),
                token: token@,
                guild_id: None,
                application_id: application_id@,
            }));
        }
        r
    }

    /// Adds one command to the upload.
    pub fn register_command(self, command: Command) -> (r: Self)
        ensures
            r.deep_view() == (CommandUploaderView {
                commands: self.deep_view().commands.push(command.deep_view()),
                ..self.deep_view()
            }),
    {
        let mut commands = self.commands;
        let ghost pre = commands.deep_view();
        commands.push(command);
        let r = CommandUploader { commands, ..self };
        proof {
            assert(r.deep_view().commands =~= pre.push(command.deep_view()));
            assert(r.deep_view() =~= (CommandUploaderView {
                commands: pre.push(command.deep_view()),
                ..self.deep_view()
            }));
        }
        r
    }

    /// Targets the upload at one guild instead of the global registry.
    pub fn guild_id(self, guild_id: u64) -> (r: Self)
        ensures
            r.deep_view() == (CommandUploaderView {
                guild_id: Some(spec_u64_dec(guild_id as nat)),
                ..self.deep_view()
            }),
    {
        let r = CommandUploader { guild_id: Some(u64_dec(guild_id)), ..self };
        proof {
            assert(r.deep_view() =~= (CommandUploaderView {
                guild_id: Some(spec_u64_dec(guild_id as nat)),
                ..self.deep_view()
            }));
        }
        r
    }

    /// Renders the upload body: the JSON array of the registered commands.
    pub fn make_body(&self) -> (r: String)
        ensures
            r@ == spec_commands_body_json(self.deep_view().commands),
    {
        commands_body_json(&self.commands)
    }

    /// Renders the URL the upload is PUT to.
    pub fn upload_url(&self) -> (r: String)
        ensures
            r@ == self.deep_view().upload_url(),
    {
        let mut out = String::from_str("https://discord.com/api/v10");
        out.append("/applications/");
        out.append(self.application_id.as_str());
        match &self.guild_id {
            None => {
                out.append("/commands");
            },
            Some(g) => {
                out.append("/guilds/");
                out.append(g.as_str());
                out.append("/commands");
            },
        }
        proof {
            assert(out@ =~= self.deep_view().upload_url());
        }
        out
    }
}

} // verus!
