//! The settings of the desktop application and their JSON form.

use crate::error::{outcome, AppError, AppErrorView};
use crate::json::{json_text, parse_outcome, with_text, JsonValue, JsonView, ObjectBuilder};
use crate::storage::{StoreReply, StoreReplyView};
use vstd::prelude::*;
use vstd::string::*;

verus! {

/// What the user has chosen.
#[derive(Debug, Clone)]
pub struct AppSettings {
    pub api_endpoint: String,
    /// The time to live that a new secret starts with, in seconds.
    pub default_ttl: u32,
    pub theme: String,
    pub api_username: Option<String>,
    pub api_key: Option<String>,
}

/// [`AppSettings`] over sequences of characters.
pub struct AppSettingsView {
    pub api_endpoint: Seq<char>,
    pub default_ttl: u32,
    pub theme: Seq<char>,
    pub api_username: Option<Seq<char>>,
    pub api_key: Option<Seq<char>>,
}

impl View for AppSettings {
    type V = AppSettingsView;

    open spec fn view(&self) -> AppSettingsView {
        AppSettingsView {
            api_endpoint: self.api_endpoint@,
            default_ttl: self.default_ttl,
            theme: self.theme@,
            api_username: self.api_username.deep_view(),
            api_key: self.api_key.deep_view(),
        }
    }
}

impl DeepView for AppSettings {
    type V = AppSettingsView;

    open spec fn deep_view(&self) -> AppSettingsView {
        self@
    }
}

impl AppSettingsView {
    /// The settings of a fresh installation: the public service, seven days, the theme of
    /// the system, no credentials.
    pub open spec fn standard() -> AppSettingsView {
        AppSettingsView {
            api_endpoint: "https://onetimesecret.dev"@,
            default_ttl: 604800,
            theme: "system"@,
            api_username: None,
            api_key: None,
        }
    }

    /// The settings as a JSON object. Credentials that are absent are left out.
    pub open spec fn document(self) -> JsonView {
        JsonView::Object(
            with_text(
                with_text(
                    seq![
                        ("api_endpoint"@, JsonView::Text(self.api_endpoint)),
                        ("default_ttl"@, JsonView::Integer(self.default_ttl as i64)),
                        ("theme"@, JsonView::Text(self.theme)),
                    ],
                    "api_username"@,
                    self.api_username,
                ),
                "api_key"@,
                self.api_key,
            ),
        )
    }

    /// The settings that `doc` holds, or the error for the first member, in the order of
    /// the fields, that is missing or of the wrong type.
    pub open spec fn decode(doc: JsonView) -> Result<AppSettingsView, AppErrorView> {
        if doc.text_member("api_endpoint"@) is Err {
            Err(doc.text_member("api_endpoint"@)->Err_0)
        } else if doc.u32_member("default_ttl"@) is Err {
            Err(doc.u32_member("default_ttl"@)->Err_0)
        } else if doc.text_member("theme"@) is Err {
            Err(doc.text_member("theme"@)->Err_0)
        } else if doc.optional_text_member("api_username"@) is Err {
            Err(doc.optional_text_member("api_username"@)->Err_0)
        } else if doc.optional_text_member("api_key"@) is Err {
            Err(doc.optional_text_member("api_key"@)->Err_0)
        } else {
            Ok(
                AppSettingsView {
                    api_endpoint: doc.text_member("api_endpoint"@)->Ok_0,
                    default_ttl: doc.u32_member("default_ttl"@)->Ok_0,
                    theme: doc.text_member("theme"@)->Ok_0,
                    api_username: doc.optional_text_member("api_username"@)->Ok_0,
                    api_key: doc.optional_text_member("api_key"@)->Ok_0,
                },
            )
        }
    }
}

/// The error for a text that does not hold settings.
pub open spec fn invalid_settings() -> AppErrorView {
    AppErrorView::InvalidInput("Invalid settings format"@)
}

/// The settings in `text`, if it is JSON that holds settings.
pub open spec fn settings_in(text: Seq<char>) -> Result<AppSettingsView, AppErrorView> {
    match parse_outcome(text) {
        Ok(doc) => match AppSettingsView::decode(doc) {
            Ok(settings) => Ok(settings),
            Err(_) => Err(invalid_settings()),
        },
        Err(_) => Err(invalid_settings()),
    }
}

/// The settings text to work with, given what the store answered when it was asked for
/// the stored one: the stored text, or the text of the standard settings.
pub open spec fn settings_text(reply: StoreReplyView) -> Seq<char> {
    match reply {
        StoreReplyView::Found(text) => text,
        _ => json_text(AppSettingsView::standard().document()),
    }
}

/// Checks settings that are about to be stored: `text` must be JSON that holds settings.
/// Whatever is wrong with it, the error is `InvalidInput`; the text itself is what gets
/// stored.
pub fn save_settings(text: &str) -> (result: Result<AppSettings, AppError>)
    ensures
        outcome(result) == settings_in(text@),
{
    let doc = match JsonValue::parse(text) {
        Ok(doc) => doc,
        Err(_) => {
            return Err(AppError::InvalidInput(String::from_str("Invalid settings format")));
        },
    };
    match AppSettings::from_json(&doc) {
        Ok(settings) => Ok(settings),
        Err(_) => Err(AppError::InvalidInput(String::from_str("Invalid settings format"))),
    }
}

/// The settings text to work with, given what the store answered when it was asked for
/// the stored one. Nothing stored, or a store that failed, gives the standard settings.
pub fn load_settings(reply: StoreReply) -> (text: String)
    ensures
        text@ == settings_text(reply@),
{
    match reply {
        StoreReply::Found(text) => text,
        _ => AppSettings::default().to_json().render(),
    }
}

impl Default for AppSettings {
    fn default() -> (settings: AppSettings)
        ensures
            settings@ == AppSettingsView::standard(),
    {
        AppSettings {
            api_endpoint: String::from_str("https://onetimesecret.dev"),
            default_ttl: 604800,
            theme: String::from_str("system"),
            api_username: None,
            api_key: None,
        }
    }
}

impl AppSettings {
    /// The name under which the settings are filed in the secure store.
    pub fn storage_key() -> (name: &'static str)
        ensures
            name@ == "app_settings"@,
    {
        "app_settings"
    }

    /// The settings as a JSON object.
    pub fn to_json(&self) -> (doc: JsonValue)
        ensures
            doc@ == self@.document(),
    {
        let mut members = ObjectBuilder::new();
        members.text("api_endpoint", self.api_endpoint.as_str());
        members.integer("default_ttl", self.default_ttl as i64);
        members.text("theme", self.theme.as_str());
        assert(Seq::<(Seq<char>, JsonView)>::empty().push(
            ("api_endpoint"@, JsonView::Text(self.api_endpoint@)),
        ).push(("default_ttl"@, JsonView::Integer(self.default_ttl as i64))).push(
            ("theme"@, JsonView::Text(self.theme@)),
        ) =~= seq![
            ("api_endpoint"@, JsonView::Text(self.api_endpoint@)),
            ("default_ttl"@, JsonView::Integer(self.default_ttl as i64)),
            ("theme"@, JsonView::Text(self.theme@)),
        ]);
        members.optional_text("api_username", &self.api_username);
        members.optional_text("api_key", &self.api_key);
        members.build()
    }

    /// Reads settings from a JSON object.
    pub fn from_json(doc: &JsonValue) -> (result: Result<AppSettings, AppError>)
        ensures
            outcome(result) == AppSettingsView::decode(doc@),
    {
        let api_endpoint = doc.text_member("api_endpoint")?;
        let default_ttl = doc.u32_member("default_ttl")?;
        let theme = doc.text_member("theme")?;
        let api_username = doc.optional_text_member("api_username")?;
        let api_key = doc.optional_text_member("api_key")?;
        Ok(AppSettings { api_endpoint, default_ttl, theme, api_username, api_key })
    }
}

} // verus!
