//! The configuration record and its JSON form.
//!
//! The record is read once and never changed. Reading is lenient: a field
//! that is absent, or is no string, takes its default, and a text that is no
//! JSON document at all gives the defaults throughout.

use crate::json::{
    as_text, distinct_keys, encode_pretty, json_parsed, json_pretty, json_view, member,
    members_of, new_object, new_text, parse, JsonView,
};
use vstd::prelude::*;

verus! {

/// Where the chat-completion service is, how to authenticate, which model to
/// ask, and the instruction that precedes every text.
#[derive(Clone, Debug, PartialEq, Eq)]
pub struct Config {
    pub api_url: String,
    pub api_key: String,
    pub model: String,
    pub prompt: String,
}

/// What a [`Config`] holds.
pub struct ConfigView {
    pub api_url: Seq<char>,
    pub api_key: Seq<char>,
    pub model: Seq<char>,
    pub prompt: Seq<char>,
}

impl View for Config {
    type V = ConfigView;

    open spec fn view(&self) -> ConfigView {
        ConfigView {
            api_url: self.api_url@,
            api_key: self.api_key@,
            model: self.model@,
            prompt: self.prompt@,
        }
    }
}

/// Why a configuration could not be written.
#[derive(Clone, Copy, Debug, PartialEq, Eq)]
pub enum SaveError {
    /// The serializer reported an error.
    Encoding,
}

/// The string that `document` holds under `key`, or `fallback` where it holds
/// none.
pub open spec fn text_or(document: JsonView, key: Seq<char>, fallback: Seq<char>) -> Seq<char> {
    match document.member(key).text() {
        Some(characters) => characters,
        None => fallback,
    }
}

impl ConfigView {
    /// The record that stands in for every field that was not given.
    pub open spec fn defaults() -> ConfigView {
        ConfigView {
            api_url: "http://llm-api.fixstars.com/v1"@,
            api_key: ""@,
            model: "latest-chat"@,
            prompt: "If the text is in English, translate to Japanese. If in Japanese, translate to English.\n  Only output the translation."@,
        }
    }

    /// The record that `document` describes, field by field.
    pub open spec fn read_from(document: JsonView) -> ConfigView {
        ConfigView {
            api_url: text_or(document, "api_url"@, Self::defaults().api_url),
            api_key: text_or(document, "api_key"@, Self::defaults().api_key),
            model: text_or(document, "model"@, Self::defaults().model),
            prompt: text_or(document, "prompt"@, Self::defaults().prompt),
        }
    }

    /// The record that the contents of a configuration file give; `None`
    /// stands for a file that could not be read.
    pub open spec fn loaded(contents: Option<Seq<char>>) -> ConfigView {
        match contents {
            None => Self::defaults(),
            Some(text) => match json_parsed(text) {
                None => Self::defaults(),
                Some(document) => Self::read_from(document),
            },
        }
    }

    /// The JSON object that describes this record: one string member for each
    /// field, under the field's name.
    pub open spec fn document(self) -> JsonView {
        JsonView::Object(
            map![
                "api_url"@ => JsonView::Text(self.api_url),
                "api_key"@ => JsonView::Text(self.api_key),
                "model"@ => JsonView::Text(self.model),
                "prompt"@ => JsonView::Text(self.prompt),
            ],
        )
    }

    /// `text` is what the pretty printer writes for a value that holds
    /// [`Self::document`]; `None` says that it reports an error.
    pub open spec fn saved_as(self, text: Option<Seq<char>>) -> bool {
        exists|value: serde_json::Value| #[trigger]
            json_view(value) == self.document() && json_pretty(value) == text
    }
}

impl Default for Config {
    fn default() -> (config: Config)
        ensures
            config@ == ConfigView::defaults(),
    {
        Config {
            api_url: "http://llm-api.fixstars.com/v1".to_string(),
            api_key: "".to_string(),
            model: "latest-chat".to_string(),
            prompt: "If the text is in English, translate to Japanese. If in Japanese, translate to English.\n  Only output the translation.".to_string(),
        }
    }
}

/// The string stored under `key` in `document`, or `fallback`.
fn text_member_or(document: &serde_json::Value, key: &str, fallback: String) -> (text: String)
    ensures
        text@ == text_or(json_view(*document), key@, fallback@),
{
    match as_text(member(document, key)) {
        Some(characters) => characters.to_string(),
        None => fallback,
    }
}

/// The four field names differ from one another.
proof fn lemma_field_names_differ()
    ensures
        "api_url"@ != "api_key"@,
        "api_url"@ != "model"@,
        "api_url"@ != "prompt"@,
        "api_key"@ != "model"@,
        "api_key"@ != "prompt"@,
        "model"@ != "prompt"@,
{
    reveal_strlit("api_url");
    reveal_strlit("api_key");
    reveal_strlit("model");
    reveal_strlit("prompt");
    assert("api_url"@[4] != "api_key"@[4]);
    assert("model"@.len() != "prompt"@.len());
}

impl Config {
    /// Reads a configuration out of a JSON document. Each field is the string
    /// that the document holds under the field's name; where it holds none,
    /// the field takes its default.
    pub fn from_document(document: &serde_json::Value) -> (config: Config)
        ensures
            config@ == ConfigView::read_from(json_view(*document)),
    {
        let defaults = Config::default();
        Config {
            api_url: text_member_or(document, "api_url", defaults.api_url),
            api_key: text_member_or(document, "api_key", defaults.api_key),
            model: text_member_or(document, "model", defaults.model),
            prompt: text_member_or(document, "prompt", defaults.prompt),
        }
    }

    /// Makes the configuration from the contents of the configuration file.
    /// A file that could not be read (`None`) and a text that is no JSON
    /// document give the defaults; any other text is read field by field.
    pub fn load(contents: Option<&str>) -> (config: Config)
        ensures
            config@ == ConfigView::loaded(contents.deep_view()),
    {
        match contents {
            None => Config::default(),
            Some(text) => match parse(text) {
                Ok(document) => Config::from_document(&document),
                Err(_) => Config::default(),
            },
        }
    }

    /// The JSON object that describes this configuration.
    pub fn to_document(&self) -> (document: serde_json::Value)
        ensures
            json_view(document) == self@.document(),
    {
        let mut fields: Vec<(String, serde_json::Value)> = Vec::new();
        fields.push(("api_url".to_string(), new_text(self.api_url.clone())));
        fields.push(("api_key".to_string(), new_text(self.api_key.clone())));
        fields.push(("model".to_string(), new_text(self.model.clone())));
        fields.push(("prompt".to_string(), new_text(self.prompt.clone())));
        proof {
            lemma_field_names_differ();
            assert(fields@[0].0@ == "api_url"@);
            assert(fields@[1].0@ == "api_key"@);
            assert(fields@[2].0@ == "model"@);
            assert(fields@[3].0@ == "prompt"@);
            assert(distinct_keys(fields@));
        }
        let document = new_object(fields);
        proof {
            assert(members_of(fields@) =~= self@.document()->Object_0);
        }
        document
    }

    /// The text to write to the configuration file: this configuration as an
    /// indented JSON object.
    pub fn save(&self) -> (text: Result<String, SaveError>)
        ensures
            self@.saved_as(
                match text {
                    Ok(written) => Some(written@),
                    Err(_) => None,
                },
            ),
    {
        let document = self.to_document();
        match encode_pretty(&document) {
            Ok(written) => Ok(written),
            Err(_) => Err(SaveError::Encoding),
        }
    }
}

/// What is written can be read back: the record read from the document of a
/// record is that record, none of its fields replaced by a default.
pub proof fn law_document_reads_back(config: ConfigView)
    ensures
        ConfigView::read_from(config.document()) == config,
{
    lemma_field_names_differ();
}

/// A document with none of the four members, and every value that is no
/// object, reads as the defaults.
pub proof fn law_empty_document_reads_as_defaults(document: JsonView)
    requires
        document matches JsonView::Object(members) ==> {
            &&& !members.contains_key("api_url"@)
            &&& !members.contains_key("api_key"@)
            &&& !members.contains_key("model"@)
            &&& !members.contains_key("prompt"@)
        },
    ensures
        ConfigView::read_from(document) == ConfigView::defaults(),
{
}

} // verus!
