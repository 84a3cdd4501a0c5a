//! The configuration of an adapter: its options, the table it reads, and
//! the address of the one request a scan makes.

use vstd::prelude::*;
use vstd::string::*;
use crate::text::same_text;

verus! {

/// One option handed in by the host: a name and its text.
#[derive(Clone, Debug, PartialEq, Eq)]
pub struct ConfigOption {
    pub key: String,
    pub value: String,
}

/// The mathematical content of a [`ConfigOption`].
pub struct OptionModel {
    pub key: Seq<char>,
    pub value: Seq<char>,
}

impl View for ConfigOption {
    type V = OptionModel;

    open spec fn view(&self) -> OptionModel {
        OptionModel { key: self.key@, value: self.value@ }
    }
}

/// The content of an option list, option by option.
pub open spec fn options_view(options: Seq<ConfigOption>) -> Seq<OptionModel> {
    options.map_values(|o: ConfigOption| o@)
}

/// The text of the first option at or after `from` that has the name `key`.
pub open spec fn lookup_from(options: Seq<OptionModel>, key: Seq<char>, from: int) -> Option<Seq<char>>
    decreases options.len() - from,
{
    if 0 <= from < options.len() {
        if options[from].key == key {
            Some(options[from].value)
        } else {
            lookup_from(options, key, from + 1)
        }
    } else {
        None
    }
}

/// The text of the first option that has the name `key`.
pub open spec fn lookup(options: Seq<OptionModel>, key: Seq<char>) -> Option<Seq<char>> {
    lookup_from(options, key, 0)
}

/// The content of an optional text.
pub open spec fn optional_text(text: Option<String>) -> Option<Seq<char>> {
    match text {
        Some(s) => Some(s@),
        None => None,
    }
}

/// Finds the text of the first option that has the name `key`.
pub fn find_option(options: &Vec<ConfigOption>, key: &str) -> (r: Option<String>)
    ensures
        optional_text(r) == lookup(options_view(options@), key@),
{
    let mut i: usize = 0;
    while i < options.len()
        invariant
            i <= options@.len(),
            lookup(options_view(options@), key@) == lookup_from(options_view(options@), key@, i as int),
        decreases options@.len() - i,
    {
        if same_text(options[i].key.as_str(), key) {
            return Some(options[i].value.clone());
        }
        i += 1;
    }
    None
}

/// Copies an option list, option by option.
pub fn copy_options(options: &Vec<ConfigOption>) -> (r: Vec<ConfigOption>)
    ensures
        options_view(r@) == options_view(options@),
{
    let mut copy: Vec<ConfigOption> = Vec::new();
    let mut i: usize = 0;
    while i < options.len()
        invariant
            i <= options@.len(),
            copy@.len() == i,
            forall|j: int| 0 <= j < i ==> (#[trigger] copy@[j])@ == options@[j]@,
        decreases options@.len() - i,
    {
        copy.push(ConfigOption { key: options[i].key.clone(), value: options[i].value.clone() });
        i += 1;
    }
    assert(options_view(copy@) =~= options_view(options@));
    copy
}

/// What an adapter keeps for its lifetime.
#[derive(Clone, Debug, PartialEq, Eq)]
pub struct AdapterConfig {
    pub base_url: String,
}

/// The table a scan reads.
#[derive(Clone, Debug, PartialEq, Eq)]
pub struct TableRequest {
    pub object_identifier: String,
    pub sheet_identifier: Option<String>,
}

/// Why an adapter could not be set up.
#[derive(Clone, Copy, Debug, PartialEq, Eq)]
pub enum ConfigError {
    /// The options name no table: neither `sheet_id` nor `object` is there.
    MissingTableIdentifier,
}

impl ConfigError {
    /// The text that reports this error to a reader.
    pub fn message(&self) -> (r: String)
        ensures
            r@ == "Missing sheet_id option"@,
    {
        String::from_str("Missing sheet_id option")
    }
}

/// The address root used where the options give none. Like every root it
/// ends with the slash that precedes the table identifier.
pub open spec fn default_base_url() -> Seq<char> {
    "https://docs.google.com/spreadsheets/d/"@
}

/// The part of the address that follows the table identifier and selects
/// JSON output.
pub open spec fn query_suffix() -> Seq<char> {
    "/gviz/tq?tqx=out:json"@
}

/// The address root that the options give: the text of `base_url`, or the
/// default.
pub open spec fn resolved_base_url(options: Seq<OptionModel>) -> Seq<char> {
    match lookup(options, "base_url"@) {
        Some(url) => url,
        None => default_base_url(),
    }
}

/// The table identifier that the options give: the text of `sheet_id`,
/// or, where there is none, that of `object`.
pub open spec fn resolved_object(options: Seq<OptionModel>) -> Option<Seq<char>> {
    match lookup(options, "sheet_id"@) {
        Some(sheet) => Some(sheet),
        None => lookup(options, "object"@),
    }
}

/// The address of a table: the root, the table identifier and the query
/// suffix, one after the other, and for a sheet identifier `&gid=` and its
/// text. The root is used as it stands; nothing is put between it and the
/// identifier.
pub open spec fn url_of(base_url: Seq<char>, object: Seq<char>, sheet: Option<Seq<char>>) -> Seq<char> {
    let head = base_url + object + query_suffix();
    match sheet {
        Some(s) => head + "&gid="@ + s,
        None => head,
    }
}

/// Reads the adapter's configuration from the options.
pub fn resolve_config(options: &Vec<ConfigOption>) -> (r: AdapterConfig)
    ensures
        r.base_url@ == resolved_base_url(options_view(options@)),
{
    match find_option(options, "base_url") {
        Some(base_url) => AdapterConfig { base_url },
        None => AdapterConfig { base_url: String::from_str("https://docs.google.com/spreadsheets/d/") },
    }
}

/// Reads the table request from the options.
pub fn resolve_request(options: &Vec<ConfigOption>) -> (r: Result<TableRequest, ConfigError>)
    ensures
        r is Ok <==> resolved_object(options_view(options@)) is Some,
        r is Err ==> r == Err::<TableRequest, ConfigError>(ConfigError::MissingTableIdentifier),
        r matches Ok(request) ==> Some(request.object_identifier@) == resolved_object(options_view(options@))
            && optional_text(request.sheet_identifier) == lookup(options_view(options@), "gid"@),
{
    let object = match find_option(options, "sheet_id") {
        Some(sheet) => Some(sheet),
        None => find_option(options, "object"),
    };
    match object {
        Some(object_identifier) => Ok(TableRequest { object_identifier, sheet_identifier: find_option(options, "gid") }),
        None => Err(ConfigError::MissingTableIdentifier),
    }
}

/// Builds the address of the one request of a scan.
pub fn request_url(config: &AdapterConfig, request: &TableRequest) -> (r: String)
    ensures
        r@ == url_of(config.base_url@, request.object_identifier@, optional_text(request.sheet_identifier)),
{
    let mut url = config.base_url.clone();
    url.append(request.object_identifier.as_str());
    url.append("/gviz/tq?tqx=out:json");
    match &request.sheet_identifier {
        Some(sheet) => {
            url.append("&gid=");
            url.append(sheet.as_str());
        },
        None => {},
    }
    url
}

} // verus!
