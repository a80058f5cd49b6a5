//! Starting a Microsoft Graph sign-in by device code: what is sent to the
//! identity provider, and where the tokens of a finished sign-in belong.

use vstd::prelude::*;

verus! {

/// `std::path::PathBuf`, carried through as an opaque value: nothing is
/// claimed of what a path holds.
#[verifier::external_type_specification]
#[verifier::external_body]
pub struct ExPathBuf(std::path::PathBuf);

/// The tokens that the identity provider grants at the end of a sign-in.
#[derive(Clone, Debug)]
pub struct GraphTokens {
    pub access_token: String,
    pub refresh_token: Option<String>,
    /// Lifetime of the access token, in seconds.
    pub expires_in: Option<i64>,
    pub token_type: Option<String>,
}

/// A form-encoded POST: the address it goes to and the fields of its body,
/// in order, each a name and a value.
#[derive(Debug, PartialEq, Eq)]
pub struct DeviceCodeRequest {
    pub url: String,
    pub form: Vec<(String, String)>,
}

/// The mathematical content of a `DeviceCodeRequest`.
pub struct FormPost {
    pub url: Seq<char>,
    pub form: Seq<(Seq<char>, Seq<char>)>,
}

impl View for DeviceCodeRequest {
    type V = FormPost;

    open spec fn view(&self) -> FormPost {
        FormPost {
            url: self.url@,
            form: Seq::new(self.form@.len(), |i: int| (self.form@[i].0@, self.form@[i].1@)),
        }
    }
}

/// The endpoint of the identity provider that hands out device codes.
pub open spec fn device_code_endpoint() -> Seq<char> {
    "https://login.microsoftonline.com/organizations/oauth2/v2.0/devicecode"@
}

/// The permissions asked for: offline access, sign-in and profile, reading
/// and writing calendars, reading the user. They are the same for every
/// client.
pub open spec fn device_code_scope() -> Seq<char> {
    "offline_access openid profile email https://graph.microsoft.com/Calendars.ReadWrite https://graph.microsoft.com/User.Read"@
}

/// The request that starts a sign-in for the client `client_id`: the client
/// identifier as it was given, then the fixed scope.
pub open spec fn device_code_post(client_id: Seq<char>) -> FormPost {
    FormPost {
        url: device_code_endpoint(),
        form: seq![("client_id"@, client_id), ("scope"@, device_code_scope())],
    }
}

/// Builds the one request that starts a device-code sign-in. The client
/// identifier is not inspected.
pub fn device_code_request(client_id: String) -> (request: DeviceCodeRequest)
    ensures
        request@ == device_code_post(client_id@),
{
    let url =
        "https://login.microsoftonline.com/organizations/oauth2/v2.0/devicecode".to_owned();
    let scope =
        "offline_access openid profile email https://graph.microsoft.com/Calendars.ReadWrite https://graph.microsoft.com/User.Read".to_owned();
    let mut form: Vec<(String, String)> = Vec::new();
    form.push(("client_id".to_owned(), client_id));
    form.push(("scope".to_owned(), scope));
    let request = DeviceCodeRequest { url, form };
    assert(request@.form =~= device_code_post(client_id@).form);
    request
}

/// The name of the file that holds the tokens.
pub open spec fn tokens_file_name() -> Seq<char> {
    "graph_tokens.json"@
}

/// The name of the token file inside its directory.
pub fn graph_tokens_file_name() -> (name: String)
    ensures
        name@ == tokens_file_name(),
{
    "graph_tokens.json".to_owned()
}

/// The directory of the token file: the application's configuration
/// directory where the system has one, else the directory for temporary
/// files.
pub fn graph_tokens_dir(
    config_dir: Option<std::path::PathBuf>,
    temp_dir: std::path::PathBuf,
) -> (dir: std::path::PathBuf)
    ensures
        dir == match config_dir {
            Some(found) => found,
            None => temp_dir,
        },
{
    match config_dir {
        Some(found) => found,
        None => temp_dir,
    }
}

} // verus!
