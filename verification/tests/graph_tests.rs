use desktop_commands::graph::{
    device_code_request, graph_tokens_dir, graph_tokens_file_name, DeviceCodeRequest, GraphTokens,
};
use std::path::PathBuf;

const ENDPOINT: &str = "https://login.microsoftonline.com/organizations/oauth2/v2.0/devicecode";
const SCOPE: &str = "offline_access openid profile email https://graph.microsoft.com/Calendars.ReadWrite https://graph.microsoft.com/User.Read";

fn pair(name: &str, value: &str) -> (String, String) {
    (name.to_string(), value.to_string())
}

#[test]
fn device_code_request_goes_to_the_fixed_endpoint() {
    let request = device_code_request("11111111-2222-3333-4444-555555555555".to_string());
    assert_eq!(request.url, ENDPOINT);
}

#[test]
fn device_code_request_sends_client_id_then_scope() {
    let id = "11111111-2222-3333-4444-555555555555";
    let request = device_code_request(id.to_string());
    assert_eq!(
        request,
        DeviceCodeRequest {
            url: ENDPOINT.to_string(),
            form: vec![pair("client_id", id), pair("scope", SCOPE)],
        }
    );
}

#[test]
fn device_code_request_does_not_touch_the_client_id() {
    for id in ["", " ", "a&b=c d", "scope", "\u{00e9}\u{4e2d}\u{6587}", "id\nwith\nlines"] {
        let request = device_code_request(id.to_string());
        assert_eq!(request.form.len(), 2);
        assert_eq!(request.form[0], pair("client_id", id));
        assert_eq!(request.form[1], pair("scope", SCOPE));
        assert_eq!(request.url, ENDPOINT);
    }
}

#[test]
fn device_code_scope_lists_six_permissions() {
    let request = device_code_request("id".to_string());
    let scopes: Vec<&str> = request.form[1].1.split(' ').collect();
    assert_eq!(
        scopes,
        vec![
            "offline_access",
            "openid",
            "profile",
            "email",
            "https://graph.microsoft.com/Calendars.ReadWrite",
            "https://graph.microsoft.com/User.Read",
        ]
    );
}

#[test]
fn device_code_request_is_encoded_as_a_form_by_the_http_client() {
    let request = device_code_request("my id&x".to_string());
    let built = reqwest::Client::new()
        .post(request.url.as_str())
        .form(&request.form)
        .build()
        .expect("the request is well formed");
    assert_eq!(built.method().as_str(), "POST");
    assert_eq!(built.url().as_str(), ENDPOINT);
    assert_eq!(
        built.headers().get("content-type").map(|v| v.as_bytes()),
        Some("application/x-www-form-urlencoded".as_bytes())
    );
    let body = built.body().and_then(|b| b.as_bytes()).expect("the body is in memory");
    let expected = "client_id=my+id%26x&scope=offline_access+openid+profile+email+https%3A%2F%2Fgraph.microsoft.com%2FCalendars.ReadWrite+https%3A%2F%2Fgraph.microsoft.com%2FUser.Read";
    assert_eq!(std::str::from_utf8(body), Ok(expected));
}

#[test]
fn tokens_file_has_its_fixed_name() {
    assert_eq!(graph_tokens_file_name(), "graph_tokens.json");
}

#[test]
fn tokens_dir_is_the_config_dir_where_there_is_one() {
    let config = PathBuf::from("/home/ann/.config/app");
    let temp = PathBuf::from("/tmp");
    assert_eq!(graph_tokens_dir(Some(config.clone()), temp), config);
}

#[test]
fn tokens_dir_falls_back_to_the_temp_dir() {
    let temp = PathBuf::from("/tmp");
    assert_eq!(graph_tokens_dir(None, temp.clone()), temp);
}

#[test]
fn tokens_dir_keeps_an_empty_config_dir() {
    assert_eq!(graph_tokens_dir(Some(PathBuf::new()), PathBuf::from("/tmp")), PathBuf::new());
}

#[test]
fn tokens_path_is_the_file_inside_the_directory() {
    let dir = graph_tokens_dir(None, PathBuf::from("base"));
    let path = dir.join(graph_tokens_file_name());
    assert_eq!(path.file_name().and_then(|n| n.to_str()), Some("graph_tokens.json"));
    assert_eq!(path.parent(), Some(std::path::Path::new("base")));
}

#[test]
fn graph_tokens_hold_one_required_and_three_optional_fields() {
    let full = GraphTokens {
        access_token: "at".to_string(),
        refresh_token: Some("rt".to_string()),
        expires_in: Some(3600),
        token_type: Some("Bearer".to_string()),
    };
    let copy = full.clone();
    assert_eq!(copy.access_token, "at");
    assert_eq!(copy.refresh_token.as_deref(), Some("rt"));
    assert_eq!(copy.expires_in, Some(3600));
    assert_eq!(copy.token_type.as_deref(), Some("Bearer"));

    let bare = GraphTokens {
        access_token: String::new(),
        refresh_token: None,
        expires_in: None,
        token_type: None,
    };
    assert_eq!(bare.clone().expires_in, None);
    assert_eq!(format!("{:?}", bare.refresh_token), "None");
}
