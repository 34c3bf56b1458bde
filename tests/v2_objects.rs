use oauth1_twitter::v2::ResponseBodyErrJson;

#[test]
fn test_de_error() {
    let json = r#"
    {
        "client_id": "101010101",
        "required_enrollment": "Standard Basic",
        "registration_url": "https://developer.twitter.com/en/account",
        "title": "Client Forbidden",
        "detail": "This request must be made using an approved developer account that is enrolled in the requested endpoint. Learn more by visiting our documentation.",
        "reason": "client-not-enrolled",
        "type": "https://api.twitter.com/2/problems/client-forbidden"
    }
    "#;
    match ResponseBodyErrJson::from_body(json.as_bytes()) {
        Some(error) => {
            assert_eq!(error.title, "Client Forbidden");
        }
        None => panic!("{json}"),
    }

    let json = r#"{"errors":[{"parameters":{"media.media_ids":["1"]},"message":"Your media IDs are invalid."}],"title":"Invalid Request","detail":"One or more parameters to your request was invalid.","type":"https://api.twitter.com/2/problems/invalid-request"}"#;
    match ResponseBodyErrJson::from_body(json.as_bytes()) {
        Some(error) => {
            assert_eq!(error.title, "Invalid Request");
        }
        None => panic!("{json}"),
    }
}
