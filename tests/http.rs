use service_dependencies::http_client::{HttpCall, HttpClient, HttpRequest, HttpResponse, Transport};
use service_dependencies::network_http_client::{ReqwestHttpClient, UreqHttpClient};
use service_dependencies::test_http_client::{TestHttpClient, TEST_BODY};

fn answered_body(call: HttpCall) -> Vec<u8> {
    match call {
        HttpCall::Answered(response) => response.body().clone(),
        HttpCall::Send(_, _) => panic!("expected an answer without the network"),
    }
}

#[test]
fn test_client_answers_with_fixture() {
    let client = TestHttpClient::new();
    let body = answered_body(client.get(HttpRequest::new("https://example.test/".to_owned())));
    assert_eq!(body, b"test body".to_vec());
    assert_eq!(TEST_BODY, "test body");
}

#[test]
fn test_client_ignores_the_locator() {
    let client = TestHttpClient::new();
    let a = answered_body(client.get(HttpRequest::new("https://example.test/".to_owned())));
    let b = answered_body(client.get(HttpRequest::new("".to_owned())));
    let c = answered_body(client.get(HttpRequest::new("not a uri".to_owned())));
    assert_eq!(a, b);
    assert_eq!(b, c);
}

#[test]
fn network_clients_hand_the_request_to_their_transport() {
    let uri = "https://example.test/path?q=1";
    match ReqwestHttpClient::new().get(HttpRequest::new(uri.to_owned())) {
        HttpCall::Send(transport, request) => {
            assert_eq!(transport, Transport::Reqwest);
            assert_eq!(request.uri(), uri);
        }
        HttpCall::Answered(_) => panic!("reqwest client answered by itself"),
    }
    match UreqHttpClient::new().get(HttpRequest::new(uri.to_owned())) {
        HttpCall::Send(transport, request) => {
            assert_eq!(transport, Transport::Ureq);
            assert_eq!(request.uri(), uri);
        }
        HttpCall::Answered(_) => panic!("ureq client answered by itself"),
    }
}

#[test]
fn request_and_response_keep_what_they_were_made_from() {
    let request = HttpRequest::new("https://docs.rs/".to_owned());
    assert_eq!(request.uri(), "https://docs.rs/");
    let response = HttpResponse::new(vec![0, 1, 255]);
    assert_eq!(response.body(), &vec![0u8, 1, 255]);
    assert!(HttpResponse::new(Vec::new()).body().is_empty());
}
