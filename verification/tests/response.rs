use knowledge_base::response::ContentType;
use knowledge_base::response::Response;
use knowledge_base::response::Status;

#[test]
fn status_codes() {
    assert_eq!(Status::Success.code(), 200);
    assert_eq!(Status::NotFound.code(), 404);
    assert_eq!(Status::ServerError.code(), 500);
}

#[test]
fn content_type_names() {
    assert_eq!(ContentType::Html.mime(), "text/html");
    assert_eq!(ContentType::Plain.mime(), "text/plain");
}

#[test]
fn server_error_says_nothing() {
    let response = Response::server_error();
    assert_eq!(response.status, Status::ServerError);
    assert_eq!(response.content_type, None);
    assert_eq!(response.body, "");
}

#[test]
fn message_is_plain_text() {
    let response = Response::message(Status::Success, "hello".to_string());
    assert_eq!(
        response,
        Response {
            status: Status::Success,
            content_type: Some(ContentType::Plain),
            body: "hello".to_string()
        }
    );
}

#[test]
fn page_is_html() {
    let response = Response::page(Status::NotFound, "<p>gone</p>".to_string());
    assert_eq!(
        response,
        Response {
            status: Status::NotFound,
            content_type: Some(ContentType::Html),
            body: "<p>gone</p>".to_string()
        }
    );
}
