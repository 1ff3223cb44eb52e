use tgcli::http::response::{answer_outcome, upload_outcome, NO_FILE};
use tgcli::operations::ErrorKind;

#[test]
fn good_answer_is_ok() {
    assert!(answer_outcome(200, true, None).is_ok());
    assert!(answer_outcome(299, true, None).is_ok());
    assert!(answer_outcome(201, true, Some("created".to_string())).is_ok());
}

#[test]
fn answer_outside_the_2xx_is_a_refusal() {
    for status in [0u16, 199, 300, 400, 404, 502, u16::MAX] {
        let error = answer_outcome(status, true, None).expect_err("not one of the 2xx");
        assert_eq!(error.kind(), ErrorKind::RemoteUpload);
        assert_eq!(error.message(), format!("The messaging API answered {}.", status));
    }
}

#[test]
fn answer_that_is_not_ok_is_a_refusal() {
    let error = answer_outcome(200, false, None).expect_err("the API did not say ok");
    assert_eq!(error.kind(), ErrorKind::RemoteUpload);
    assert_eq!(error.message(), "The messaging API answered 200.");
}

#[test]
fn refusal_holds_the_description_of_the_api() {
    let said = Some("Bad Request: chat not found".to_string());
    let error = answer_outcome(400, false, said).expect_err("refused");
    assert_eq!(error.kind(), ErrorKind::RemoteUpload);
    assert_eq!(error.message(), "Bad Request: chat not found");
    let error = answer_outcome(200, false, Some("".to_string())).expect_err("refused");
    assert_eq!(error.message(), "");
}

#[test]
fn upload_answer_names_the_file() {
    let id = upload_outcome(200, true, None, Some("file999".to_string())).expect("a good answer");
    assert_eq!(id.as_str(), "file999");
    let id = upload_outcome(200, true, Some("fine".to_string()), Some("BQAC".to_string()));
    assert_eq!(id.expect("a good answer").as_str(), "BQAC");
}

#[test]
fn upload_answer_without_a_file_is_an_error() {
    let error = upload_outcome(200, true, None, None).expect_err("no file named");
    assert_eq!(error.kind(), ErrorKind::RemoteUpload);
    assert_eq!(error.message(), NO_FILE);
    assert_eq!(error.message(), "The messaging API named no file.");
}

#[test]
fn refused_upload_is_a_refusal_even_with_a_file() {
    let error =
        upload_outcome(403, false, Some("Forbidden".to_string()), Some("file1".to_string()));
    let error = error.expect_err("refused");
    assert_eq!(error.kind(), ErrorKind::RemoteUpload);
    assert_eq!(error.message(), "Forbidden");
    let error = upload_outcome(500, true, None, Some("file1".to_string())).expect_err("refused");
    assert_eq!(error.message(), "The messaging API answered 500.");
    let error = upload_outcome(200, false, None, None).expect_err("refused");
    assert_eq!(error.message(), "The messaging API answered 200.");
}
