use axiom_annotations::annotations::model::Annotation;
use axiom_annotations::error::{ClientError, TransportError};
use axiom_annotations::http::Reply;

fn annotation() -> Annotation {
    Annotation {
        id: "abc123".to_string(),
        message: "deploy v1".to_string(),
        datasets: vec!["prod".to_string()],
        time: "2024-03-01T10:00:00Z".to_string(),
        end_time: None,
    }
}

#[test]
fn a_decoded_reply_yields_its_value() {
    assert_eq!(Reply::Decoded(annotation()).into_result(), Ok(annotation()));
    assert_eq!(
        Reply::Decoded(vec![annotation(), annotation()]).into_result(),
        Ok(vec![annotation(), annotation()])
    );
    assert_eq!(Reply::Decoded(Vec::<Annotation>::new()).into_result(), Ok(Vec::new()));
    assert_eq!(Reply::Decoded(()).into_result(), Ok(()));
}

#[test]
fn a_connection_failure_is_handed_on_unchanged() {
    let failure = TransportError::Connection("connection refused".to_string());
    let reply: Reply<Annotation> = Reply::Failed(failure.clone());
    assert_eq!(reply.into_result(), Err(ClientError::Transport(failure)));
}

#[test]
fn a_status_failure_is_handed_on_unchanged() {
    let failure = TransportError::Status(404, "annotation not found".to_string());
    let reply: Reply<Annotation> = Reply::Failed(failure.clone());
    assert_eq!(reply.into_result(), Err(ClientError::Transport(failure)));
    let failure = TransportError::Status(500, String::new());
    let reply: Reply<()> = Reply::Failed(failure.clone());
    assert_eq!(reply.into_result(), Err(ClientError::Transport(failure)));
}

#[test]
fn a_malformed_body_is_a_deserialization_error() {
    let reply: Reply<Annotation> = Reply::Malformed("expected value at line 1 column 1".to_string());
    assert_eq!(
        reply.into_result(),
        Err(ClientError::Deserialize("expected value at line 1 column 1".to_string()))
    );
    let reply: Reply<Vec<Annotation>> = Reply::Malformed("EOF while parsing a list".to_string());
    assert_eq!(
        reply.into_result(),
        Err(ClientError::Deserialize("EOF while parsing a list".to_string()))
    );
}
