use axiom_annotations::annotations::client::Client;
use axiom_annotations::annotations::model::{Annotation, AnnotationRequest, ListRequest};
use axiom_annotations::error::{ClientError, TransportError};
use axiom_annotations::http::{Method, Reply, Request};

/// What a response carries.
enum Body {
    One(Annotation),
    Many(Vec<Annotation>),
    Nothing,
}

/// A stand-in for the service that keeps its annotations in memory.
struct MemoryService {
    held: Vec<Annotation>,
    created: u32,
}

impl MemoryService {
    fn new() -> Self {
        MemoryService { held: Vec::new(), created: 0 }
    }

    fn not_found() -> TransportError {
        TransportError::Status(404, "annotation not found".to_string())
    }

    fn position(&self, id: &str) -> Result<usize, TransportError> {
        self.held.iter().position(|held| held.id == id).ok_or_else(MemoryService::not_found)
    }

    fn serve(&mut self, request: Request) -> Result<Body, TransportError> {
        if let Some(id) = request.path.strip_prefix("/v2/annotations/") {
            let at = self.position(id)?;
            match (request.method, request.body) {
                (Method::Get, _) => Ok(Body::One(self.held[at].clone())),
                (Method::Put, Some(change)) => {
                    let held = &mut self.held[at];
                    if let Some(message) = change.message {
                        held.message = message;
                    }
                    if let Some(datasets) = change.datasets {
                        held.datasets = datasets;
                    }
                    if let Some(time) = change.time {
                        held.time = time;
                    }
                    if let Some(end_time) = change.end_time {
                        held.end_time = Some(end_time);
                    }
                    Ok(Body::One(held.clone()))
                }
                (Method::Delete, _) => {
                    self.held.remove(at);
                    Ok(Body::Nothing)
                }
                _ => Err(TransportError::Status(405, "method not allowed".to_string())),
            }
        } else if request.path.starts_with("/v2/annotations?") {
            match request.method {
                Method::Get => Ok(Body::Many(self.held.clone())),
                _ => Err(TransportError::Status(405, "method not allowed".to_string())),
            }
        } else if request.path == "/v2/annotations" {
            match (request.method, request.body) {
                (Method::Post, Some(payload)) => {
                    let annotation = Annotation {
                        id: format!("abc{}", 123 + self.created),
                        message: payload.message.unwrap_or_default(),
                        datasets: payload.datasets.unwrap_or_default(),
                        time: payload.time.unwrap_or("2024-03-01T10:00:00Z".to_string()),
                        end_time: payload.end_time,
                    };
                    self.created += 1;
                    self.held.push(annotation.clone());
                    Ok(Body::One(annotation))
                }
                _ => Err(TransportError::Status(405, "method not allowed".to_string())),
            }
        } else {
            Err(MemoryService::not_found())
        }
    }

    fn one(&mut self, request: Request) -> Reply<Annotation> {
        match self.serve(request) {
            Ok(Body::One(annotation)) => Reply::Decoded(annotation),
            Ok(_) => Reply::Malformed("expected one annotation".to_string()),
            Err(failure) => Reply::Failed(failure),
        }
    }

    fn many(&mut self, request: Request) -> Reply<Vec<Annotation>> {
        match self.serve(request) {
            Ok(Body::Many(annotations)) => Reply::Decoded(annotations),
            Ok(_) => Reply::Malformed("expected a list of annotations".to_string()),
            Err(failure) => Reply::Failed(failure),
        }
    }

    fn nothing(&mut self, request: Request) -> Reply<()> {
        match self.serve(request) {
            Ok(_) => Reply::Decoded(()),
            Err(failure) => Reply::Failed(failure),
        }
    }
}

fn deploy(message: &str, datasets: &[&str]) -> AnnotationRequest {
    AnnotationRequest {
        message: Some(message.to_string()),
        datasets: Some(datasets.iter().map(|name| name.to_string()).collect()),
        time: None,
        end_time: None,
    }
}

#[test]
fn create_then_get_returns_the_identical_record() {
    let client = Client::new();
    let mut service = MemoryService::new();

    let created = service.one(client.create(deploy("deploy v1", &["prod"]))).into_result().unwrap();
    assert_eq!(created.id, "abc123");
    assert_eq!(created.message, "deploy v1");
    assert_eq!(created.datasets, vec!["prod".to_string()]);

    let fetched = service.one(client.get("abc123")).into_result().unwrap();
    assert_eq!(fetched, created);
}

#[test]
fn create_then_get_keeps_every_supplied_field() {
    let client = Client::new();
    let mut service = MemoryService::new();
    let payloads = [
        deploy("deploy v1", &["prod"]),
        deploy("", &[]),
        AnnotationRequest {
            message: Some("maintenance".to_string()),
            datasets: Some(vec!["prod".to_string(), "staging".to_string()]),
            time: Some("2024-05-01T00:00:00Z".to_string()),
            end_time: Some("2024-05-01T02:00:00Z".to_string()),
        },
        AnnotationRequest::default(),
    ];
    for payload in payloads {
        let created = service.one(client.create(payload.clone())).into_result().unwrap();
        let fetched = service.one(client.get(&created.id)).into_result().unwrap();
        assert_eq!(fetched, created);
        if let Some(message) = payload.message {
            assert_eq!(fetched.message, message);
        }
        if let Some(datasets) = payload.datasets {
            assert_eq!(fetched.datasets, datasets);
        }
        if let Some(time) = payload.time {
            assert_eq!(fetched.time, time);
        }
        if let Some(end_time) = payload.end_time {
            assert_eq!(fetched.end_time, Some(end_time));
        }
    }
}

#[test]
fn update_overwrites_only_the_supplied_fields() {
    let client = Client::new();
    let mut service = MemoryService::new();
    let first = service.one(client.create(deploy("deploy v1", &["prod"]))).into_result().unwrap();
    let second =
        service.one(client.create(deploy("deploy v2", &["staging"]))).into_result().unwrap();

    let change = AnnotationRequest {
        message: Some("deploy v1, rolled back".to_string()),
        datasets: None,
        time: None,
        end_time: Some("2024-03-01T11:00:00Z".to_string()),
    };
    let updated = service.one(client.update(&first.id, change)).into_result().unwrap();
    assert_eq!(
        updated,
        Annotation {
            id: "abc123".to_string(),
            message: "deploy v1, rolled back".to_string(),
            datasets: vec!["prod".to_string()],
            time: first.time.clone(),
            end_time: Some("2024-03-01T11:00:00Z".to_string()),
        }
    );
    assert_eq!(service.one(client.get(&first.id)).into_result(), Ok(updated));
    assert_eq!(service.one(client.get(&second.id)).into_result(), Ok(second));
}

#[test]
fn update_of_an_unknown_identifier_is_not_found() {
    let client = Client::new();
    let mut service = MemoryService::new();
    let result = service.one(client.update("missing", deploy("x", &[]))).into_result();
    assert_eq!(
        result,
        Err(ClientError::Transport(TransportError::Status(
            404,
            "annotation not found".to_string()
        )))
    );
}

#[test]
fn delete_then_get_is_not_found() {
    let client = Client::new();
    let mut service = MemoryService::new();
    let created = service.one(client.create(deploy("deploy v1", &["prod"]))).into_result().unwrap();

    assert_eq!(service.nothing(client.delete(&created.id)).into_result(), Ok(()));
    let result = service.one(client.get(&created.id)).into_result();
    assert!(matches!(result, Err(ClientError::Transport(TransportError::Status(404, _)))));
    let again = service.nothing(client.delete(&created.id)).into_result();
    assert!(matches!(again, Err(ClientError::Transport(TransportError::Status(404, _)))));
}

#[test]
fn list_without_filters_returns_what_was_created_and_not_deleted() {
    let client = Client::new();
    let mut service = MemoryService::new();
    assert_eq!(
        service.many(client.list(ListRequest::default()).unwrap()).into_result(),
        Ok(Vec::new())
    );

    let first = service.one(client.create(deploy("deploy v1", &["prod"]))).into_result().unwrap();
    let second = service.one(client.create(deploy("deploy v2", &["prod"]))).into_result().unwrap();
    let third = service.one(client.create(deploy("deploy v3", &["dev"]))).into_result().unwrap();
    service.nothing(client.delete(&second.id)).into_result().unwrap();

    let listed =
        service.many(client.list(ListRequest::default()).unwrap()).into_result().unwrap();
    assert_eq!(listed.len(), 2);
    assert!(listed.contains(&first));
    assert!(listed.contains(&third));
    assert!(!listed.contains(&second));
}

#[test]
fn a_body_of_the_wrong_shape_is_a_deserialization_error() {
    let client = Client::new();
    let mut service = MemoryService::new();
    service.one(client.create(deploy("deploy v1", &["prod"]))).into_result().unwrap();

    let result = service.many(client.get("abc123")).into_result();
    assert_eq!(
        result,
        Err(ClientError::Deserialize("expected a list of annotations".to_string()))
    );
    let result = service.one(client.list(ListRequest::default()).unwrap()).into_result();
    assert_eq!(result, Err(ClientError::Deserialize("expected one annotation".to_string())));
}

#[test]
fn a_failed_call_does_not_affect_the_next() {
    let client = Client::new();
    let mut service = MemoryService::new();
    assert!(service.one(client.get("abc123")).into_result().is_err());
    let created = service.one(client.create(deploy("deploy v1", &["prod"]))).into_result().unwrap();
    assert_eq!(service.one(client.get("abc123")).into_result(), Ok(created));
}
