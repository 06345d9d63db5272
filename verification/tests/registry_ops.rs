use infra_engine::container_registry::ContainerRegistryError;
use infra_engine::container_registry::ContainerRegistryInfo;
use infra_engine::container_registry::DeleteImageAction;
use infra_engine::container_registry::DeleteImageEvent;
use infra_engine::container_registry::Image;
use infra_engine::container_registry::Repository;
use infra_engine::container_registry::RetryDecision;
use infra_engine::container_registry::ScwImage;
use infra_engine::container_registry::ScwRegistryNamespace;
use infra_engine::container_registry::ScwRegistryStatus;
use infra_engine::container_registry::ScwTag;
use infra_engine::container_registry::conclude_create_registry_namespace;
use infra_engine::container_registry::conclude_delete_repository;
use infra_engine::container_registry::create_registry_namespace_request;
use infra_engine::container_registry::delete_image;
use infra_engine::container_registry::delete_repository_target;
use infra_engine::container_registry::get_docker_json_config_raw;
use infra_engine::container_registry::get_image;
use infra_engine::container_registry::get_or_create_registry_namespace;
use infra_engine::container_registry::get_repository;
use infra_engine::container_registry::image_exists_retry_policy;
use infra_engine::container_registry::registry_namespace_created;
use infra_engine::container_registry::registry_url_for_region;

fn image_with_tags(id: &str, tags: Option<Vec<&str>>) -> ScwImage {
    ScwImage {
        id: Some(id.to_string()),
        name: Some("app".to_string()),
        status: Some(ScwRegistryStatus::Ready),
        tags: tags.map(|ts| ts.iter().map(|t| t.to_string()).collect()),
    }
}

#[test]
fn test_get_image_selects_first_with_tag() {
    let listing = Ok(Some(vec![
        image_with_tags("img-1", Some(vec!["v2"])),
        image_with_tags("img-2", Some(vec!["v1", "v3"])),
        image_with_tags("img-3", Some(vec!["v1"])),
    ]));
    let found = get_image(listing, "v1").expect("an image carries v1");
    assert_eq!(found.id.as_deref(), Some("img-2"));

    // The listing cannot filter by tag; no tag match means no image.
    let listing = Ok(Some(vec![image_with_tags("img-1", Some(vec!["v2"]))]));
    assert!(get_image(listing, "v9").is_none());

    // A failed or empty listing never raises: it yields nothing.
    assert!(get_image(Err("boom".to_string()), "v1").is_none());
    assert!(get_image(Ok(None), "v1").is_none());
    let untagged = Ok(Some(vec![image_with_tags("img-1", None)]));
    assert!(get_image(untagged, "v1").is_none());
}

#[test]
fn test_delete_image_full_run() {
    let image = Image {
        name: "app".to_string(),
        tag: "v1".to_string(),
        registry_name: "repo".to_string(),
    };
    let (mut flow, action) = delete_image("my-registry", &image);
    match action {
        DeleteImageAction::ListImages { name } => assert_eq!(name, "app"),
        other => panic!("expected the image listing, got {:?}", other),
    }

    let action = flow.on_event(DeleteImageEvent::ImagesListed(Ok(Some(vec![
        image_with_tags("img-1", Some(vec!["v1"])),
    ]))));
    match action {
        DeleteImageAction::ListTags { image_id } => assert_eq!(image_id, "img-1"),
        other => panic!("expected the tag listing, got {:?}", other),
    }

    let tags = vec![
        ScwTag { id: Some("tag-0".to_string()), name: Some("v0".to_string()) },
        ScwTag { id: Some("tag-1".to_string()), name: Some("v1".to_string()) },
    ];
    let action = flow.on_event(DeleteImageEvent::TagsListed(Ok(Some(tags))));
    match action {
        DeleteImageAction::DeleteTag { tag_id } => assert_eq!(tag_id, "tag-1"),
        other => panic!("expected the tag deletion, got {:?}", other),
    }

    let action = flow.on_event(DeleteImageEvent::TagDeleted(Ok(())));
    match action {
        DeleteImageAction::Finished { result: Ok(img) } => {
            assert_eq!(img.id.as_deref(), Some("img-1"));
        }
        other => panic!("expected the deleted image, got {:?}", other),
    }
}

#[test]
fn test_delete_image_not_found() {
    let image = Image {
        name: "app".to_string(),
        tag: "v1".to_string(),
        registry_name: "repo".to_string(),
    };
    let (mut flow, _) = delete_image("my-registry", &image);
    let action = flow.on_event(DeleteImageEvent::ImagesListed(Err("down".to_string())));
    match action {
        DeleteImageAction::Finished {
            result:
                Err(ContainerRegistryError::ImageDoesntExistInRegistry {
                    registry_name,
                    repository_name,
                    image_name,
                }),
        } => {
            assert_eq!(registry_name, "my-registry");
            assert_eq!(repository_name, "repo");
            assert_eq!(image_name, "app");
        }
        other => panic!("expected the missing-image failure, got {:?}", other),
    }
}

#[test]
fn test_delete_image_tag_not_found() {
    let image = Image {
        name: "app".to_string(),
        tag: "v1".to_string(),
        registry_name: "repo".to_string(),
    };
    let (mut flow, _) = delete_image("my-registry", &image);
    let _ = flow.on_event(DeleteImageEvent::ImagesListed(Ok(Some(vec![
        image_with_tags("img-1", Some(vec!["v1"])),
    ]))));
    let action = flow.on_event(DeleteImageEvent::TagsListed(Ok(None)));
    match action {
        DeleteImageAction::Finished {
            result: Err(ContainerRegistryError::CannotDeleteImage { raw_error_message, .. }),
        } => {
            assert_eq!(raw_error_message, "Tag not found");
        }
        other => panic!("expected the deletion failure, got {:?}", other),
    }
}

#[test]
fn test_get_repository_picks_ready_namespace() {
    let listing = Ok(Some(vec![
        ScwRegistryNamespace {
            id: Some("ns-0".to_string()),
            name: Some("deleting".to_string()),
            endpoint: None,
            status: Some(ScwRegistryStatus::Deleting),
        },
        ScwRegistryNamespace {
            id: Some("ns-1".to_string()),
            name: Some("repo".to_string()),
            endpoint: Some("rg.fr-par.scw.cloud/repo".to_string()),
            status: Some(ScwRegistryStatus::Ready),
        },
    ]));
    let repo = get_repository("my-registry", "repo", listing).expect("a ready namespace exists");
    assert_eq!(repo.registry_id, "ns-1");
    assert_eq!(repo.name, "repo");
    assert_eq!(repo.uri.as_deref(), Some("rg.fr-par.scw.cloud/repo"));
    assert!(repo.ttl.is_none());
    assert!(repo.labels.is_none());
}

#[test]
fn test_get_repository_not_found_and_error() {
    let listing = Ok(Some(vec![]));
    match get_repository("my-registry", "repo", listing) {
        Err(ContainerRegistryError::CannotGetRepository { raw_error_message, .. }) => {
            assert_eq!(raw_error_message, "No repository found with name `repo`");
        }
        other => panic!("expected the lookup failure, got {:?}", other),
    }
    match get_repository("my-registry", "repo", Err("api down".to_string())) {
        Err(ContainerRegistryError::CannotGetRepository { raw_error_message, .. }) => {
            assert_eq!(raw_error_message, "api down");
        }
        other => panic!("expected the lookup failure, got {:?}", other),
    }
}

#[test]
fn test_delete_repository_decisions() {
    let repo = Repository {
        registry_id: "ns-1".to_string(),
        name: "repo".to_string(),
        uri: None,
        ttl: None,
        labels: None,
    };
    assert!(delete_repository_target("reg", "repo", Ok(repo)).is_ok());
    match delete_repository_target(
        "reg",
        "repo",
        Err(ContainerRegistryError::InvalidCredentials),
    ) {
        Err(ContainerRegistryError::RepositoryDoesntExistInRegistry {
            registry_name,
            repository_name,
        }) => {
            assert_eq!(registry_name, "reg");
            assert_eq!(repository_name, "repo");
        }
        other => panic!("expected the missing-repository failure, got {:?}", other),
    }
    assert!(conclude_delete_repository("reg", "repo", Ok(())).is_ok());
    match conclude_delete_repository("reg", "repo", Err("locked".to_string())) {
        Err(ContainerRegistryError::CannotDeleteRepository { raw_error_message, .. }) => {
            assert_eq!(raw_error_message, "locked");
        }
        other => panic!("expected the deletion failure, got {:?}", other),
    }
}

#[test]
fn test_create_registry_namespace_validation() {
    let req = create_registry_namespace_request("reg", "valid-name", "proj")
        .expect("the name is acceptable");
    assert_eq!(req.name, "valid-name");
    assert_eq!(req.project_id.as_deref(), Some("proj"));
    assert_eq!(req.is_public, Some(false));
    assert!(req.description.is_none());
    assert!(req.organization_id.is_none());

    match create_registry_namespace_request("reg", "a_d", "proj") {
        Err(ContainerRegistryError::RepositoryNameNotValid { broken_rules, .. }) => {
            assert_eq!(broken_rules.len(), 2);
        }
        other => panic!("expected the naming failure, got {:?}", other),
    }

    let ns = ScwRegistryNamespace {
        id: Some("ns-9".to_string()),
        name: Some("valid-name".to_string()),
        endpoint: Some("rg.fr-par.scw.cloud/valid-name".to_string()),
        status: Some(ScwRegistryStatus::Ready),
    };
    let repo = conclude_create_registry_namespace("reg", "valid-name", Ok(ns))
        .expect("the creation succeeded");
    assert_eq!(repo.registry_id, "ns-9");
    match conclude_create_registry_namespace("reg", "valid-name", Err("quota".to_string())) {
        Err(ContainerRegistryError::CannotCreateRepository { raw_error_message, .. }) => {
            assert_eq!(raw_error_message, "quota");
        }
        other => panic!("expected the creation failure, got {:?}", other),
    }
}

#[test]
fn test_get_or_create_registry_namespace_decisions() {
    let repo = Repository {
        registry_id: "ns-1".to_string(),
        name: "repo".to_string(),
        uri: None,
        ttl: None,
        labels: None,
    };
    let found = get_or_create_registry_namespace(Ok(repo.clone()))
        .expect("a found repository is returned");
    assert!(!found.1.created);
    assert_eq!(found.0.registry_id, "ns-1");
    assert!(get_or_create_registry_namespace(Err(ContainerRegistryError::InvalidCredentials))
        .is_none());
    let created = registry_namespace_created(repo);
    assert!(created.1.created);
}

#[test]
fn test_image_exists_retry_policy() {
    // The probe is flaky-tolerant: up to five retries, a second apart.
    let mut policy = image_exists_retry_policy();
    let mut retries: u32 = 0;
    loop {
        match policy.on_probe(false) {
            RetryDecision::RetryAfterMillis(ms) => {
                assert_eq!(ms, 1000);
                retries += 1;
            }
            RetryDecision::GiveUp => break,
            RetryDecision::Accept => panic!("a failed probe cannot be accepted"),
        }
    }
    assert_eq!(retries, 5);

    let mut policy = image_exists_retry_policy();
    assert_eq!(policy.on_probe(true), RetryDecision::Accept);
}

#[test]
fn test_registry_url_for_region() {
    let url = registry_url_for_region("fr-par").expect("a plain region forms a valid URL");
    assert_eq!(url, "https://rg.fr-par.scw.cloud");
    match registry_url_for_region("not a host") {
        Err(ContainerRegistryError::InvalidRegistryUrl { registry_url }) => {
            assert_eq!(registry_url, "https://rg.not a host.scw.cloud");
        }
        other => panic!("expected the invalid-URL failure, got {:?}", other),
    }
}

#[test]
fn test_docker_json_config() {
    let config = get_docker_json_config_raw("nologin", "token", "fr-par")
        .expect("ordinary credentials fit the encoder");
    let engine = &base64::engine::general_purpose::STANDARD;
    let auth = base64::Engine::encode(engine, "nologin:token");
    let doc = format!("{{\"auths\":{{\"rg.fr-par.scw.cloud\":{{\"auth\":\"{}\"}}}}}}", auth);
    assert_eq!(config, base64::Engine::encode(engine, &doc));
    assert_ne!(config, doc);
}

#[test]
fn test_registry_info_name_rules() {
    let info = ContainerRegistryInfo {
        endpoint: "https://rg.fr-par.scw.cloud".to_string(),
        registry_name: "my-registry".to_string(),
        registry_docker_json_config: None,
        insecure_registry: false,
    };
    assert_eq!(info.get_image_name("app"), "app/app");
    assert_eq!(info.get_repository_name("repo"), "repo");
}
