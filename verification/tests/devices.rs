use enchiridion::database::{PaginationResult, StoreError};
use enchiridion::features::device::{
    auth_cache_of, authenticate_device, create_device_error, create_device_result,
    credential_lookup_error, dashed_words, delete_device_error, device_auth_key,
    device_credentials, device_detail_error, device_detail_response, device_page,
    list_device_params, list_device_response, prepare_device, random_key, resync_lookup_error,
    update_device_error, AuthenticateDeviceError, CreateDeviceError, CreateDeviceParams,
    DeleteDeviceError, Device, DeviceAuthCache, DeviceDetail, DeviceErrorCode,
    GetDeviceDetailByIdError, LinkDeviceError, ListDeviceError, ListDeviceQueryParams,
    ListDeviceRow, ResyncDeviceError, UpdateDeviceError, create_device_body_errors, CreateDeviceBody,
};
use enchiridion::time::Timestamp;

fn row(count: i32, id: i32, name: &str) -> ListDeviceRow {
    ListDeviceRow {
        count,
        device_id: id,
        device_name: name.to_string(),
        device_location: "Tower, 1st".to_string(),
        device_description: "lobby".to_string(),
        device_active_announcements: 2,
    }
}

#[test]
fn device_error_codes() {
    assert_eq!(DeviceErrorCode::FloorNotFound.to_string(), "BUILDING_NOT_FOUND");
    assert_eq!(DeviceErrorCode::DeviceCascadeConstraint.to_string(), "DEVICE_CASCADE_CONSTRAINT");
    assert_eq!(DeviceErrorCode::AuthenticationFailed.to_string(), "AUTHENTICATION_FAILED");
    assert_eq!(ListDeviceError::InternalServerError.to_string(), "Internal Server Error");
    assert_eq!(ResyncDeviceError::DeviceNotFound("x").to_string(), "x");
    assert_eq!(LinkDeviceError::InternalServerError.to_string(), "Internal Server Error");
}

#[test]
fn device_page_takes_the_count_of_the_first_row() {
    let rows = vec![row(3, 9, "a"), row(3, 8, "b")];
    let page = device_page(&rows, 1, 2);
    assert_eq!(page.count, 3);
    assert_eq!(page.total_pages, 2);
    assert!(page.has_next);
    assert_eq!(page.contents.len(), 2);
    assert_eq!(page.contents[1].id, 8);
    assert_eq!(page.contents[1].name, "b");
    assert_eq!(page.contents[1].location, "Tower, 1st");
    assert_eq!(page.contents[1].active_announcements, 2);
    let empty = device_page(&vec![], 1, 25);
    assert_eq!(empty.count, 0);
    assert_eq!(empty.total_pages, 0);
    assert!(!empty.has_next);
}

#[test]
fn device_list_query_defaults() {
    let p = list_device_params(ListDeviceQueryParams {
        page: None,
        limit: None,
        query: Some("lob".to_string()),
        building_id: Some(1),
        floor_id: None,
    });
    assert_eq!((p.page, p.limit), (1, 25));
    assert_eq!(p.query, Some("lob".to_string()));
    assert_eq!(p.building_id, Some(1));
    let p = list_device_params(ListDeviceQueryParams {
        page: Some(4),
        limit: Some(10),
        query: None,
        building_id: None,
        floor_id: Some(2),
    });
    assert_eq!((p.page, p.limit, p.floor_id), (4, 10, Some(2)));
}

#[test]
fn device_list_response_mirrors_the_page() {
    let page = PaginationResult {
        total_pages: 1,
        count: 1,
        has_next: false,
        contents: vec![Device {
            id: 5,
            name: "n".to_string(),
            location: "l".to_string(),
            description: "d".to_string(),
            active_announcements: 0,
        }],
    };
    let r = list_device_response(&page);
    assert_eq!((r.count, r.total_pages, r.has_next), (1, 1, false));
    assert_eq!(r.contents[0].id, 5);
    assert_eq!(r.contents[0].description, "d");
}

#[test]
fn device_auth_key_prefix() {
    assert_eq!(device_auth_key("red-fox"), "device/pub-key-red-fox");
}

#[test]
fn failed_device_queries_map_to_device_errors() {
    let unique = StoreError::Database(Some("23505".to_string()));
    let fk = StoreError::Database(Some("23503".to_string()));
    match create_device_error(&unique, "Lobby") {
        CreateDeviceError::DeviceAlreadyExists(m) => {
            assert_eq!(m, "Device with the name of Lobby already exists")
        }
        _ => panic!("expected a duplicate"),
    }
    match create_device_error(&fk, "Lobby") {
        CreateDeviceError::FloorNotFound(m) => assert_eq!(m, "Floor not found"),
        _ => panic!("expected a missing floor"),
    }
    assert!(matches!(create_device_error(&StoreError::RowNotFound, "x"), CreateDeviceError::InternalServerError));
    match update_device_error(&StoreError::RowNotFound, "x") {
        UpdateDeviceError::DeviceNotFound(m) => assert_eq!(m, "Device not found"),
        _ => panic!("expected a missing device"),
    }
    match update_device_error(&unique, "Hall") {
        UpdateDeviceError::DeviceAlreadyExists(m) => assert_eq!(m, "Device with the name of Hall already exists"),
        _ => panic!("expected a duplicate"),
    }
    assert!(matches!(update_device_error(&StoreError::Other, "x"), UpdateDeviceError::InternalServerError));
    match delete_device_error(&fk) {
        DeleteDeviceError::DeviceCascadeConstraint(m) => {
            assert_eq!(m, "Unable to delete device because it still have existing announcements")
        }
        _ => panic!("expected a cascade"),
    }
    assert!(matches!(delete_device_error(&unique), DeleteDeviceError::InternalServerError));
    match device_detail_error(&StoreError::RowNotFound) {
        GetDeviceDetailByIdError::DeviceNotFound(m) => assert_eq!(m, "Device not found"),
        _ => panic!("expected a missing device"),
    }
    assert!(matches!(
        resync_lookup_error(&StoreError::RowNotFound),
        ResyncDeviceError::DeviceNotFound("Unable to find the device in the system")
    ));
    assert!(matches!(
        credential_lookup_error(&StoreError::RowNotFound),
        AuthenticateDeviceError::DeviceNotFound("Unable to find the corresponding device in the system")
    ));
    assert!(matches!(credential_lookup_error(&fk), AuthenticateDeviceError::InternalServerError));
}

#[test]
fn dashed_words_lowercases_and_joins_letter_runs() {
    assert_eq!(dashed_words("Lorem ipsum, dolor sit."), "lorem-ipsum-dolor-sit");
    assert_eq!(dashed_words("  "), "");
    let key = random_key();
    assert!(!key.is_empty());
    assert!(key.chars().all(|c| c.is_ascii_lowercase() || c == '-'));
}

#[test]
fn created_device_authenticates_with_its_secret() {
    let prepared = prepare_device(CreateDeviceParams {
        name: "Lobby".to_string(),
        description: "Main screen".to_string(),
        floor_id: 4,
    })
    .unwrap();
    assert_eq!(prepared.insert.name, "Lobby");
    assert_eq!(prepared.insert.floor_id, 4);
    assert_eq!(prepared.insert.secret_access_key_salt.len(), 32);
    assert!(prepared.insert.secret_access_key_salt.chars().all(|c| c.is_ascii_alphanumeric()));
    assert_ne!(prepared.insert.secret_access_key, prepared.secret_access_key);

    let cache = auth_cache_of(
        21,
        &prepared.insert.secret_access_key.clone().into_bytes(),
        prepared.insert.secret_access_key_salt.clone(),
    )
    .unwrap();
    assert_eq!(authenticate_device(&prepared.secret_access_key, &cache).unwrap(), 21);
    assert!(matches!(
        authenticate_device("wrong-secret", &cache),
        Err(AuthenticateDeviceError::AuthenticationFailed("Authentication failed"))
    ));

    let secret = prepared.secret_access_key.clone();
    let access = prepared.insert.access_key_id.clone();
    let created = create_device_result(prepared, Ok(21)).unwrap();
    assert_eq!(created.id, 21);
    assert_eq!(created.secret_access_key, secret);
    assert_eq!(created.access_key_id, access);
}

#[test]
fn failed_insert_of_a_prepared_device() {
    let prepared = prepare_device(CreateDeviceParams {
        name: "Hall".to_string(),
        description: "d".to_string(),
        floor_id: 1,
    })
    .unwrap();
    match create_device_result(prepared, Err(StoreError::Database(Some("23505".to_string())))) {
        Err(CreateDeviceError::DeviceAlreadyExists(m)) => {
            assert_eq!(m, "Device with the name of Hall already exists")
        }
        _ => panic!("expected a duplicate"),
    }
}

#[test]
fn authentication_with_an_unusable_salt_is_internal() {
    let cache = DeviceAuthCache {
        device_id: 1,
        secret_access_key: "x".to_string(),
        secret_access_key_salt: "ab".to_string(),
    };
    assert!(matches!(authenticate_device("s", &cache), Err(AuthenticateDeviceError::InternalServerError)));
    assert!(matches!(
        auth_cache_of(1, &vec![0xc3, 0x28], "salt".to_string()),
        Err(AuthenticateDeviceError::InternalServerError)
    ));
}

#[test]
fn device_credentials_need_both_headers() {
    let (a, s) = device_credentials(Some("a".to_string()), Some("s".to_string())).unwrap();
    assert_eq!((a.as_str(), s.as_str()), ("a", "s"));
    assert!(matches!(
        device_credentials(None, Some("s".to_string())),
        Err(AuthenticateDeviceError::AuthenticationFailed("Authentication failed"))
    ));
    assert!(device_credentials(Some("a".to_string()), None).is_err());
}

#[test]
fn device_detail_response_writes_rfc3339_instants() {
    let d = DeviceDetail {
        id: 1,
        name: "n".to_string(),
        location: "l".to_string(),
        floor_id: 2,
        building_id: 3,
        description: "d".to_string(),
        active_announcements: 4,
        access_key_id: "k".to_string(),
        secret_access_key: vec![],
        secret_access_key_salt: String::new(),
        created_at: Timestamp { secs: 1682935200, nanos: 0 },
        updated_at: Timestamp { secs: 0, nanos: 0 },
    };
    let r = device_detail_response(&d);
    assert_eq!(r.created_at, "2023-05-01T10:00:00+00:00");
    assert_eq!(r.updated_at, "1970-01-01T00:00:00+00:00");
    assert_eq!((r.id, r.floor_id, r.building_id, r.active_announcements), (1, 2, 3, 4));
    assert_eq!(r.access_key_id, "k");
}

#[test]
fn device_creation_bodies_are_checked() {
    let ok = CreateDeviceBody { name: "Lobby".to_string(), description: "d".to_string(), floor_id: 1, is_linked: false };
    assert!(create_device_body_errors(&ok).is_empty());
    let bad = CreateDeviceBody { name: String::new(), description: String::new(), floor_id: 0, is_linked: true };
    assert_eq!(
        create_device_body_errors(&bad),
        vec![
            "name: name must not be empty",
            "description: description must not be empty",
            "floorId: id must be greater than 1"
        ]
    );
}

#[test]
fn failed_insert_maps_each_kind() {
    let prepared = prepare_device(CreateDeviceParams {
        name: "Hall".to_string(),
        description: "d".to_string(),
        floor_id: 1,
    })
    .unwrap();
    match create_device_result(prepared, Err(StoreError::Database(Some("23503".to_string())))) {
        Err(CreateDeviceError::FloorNotFound(m)) => assert_eq!(m, "Floor not found"),
        _ => panic!("expected a missing floor"),
    }
    let prepared = prepare_device(CreateDeviceParams {
        name: "Hall".to_string(),
        description: "d".to_string(),
        floor_id: 1,
    })
    .unwrap();
    assert!(matches!(
        create_device_result(prepared, Err(StoreError::Other)),
        Err(CreateDeviceError::InternalServerError)
    ));
}

#[test]
fn prepared_keys_are_lowercase_words() {
    for _ in 0..5 {
        let prepared = prepare_device(CreateDeviceParams {
            name: "Desk".to_string(),
            description: String::new(),
            floor_id: 2,
        })
        .unwrap();
        for key in [&prepared.insert.access_key_id, &prepared.secret_access_key] {
            assert!(!key.is_empty());
            assert!(key.len() <= 146);
            assert!(key.chars().all(|c| c.is_ascii_lowercase() || c == '-'));
        }
        assert!(prepared.insert.secret_access_key.starts_with("$argon2id$"));
    }
}
