use maccms_jobs::models::PresignedUploadResponse;
use maccms_jobs::storage_service::{
    check_server_id, chunk_count, chunk_upload_plan, found_server, generate_archive_upload_url,
    generate_chunk_upload_url, generate_signature, generate_single_upload_url, pick_server,
    presigned_upload, removed_server, seconds_later, CreateStorageServerRequest, GeneratePresignedUrlRequest, StorageError,
    StorageServer, UpdateStorageServerRequest, UploadKind, ARCHIVE_UPLOAD_SECONDS, CHUNK_SIZE,
    SINGLE_UPLOAD_SECONDS,
};

fn storage(status: i32) -> StorageServer {
    let mut s = StorageServer::from_request(
        CreateStorageServerRequest {
            name: "store-1".to_string(),
            host: "https://store.example".to_string(),
            api_key: "the-key".to_string(),
            api_secret: "secret".to_string(),
            cms_id: "maccms".to_string(),
        },
        500,
    );
    s.status = status;
    s
}

fn upload_request(filename: &str, content_type: &str, file_size: i64) -> GeneratePresignedUrlRequest {
    GeneratePresignedUrlRequest {
        filename: filename.to_string(),
        content_type: content_type.to_string(),
        file_size,
        upload_type: "single".to_string(),
    }
}

fn wall_clock_seconds() -> i64 {
    std::time::SystemTime::now().duration_since(std::time::UNIX_EPOCH).unwrap().as_secs() as i64
}

#[test]
fn registered_server_is_enabled() {
    let s = storage(1);
    assert_eq!(s.id, None);
    assert_eq!(s.name, "store-1");
    assert_eq!(s.host, "https://store.example");
    assert_eq!(s.api_key, "the-key");
    assert_eq!(s.api_secret, "secret");
    assert_eq!(s.cms_id, "maccms");
    assert_eq!(s.created_at, 500);
    assert_eq!(s.updated_at, 500);
    let fresh = StorageServer::from_request(
        CreateStorageServerRequest {
            name: String::new(),
            host: String::new(),
            api_key: String::new(),
            api_secret: String::new(),
            cms_id: String::new(),
        },
        1,
    );
    assert_eq!(fresh.status, 1);
    assert!(fresh.is_enabled());
}

#[test]
fn server_update_replaces_only_what_it_carries() {
    let mut s = storage(1);
    s.apply(
        &UpdateStorageServerRequest {
            name: None,
            host: Some("https://new.example".to_string()),
            api_key: None,
            api_secret: None,
            cms_id: None,
            status: Some(0),
        },
        900,
    );
    assert_eq!(s.name, "store-1");
    assert_eq!(s.host, "https://new.example");
    assert_eq!(s.api_key, "the-key");
    assert_eq!(s.status, 0);
    assert!(!s.is_enabled());
    assert_eq!(s.created_at, 500);
    assert_eq!(s.updated_at, 900);
    s.apply(
        &UpdateStorageServerRequest {
            name: Some("n".to_string()),
            host: None,
            api_key: Some("k".to_string()),
            api_secret: Some("s".to_string()),
            cms_id: Some("c".to_string()),
            status: None,
        },
        901,
    );
    assert_eq!((s.name.as_str(), s.api_key.as_str(), s.api_secret.as_str(), s.cms_id.as_str()), ("n", "k", "s", "c"));
    assert_eq!(s.host, "https://new.example");
    assert_eq!(s.status, 0);
}

#[test]
fn upload_signature_covers_id_name_size_and_expiry() {
    assert_eq!(
        generate_signature("secret", "fid", "name.png", 100, 3_700),
        "z3IeWO1zEdpgjC63/pXwIhn/G/xM3gNEMEneRHmBWF0="
    );
    assert_ne!(
        generate_signature("secret", "fid", "name.png", 101, 3_700),
        generate_signature("secret", "fid", "name.png", 100, 3_700)
    );
}

#[test]
fn single_upload_url_is_assembled_and_encoded() {
    let r = presigned_upload(
        &storage(1),
        &upload_request("a b/ü.png", "image/png", 12),
        UploadKind::Single,
        "fid",
        3_700,
    );
    let upload: PresignedUploadResponse = r.unwrap();
    assert_eq!(upload.file_id, "fid");
    assert_eq!(upload.expiration, 7_300);
    assert_eq!(upload.max_file_size, 12);
    assert_eq!(
        upload.upload_url,
        "https://store.example/api/upload/single?file_id=fid&filename=a%20b%2F%C3%BC.png\
         &content_type=image%2Fpng&file_size=12&expiration=7300\
         &signature=vnH0AX1Ke4K7UwgSraUYAlcORNYE9ijp9MLQ15BcP2w=&api_key=the-key"
    );
}

#[test]
fn archive_upload_is_good_for_two_hours() {
    assert_eq!(SINGLE_UPLOAD_SECONDS, 3_600);
    assert_eq!(ARCHIVE_UPLOAD_SECONDS, 7_200);
    let upload = presigned_upload(
        &storage(1),
        &upload_request("pack.zip", "application/zip", 9),
        UploadKind::Archive,
        "fid",
        100,
    )
    .unwrap();
    assert_eq!(upload.expiration, 7_300);
    assert!(upload.upload_url.starts_with("https://store.example/api/upload/archive?file_id=fid&"));
    assert!(upload.upload_url.contains("&content_type=application%2Fzip&"));
}

#[test]
fn disabled_server_gives_no_address() {
    let req = upload_request("f", "t", 1);
    assert!(matches!(
        presigned_upload(&storage(0), &req, UploadKind::Single, "fid", 1),
        Err(StorageError::Disabled)
    ));
    assert!(matches!(generate_single_upload_url(&storage(2), &req), Err(StorageError::Disabled)));
    assert!(matches!(generate_archive_upload_url(&storage(0), &req), Err(StorageError::Disabled)));
    assert!(matches!(generate_chunk_upload_url(&storage(0), &req), Err(StorageError::Disabled)));
    assert!(matches!(chunk_upload_plan(&storage(-1), &req, "u", 1), Err(StorageError::Disabled)));
}

#[test]
fn drawn_upload_has_a_uuid_and_expires_after_the_clock() {
    let before = wall_clock_seconds();
    let upload = generate_single_upload_url(&storage(1), &upload_request("f.bin", "x/y", 5)).unwrap();
    let after = wall_clock_seconds();
    assert_eq!(upload.file_id.len(), 36);
    assert_eq!(upload.file_id.matches('-').count(), 4);
    assert!(upload.expiration >= before + 3_600 && upload.expiration <= after + 3_600);
    assert!(upload.upload_url.contains(&format!("file_id={}&", upload.file_id)));
    let other = generate_archive_upload_url(&storage(1), &upload_request("f.bin", "x/y", 5)).unwrap();
    assert_ne!(other.file_id, upload.file_id);
    assert!(other.expiration >= before + 7_200 && other.expiration <= after + 7_200);
}

#[test]
fn chunk_count_rounds_up() {
    assert_eq!(CHUNK_SIZE, 5 * 1024 * 1024);
    assert_eq!(chunk_count(0), 0);
    assert_eq!(chunk_count(-1), 0);
    assert_eq!(chunk_count(i64::MIN), 0);
    assert_eq!(chunk_count(1), 1);
    assert_eq!(chunk_count(5_242_879), 1);
    assert_eq!(chunk_count(5_242_880), 1);
    assert_eq!(chunk_count(5_242_881), 2);
    assert_eq!(chunk_count(10_485_760), 2);
    assert_eq!(chunk_count(10_485_761), 3);
    assert_eq!(chunk_count(i64::MAX), 1_759_218_604_442);
}

#[test]
fn chunk_plan_lists_one_address_per_chunk() {
    let plan =
        chunk_upload_plan(&storage(1), &upload_request("movie.mkv", "video/x", 10_485_761), "up", 0)
            .unwrap();
    assert_eq!(plan.upload_id, "up");
    assert_eq!(plan.chunk_size, 5_242_880);
    assert_eq!(plan.total_chunks, 3);
    assert_eq!(plan.expiration, 3_600);
    assert_eq!(plan.chunk_urls.len(), 3);
    for (i, url) in plan.chunk_urls.iter().enumerate() {
        assert_eq!(
            url,
            &format!(
                "https://store.example/api/upload/chunk?upload_id=up&chunk_index={}\
                 &chunk_size=5242880&filename=movie.mkv&expiration=3600\
                 &signature=wwa3H30z7uGQUEBSBAQcqWaPb2/6ACm977DvbLud9BE=&api_key=the-key",
                i
            )
        );
    }
    assert_eq!(
        plan.complete_url,
        "https://store.example/api/upload/complete?upload_id=up&filename=movie.mkv\
         &file_size=10485761&expiration=3600\
         &signature=ZARV2jWrPZzXNS7SAA8/gNlVr1FkotOZxQ+GHDJvNco=&api_key=the-key"
    );
}

#[test]
fn chunk_plan_for_an_empty_file_has_no_chunks() {
    let plan = chunk_upload_plan(&storage(1), &upload_request("e", "t", 0), "up", 10).unwrap();
    assert_eq!(plan.total_chunks, 0);
    assert!(plan.chunk_urls.is_empty());
    assert!(plan.complete_url.contains("file_size=0&"));
    let drawn = generate_chunk_upload_url(&storage(1), &upload_request("e", "t", 1)).unwrap();
    assert_eq!(drawn.upload_id.len(), 36);
    assert_eq!(drawn.chunk_urls.len(), 1);
    assert!(drawn.chunk_urls[0].contains(&format!("upload_id={}&chunk_index=0&", drawn.upload_id)));
}

#[test]
fn expiry_is_held_within_the_clock_range() {
    assert_eq!(seconds_later(10, 0), 10);
    assert_eq!(seconds_later(-10, 3_600), 3_590);
    assert_eq!(seconds_later(i64::MAX, 1), i64::MAX);
    assert_eq!(seconds_later(i64::MAX - 3_600, 3_600), i64::MAX);
    assert_eq!(seconds_later(i64::MIN, -1), i64::MIN);
    assert_eq!(seconds_later(0, -5), -5);
}

#[test]
fn server_id_must_be_24_hex_digits() {
    assert!(check_server_id("0123456789abcdef01234567").is_ok());
    assert!(check_server_id("0123456789ABCDEF01234567").is_ok());
    assert!(check_server_id("ffffffffffffffffffffffff").is_ok());
    for bad in [
        "",
        "server-1",
        "0123456789abcdef0123456",
        "0123456789abcdef012345678",
        "0123456789abcdef0123456g",
        "0123456789abcdef0123456 ",
        "ü123456789abcdef0123456",
    ] {
        assert!(matches!(check_server_id(bad), Err(StorageError::InvalidId)));
    }
}

#[test]
fn server_lookup_results_are_read() {
    assert_eq!(found_server(Ok(Some(storage(1)))).unwrap().name, "store-1");
    assert!(matches!(found_server(Ok(None)), Err(StorageError::NotFound)));
    match found_server(Err("down".to_string())) {
        Err(StorageError::Store(e)) => assert_eq!(e, "down"),
        _ => panic!("expected a store error"),
    }
}

#[test]
fn storage_error_messages() {
    assert_eq!(StorageError::InvalidId.message(), "Invalid ID format");
    assert_eq!(StorageError::NotFound.message(), "Storage server not found");
    assert_eq!(StorageError::Disabled.message(), "Storage server is disabled");
    assert_eq!(StorageError::Store("s".to_string()).message(), "s");
}

#[test]
fn a_server_is_picked_among_those_there_are() {
    assert_eq!(pick_server(&vec![]), None);
    let one = vec![storage(1)];
    for _ in 0..20 {
        assert_eq!(pick_server(&one), Some(0));
    }
    let three = vec![storage(1), storage(0), storage(1)];
    let mut seen = [false; 3];
    for _ in 0..400 {
        let i = pick_server(&three).unwrap();
        assert!(i < 3);
        seen[i] = true;
    }
    assert_eq!(seen, [true, true, true]);
}

#[test]
fn removal_that_reached_nothing_is_not_found() {
    assert!(removed_server(Ok(1)).is_ok());
    assert!(removed_server(Ok(7)).is_ok());
    assert!(matches!(removed_server(Ok(0)), Err(StorageError::NotFound)));
    match removed_server(Err("down".to_string())) {
        Err(StorageError::Store(e)) => assert_eq!(e, "down"),
        _ => panic!("expected a store error"),
    }
}
