use boluo::media::download_headers;
use boluo::models::Media;
use boluo::media::{
    add_chunk, check_filename, content_disposition, file_extension, filename_sanitizer,
    get_mime_type, media_key, percent_encode_filename, stored_filename, MediaKey, Receiving,
    MAX_SIZE,
};
use boluo::crypto::to_hex;
use boluo::error::{AppError, ValidationFailed};
use boluo::id::Uuid;

#[test]
fn disposition_header_is_percent_encoded() {
    assert_eq!(content_disposition(false, "a b.png"), "inline; filename*=utf-8''a%20b.png");
    assert_eq!(
        content_disposition(true, "\"x\".txt"),
        "attachment; filename*=utf-8''%22x%22.txt"
    );
    assert_eq!(percent_encode_filename("深"), "%E6%B7%B1");
}

#[test]
fn sanitizer_replaces_path_characters() {
    assert_eq!(filename_sanitizer("a/b?c*d:e|f<g>h\\i".to_string()), "a_b_c_d_e_f_g_h_i");
    assert_eq!(filename_sanitizer("plain.txt".to_string()), "plain.txt");
}

#[test]
fn mime_type_falls_back_to_text_plain() {
    assert_eq!(get_mime_type(Some("image/png".to_string()), None), "image/png");
    assert_eq!(get_mime_type(None, Some("application/json".to_string())), "application/json");
    assert_eq!(get_mime_type(Some("not a mime".to_string()), None), "text/plain");
    assert_eq!(get_mime_type(None, None), "text/plain");
}

#[test]
fn filename_length_is_limited() {
    assert_eq!(check_filename(&"a".repeat(200)), Ok(()));
    assert_eq!(
        check_filename(&"a".repeat(201)),
        Err(ValidationFailed("The filename is too long"))
    );
}

#[test]
fn chunk_sizes_add_up_to_the_limit() {
    assert_eq!(add_chunk(10, 20).ok(), Some(30));
    assert_eq!(add_chunk(0, MAX_SIZE).ok(), Some(MAX_SIZE));
    match add_chunk(MAX_SIZE, 1) {
        Err(AppError::BadRequest(m)) => assert_eq!(m, "The maximum file size has been exceeded."),
        other => panic!("unexpected {:?}", other),
    }
}

#[test]
fn stored_name_is_hash_and_extension() {
    assert_eq!(stored_filename("abc", "png"), "abc.png");
    assert_eq!(file_extension("photo.final.jpg"), "jpg");
    assert_eq!(file_extension("README"), "");
    assert_eq!(file_extension("trailing."), "");
}

#[test]
fn upload_hash_is_blake3_of_all_chunks() {
    let mut receiving = Receiving::new();
    assert!(receiving.receive(b"hello, ").is_ok());
    assert!(receiving.receive(b"world").is_ok());
    assert_eq!(receiving.size(), 12);
    let expected = blake3::hash(b"hello, world").to_hex().to_string();
    assert_eq!(receiving.content_hash(), expected);
    assert_eq!(receiving.content_hash().len(), 64);
}

#[test]
fn oversized_upload_is_refused_and_keeps_what_came() {
    let mut receiving = Receiving::new();
    let big = vec![0u8; MAX_SIZE];
    assert!(receiving.receive(&big).is_ok());
    assert!(matches!(receiving.receive(b"x"), Err(AppError::BadRequest(_))));
    assert_eq!(receiving.size(), MAX_SIZE);
}

#[test]
fn hex_text_is_lower_case() {
    assert_eq!(to_hex(&[0x00, 0xab, 0x10, 0xff]), "00ab10ff");
    assert_eq!(to_hex(&[]), "");
}

#[test]
fn media_lookup_prefers_id() {
    let id = Uuid::from_bytes([4u8; 16]);
    assert!(matches!(media_key(Some(id), Some("f".to_string())), Ok(MediaKey::Id(i)) if i == id));
    assert!(matches!(media_key(None, Some("f".to_string())), Ok(MediaKey::Filename(f)) if f == "f"));
    match media_key(None, None) {
        Err(AppError::BadRequest(m)) => assert_eq!(m, "Filename or media id must be specified."),
        other => panic!("unexpected {:?}", other),
    }
}

#[test]
fn download_answer_headers() {
    let media = Media {
        id: Uuid::from_bytes([1u8; 16]),
        mime_type: "image/jpeg".to_string(),
        uploader_id: Uuid::from_bytes([2u8; 16]),
        filename: "abc.jpg".to_string(),
        original_filename: "avatar.jpg".to_string(),
        hash: "abc".to_string(),
        size: 1234,
        description: String::new(),
        created: 0,
    };
    let h = download_headers(&media, true, false);
    assert_eq!(h.content_type, "image/jpeg");
    assert_eq!(h.content_disposition, "attachment; filename*=utf-8''avatar.jpg");
    assert_eq!(h.accept_ranges, "none");
    assert_eq!(h.content_length, 1234);
    assert!(h.send_body);
    assert!(!download_headers(&media, false, true).send_body);
}
