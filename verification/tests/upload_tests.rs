use vtracer_service::job::{prepare_job, prepare_job_with, validate};
use vtracer_service::options::ConvertOptions;
use vtracer_service::response::{Body, Response};
use vtracer_service::upload::{
    classify_field, derive_extension, normalize_extension, Field, FieldKind, Upload,
    MAX_IMAGE_BYTES,
};

fn text_of(response: &Response) -> &str {
    match &response.body {
        Body::Text(t) => t,
        Body::Converted(_) => panic!("not a text"),
    }
}

fn receive(fields: Vec<Field>) -> Result<Upload, Response> {
    let mut upload = Upload::new();
    for field in fields {
        upload = upload.accept(field)?;
    }
    Ok(upload)
}

fn binary_document() -> ConvertOptions {
    let mut d = ConvertOptions::default();
    d.color_mode = "binary".to_string();
    d.filter_speckle = Some(9);
    d
}

fn image(bytes: &[u8], filename: Option<&str>) -> Field {
    Field::Image { payload: bytes.to_vec(), filename: filename.map(|f| f.to_string()) }
}

#[test]
fn field_names() {
    assert_eq!(classify_field(Some("options")), FieldKind::Options);
    assert_eq!(classify_field(Some("image")), FieldKind::Image);
    assert_eq!(classify_field(Some("Image")), FieldKind::Other);
    assert_eq!(classify_field(Some("images")), FieldKind::Other);
    assert_eq!(classify_field(Some("")), FieldKind::Other);
    assert_eq!(classify_field(Some("file")), FieldKind::Other);
    assert_eq!(classify_field(None), FieldKind::Other);
}

#[test]
fn extension_is_lowercased() {
    assert_eq!(derive_extension("photo.PNG"), Some("png".to_string()));
    assert_eq!(derive_extension("photo.JpEg"), Some("jpeg".to_string()));
    assert_eq!(derive_extension("archive.tar.GZ"), Some("gz".to_string()));
    assert_eq!(normalize_extension(Some("BMP".to_string())), Some("bmp".to_string()));
    assert_eq!(normalize_extension(None), None);
}

#[test]
fn extension_of_unusual_names() {
    assert_eq!(derive_extension("photo"), None);
    assert_eq!(derive_extension(""), None);
    assert_eq!(derive_extension(".hidden"), None);
    assert_eq!(derive_extension("photo."), Some("".to_string()));
    assert_eq!(derive_extension("dir.d/photo"), None);
    assert_eq!(derive_extension("dir/photo.webp"), Some("webp".to_string()));
    assert_eq!(derive_extension(".."), None);
}

#[test]
fn new_upload_is_empty_with_defaults() {
    let u = Upload::new();
    assert!(u.image.is_none());
    assert!(u.extension.is_none());
    assert_eq!(u.options.color_mode(), "color");
    assert_eq!(u.options.splice_threshold(), "2.5");
}

#[test]
fn usable_options_replace_the_defaults() {
    let u = receive(vec![Field::Options { document: Some(binary_document()) }]).unwrap();
    assert_eq!(u.options.color_mode(), "binary");
    assert_eq!(u.options.filter_speckle(), 9);
    assert_eq!(u.options.corner_threshold(), 60);
}

#[test]
fn malformed_options_are_as_if_absent() {
    let with = receive(vec![Field::Options { document: None }, image(b"abc", Some("a.png"))])
        .unwrap();
    let without = receive(vec![image(b"abc", Some("a.png"))]).unwrap();
    assert_eq!(with.image, without.image);
    assert_eq!(with.extension, without.extension);
    assert_eq!(with.options.color_mode(), "color");
    assert_eq!(with.options.hierarchical(), "stacked");
    assert_eq!(with.options.filter_speckle(), 2);
    assert_eq!(with.options.corner_threshold(), 60);
    assert_eq!(with.options.color_precision(), 8);
    assert_eq!(with.options.gradient_step(), 0);
    assert_eq!(with.options.mode(), "spline");
    assert_eq!(with.options.path_precision(), 1);
    assert_eq!(with.options.preset(), None);
    assert_eq!(with.options.segment_length(), 8);
    assert_eq!(with.options.splice_threshold(), "2.5");
}

#[test]
fn malformed_options_keep_earlier_ones() {
    let u = receive(vec![
        Field::Options { document: Some(binary_document()) },
        Field::Options { document: None },
    ])
    .unwrap();
    assert_eq!(u.options.color_mode(), "binary");
}

#[test]
fn unacceptable_threshold_makes_the_document_unusable() {
    let mut d = binary_document();
    d.splice_threshold = Some("-4".to_string());
    let u = receive(vec![Field::Options { document: Some(d) }]).unwrap();
    assert_eq!(u.options.color_mode(), "color");
    assert_eq!(u.options.filter_speckle(), 2);
}

#[test]
fn later_options_win() {
    let mut second = ConvertOptions::default();
    second.mode = "polygon".to_string();
    let u = receive(vec![
        Field::Options { document: Some(binary_document()) },
        Field::Options { document: Some(second) },
    ])
    .unwrap();
    assert_eq!(u.options.color_mode(), "color");
    assert_eq!(u.options.mode(), "polygon");
    assert_eq!(u.options.filter_speckle(), 2);
}

#[test]
fn image_field_sets_bytes_and_extension() {
    let u = receive(vec![image(&[1, 2, 3], Some("cat.JPG"))]).unwrap();
    assert_eq!(u.image, Some(vec![1, 2, 3]));
    assert_eq!(u.extension, Some("jpg".to_string()));
}

#[test]
fn last_image_wins_and_a_nameless_one_keeps_the_extension() {
    let u = receive(vec![image(&[1], Some("a.gif")), image(&[2, 2], None)]).unwrap();
    assert_eq!(u.image, Some(vec![2, 2]));
    assert_eq!(u.extension, Some("gif".to_string()));
    let u = receive(vec![image(&[1], Some("a.gif")), image(&[3], Some("noext"))]).unwrap();
    assert_eq!(u.image, Some(vec![3]));
    assert_eq!(u.extension, None);
}

#[test]
fn other_fields_are_ignored() {
    let u = receive(vec![Field::Other, image(&[7], None), Field::Other]).unwrap();
    assert_eq!(u.image, Some(vec![7]));
    assert_eq!(u.extension, None);
}

#[test]
fn unreadable_image_ends_the_request() {
    let r = receive(vec![image(&[7], None), Field::UnreadableImage, Field::Other]).unwrap_err();
    assert_eq!(r.status, 400);
    assert_eq!(text_of(&r), "invalid image upload");
}

#[test]
fn accept_image_with_explicit_extension() {
    let u = Upload::new().accept_image(vec![1], Some(Some("png".to_string())));
    assert_eq!(u.extension, Some("png".to_string()));
    let u = u.accept_image(vec![2], None);
    assert_eq!(u.extension, Some("png".to_string()));
    assert_eq!(u.image, Some(vec![2]));
    let u = u.accept_image(vec![3], Some(None));
    assert_eq!(u.extension, None);
}

#[test]
fn missing_image_is_a_client_error() {
    let u = receive(vec![Field::Options { document: Some(binary_document()) }, Field::Other])
        .unwrap();
    let answer = validate(&u).unwrap();
    assert_eq!(answer.status, 400);
    assert_eq!(text_of(&answer), "'image' field (multipart) gereklidir");
    let r = prepare_job(u).unwrap_err();
    assert_eq!(r.status, 400);
    assert_eq!(text_of(&r), "'image' field (multipart) gereklidir");
}

#[test]
fn oversized_image_is_a_client_error() {
    let u = receive(vec![image(&vec![0u8; MAX_IMAGE_BYTES + 1], Some("big.png"))]).unwrap();
    let r = prepare_job(u).unwrap_err();
    assert_eq!(r.status, 400);
    assert_eq!(text_of(&r), "Dosya çok büyük. Maksimum 10MB desteklenir.");
}

#[test]
fn ceiling_is_ten_mebibytes_and_inclusive() {
    assert_eq!(MAX_IMAGE_BYTES, 10 * 1024 * 1024);
    let u = receive(vec![image(&vec![0u8; MAX_IMAGE_BYTES], Some("big.png"))]).unwrap();
    assert!(validate(&u).is_none());
    let job = prepare_job(u).unwrap();
    assert_eq!(job.image.len(), MAX_IMAGE_BYTES);
}

#[test]
fn empty_image_is_taken_in() {
    let u = receive(vec![image(&[], Some("empty.png"))]).unwrap();
    let job = prepare_job(u).unwrap();
    assert!(job.image.is_empty());
}

#[test]
fn job_carries_image_extension_and_options() {
    let u = receive(vec![
        Field::Options { document: Some(binary_document()) },
        image(&[9, 8, 7], Some("x.TIFF")),
    ])
    .unwrap();
    let job = prepare_job_with(u, "67e55044-10b1-426f-9247-bb680e5fe0c8".to_string()).unwrap();
    assert_eq!(job.identifier, "67e55044-10b1-426f-9247-bb680e5fe0c8");
    assert_eq!(job.extension, "tiff");
    assert_eq!(job.image, vec![9, 8, 7]);
    assert_eq!(job.options.color_mode(), "binary");
    let paths = job.paths();
    assert_eq!(paths.input, "/tmp/input_67e55044-10b1-426f-9247-bb680e5fe0c8.tiff");
    assert_eq!(paths.output, "/tmp/output_67e55044-10b1-426f-9247-bb680e5fe0c8.svg");
}

#[test]
fn extension_falls_back_to_png() {
    let u = receive(vec![image(&[1], None)]).unwrap();
    let job = prepare_job_with(u, "id".to_string()).unwrap();
    assert_eq!(job.extension, "png");
    let u = receive(vec![image(&[1], Some("README"))]).unwrap();
    let job = prepare_job_with(u, "id".to_string()).unwrap();
    assert_eq!(job.extension, "png");
}

#[test]
fn prepared_jobs_have_fresh_identifiers() {
    let a = prepare_job(receive(vec![image(&[1], None)]).unwrap()).unwrap();
    let b = prepare_job(receive(vec![image(&[1], None)]).unwrap()).unwrap();
    assert_eq!(a.identifier.len(), 36);
    assert_eq!(b.identifier.len(), 36);
    assert_ne!(a.identifier, b.identifier);
    assert_ne!(a.paths().input, b.paths().input);
    assert_ne!(a.paths().output, b.paths().output);
}
