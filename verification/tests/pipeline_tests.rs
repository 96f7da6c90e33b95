use image::codecs::gif::GifEncoder;
use image::{Frame, ImageFormat, Rgba, RgbaImage};
use memelibre::config::PipelineConfig;
use memelibre::coordinator::{
    conclude_commit, conclude_put_failure, conclude_rejection, make_record, publish_prepare,
    PublishOutcome,
};
use memelibre::errors::{CommitError, PublishError, StoreError};
use memelibre::keygen::TimeParts;

fn test_config(max: usize) -> PipelineConfig {
    PipelineConfig::new(
        String::from("cdn.example.org"),
        String::from("memes"),
        max,
        80,
        20,
    )
}

fn test_parts() -> TimeParts {
    TimeParts { year: 2024, month: 6, day: 7, hour: 8, minute: 9, second: 10, milli: 11 }
}

fn png_10x10_opaque() -> Vec<u8> {
    let img = RgbaImage::from_pixel(10, 10, Rgba([40, 80, 120, 255]));
    let mut cursor = std::io::Cursor::new(Vec::new());
    img.write_to(&mut cursor, ImageFormat::Png).unwrap();
    cursor.into_inner()
}

fn gif_three_frames() -> Vec<u8> {
    let mut out = Vec::new();
    {
        let mut encoder = GifEncoder::new(&mut out);
        for i in 0..3u8 {
            let img = RgbaImage::from_pixel(4, 4, Rgba([i * 70, 0, 0, 255]));
            encoder.encode_frame(Frame::new(img)).unwrap();
        }
    }
    out
}

#[test]
fn png_upload_commits_a_webp_record() {
    let cfg = test_config(1 << 20);
    let upload = publish_prepare(&cfg, Some(png_10x10_opaque()), &test_parts()).unwrap();
    assert_eq!(upload.key, "2024-06-07_08:09:10.011.webp");
    assert_eq!(upload.content_type, "image/webp");
    assert_eq!(upload.image_url, "https://memes.cdn.example.org/2024-06-07_08:09:10.011.webp");
    assert!(upload.image_url.ends_with(".webp"));

    let record = make_record(&upload, Some(String::from("user-1")));
    assert_eq!(record.like_count, 0);
    assert_eq!(record.image_url, upload.image_url);
    assert_eq!(record.created_by.as_deref(), Some("user-1"));

    let outcome = conclude_commit(upload, record, Ok(()));
    let (status, message) = outcome.response();
    assert_eq!(status, 201);
    assert_eq!(message, "Upload successful");
    match outcome {
        PublishOutcome::Committed { record } => {
            assert!(record.image_url.ends_with(".webp"));
        }
        _ => panic!("expected a committed outcome"),
    }
}

#[test]
fn gif_upload_stores_the_bytes_unchanged() {
    let cfg = test_config(1 << 20);
    let gif = gif_three_frames();
    let upload = publish_prepare(&cfg, Some(gif.clone()), &test_parts()).unwrap();
    assert_eq!(upload.bytes, gif);
    assert_eq!(upload.content_type, "image/gif");
    assert!(upload.key.ends_with(".gif"));

    let record = make_record(&upload, None);
    let outcome = conclude_commit(upload, record, Ok(()));
    assert_eq!(outcome.response().0, 201);
}

#[test]
fn payload_one_byte_over_the_maximum_is_rejected_with_413() {
    let png = png_10x10_opaque();
    let cfg = test_config(png.len() - 1);
    let err = publish_prepare(&cfg, Some(png), &test_parts()).unwrap_err();
    assert_eq!(err, PublishError::PayloadTooLarge);
    let outcome = conclude_rejection(err);
    let (status, message) = outcome.response();
    assert_eq!(status, 413);
    assert_eq!(message, "Request payload too large");
}

#[test]
fn payload_exactly_at_the_maximum_is_accepted() {
    let png = png_10x10_opaque();
    let cfg = test_config(png.len());
    assert!(publish_prepare(&cfg, Some(png), &test_parts()).is_ok());
}

#[test]
fn renamed_text_file_is_rejected_by_content_not_name() {
    // A text payload is invalid whatever extension its file name claims:
    // the pipeline never sees the name, only the bytes.
    let text = b"plain text pretending to be cat.png".to_vec();
    let cfg = test_config(1 << 20);
    let err = publish_prepare(&cfg, Some(text), &test_parts()).unwrap_err();
    assert_eq!(err, PublishError::InvalidMediaFormat);
    let (status, message) = conclude_rejection(err).response();
    assert_eq!(status, 400);
    assert_eq!(message, "Invalid image format");
}

#[test]
fn missing_file_field_is_rejected_with_400() {
    let cfg = test_config(1 << 20);
    let err = publish_prepare(&cfg, None, &test_parts()).unwrap_err();
    assert_eq!(err, PublishError::MissingFile);
    let (status, message) = conclude_rejection(err).response();
    assert_eq!(status, 400);
    assert_eq!(message, "File is empty");
}

#[test]
fn failed_put_creates_no_record() {
    let cfg = test_config(1 << 20);
    let upload = publish_prepare(&cfg, Some(png_10x10_opaque()), &test_parts()).unwrap();
    let outcome =
        conclude_put_failure(upload, StoreError { detail: String::from("connection refused") });
    let (status, message) = outcome.response();
    assert_eq!(status, 500);
    assert_eq!(message, "Internal server error");
    match outcome {
        PublishOutcome::StorageFailed { error } => {
            assert_eq!(error, PublishError::StorageUnavailable);
        }
        _ => panic!("expected a storage failure with no record"),
    }
}

#[test]
fn failed_insert_reports_the_orphaned_key_once() {
    let cfg = test_config(1 << 20);
    let upload = publish_prepare(&cfg, Some(png_10x10_opaque()), &test_parts()).unwrap();
    let expected_key = upload.key.clone();
    let record = make_record(&upload, None);
    let outcome = conclude_commit(
        upload,
        record,
        Err(CommitError { detail: String::from("deadlock detected") }),
    );
    let (status, message) = outcome.response();
    assert_eq!(status, 500);
    assert_eq!(message, "Internal server error");
    match outcome {
        PublishOutcome::Orphaned { key, error } => {
            assert_eq!(key, expected_key);
            assert_eq!(error, PublishError::MetadataCommitFailed);
        }
        _ => panic!("expected an orphaned outcome"),
    }
}
