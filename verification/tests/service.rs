use upload_api::health_message;
use upload_api::key::{storage_key, timestamp_string};
use upload_api::store::Store;
use upload_api::timestamp::{current_timestamp, ClockReading, Timestamp};
use upload_api::upload::{
    plan_upload, rejection_response, upload_dir, write_failure_response, HttpResponse, RawPart,
    UploadPlan,
};

fn ts(year: u16, month: u8, day: u8, hour: u8, minute: u8, second: u8) -> Timestamp {
    Timestamp { year, month, day, hour, minute, second }
}

fn part(field_name: Option<&str>, file_name: Option<&str>, data: &[u8]) -> RawPart {
    RawPart {
        field_name: field_name.map(|s| s.to_string()),
        file_name: file_name.map(|s| s.to_string()),
        data: data.to_vec(),
    }
}

#[test]
fn key_for_avatar_cat_png() {
    let k = storage_key(&ts(2022, 12, 14, 1, 1, 1), "avatar", "cat.png");
    assert_eq!(k, "14122022010101_avatar_cat.png");
}

#[test]
fn timestamp_fields_are_zero_padded() {
    assert_eq!(timestamp_string(&ts(2022, 1, 2, 3, 4, 5)), "02012022030405");
    assert_eq!(timestamp_string(&ts(33, 11, 30, 23, 59, 58)), "30110033235958");
}

#[test]
fn key_keeps_category_and_file_name_verbatim() {
    let k = storage_key(&ts(2023, 6, 7, 8, 9, 10), "weird cat/egory", "a_b c.tar.gz");
    assert_eq!(k, "07062023080910_weird cat/egory_a_b c.tar.gz");
}

#[test]
fn identical_parts_in_same_second_share_a_key() {
    let stamp = ts(2024, 2, 29, 12, 0, 0);
    let k1 = storage_key(&stamp, "customer", "photo.jpg");
    let k2 = storage_key(&stamp, "customer", "photo.jpg");
    assert_eq!(k1, k2);
}

#[test]
fn colliding_writes_leave_one_file_with_second_bytes() {
    let stamp = ts(2024, 2, 29, 12, 0, 0);
    let key = storage_key(&stamp, "customer", "photo.jpg");
    let mut store = Store::new();
    store.write(key.clone(), vec![1, 2, 3]);
    store.write(key.clone(), vec![9, 9]);
    assert_eq!(store.read(&key), Some(&vec![9u8, 9]));
}

#[test]
fn valid_upload_plans_one_write_per_part() {
    let parts = vec![
        part(Some("avatar"), Some("cat.png"), b"PNG"),
        part(Some("document"), Some("cv.pdf"), b"%PDF"),
    ];
    let stamps = vec![ts(2022, 12, 14, 1, 1, 1), ts(2022, 12, 14, 1, 1, 2)];
    match plan_upload(&parts, &stamps) {
        UploadPlan::Accepted { writes, response } => {
            assert_eq!(writes.len(), 2);
            assert_eq!(writes[0].key, "14122022010101_avatar_cat.png");
            assert_eq!(writes[0].data, b"PNG");
            assert_eq!(writes[1].key, "14122022010102_document_cv.pdf");
            assert_eq!(writes[1].data, b"%PDF");
            assert_eq!(response.status, 200);
            assert_eq!(
                response.body,
                "{\"status\":\"success\",\"message\":\"File(s) uploaded successfully!\"}"
            );
        }
        UploadPlan::Rejected { .. } => panic!("valid parts were rejected"),
    }
}

#[test]
fn empty_upload_is_accepted_with_no_writes() {
    let parts: Vec<RawPart> = Vec::new();
    let stamps: Vec<Timestamp> = Vec::new();
    match plan_upload(&parts, &stamps) {
        UploadPlan::Accepted { writes, response } => {
            assert_eq!(writes.len(), 0);
            assert_eq!(response.status, 200);
        }
        UploadPlan::Rejected { .. } => panic!("empty request was rejected"),
    }
}

#[test]
fn missing_file_name_rejects_whole_request() {
    let parts = vec![
        part(Some("avatar"), Some("cat.png"), b"PNG"),
        part(Some("document"), None, b"%PDF"),
    ];
    let stamps = vec![ts(2022, 12, 14, 1, 1, 1), ts(2022, 12, 14, 1, 1, 2)];
    match plan_upload(&parts, &stamps) {
        UploadPlan::Accepted { .. } => panic!("malformed part was accepted"),
        UploadPlan::Rejected { response } => {
            assert_eq!(response.status, 400);
            assert_eq!(
                response.body,
                "{\"status\":\"error\",\"message\":\"Missing file name\"}"
            );
        }
    }
}

#[test]
fn missing_field_name_rejects_whole_request() {
    let parts = vec![part(None, Some("cat.png"), b"PNG")];
    let stamps = vec![ts(2022, 12, 14, 1, 1, 1)];
    match plan_upload(&parts, &stamps) {
        UploadPlan::Accepted { .. } => panic!("malformed part was accepted"),
        UploadPlan::Rejected { response } => {
            assert_eq!(response.status, 400);
            assert_eq!(
                response.body,
                "{\"status\":\"error\",\"message\":\"Missing field name\"}"
            );
        }
    }
}

#[test]
fn missing_field_name_is_reported_before_missing_file_name() {
    let r = rejection_response(&part(None, None, b""));
    assert_eq!(r.status, 400);
    assert_eq!(r.body, "{\"status\":\"error\",\"message\":\"Missing field name\"}");
}

#[test]
fn write_failure_response_is_a_500_with_fixed_body() {
    let r: HttpResponse = write_failure_response();
    assert_eq!(r.status, 500);
    assert_eq!(r.body, "{\"status\":\"error\",\"message\":\"Error creating file\"}");
}

#[test]
fn health_route_body_is_fixed() {
    assert_eq!(health_message(), "File Upload API");
}

#[test]
fn upload_dir_is_uploads() {
    assert_eq!(upload_dir(), "uploads");
}

#[test]
fn stored_bytes_read_back_unchanged() {
    let mut store = Store::new();
    let key = storage_key(&ts(2022, 12, 14, 1, 1, 1), "avatar", "cat.png");
    let bytes: Vec<u8> = vec![0, 155, 255, 42, 0];
    store.write(key.clone(), bytes.clone());
    assert_eq!(store.read(&key), Some(&bytes));
}

#[test]
fn absent_key_reads_as_none() {
    let mut store = Store::new();
    assert_eq!(store.read(&"nothing_here".to_string()), None);
    store.write("14122022010101_avatar_cat.png".to_string(), vec![1]);
    assert_eq!(store.read(&"14122022010101_avatar_dog.png".to_string()), None);
}

#[test]
fn upload_then_static_read_round_trips() {
    let parts = vec![part(Some("avatar"), Some("cat.png"), b"raw image bytes")];
    let stamps = vec![ts(2022, 12, 14, 1, 1, 1)];
    match plan_upload(&parts, &stamps) {
        UploadPlan::Accepted { writes, .. } => {
            let mut store = Store::new();
            store.perform_writes(&writes);
            let key = "14122022010101_avatar_cat.png".to_string();
            assert_eq!(store.read(&key), Some(&b"raw image bytes".to_vec()));
        }
        UploadPlan::Rejected { .. } => panic!("valid part was rejected"),
    }
}

#[test]
fn colliding_parts_planned_together_leave_one_file() {
    let parts = vec![
        part(Some("customer"), Some("photo.jpg"), b"first"),
        part(Some("customer"), Some("photo.jpg"), b"second"),
    ];
    let stamps = vec![ts(2024, 2, 29, 12, 0, 0), ts(2024, 2, 29, 12, 0, 0)];
    match plan_upload(&parts, &stamps) {
        UploadPlan::Accepted { writes, .. } => {
            assert_eq!(writes.len(), 2);
            assert_eq!(writes[0].key, writes[1].key);
            let mut store = Store::new();
            store.perform_writes(&writes);
            assert_eq!(store.read(&writes[1].key), Some(&b"second".to_vec()));
        }
        UploadPlan::Rejected { .. } => panic!("valid parts were rejected"),
    }
}

#[test]
fn clock_reading_narrows_only_in_range() {
    let good = ClockReading { year: 2022, month: 12, day: 14, hour: 1, minute: 1, second: 1 };
    assert_eq!(Timestamp::from_clock(&good), Some(ts(2022, 12, 14, 1, 1, 1)));
    let wide_year = ClockReading { year: 10000, month: 1, day: 1, hour: 0, minute: 0, second: 0 };
    assert_eq!(Timestamp::from_clock(&wide_year), None);
    let bad_month = ClockReading { year: 2022, month: 13, day: 1, hour: 0, minute: 0, second: 0 };
    assert_eq!(Timestamp::from_clock(&bad_month), None);
    let bad_day = ClockReading { year: 2022, month: 1, day: 0, hour: 0, minute: 0, second: 0 };
    assert_eq!(Timestamp::from_clock(&bad_day), None);
}

#[test]
fn current_timestamp_reports_a_plausible_instant() {
    let now = current_timestamp().expect("the current year fits four digits");
    assert!(now.year >= 2024 && now.year <= 9999);
    assert!((1..=12).contains(&now.month));
    assert!((1..=31).contains(&now.day));
    assert!(now.hour <= 23);
    assert!(now.minute <= 59);
    assert!(now.second <= 59);
}
