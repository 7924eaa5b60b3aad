use media_organizer::arguments::{parse, Action, Args, Collision, ConfigError, Gatherer};
use media_organizer::batch::{plan_file, process_file, Batch, BatchError, FileError};
use media_organizer::gatherer::{
    date_from_exif, date_from_exiftool, date_from_ffprobe, date_from_file_time, get_date,
    ExifReading, Reading, ResolveError, ToolOutput,
};
use media_organizer::placement::{month_directory, new_file_path, PlaceError};
use media_organizer::timestamp::Timestamp;

fn ts(year: i32, month: u32) -> Timestamp {
    Timestamp { year, month, day: 19, hour: 14, minute: 30, second: 0 }
}

fn args(collision: Collision, dry_run: bool) -> Args {
    parse(
        collision,
        Action::Copy,
        "/base".to_string(),
        Gatherer::Exif,
        dry_run,
        vec!["a.jpg".to_string()],
    )
    .unwrap()
}

fn names(v: &[&str]) -> Vec<String> {
    v.iter().map(|s| s.to_string()).collect()
}

/// A little-endian TIFF whose first directory holds one DateTime field.
fn tiff_with_date(s: &str) -> Vec<u8> {
    let mut text = s.as_bytes().to_vec();
    text.push(0);
    let mut b = vec![b'I', b'I', 42, 0, 8, 0, 0, 0];
    b.extend_from_slice(&[1, 0]);
    b.extend_from_slice(&[0x32, 0x01, 2, 0]);
    b.extend_from_slice(&(text.len() as u32).to_le_bytes());
    if text.len() <= 4 {
        text.resize(4, 0);
        b.extend_from_slice(&text);
        b.extend_from_slice(&[0, 0, 0, 0]);
    } else {
        b.extend_from_slice(&26u32.to_le_bytes());
        b.extend_from_slice(&[0, 0, 0, 0]);
        b.extend_from_slice(&text);
    }
    b
}

fn exif_text(s: &str) -> Reading {
    Reading::Exif(tiff_with_date(s))
}

#[test]
fn month_is_zero_padded() {
    assert_eq!(month_directory("/base", &ts(2022, 3)), "/base/2022/03");
}

#[test]
fn two_digit_month_kept() {
    assert_eq!(month_directory("/base", &ts(2022, 11)), "/base/2022/11");
}

#[test]
fn year_not_padded() {
    assert_eq!(month_directory("out", &ts(987, 1)), "out/987/01");
}

#[test]
fn target_with_trailing_separator() {
    assert_eq!(month_directory("/base/", &ts(2022, 9)), "/base/2022/09");
}

#[test]
fn free_name_used_as_is() {
    let r = new_file_path("a.jpg", "/base", &ts(2022, 9), Collision::Skip, &names(&["b.jpg"]));
    assert_eq!(r, Ok("/base/2022/09/a.jpg".to_string()));
}

#[test]
fn rename_takes_first_free_index() {
    let taken = names(&["a.jpg", "(1) a.jpg", "(3) a.jpg"]);
    let r = new_file_path("a.jpg", "/base", &ts(2022, 9), Collision::Rename, &taken);
    assert_eq!(r, Ok("/base/2022/09/(2) a.jpg".to_string()));
}

#[test]
fn rename_past_ten_copies() {
    let mut taken = names(&["a.jpg"]);
    for i in 1..=10 {
        taken.push(format!("({}) a.jpg", i));
    }
    let r = new_file_path("a.jpg", "/base", &ts(2022, 9), Collision::Rename, &taken);
    assert_eq!(r, Ok("/base/2022/09/(11) a.jpg".to_string()));
}

#[test]
fn skip_refuses_taken_name() {
    let r = new_file_path("a.jpg", "/base", &ts(2022, 9), Collision::Skip, &names(&["a.jpg"]));
    assert_eq!(r, Err(PlaceError::AlreadyExists("/base/2022/09/a.jpg".to_string())));
    let p = plan_file(&args(Collision::Skip, false), &ts(2022, 9), &Some("a.jpg".to_string()), &names(&["a.jpg"]));
    assert!(matches!(p, Err(FileError::Place(PlaceError::AlreadyExists(_)))));
}

#[test]
fn overwrite_keeps_taken_path() {
    let r = new_file_path("a.jpg", "/base", &ts(2022, 9), Collision::Overwrite, &names(&["a.jpg", "(1) a.jpg"]));
    assert_eq!(r, Ok("/base/2022/09/a.jpg".to_string()));
}

#[test]
fn dry_run_plans_same_destination() {
    let taken = names(&["a.jpg"]);
    let name = Some("a.jpg".to_string());
    let wet = plan_file(&args(Collision::Rename, false), &ts(2022, 9), &name, &taken).unwrap();
    let dry = plan_file(&args(Collision::Rename, true), &ts(2022, 9), &name, &taken).unwrap();
    assert!(wet.perform);
    assert!(!dry.perform);
    assert_eq!(dry.dest, "/base/2022/09/(1) a.jpg");
    assert_eq!(wet.dest, dry.dest);
    assert_eq!(wet.dir, "/base/2022/09");
    assert_eq!(wet.action, Action::Copy);
}

#[test]
fn missing_file_name_fails() {
    let r = plan_file(&args(Collision::Skip, false), &ts(2022, 9), &None, &vec![]);
    assert_eq!(r.unwrap_err(), FileError::NoFileName);
}

#[test]
fn batch_goes_on_after_a_failure() {
    let a = args(Collision::Skip, false);
    let readings = vec![
        exif_text("2022:09:19 14:30:00"),
        exif_text("not a date"),
        exif_text("2021:01:02 03:04:05"),
    ];
    let mut batch = Batch::new(readings.len());
    let mut done = Vec::new();
    for r in readings.iter() {
        let out = process_file(&a, r, &Some("a.jpg".to_string()), &vec![]);
        batch.record(out.is_ok());
        done.push(out);
    }
    assert!(batch.is_finished());
    assert_eq!(done[0].as_ref().unwrap().dest, "/base/2022/09/a.jpg");
    assert_eq!(
        done[1].as_ref().unwrap_err(),
        &FileError::Resolve(ResolveError::BadDate("not a date".to_string()))
    );
    assert_eq!(done[2].as_ref().unwrap().dest, "/base/2021/01/a.jpg");
    assert_eq!(batch.finish(), Err(BatchError::Failures(1)));
}

#[test]
fn batch_without_failures_succeeds() {
    let mut batch = Batch::new(2);
    batch.record(true);
    assert!(!batch.is_finished());
    batch.record(true);
    assert_eq!(batch.finish(), Ok(()));
}

#[test]
fn empty_file_list_refused() {
    let r = parse(Collision::Skip, Action::Move, ".".to_string(), Gatherer::Exif, false, vec![]);
    assert_eq!(r.unwrap_err(), ConfigError::NoFiles);
}

#[test]
fn exif_date_round_trip() {
    let t = date_from_exif(&ExifReading::Ascii(vec![b"2022:09:19 14:30:00".to_vec()])).unwrap();
    assert_eq!(t, Timestamp { year: 2022, month: 9, day: 19, hour: 14, minute: 30, second: 0 });
    let p = new_file_path("IMG_1.jpg", "/base", &t, Collision::Skip, &vec![]);
    assert_eq!(p, Ok("/base/2022/09/IMG_1.jpg".to_string()));
}

#[test]
fn exif_empty_field_fails() {
    assert_eq!(date_from_exif(&ExifReading::Ascii(vec![])), Err(ResolveError::EmptyDate));
    let r = date_from_exif(&ExifReading::Ascii(vec![vec![]]));
    assert_eq!(r, Err(ResolveError::BadDate(String::new())));
    let mut batch = Batch::new(1);
    let out = process_file(&args(Collision::Skip, false), &exif_text(""), &Some("a.jpg".to_string()), &vec![]);
    assert_eq!(out.as_ref().unwrap_err(), &FileError::Resolve(ResolveError::BadDate(String::new())));
    batch.record(out.is_ok());
    assert!(batch.finish().is_err());
}

#[test]
fn exif_other_failures() {
    assert_eq!(date_from_exif(&ExifReading::NoContainer), Err(ResolveError::NoMetadata));
    assert_eq!(date_from_exif(&ExifReading::NoField), Err(ResolveError::NoDateField));
    assert_eq!(
        date_from_exif(&ExifReading::NotAscii("Short([1])".to_string())),
        Err(ResolveError::NotText("Short([1])".to_string()))
    );
    assert_eq!(
        date_from_exif(&ExifReading::Ascii(vec![b"2022-09-19".to_vec()])),
        Err(ResolveError::BadDate("2022-09-19".to_string()))
    );
}

#[test]
fn exiftool_output_trimmed_and_read() {
    let out = ToolOutput { success: true, stdout: b"2020:02:29 23:59:58\n".to_vec(), stderr: vec![] };
    let t = date_from_exiftool(&out).unwrap();
    assert_eq!(t, Timestamp { year: 2020, month: 2, day: 29, hour: 23, minute: 59, second: 58 });
}

#[test]
fn exiftool_failure_gives_stderr() {
    let out = ToolOutput { success: false, stdout: vec![], stderr: b"no such file".to_vec() };
    assert_eq!(date_from_exiftool(&out), Err(ResolveError::ToolFailed("no such file".to_string())));
    let out = ToolOutput { success: true, stdout: b"-\n".to_vec(), stderr: vec![] };
    assert_eq!(date_from_exiftool(&out), Err(ResolveError::BadDate("-\n".to_string())));
}

#[test]
fn ffprobe_reads_rfc3339() {
    let out = ToolOutput { success: true, stdout: b"2021-05-04T10:20:30.000000Z\n".to_vec(), stderr: vec![] };
    let t = date_from_ffprobe(&out).unwrap();
    assert_eq!(t, Timestamp { year: 2021, month: 5, day: 4, hour: 10, minute: 20, second: 30 });
    let out = ToolOutput { success: true, stdout: b"2021-05-04T23:20:30+02:00".to_vec(), stderr: vec![] };
    assert_eq!(date_from_ffprobe(&out).unwrap().hour, 23);
}

#[test]
fn ffprobe_rejects_exif_layout() {
    let out = ToolOutput { success: true, stdout: b"2021:05:04 10:20:30".to_vec(), stderr: vec![] };
    assert!(matches!(date_from_ffprobe(&out), Err(ResolveError::BadDate(_))));
    let out = ToolOutput { success: false, stdout: vec![], stderr: b"bad".to_vec() };
    assert_eq!(date_from_ffprobe(&out), Err(ResolveError::ToolFailed("bad".to_string())));
}

#[test]
fn file_time_in_utc() {
    let t = date_from_file_time(1431648000, 0).unwrap();
    assert_eq!(t, Timestamp { year: 2015, month: 5, day: 15, hour: 0, minute: 0, second: 0 });
    assert_eq!(date_from_file_time(i64::MAX, 0), Err(ResolveError::OutOfRange));
}

#[test]
fn unavailable_source_fails() {
    let r = get_date(&Reading::Unavailable("permission denied".to_string()));
    assert_eq!(r, Err(ResolveError::Unavailable("permission denied".to_string())));
    let t = get_date(&Reading::FileTime(0, 0)).unwrap();
    assert_eq!((t.year, t.month, t.day), (1970, 1, 1));
}

#[test]
fn exif_bytes_read_through_container() {
    let t = get_date(&exif_text("2022:09:19 14:30:00")).unwrap();
    assert_eq!(t, Timestamp { year: 2022, month: 9, day: 19, hour: 14, minute: 30, second: 0 });
}

#[test]
fn exif_bytes_without_container() {
    let r = get_date(&Reading::Exif(b"plain text, no image".to_vec()));
    assert_eq!(r, Err(ResolveError::NoMetadata));
}
