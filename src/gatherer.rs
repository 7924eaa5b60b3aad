//! Reading a file's date from what each source reported: exif data, the output
//! of `exiftool` or `ffprobe`, or a filesystem time.
use crate::timestamp::{
    from_epoch, naive_parse_of, parse_naive, parse_rfc3339, rfc3339_local_of, utc_of_epoch,
    Timestamp,
};
use vstd::prelude::*;

verus! {

/// The layout of exif date texts, `YYYY:MM:DD HH:MM:SS`, in chrono's notation.
pub const DATE_FMT: &'static str = "%Y:%m:%d %H:%M:%S";

/// What `String::from_utf8_lossy` makes of bytes.
pub uninterp spec fn lossy_text_of(b: Seq<u8>) -> Seq<char>;

/// What `str::trim` leaves of a text.
pub uninterp spec fn trimmed_of(s: Seq<char>) -> Seq<char>;

/// Relies on `String::from_utf8_lossy`: the text depends on the bytes alone.
#[verifier::external_body]
pub(crate) fn lossy_text(b: &[u8]) -> (r: String)
    ensures
        r@ == lossy_text_of(b@),
{
    String::from_utf8_lossy(b).into_owned()
}

/// Relies on `str::trim`: the text depends on its argument alone.
#[verifier::external_body]
pub(crate) fn trim(s: &str) -> (r: &str)
    ensures
        r@ == trimmed_of(s@),
{
    s.trim()
}

/// What the exif reader found in a file.
#[derive(Debug, Clone)]
pub enum ExifReading {
    /// The file holds no exif container that could be read.
    NoContainer,
    /// The container has no primary date-time field.
    NoField,
    /// The field is not stored as ASCII text; it holds a description of the value.
    NotAscii(String),
    /// The field's ASCII strings.
    Ascii(Vec<Vec<u8>>),
}

/// What kamadak-exif finds as the primary date-time field of a file's bytes.
pub uninterp spec fn exif_date_field_of(b: Seq<u8>) -> ExifReading;

/// Relies on kamadak-exif's `Reader::read_from_container` and
/// `Exif::get_field(Tag::DateTime, In::PRIMARY)`: the field found depends on the
/// bytes alone.
#[verifier::external_body]
pub(crate) fn exif_date_field(b: &[u8]) -> (r: ExifReading)
    ensures
        r == exif_date_field_of(b@),
{
    let exif = match exif::Reader::new().read_from_container(&mut std::io::Cursor::new(b)) {
        Ok(x) => x,
        Err(_) => return ExifReading::NoContainer,
    };
    match exif.get_field(exif::Tag::DateTime, exif::In::PRIMARY) {
        None => ExifReading::NoField,
        Some(f) => match &f.value {
            exif::Value::Ascii(v) => ExifReading::Ascii(v.clone()),
            o => ExifReading::NotAscii(format!("{:?}", o)),
        },
    }
}

/// What an external program reported.
#[derive(Debug, Clone)]
pub struct ToolOutput {
    pub success: bool,
    pub stdout: Vec<u8>,
    pub stderr: Vec<u8>,
}

/// What the configured source reported for one file.
#[derive(Debug, Clone)]
pub enum Reading {
    /// The bytes of the file, for its exif data.
    Exif(Vec<u8>),
    Exiftool(ToolOutput),
    Ffprobe(ToolOutput),
    /// A filesystem time, in seconds and nanoseconds since the Unix epoch.
    FileTime(i64, u32),
    /// The source could not be read at all (the file could not be opened or
    /// stat'ed, the program could not be started); it holds the reason.
    Unavailable(String),
}

/// Why no date was found for a file.
#[derive(Debug, Clone, PartialEq, Eq)]
pub enum ResolveError {
    /// The source could not be read; it holds the reason.
    Unavailable(String),
    /// No exif data in the file.
    NoMetadata,
    /// No date field in the exif data.
    NoDateField,
    /// The date field is not ASCII; it holds a description of the value.
    NotText(String),
    /// The date field holds no string.
    EmptyDate,
    /// The program failed; it holds what it wrote to standard error.
    ToolFailed(String),
    /// The text does not read as a date; it holds the text.
    BadDate(String),
    /// The filesystem time is out of the calendar's range.
    OutOfRange,
}

/// What the date of an exif reading is: the first ASCII string of the field, read
/// with `DATE_FMT`, or the error that says what is missing.
pub open spec fn exif_result(reading: ExifReading, r: Result<Timestamp, ResolveError>) -> bool {
    match reading {
        ExifReading::NoContainer => r == Err::<Timestamp, ResolveError>(
            ResolveError::NoMetadata,
        ),
        ExifReading::NoField => r == Err::<Timestamp, ResolveError>(
            ResolveError::NoDateField,
        ),
        ExifReading::NotAscii(d) => r matches Err(ResolveError::NotText(e)) && e@ == d@,
        ExifReading::Ascii(v) => if v.len() == 0 {
            r == Err::<Timestamp, ResolveError>(ResolveError::EmptyDate)
        } else {
            let text = lossy_text_of(v[0]@);
            match naive_parse_of(text, DATE_FMT@) {
                Some(t) => r == Ok::<Timestamp, ResolveError>(t),
                None => r matches Err(ResolveError::BadDate(e)) && e@ == text,
            }
        },
    }
}

/// The date in what was found of the exif date field: the first ASCII string of the field, read with
/// `DATE_FMT`.
pub fn date_from_exif(reading: &ExifReading) -> (r: Result<Timestamp, ResolveError>)
    ensures
        r matches Ok(t) ==> t.wf(),
        exif_result(*reading, r),
{
    match reading {
        ExifReading::NoContainer => Err(ResolveError::NoMetadata),
        ExifReading::NoField => Err(ResolveError::NoDateField),
        ExifReading::NotAscii(d) => Err(ResolveError::NotText(d.clone())),
        ExifReading::Ascii(v) => {
            if v.len() == 0 {
                Err(ResolveError::EmptyDate)
            } else {
                let text = lossy_text(v[0].as_slice());
                match parse_naive(text.as_str(), DATE_FMT) {
                    Some(t) => Ok(t),
                    None => Err(ResolveError::BadDate(text)),
                }
            }
        },
    }
}

/// What the date in the output of a program is: a failed run gives its standard
/// error; otherwise the output, trimmed, is read by `read`, and is the error
/// where that fails.
pub open spec fn tool_result(
    out: ToolOutput,
    read: spec_fn(Seq<char>) -> Option<Timestamp>,
    r: Result<Timestamp, ResolveError>,
) -> bool {
    if !out.success {
        r matches Err(ResolveError::ToolFailed(e)) && e@ == lossy_text_of(out.stderr@)
    } else {
        let text = lossy_text_of(out.stdout@);
        match read(trimmed_of(text)) {
            Some(t) => r == Ok::<Timestamp, ResolveError>(t),
            None => r matches Err(ResolveError::BadDate(e)) && e@ == text,
        }
    }
}

/// How `exiftool`'s output is read: with `DATE_FMT`.
pub open spec fn exiftool_read(s: Seq<char>) -> Option<Timestamp> {
    naive_parse_of(s, DATE_FMT@)
}

/// How `ffprobe`'s output is read: as RFC 3339, at its own offset.
pub open spec fn ffprobe_read(s: Seq<char>) -> Option<Timestamp> {
    rfc3339_local_of(s)
}

/// The date that `exiftool -T -DateTimeOriginal` printed.
pub fn date_from_exiftool(out: &ToolOutput) -> (r: Result<Timestamp, ResolveError>)
    ensures
        r matches Ok(t) ==> t.wf(),
        tool_result(*out, |s| exiftool_read(s), r),
{
    if !out.success {
        return Err(ResolveError::ToolFailed(lossy_text(out.stderr.as_slice())));
    }
    let text = lossy_text(out.stdout.as_slice());
    match parse_naive(trim(text.as_str()), DATE_FMT) {
        Some(t) => Ok(t),
        None => Err(ResolveError::BadDate(text)),
    }
}

/// The date that `ffprobe` printed for the first video stream's creation time.
pub fn date_from_ffprobe(out: &ToolOutput) -> (r: Result<Timestamp, ResolveError>)
    ensures
        r matches Ok(t) ==> t.wf(),
        tool_result(*out, |s| ffprobe_read(s), r),
{
    if !out.success {
        return Err(ResolveError::ToolFailed(lossy_text(out.stderr.as_slice())));
    }
    let text = lossy_text(out.stdout.as_slice());
    match parse_rfc3339(trim(text.as_str())) {
        Some(t) => Ok(t),
        None => Err(ResolveError::BadDate(text)),
    }
}

/// What the date of a filesystem time is: its UTC date, or out of range.
pub open spec fn file_time_result(secs: i64, nsecs: u32, r: Result<Timestamp, ResolveError>) -> bool {
    match utc_of_epoch(secs as int, nsecs as int) {
        Some(t) => r == Ok::<Timestamp, ResolveError>(t),
        None => r == Err::<Timestamp, ResolveError>(ResolveError::OutOfRange),
    }
}

/// The UTC date of a filesystem time given in seconds and nanoseconds since the
/// Unix epoch.
pub fn date_from_file_time(secs: i64, nsecs: u32) -> (r: Result<Timestamp, ResolveError>)
    ensures
        r matches Ok(t) ==> t.wf(),
        file_time_result(secs, nsecs, r),
{
    match from_epoch(secs, nsecs) {
        Some(t) => Ok(t),
        None => Err(ResolveError::OutOfRange),
    }
}

/// What the date in a reading is, each kind of reading read as its source
/// writes it.
pub open spec fn date_result(reading: Reading, r: Result<Timestamp, ResolveError>) -> bool {
    match reading {
        Reading::Exif(b) => exif_result(exif_date_field_of(b@), r),
        Reading::Exiftool(o) => tool_result(o, |s| exiftool_read(s), r),
        Reading::Ffprobe(o) => tool_result(o, |s| ffprobe_read(s), r),
        Reading::FileTime(secs, nsecs) => file_time_result(secs, nsecs, r),
        Reading::Unavailable(why) => r matches Err(ResolveError::Unavailable(e)) && e@ == why@,
    }
}

/// The date in a reading, each kind of reading read as its source writes it.
pub fn get_date(reading: &Reading) -> (r: Result<Timestamp, ResolveError>)
    ensures
        r matches Ok(t) ==> t.wf(),
        date_result(*reading, r),
{
    match reading {
        Reading::Exif(b) => date_from_exif(&exif_date_field(b.as_slice())),
        Reading::Exiftool(o) => date_from_exiftool(o),
        Reading::Ffprobe(o) => date_from_ffprobe(o),
        Reading::FileTime(s, n) => date_from_file_time(*s, *n),
        Reading::Unavailable(why) => Err(ResolveError::Unavailable(why.clone())),
    }
}

} // verus!
