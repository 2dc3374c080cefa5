//! File uploads: reading one file from a multipart request, and when an
//! upload may be spent by an attachment or withdrawn.
//!
//! An upload is read as a stream of multipart events; the functions here
//! decide on each event in turn, and whoever reads the stream acts on the
//! decision.
use crate::errors::{ConsumeFileUploadError, DeleteFileUploadError, UploadFileError};
use crate::text::{str_eq, trim, trim_to_string};
use vstd::prelude::*;

verus! {

pub open spec fn upload_outcome<T>(r: Result<T, UploadFileError>) -> Result<T, (u16, Seq<char>)> {
    match r {
        Ok(v) => Ok(v),
        Err(e) => Err((e.spec_status_code(), e.spec_message())),
    }
}

pub open spec fn spec_begin_field(have_file: bool, name: Option<Seq<char>>) -> Result<(), (u16, Seq<char>)> {
    if name != Some("file"@) {
        Err((400, "Only multipart field `file` is supported"@))
    } else if have_file {
        Err((400, "Only one file can be uploaded at a time"@))
    } else {
        Ok(())
    }
}

/// A multipart field may begin only if it is named `file` and no file has
/// been read yet. `name` is the name its Content-Disposition gives.
pub fn begin_field(have_file: bool, name: Option<&str>) -> (r: Result<(), UploadFileError>)
    ensures
        upload_outcome(r) == spec_begin_field(
            have_file,
            match name {
                Some(n) => Some(n@),
                None => None,
            },
        ),
{
    let is_file = match name {
        Some(n) => str_eq(n, "file"),
        None => false,
    };
    if !is_file {
        return Err(UploadFileError::ValidationError(String::from_str("Only multipart field `file` is supported")));
    }
    if have_file {
        return Err(UploadFileError::ValidationError(String::from_str("Only one file can be uploaded at a time")));
    }
    Ok(())
}

pub open spec fn spec_upload_file_name(filename: Option<Seq<char>>) -> Seq<char> {
    match filename {
        Some(f) => if trim(f).len() > 0 {
            trim(f)
        } else {
            "file"@
        },
        None => "file"@,
    }
}

/// The name an upload is stored under: the file name the request gives,
/// trimmed, or `file` where it gives none or a blank one.
pub fn upload_file_name(filename: Option<&str>) -> (name: String)
    ensures
        name@ == spec_upload_file_name(
            match filename {
                Some(f) => Some(f@),
                None => None,
            },
        ),
{
    match filename {
        Some(f) => {
            let t = trim_to_string(f);
            if t.unicode_len() > 0 {
                t
            } else {
                String::from_str("file")
            }
        },
        None => String::from_str("file"),
    }
}

/// A chunk of the file may be taken only while the bytes received stay
/// within the size limit; the result is how many have been received.
pub fn accept_chunk(received: u64, chunk_len: u64, max_file_size_bytes: u64) -> (r: Result<u64, UploadFileError>)
    ensures
        received + chunk_len > max_file_size_bytes ==> upload_outcome(r) == Err::<u64, (u16, Seq<char>)>(
            (400, "File upload exceeds configured size limit"@),
        ),
        received + chunk_len <= max_file_size_bytes ==> r == Ok::<u64, UploadFileError>(
            (received + chunk_len) as u64,
        ),
{
    if chunk_len > max_file_size_bytes || received > max_file_size_bytes - chunk_len {
        return Err(UploadFileError::ValidationError(String::from_str("File upload exceeds configured size limit")));
    }
    Ok(received + chunk_len)
}

/// A file that ended must not be empty.
pub fn finish_field(received: u64) -> (r: Result<(), UploadFileError>)
    ensures
        received == 0 ==> upload_outcome(r) == Err::<(), (u16, Seq<char>)>(
            (400, "File uploads cannot be empty"@),
        ),
        received > 0 ==> r is Ok,
{
    if received == 0 {
        return Err(UploadFileError::ValidationError(String::from_str("File uploads cannot be empty")));
    }
    Ok(())
}

/// A request whose stream ended must have carried a file.
pub fn finish_upload(have_file: bool) -> (r: Result<(), UploadFileError>)
    ensures
        !have_file ==> upload_outcome(r) == Err::<(), (u16, Seq<char>)>(
            (400, "Multipart field `file` is required"@),
        ),
        have_file ==> r is Ok,
{
    if !have_file {
        return Err(UploadFileError::ValidationError(String::from_str("Multipart field `file` is required")));
    }
    Ok(())
}

/// What the database records of an upload when it is about to be spent.
#[derive(Debug)]
pub struct UploadStatus {
    pub consumed: bool,
    /// When it expires, in nanoseconds since the Unix epoch.
    pub expires_at_nanos: i128,
}

pub open spec fn spec_check_consumable(upload: Option<UploadStatus>, now_nanos: i128) -> Result<(), (u16, Seq<char>)> {
    match upload {
        None => Err((404, "File upload not found"@)),
        Some(u) => if u.consumed {
            Err((409, "File upload has already been consumed"@))
        } else if now_nanos > u.expires_at_nanos {
            Err((400, "File upload has expired"@))
        } else {
            Ok(())
        },
    }
}

/// An upload may be spent once, before it expires. The check is made again
/// under the row lock, since the permission check before it could race.
pub fn check_consumable(upload: Option<UploadStatus>, now_nanos: i128) -> (r: Result<(), ConsumeFileUploadError>)
    ensures
        match spec_check_consumable(upload, now_nanos) {
            Ok(()) => r is Ok,
            Err(e) => r matches Err(x) && (x.spec_status_code(), x.spec_message()) == e,
        },
{
    match upload {
        None => Err(ConsumeFileUploadError::NotFound(String::from_str("File upload not found"))),
        Some(u) => {
            if u.consumed {
                Err(ConsumeFileUploadError::ConflictError(String::from_str("File upload has already been consumed")))
            } else if now_nanos > u.expires_at_nanos {
                Err(ConsumeFileUploadError::ValidationError(String::from_str("File upload has expired")))
            } else {
                Ok(())
            }
        },
    }
}

/// Spending an upload: where it may be spent, the row is marked consumed
/// and kept, with its expiry unchanged.
pub open spec fn spec_consume_upload(upload: Option<UploadStatus>, now_nanos: i128) -> Result<UploadStatus, (u16, Seq<char>)> {
    match spec_check_consumable(upload, now_nanos) {
        Ok(()) => Ok(UploadStatus { consumed: true, expires_at_nanos: upload->Some_0.expires_at_nanos }),
        Err(e) => Err(e),
    }
}

/// Spends an upload found as `upload` at `now_nanos`: the result is the row
/// as it is written back, marked consumed rather than deleted, so that a
/// retry of the same request is refused.
pub fn consume_upload(upload: Option<UploadStatus>, now_nanos: i128) -> (r: Result<UploadStatus, ConsumeFileUploadError>)
    ensures
        match spec_consume_upload(upload, now_nanos) {
            Ok(marked) => r == Ok::<UploadStatus, ConsumeFileUploadError>(marked),
            Err(e) => r matches Err(x) && (x.spec_status_code(), x.spec_message()) == e,
        },
{
    let expires_at_nanos: i128 = match &upload {
        Some(u) => u.expires_at_nanos,
        None => 0,
    };
    match check_consumable(upload, now_nanos) {
        Ok(()) => Ok(UploadStatus { consumed: true, expires_at_nanos }),
        Err(e) => Err(e),
    }
}

/// An upload is spent at most once: after it has been spent, the row is
/// still there, and spending it again, at any later time, is refused as
/// already consumed.
pub proof fn a_consumed_upload_cannot_be_consumed_again(upload: UploadStatus, now_nanos: i128, later_nanos: i128)
    requires
        spec_consume_upload(Some(upload), now_nanos) is Ok,
    ensures
        spec_consume_upload(Some(spec_consume_upload(Some(upload), now_nanos)->Ok_0), later_nanos)
            == Err::<UploadStatus, (u16, Seq<char>)>((409, "File upload has already been consumed"@)),
{
}

pub open spec fn spec_check_deletable(consumed: Option<bool>) -> Result<(), (u16, Seq<char>)> {
    match consumed {
        None => Err((404, "File upload not found"@)),
        Some(true) => Err((409, "File upload has already been assigned to an attachment"@)),
        Some(false) => Ok(()),
    }
}

/// An upload may be withdrawn while no attachment uses its file. `consumed`
/// is whether it was spent, where it exists.
pub fn check_deletable(consumed: Option<bool>) -> (r: Result<(), DeleteFileUploadError>)
    ensures
        match spec_check_deletable(consumed) {
            Ok(()) => r is Ok,
            Err(e) => r matches Err(x) && (x.spec_status_code(), x.spec_message()) == e,
        },
{
    match consumed {
        None => Err(DeleteFileUploadError::NotFound(String::from_str("File upload not found"))),
        Some(true) => Err(DeleteFileUploadError::ConflictError(String::from_str("File upload has already been assigned to an attachment"))),
        Some(false) => Ok(()),
    }
}

/// The present time by the system clock (`chrono::Utc::now`), as whole
/// seconds since the Unix epoch (`timestamp`) and the nanoseconds past them
/// (`timestamp_subsec_nanos`). Nothing is promised of the value: it is the
/// clock's.
#[verifier::external_body]
pub(crate) fn clock_now() -> (i64, u32) {
    let now = chrono::Utc::now();
    (now.timestamp(), now.timestamp_subsec_nanos())
}

/// Whether an upload may be spent now, by the system clock.
pub fn check_consumable_now(upload: Option<UploadStatus>) -> (r: Result<(), ConsumeFileUploadError>)
    ensures
        exists|now: i128|
            match #[trigger] spec_check_consumable(upload, now) {
                Ok(()) => r is Ok,
                Err(e) => r matches Err(x) && (x.spec_status_code(), x.spec_message()) == e,
            },
{
    let (seconds, nanos) = clock_now();
    let now = seconds as i128 * 1_000_000_000 + nanos as i128;
    check_consumable(upload, now)
}

/// A request carries one file, in the field named `file`; the file is
/// stored under the name it gives, trimmed, or `file` where that is blank.
pub proof fn uploads_take_one_file_field(have_file: bool, name: Option<Seq<char>>, filename: Option<Seq<char>>)
    ensures
        spec_begin_field(have_file, name) is Ok <==> (name == Some("file"@) && !have_file),
        filename is Some && trim(filename->Some_0).len() > 0 ==> spec_upload_file_name(filename) == trim(
            filename->Some_0,
        ),
        (filename is None || trim(filename->Some_0).len() == 0) ==> spec_upload_file_name(filename)
            == "file"@,
{
}

/// An upload is spent only where it exists, has not been spent, and has not
/// expired by `now_nanos`; it is withdrawn only where it exists and has not
/// been spent.
pub proof fn uploads_are_spent_while_fresh_and_unspent(upload: Option<UploadStatus>, now_nanos: i128, consumed: Option<bool>)
    ensures
        spec_check_consumable(upload, now_nanos) is Ok <==> (upload is Some && !upload->Some_0.consumed
            && now_nanos <= upload->Some_0.expires_at_nanos),
        spec_consume_upload(upload, now_nanos) matches Ok(marked) ==> marked.consumed
            && marked.expires_at_nanos == upload->Some_0.expires_at_nanos,
        spec_check_deletable(consumed) is Ok <==> consumed == Some(false),
{
}

} // verus!
