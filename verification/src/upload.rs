//! The upload handler's decisions.
//!
//! An upload arrives as a multipart body whose first field carries the file.
//! The caller reads the declared length of the body, then the field, and
//! writes the file; what is accepted, what is written and what is answered
//! is decided here.

use vstd::prelude::*;
use crate::error::RequestError;
use crate::response::{
    empty_response, empty_response_spec, error_response, error_response_spec, Response,
    ResponseView,
};

verus! {

/// The largest body, in bytes, that an upload may have: 10 MiB.
pub const MAX_UPLOAD_SIZE: u64 = 1024 * 1024 * 10;

/// The first field of a multipart body: the name of the file, where the
/// field gives one, and the file's bytes.
#[derive(Clone, Debug, PartialEq, Eq)]
pub struct UploadField {
    pub file_name: Option<String>,
    pub data: Vec<u8>,
}

/// What an [`UploadField`] holds.
pub struct UploadFieldView {
    pub file_name: Option<Seq<char>>,
    pub data: Seq<u8>,
}

impl View for UploadField {
    type V = UploadFieldView;

    open spec fn view(&self) -> UploadFieldView {
        UploadFieldView {
            file_name: match self.file_name {
                Some(name) => Some(name@),
                None => None,
            },
            data: self.data@,
        }
    }
}

/// A file to be written: where, and which bytes.
#[derive(Clone, Debug, PartialEq, Eq)]
pub struct FileWrite {
    pub path: String,
    pub data: Vec<u8>,
}

/// What a [`FileWrite`] holds.
pub struct FileWriteView {
    pub path: Seq<char>,
    pub data: Seq<u8>,
}

impl View for FileWrite {
    type V = FileWriteView;

    open spec fn view(&self) -> FileWriteView {
        FileWriteView { path: self.path@, data: self.data@ }
    }
}

/// Whether a body of the declared length may be read at all.
pub open spec fn admit_upload_spec(content_length: u64) -> Result<(), RequestError> {
    if content_length > MAX_UPLOAD_SIZE {
        Err(RequestError::PayloadTooLarge)
    } else {
        Ok(())
    }
}

/// What becomes of an upload. A body over the limit is too large, whatever
/// it holds. Otherwise the body must hold a field; a file of the limit's
/// size or more is too large; and the file must have a name. What is left
/// is written under that name, byte for byte.
pub open spec fn upload_spec(content_length: u64, field: Option<UploadFieldView>) -> Result<
    FileWriteView,
    RequestError,
> {
    if content_length > MAX_UPLOAD_SIZE {
        Err(RequestError::PayloadTooLarge)
    } else {
        match field {
            None => Err(RequestError::DecodeError),
            Some(field) => if field.data.len() >= MAX_UPLOAD_SIZE {
                Err(RequestError::PayloadTooLarge)
            } else {
                match field.file_name {
                    None => Err(RequestError::DecodeError),
                    Some(name) => Ok(FileWriteView { path: name, data: field.data }),
                }
            },
        }
    }
}

/// The view of an optional field.
pub open spec fn field_view(field: Option<UploadField>) -> Option<UploadFieldView> {
    match field {
        Some(field) => Some(field@),
        None => None,
    }
}

/// The answer to an upload once the write was tried.
pub open spec fn upload_response_spec(written: bool) -> ResponseView {
    if written {
        empty_response_spec()
    } else {
        error_response_spec(RequestError::IOError)
    }
}

/// Decides from the declared length alone whether an upload may go on, so
/// that a body over the limit is refused before any of it is read.
pub fn admit_upload(content_length: u64) -> (out: Result<(), RequestError>)
    ensures
        out == admit_upload_spec(content_length),
{
    if content_length > MAX_UPLOAD_SIZE {
        Err(RequestError::PayloadTooLarge)
    } else {
        Ok(())
    }
}

/// Decides what to write for an upload with the declared body length
/// `content_length` whose first field is `field`, or why nothing is written.
pub fn upload_file_action(content_length: u64, field: Option<UploadField>) -> (out: Result<
    FileWrite,
    RequestError,
>)
    ensures
        match out {
            Ok(write) => upload_spec(content_length, field_view(field)) == Ok::<
                FileWriteView,
                RequestError,
            >(write@),
            Err(error) => upload_spec(content_length, field_view(field)) == Err::<
                FileWriteView,
                RequestError,
            >(error),
        },
{
    if content_length > MAX_UPLOAD_SIZE {
        return Err(RequestError::PayloadTooLarge);
    }
    match field {
        None => Err(RequestError::DecodeError),
        Some(field) => {
            let size: u64 = field.data.len() as u64;
            if size >= MAX_UPLOAD_SIZE {
                Err(RequestError::PayloadTooLarge)
            } else {
                match field.file_name {
                    None => Err(RequestError::DecodeError),
                    Some(name) => Ok(FileWrite { path: name, data: field.data }),
                }
            }
        },
    }
}

/// Answers an upload once the write was tried: `200 OK` where the file was
/// written, the report of an I/O error where it was not.
pub fn upload_response(written: bool) -> (response: Response)
    ensures
        response@ == upload_response_spec(written),
{
    if written {
        empty_response()
    } else {
        error_response(RequestError::IOError)
    }
}

/// A body that is refused by its declared length is refused as too large
/// whatever field it carries.
pub proof fn lemma_refused_by_length(content_length: u64, field: Option<UploadFieldView>)
    requires
        admit_upload_spec(content_length) is Err,
    ensures
        upload_spec(content_length, field) == Err::<FileWriteView, RequestError>(
            RequestError::PayloadTooLarge,
        ),
{
}

/// A named file shorter than the limit, in a body within the limit, is
/// handed on for writing under its name with exactly the uploaded bytes.
pub proof fn lemma_small_file_is_written(content_length: u64, name: Seq<char>, data: Seq<u8>)
    requires
        content_length <= MAX_UPLOAD_SIZE,
        data.len() < MAX_UPLOAD_SIZE,
    ensures
        upload_spec(
            content_length,
            Some(UploadFieldView { file_name: Some(name), data: data }),
        ) == Ok::<FileWriteView, RequestError>(FileWriteView { path: name, data: data }),
{
}

/// A file of the limit's size or more is never handed on for writing: the
/// upload is refused as too large, whatever its name and declared length.
pub proof fn lemma_large_file_is_refused(
    content_length: u64,
    file_name: Option<Seq<char>>,
    data: Seq<u8>,
)
    requires
        data.len() >= MAX_UPLOAD_SIZE,
    ensures
        upload_spec(
            content_length,
            Some(UploadFieldView { file_name: file_name, data: data }),
        ) == Err::<FileWriteView, RequestError>(RequestError::PayloadTooLarge),
{
}

} // verus!
