//! Uploaded media: its kind, the crop rectangle a client may ask for, and
//! the errors of the media API.
use vstd::prelude::*;
use vstd::string::*;

use crate::database::StoreError;
use crate::cloud_storage::{tmp_path, TmpFile};
use crate::text::{i64_to_string, int_to_decimal, push_i64, str_eq};
use crate::time::now;

verus! {

/// A crop rectangle: size and top-left corner, in pixels.
#[derive(Debug, Clone, Copy, PartialEq, Eq, Structural)]
pub struct CropArgs {
    pub width: i64,
    pub height: i64,
    pub x: i64,
    pub y: i64,
}

/// The ffmpeg video filter for a crop: `crop=<width>:<height>:<x>:<y>`.
pub open spec fn crop_filter_text(args: CropArgs) -> Seq<char> {
    "crop="@ + int_to_decimal(args.width as int) + ":"@ + int_to_decimal(args.height as int) + ":"@
        + int_to_decimal(args.x as int) + ":"@ + int_to_decimal(args.y as int)
}

/// The ffmpeg video filter for a crop.
pub fn crop_filter(args: &CropArgs) -> (r: String)
    ensures
        r@ == crop_filter_text(*args),
{
    let mut s = String::from_str("crop=");
    push_i64(&mut s, args.width);
    s.append(":");
    push_i64(&mut s, args.height);
    s.append(":");
    push_i64(&mut s, args.x);
    s.append(":");
    push_i64(&mut s, args.y);
    s
}

/// Kind of an uploaded medium.
#[derive(Debug, Clone, Copy, PartialEq, Eq, Structural)]
pub enum MediaType {
    Image,
    Video,
}

impl MediaType {
    /// The kind as stored and sent: `image` or `video`.
    pub open spec fn text(self) -> Seq<char> {
        match self {
            MediaType::Image => "image"@,
            MediaType::Video => "video"@,
        }
    }

    /// The kind a text names, if any.
    pub open spec fn named(s: Seq<char>) -> Option<MediaType> {
        if s == "image"@ {
            Some(MediaType::Image)
        } else if s == "video"@ {
            Some(MediaType::Video)
        } else {
            None
        }
    }

    /// The kind as stored and sent.
    pub fn to_string(&self) -> (r: String)
        ensures
            r@ == self.text(),
    {
        match self {
            MediaType::Image => String::from_str("image"),
            MediaType::Video => String::from_str("video"),
        }
    }

    /// Reads a kind from its text; any other text is refused.
    pub fn from_str(s: &str) -> (r: Result<MediaType, ()>)
        ensures
            match MediaType::named(s@) {
                Some(t) => r == Ok::<MediaType, ()>(t),
                None => r is Err,
            },
    {
        if str_eq(s, "image") {
            Ok(MediaType::Image)
        } else if str_eq(s, "video") {
            Ok(MediaType::Video)
        } else {
            Err(())
        }
    }
}

/// Reading a kind back from its text gives the kind.
pub proof fn law_media_type_text_round_trip(t: MediaType)
    ensures
        MediaType::named(t.text()) == Some(t),
{
    reveal_strlit("image");
    reveal_strlit("video");
    assert("video"@[0] != "image"@[0]);
}

/// A text that reads as a kind is that kind's text.
pub proof fn law_media_type_named_is_text(s: Seq<char>)
    ensures
        MediaType::named(s) matches Some(t) ==> t.text() == s,
{
}

/// Error codes of the media API.
#[derive(Debug, Clone, Copy, PartialEq, Eq, Structural)]
pub enum MediaErrorCode {
    InternalServerError,
}

impl MediaErrorCode {
    /// The code as the API writes it.
    pub fn to_string(&self) -> (r: String)
        ensures
            r@ == "Internal Server Error"@,
    {
        String::from_str("Internal Server Error")
    }
}

/// Failure to store an uploaded medium.
#[derive(Debug)]
pub enum CreateMediaError {
    Database(StoreError),
    Unknown,
}

impl CreateMediaError {
    /// The message of the error.
    pub fn to_string(&self) -> (r: String)
        ensures
            self is Database ==> r@ == "An error occurred with the request to the database"@,
            self is Unknown ==> r@ == "An unknown error has occurred"@,
    {
        match self {
            CreateMediaError::Database(_) => String::from_str(
                "An error occurred with the request to the database",
            ),
            CreateMediaError::Unknown => String::from_str("An unknown error has occurred"),
        }
    }
}


/// The parts of the upload form a medium comes in.
#[derive(Debug, Clone, Copy, PartialEq, Eq, Structural)]
pub enum MediaFormField {
    /// The file itself (`media`).
    Media,
    /// Its kind (`mediaType`).
    MediaType,
    /// Its duration in seconds (`mediaDuration`).
    MediaDuration,
    /// The crop rectangle as JSON (`crop`).
    Crop,
    /// Any other part, which is skipped.
    Other,
}

/// The form part a part name stands for.
pub fn form_field(name: &str) -> (r: MediaFormField)
    ensures
        r == (if name@ == "media"@ {
            MediaFormField::Media
        } else if name@ == "mediaType"@ {
            MediaFormField::MediaType
        } else if name@ == "mediaDuration"@ {
            MediaFormField::MediaDuration
        } else if name@ == "crop"@ {
            MediaFormField::Crop
        } else {
            MediaFormField::Other
        }),
{
    if str_eq(name, "media") {
        MediaFormField::Media
    } else if str_eq(name, "mediaType") {
        MediaFormField::MediaType
    } else if str_eq(name, "mediaDuration") {
        MediaFormField::MediaDuration
    } else if str_eq(name, "crop") {
        MediaFormField::Crop
    } else {
        MediaFormField::Other
    }
}

/// Where an uploaded file is staged: named by the second it arrived, with
/// the subtype of its content type as extension, under the announcement
/// key prefix.
pub fn staged_upload(arrived_secs: i64, subtype: String) -> (r: TmpFile)
    ensures
        r.filename@ == int_to_decimal(arrived_secs as int),
        r.filetype@ == subtype@,
        r.key@ == "announcement"@,
        r.path@ == tmp_path(int_to_decimal(arrived_secs as int), subtype@),
{
    TmpFile::new(i64_to_string(arrived_secs), subtype, String::from_str("announcement"))
}

/// Stages an upload arriving now: named by the present second.
pub fn stage_upload_now(subtype: String) -> (r: TmpFile)
    ensures
        exists|secs: int| 0 <= secs && #[trigger] int_to_decimal(secs) == r.filename@,
        r.filetype@ == subtype@,
        r.key@ == "announcement"@,
        r.path@ == tmp_path(r.filename@, subtype@),
{
    let t = now();
    staged_upload(t.secs, subtype)
}

/// Whether a text part carries no value (`null`).
pub fn is_null_part(text: &str) -> (r: bool)
    ensures
        r == (text@ == "null"@),
{
    str_eq(text, "null")
}

/// The medium and its kind once the form is read: both are required, the
/// file first.
pub fn finish_media_form(media: Option<TmpFile>, media_type: Option<MediaType>) -> (r: Result<(TmpFile, MediaType), String>)
    ensures
        media is None ==> (r matches Err(m) && m@ == "media is required"@),
        media is Some && media_type is None ==> (r matches Err(m) && m@ == "media type is required"@),
        media is Some && media_type is Some ==> (r matches Ok((rf, rt)) && rt == media_type->0 && rf.path@
            == media->0.path@ && rf.filename@ == media->0.filename@ && rf.filetype@ == media->0.filetype@
            && rf.key@ == media->0.key@),
{
    let file = match media {
        Some(f) => f,
        None => return Err(String::from_str("media is required")),
    };
    let kind = match media_type {
        Some(t) => t,
        None => return Err(String::from_str("media type is required")),
    };
    Ok((file, kind))
}
} // verus!
