//! Files staged on local disk before they go to object storage: where a
//! staged file lives, the name and object key it is stored under, the file
//! a crop produces, and the URLs and paths of the local storage backend.
use vstd::prelude::*;
use vstd::string::*;

use crate::media::{crop_filter_text, CropArgs};

verus! {

/// Failure while handling a staged file; each carries the message of the
/// underlying failure.
#[derive(Debug)]
pub enum TmpFileError {
    WriteError(String),
    RemoveError(String),
    CropError(String),
}

impl TmpFileError {
    /// The message the error carries.
    pub open spec fn message(&self) -> Seq<char> {
        match self {
            TmpFileError::WriteError(m) => m@,
            TmpFileError::RemoveError(m) => m@,
            TmpFileError::CropError(m) => m@,
        }
    }

    /// The message the error carries.
    pub fn to_string(&self) -> (r: String)
        ensures
            r@ == self.message(),
    {
        match self {
            TmpFileError::WriteError(m) => m.clone(),
            TmpFileError::RemoveError(m) => m.clone(),
            TmpFileError::CropError(m) => m.clone(),
        }
    }
}

/// A file staged under `./tmp` before upload: its base name, its type (the
/// extension), the key prefix it is stored under and its local path.
#[derive(Debug, Clone)]
pub struct TmpFile {
    pub filename: String,
    pub filetype: String,
    pub key: String,
    pub path: String,
}

/// `<filename>.<filetype>`.
pub open spec fn file_name(filename: Seq<char>, filetype: Seq<char>) -> Seq<char> {
    filename + "."@ + filetype
}

/// Where a staged file lives: `./tmp/<filename>.<filetype>`.
pub open spec fn tmp_path(filename: Seq<char>, filetype: Seq<char>) -> Seq<char> {
    "./tmp/"@ + file_name(filename, filetype)
}

/// `<a><sep><b>` built in a fresh `String`.
fn joined(a: &str, sep: &str, b: &str) -> (r: String)
    ensures
        r@ == a@ + sep@ + b@,
{
    let mut s = String::from_str(a);
    s.append(sep);
    s.append(b);
    s
}

impl TmpFile {
    /// A staged file for `filename.filetype`, stored under the key prefix
    /// `key`.
    pub fn new(filename: String, filetype: String, key: String) -> (r: TmpFile)
        ensures
            r.filename@ == filename@,
            r.filetype@ == filetype@,
            r.key@ == key@,
            r.path@ == tmp_path(filename@, filetype@),
    {
        let mut path = String::from_str("./tmp/");
        path.append(filename.as_str());
        path.append(".");
        path.append(filetype.as_str());
        proof {
            assert(path@ == tmp_path(filename@, filetype@));
        }
        TmpFile { path, filename, filetype, key }
    }

    /// The file's name: `<filename>.<filetype>`.
    pub fn name(&self) -> (r: String)
        ensures
            r@ == file_name(self.filename@, self.filetype@),
    {
        joined(self.filename.as_str(), ".", self.filetype.as_str())
    }

    /// The object key: `<key>/<filename>.<filetype>`.
    pub fn key(&self) -> (r: String)
        ensures
            r@ == self.key@ + "/"@ + file_name(self.filename@, self.filetype@),
    {
        let mut s = joined(self.key.as_str(), "/", self.filename.as_str());
        s.append(".");
        s.append(self.filetype.as_str());
        proof {
            assert(s@ == self.key@ + "/"@ + file_name(self.filename@, self.filetype@));
        }
        s
    }

    /// The file a crop writes: same type and key prefix, the name suffixed
    /// with `_cropped`, staged under `./tmp`.
    pub fn cropped(&self) -> (r: TmpFile)
        ensures
            r.filename@ == self.filename@ + "_cropped"@,
            r.filetype@ == self.filetype@,
            r.key@ == self.key@,
            r.path@ == tmp_path(self.filename@ + "_cropped"@, self.filetype@),
    {
        let mut filename = self.filename.clone();
        filename.append("_cropped");
        TmpFile::new(filename, self.filetype.clone(), self.key.clone())
    }

    /// The ffmpeg video filter that crops this file to `args`.
    pub fn crop_filter(&self, args: &CropArgs) -> (r: String)
        ensures
            r@ == crop_filter_text(*args),
    {
        crate::media::crop_filter(args)
    }
}

/// Failure of the object storage; each carries the message of the
/// underlying failure.
#[derive(Debug)]
pub enum CloudStorageError {
    PresignedRequestError(String),
    ReadFileError(String),
    UploadError(String),
    DeleteFileError(String),
}

impl CloudStorageError {
    /// The message the error carries.
    pub open spec fn message(&self) -> Seq<char> {
        match self {
            CloudStorageError::PresignedRequestError(m) => m@,
            CloudStorageError::ReadFileError(m) => m@,
            CloudStorageError::UploadError(m) => m@,
            CloudStorageError::DeleteFileError(m) => m@,
        }
    }

    /// The message the error carries.
    pub fn to_string(&self) -> (r: String)
        ensures
            r@ == self.message(),
    {
        match self {
            CloudStorageError::PresignedRequestError(m) => m.clone(),
            CloudStorageError::ReadFileError(m) => m.clone(),
            CloudStorageError::UploadError(m) => m.clone(),
            CloudStorageError::DeleteFileError(m) => m.clone(),
        }
    }
}

/// Object storage on the local disk, served from `base_url`.
#[derive(Debug, Clone)]
pub struct LocalAdapter {
    pub base_url: String,
}

impl LocalAdapter {
    /// A local storage served from `base_url`.
    pub fn new(base_url: String) -> (r: LocalAdapter)
        ensures
            r.base_url@ == base_url@,
    {
        LocalAdapter { base_url }
    }

    /// The URL of the object stored under `key`: `<base_url>/<key>`.
    pub fn get_object(&self, key: &str) -> (r: Result<String, CloudStorageError>)
        ensures
            r matches Ok(url) && url@ == self.base_url@ + "/"@ + key@,
    {
        Ok(joined(self.base_url.as_str(), "/", key))
    }

    /// The directory an upload of `file` goes to: `./static/<key>`.
    pub fn static_dir(file: &TmpFile) -> (r: String)
        ensures
            r@ == "./static/"@ + file.key@,
    {
        let mut s = String::from_str("./static/");
        s.append(file.key.as_str());
        s
    }

    /// The path an upload of `file` is written to:
    /// `./static/<key>/<filename>.<filetype>`.
    pub fn static_path(file: &TmpFile) -> (r: String)
        ensures
            r@ == "./static/"@ + file.key@ + "/"@ + file_name(file.filename@, file.filetype@),
    {
        let mut s = LocalAdapter::static_dir(file);
        s.append("/");
        let name = file.name();
        s.append(name.as_str());
        proof {
            assert(s@ == "./static/"@ + file.key@ + "/"@ + file_name(file.filename@, file.filetype@));
        }
        s
    }
}

} // verus!
