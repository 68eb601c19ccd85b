//! The conversion job and the conversion of one file.
use vstd::prelude::*;
use vstd::string::*;
use crate::codec::{decodes, is_webp_container, transcode, CodecFailure};
use crate::paths::{has_file_name, names_file, output_location, output_path};

verus! {

/// The stage of the pipeline at which a conversion failed.
#[derive(Clone, Copy, Debug, PartialEq, Eq, Structural)]
pub enum ErrorKind {
    /// The source root is missing or an entry under it could not be read.
    Traversal,
    /// The file is not a valid image of a decodable format.
    Decode,
    /// The source path has no final segment to name the output after.
    NoFileName,
    /// The output directory could not be created.
    DirectoryCreate,
    /// The WebP encoding or the write of the result failed.
    Encode,
}

/// Words that introduce an error of each kind.
pub open spec fn kind_text(k: ErrorKind) -> Seq<char> {
    match k {
        ErrorKind::Traversal => "cannot traverse"@,
        ErrorKind::Decode => "cannot decode"@,
        ErrorKind::NoFileName => "no file name in"@,
        ErrorKind::DirectoryCreate => "cannot create directory"@,
        ErrorKind::Encode => "cannot encode or write"@,
    }
}

impl ErrorKind {
    /// Words that introduce an error of this kind.
    pub fn text(&self) -> (r: &'static str)
        ensures
            r@ == kind_text(*self),
    {
        match self {
            ErrorKind::Traversal => "cannot traverse",
            ErrorKind::Decode => "cannot decode",
            ErrorKind::NoFileName => "no file name in",
            ErrorKind::DirectoryCreate => "cannot create directory",
            ErrorKind::Encode => "cannot encode or write",
        }
    }
}

/// A failure of a conversion: its stage, the path concerned and the
/// underlying cause in words.
#[derive(Debug)]
pub struct ConvertError {
    pub kind: ErrorKind,
    pub path: String,
    pub cause: String,
}

impl ConvertError {
    pub fn new(kind: ErrorKind, path: &str, cause: &str) -> (r: ConvertError)
        ensures
            r.kind == kind,
            r.path@ == path@,
            r.cause@ == cause@,
    {
        ConvertError { kind, path: String::from_str(path), cause: String::from_str(cause) }
    }

    /// The error in one line: `<kind> <path>: <cause>`.
    pub fn describe(&self) -> (r: String)
        ensures
            r@ == kind_text(self.kind) + " "@ + self.path@ + ": "@ + self.cause@,
    {
        String::from_str(self.kind.text()).concat(" ").concat(self.path.as_str()).concat(
            ": ",
        ).concat(self.cause.as_str())
    }
}

/// The result of converting one file: the WebP data, the file to write it
/// to and the directory that must exist before the write.
pub struct WebPOutput {
    pub dir: String,
    pub file: String,
    pub bytes: Vec<u8>,
}

/// A conversion job: where the images are read and where the WebP files go.
pub struct WebPConverter {
    source_dir: String,
    output_dir: String,
}

impl WebPConverter {
    pub closed spec fn source(&self) -> Seq<char> {
        self.source_dir@
    }

    pub closed spec fn output(&self) -> Seq<char> {
        self.output_dir@
    }

    /// A job over the two roots. Nothing is checked or touched on disk.
    pub fn new(source_dir: &str, output_dir: &str) -> (r: WebPConverter)
        ensures
            r.source() == source_dir@,
            r.output() == output_dir@,
    {
        WebPConverter {
            source_dir: String::from_str(source_dir),
            output_dir: String::from_str(output_dir),
        }
    }

    pub fn source_dir(&self) -> (r: &str)
        ensures
            r@ == self.source(),
    {
        self.source_dir.as_str()
    }

    pub fn output_dir(&self) -> (r: &str)
        ensures
            r@ == self.output(),
    {
        self.output_dir.as_str()
    }

    /// What a conversion of the file at `path` comes to, given the outcome
    /// of transcoding its contents.
    pub fn conversion_result(
        &self,
        path: &str,
        transcoded: Result<Vec<u8>, (CodecFailure, String)>,
    ) -> (r: Result<WebPOutput, ConvertError>)
        ensures
            !has_file_name(path@) ==> (r matches Err(e) && e.kind == ErrorKind::NoFileName
                && e.path@ == path@),
            has_file_name(path@) ==> match transcoded {
                Ok(bytes) => (r matches Ok(o) && o.dir@ == self.output() && o.file@
                    == output_location(self.output(), path@) && o.bytes@ == bytes@),
                Err((stage, cause)) => (r matches Err(e) && e.path@ == path@ && e.cause@ == cause@
                    && e.kind == (if stage == CodecFailure::Decode {
                    ErrorKind::Decode
                } else {
                    ErrorKind::Encode
                })),
            },
    {
        match output_path(self.output_dir.as_str(), path) {
            None => Err(ConvertError::new(ErrorKind::NoFileName, path, "")),
            Some(file) => match transcoded {
                Ok(bytes) => Ok(
                    WebPOutput { dir: String::from_str(self.output_dir.as_str()), file, bytes },
                ),
                Err((stage, cause)) => {
                    let kind = match stage {
                        CodecFailure::Decode => ErrorKind::Decode,
                        CodecFailure::Encode => ErrorKind::Encode,
                    };
                    Err(ConvertError::new(kind, path, cause.as_str()))
                },
            },
        }
    }

    /// Converts one file whose contents have been read: decodes them,
    /// derives the output file from the file's base name alone and encodes
    /// the pixels as WebP. Nothing is decoded when the path names no file.
    pub fn convert_to_webp(&self, path: &str, contents: &[u8]) -> (r: Result<
        WebPOutput,
        ConvertError,
    >)
        ensures
            !has_file_name(path@) ==> (r matches Err(e) && e.kind == ErrorKind::NoFileName
                && e.path@ == path@),
            has_file_name(path@) && !decodes(contents@) ==> (r matches Err(e) && e.kind
                == ErrorKind::Decode && e.path@ == path@),
            has_file_name(path@) ==> match r {
                Ok(o) => o.dir@ == self.output() && o.file@ == output_location(
                    self.output(),
                    path@,
                ) && is_webp_container(o.bytes@),
                Err(e) => e.path@ == path@ && (e.kind == ErrorKind::Decode || e.kind
                    == ErrorKind::Encode) && (e.kind == ErrorKind::Decode <==> !decodes(
                    contents@,
                )),
            },
    {
        if !names_file(path) {
            return Err(ConvertError::new(ErrorKind::NoFileName, path, ""));
        }
        let transcoded = transcode(contents);
        self.conversion_result(path, transcoded)
    }
}

} // verus!
