//! The upload handler: takes the parts of a multipart body one by one,
//! derives each file's key, asks for its put, and answers with the image of
//! the last file stored.

use crate::key::{build_key, object_key, Timestamp, OBJECT_KEY_PREFIX};
use crate::model::{EnvVars, Image, ImageView, Reply, Status, UploadResponse, UploadResponseView};
use crate::service::{
    error_text, get_aws_public_url, image_for, image_of, public_base, served_from, UPLOAD_FAILED,
};
use vstd::prelude::*;

verus! {

/// What the error of a part without a field name says after its opening.
pub const MISSING_NAME: &'static str = "multipart field has no name";

/// What the error of a part without a file name says after its opening.
pub const MISSING_FILE_NAME: &'static str = "multipart field has no file name";

/// One part of a multipart body as it was read: the field name and the file
/// name where the part declares them, and the payload.
#[derive(Clone, Debug, PartialEq, Eq)]
pub struct RawPart {
    pub name: Option<String>,
    pub file_name: Option<String>,
    pub bytes: Vec<u8>,
}

/// One file of an upload: the field name is its category.
#[derive(Clone, Debug, PartialEq, Eq)]
pub struct UploadedFile {
    pub category: String,
    pub file_name: String,
    pub bytes: Vec<u8>,
}

/// What reading the next part of the body gave: a part, the end of the body,
/// or the reason why the body could not be read.
#[derive(Clone, Debug, PartialEq, Eq)]
pub enum PartRead {
    Part(RawPart),
    End,
    Broken(String),
}

/// The access policy of a stored object.
#[derive(Clone, Copy, Debug, PartialEq, Eq, Structural)]
pub enum Acl {
    Private,
    PublicRead,
}

/// What to ask of the store for one file.
#[derive(Clone, Debug, PartialEq, Eq)]
pub struct PutCommand {
    pub bucket: String,
    pub key: String,
    pub body: Vec<u8>,
    pub acl: Acl,
}

/// What is wrong with a part, if anything: the field name is looked at
/// first, then the file name.
pub open spec fn part_defect(part: RawPart) -> Option<Seq<char>> {
    if part.name is None {
        Some(MISSING_NAME@)
    } else if part.file_name is None {
        Some(MISSING_FILE_NAME@)
    } else {
        None
    }
}

/// The envelope of a failed upload.
pub open spec fn upload_failure(text: Seq<char>) -> UploadResponseView {
    UploadResponseView { data: None, error: Some(text) }
}

impl UploadedFile {
    /// Takes a part as a file, or says what the part lacks.
    pub fn from_part(part: RawPart) -> (file: Result<UploadedFile, String>)
        ensures
            match part_defect(part) {
                Some(defect) => file matches Err(text) && text@ == defect,
                None => {
                    &&& file matches Ok(f)
                    &&& f.category@ == part.name->0@
                    &&& f.file_name@ == part.file_name->0@
                    &&& f.bytes@ == part.bytes@
                },
            },
    {
        let RawPart { name, file_name, bytes } = part;
        match name {
            None => Err(String::from_str(MISSING_NAME)),
            Some(category) => match file_name {
                None => Err(String::from_str(MISSING_FILE_NAME)),
                Some(file_name) => Ok(UploadedFile { category, file_name, bytes }),
            },
        }
    }
}

/// The reply that ends an upload in failure.
pub fn upload_failed(status: Status, context: &str, cause: &str) -> (reply: Reply<UploadResponse>)
    ensures
        reply.status == status,
        reply.body@ == upload_failure(context@ + cause@),
{
    Reply { status, body: UploadResponse { data: None, error: Some(error_text(context, cause)) } }
}

/// What the upload handler does next after reading a part.
#[derive(Debug)]
pub enum UploadStep {
    /// Put the object, and come back with the store's answer.
    Put { command: PutCommand, pending: PendingUpload },
    /// Send this reply; the upload is over.
    Respond(Reply<UploadResponse>),
}

/// What the upload handler does next after a put.
#[derive(Debug)]
pub enum PutStep {
    /// Read the next part, and come back with it.
    Continue(UploadSession),
    /// Send this reply; the upload is over.
    Respond(Reply<UploadResponse>),
}

/// An upload between two parts: where it stores, and the image of the last
/// file stored so far.
#[derive(Debug)]
pub struct UploadSession {
    bucket: String,
    base: String,
    last: Option<Image>,
}

/// An upload while the put of one file is under way.
#[derive(Debug)]
pub struct PendingUpload {
    bucket: String,
    base: String,
    image: Image,
}

impl UploadSession {
    #[verifier::type_invariant]
    spec fn well_formed(self) -> bool {
        self.last matches Some(image) ==> served_from(image@, self.base@)
    }

    /// The bucket that the files go to.
    pub closed spec fn bucket(&self) -> Seq<char> {
        self.bucket@
    }

    /// The public base URL that the images are seen from.
    pub closed spec fn base(&self) -> Seq<char> {
        self.base@
    }

    /// The image of the last file stored so far.
    pub closed spec fn last(&self) -> Option<ImageView> {
        self.last.deep_view()
    }

    /// Opens an upload: nothing stored yet.
    pub fn begin(env_vars: &EnvVars) -> (session: UploadSession)
        ensures
            session.bucket() == env_vars.bucket@,
            session.base() == public_base(env_vars.bucket@, env_vars.region@),
            session.last() is None,
    {
        UploadSession {
            bucket: env_vars.bucket.clone(),
            base: get_aws_public_url(env_vars),
            last: None,
        }
    }

    /// Takes what reading the next part gave; `now` is the instant at which
    /// the part had been read.
    ///
    /// A part that declares both names asks for one put: into the session's
    /// bucket, under the key built from the field name as category, the file
    /// name and `now`, with the part's payload, readable by everyone. The end
    /// of the body answers under status 200 with the image of the last file
    /// stored, or with no data where there was none. A part that lacks a name,
    /// and a body that cannot be read, answer with the failure under status
    /// 400; further parts are not looked at.
    pub fn next_part(self, part: PartRead, now: &Timestamp) -> (step: UploadStep)
        ensures
            match part {
                PartRead::Part(raw) => match part_defect(raw) {
                    Some(defect) => {
                        &&& step matches UploadStep::Respond(reply)
                        &&& reply.status == Status::BadRequest
                        &&& reply.body@ == upload_failure(UPLOAD_FAILED@ + defect)
                    },
                    None => {
                        &&& step matches UploadStep::Put { command, pending }
                        &&& command.bucket@ == self.bucket()
                        &&& command.key@ == object_key(
                            OBJECT_KEY_PREFIX@,
                            raw.name->0@,
                            raw.file_name->0@,
                            now@,
                        )
                        &&& command.body@ == raw.bytes@
                        &&& command.acl == Acl::PublicRead
                        &&& pending.bucket() == self.bucket()
                        &&& pending.base() == self.base()
                        &&& pending.image() == image_of(self.base(), command.key@)
                        &&& served_from(pending.image(), self.base())
                    },
                },
                PartRead::End => {
                    &&& step matches UploadStep::Respond(reply)
                    &&& reply.status == Status::Success
                    &&& reply.body@ == (UploadResponseView { data: self.last(), error: None })
                },
                PartRead::Broken(cause) => {
                    &&& step matches UploadStep::Respond(reply)
                    &&& reply.status == Status::BadRequest
                    &&& reply.body@ == upload_failure(UPLOAD_FAILED@ + cause@)
                },
            },
            step matches UploadStep::Respond(reply) ==> {
                &&& !(reply.body.data is Some && reply.body.error is Some)
                &&& reply.body@.data matches Some(image) ==> served_from(image, self.base())
            },
    {
        proof {
            use_type_invariant(&self);
        }
        match part {
            PartRead::Part(raw) => match UploadedFile::from_part(raw) {
                Err(defect) => UploadStep::Respond(
                    upload_failed(Status::BadRequest, UPLOAD_FAILED, defect.as_str()),
                ),
                Ok(file) => {
                    let UploadSession { bucket, base, last: _ } = self;
                    let key = build_key(
                        OBJECT_KEY_PREFIX,
                        file.category.as_str(),
                        file.file_name.as_str(),
                        now,
                    );
                    let command = PutCommand {
                        bucket: bucket.clone(),
                        key: key.clone(),
                        body: file.bytes,
                        acl: Acl::PublicRead,
                    };
                    let image = image_for(base.as_str(), key);
                    UploadStep::Put { command, pending: PendingUpload { bucket, base, image } }
                },
            },
            PartRead::End => UploadStep::Respond(
                Reply { status: Status::Success, body: UploadResponse { data: self.last, error: None } },
            ),
            PartRead::Broken(cause) => UploadStep::Respond(
                upload_failed(Status::BadRequest, UPLOAD_FAILED, cause.as_str()),
            ),
        }
    }
}

impl PendingUpload {
    #[verifier::type_invariant]
    spec fn well_formed(self) -> bool {
        served_from(self.image@, self.base@)
    }

    /// The bucket that the files go to.
    pub closed spec fn bucket(&self) -> Seq<char> {
        self.bucket@
    }

    /// The public base URL that the images are seen from.
    pub closed spec fn base(&self) -> Seq<char> {
        self.base@
    }

    /// The image of the file whose put is under way.
    pub closed spec fn image(&self) -> ImageView {
        self.image@
    }

    /// Takes the store's answer to the put.
    ///
    /// Success makes the file's image the last one stored and asks for the
    /// next part. An error ends the upload with the store's error under
    /// status 500: no further part is looked at, and nothing is said of the
    /// files stored before.
    pub fn put_finished(self, outcome: Result<(), String>) -> (step: PutStep)
        ensures
            match outcome {
                Ok(_) => {
                    &&& step matches PutStep::Continue(session)
                    &&& session.bucket() == self.bucket()
                    &&& session.base() == self.base()
                    &&& session.last() == Some(self.image())
                },
                Err(cause) => {
                    &&& step matches PutStep::Respond(reply)
                    &&& reply.status == Status::InternalServerError
                    &&& reply.body@ == upload_failure(UPLOAD_FAILED@ + cause@)
                },
            },
    {
        proof {
            use_type_invariant(&self);
        }
        match outcome {
            Ok(_) => {
                let PendingUpload { bucket, base, image } = self;
                PutStep::Continue(UploadSession { bucket, base, last: Some(image) })
            },
            Err(cause) => PutStep::Respond(
                upload_failed(Status::InternalServerError, UPLOAD_FAILED, cause.as_str()),
            ),
        }
    }
}

} // verus!
