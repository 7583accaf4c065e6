//! The data that crosses the gateway: store configuration, requests, the
//! client-facing image record and the `{data, error}` envelopes.

use vstd::prelude::*;

verus! {

/// Process-wide store configuration, read once at start-up and shared
/// read-only by every handler.
#[derive(Clone, Debug, PartialEq, Eq)]
pub struct EnvVars {
    pub region: String,
    pub bucket: String,
    pub bucket_url: String,
}

/// The variable that names the store's region.
pub const REGION_VAR: &'static str = "AWS_REGION";

/// The variable that names the bucket.
pub const BUCKET_VAR: &'static str = "AWS_S3_BUCKET";

/// The variable that holds the bucket's URL.
pub const BUCKET_URL_VAR: &'static str = "AWS_S3_BUCKET_URL";

/// What is said where the region is not set.
pub const REGION_MISSING: &'static str = "AWS_REGION not found - region not provided";

/// What is said where the bucket is not set.
pub const BUCKET_MISSING: &'static str = "AWS_S3_BUCKET not found - bucket name not provided";

/// What is said where the bucket's URL is not set.
pub const BUCKET_URL_MISSING: &'static str =
    "AWS_S3_BUCKET_URL not found - bucket url not provided";

/// The first of the three settings that is missing, by what is said of it:
/// the region is looked at first, then the bucket, then the bucket's URL.
pub open spec fn missing_setting(
    region: Option<String>,
    bucket: Option<String>,
    bucket_url: Option<String>,
) -> Option<Seq<char>> {
    if region is None {
        Some(REGION_MISSING@)
    } else if bucket is None {
        Some(BUCKET_MISSING@)
    } else if bucket_url is None {
        Some(BUCKET_URL_MISSING@)
    } else {
        None
    }
}

impl EnvVars {
    /// The configuration made of the values of the three variables, each as
    /// the environment holds it or `None` where it is not set. All three are
    /// required: the error names the first that is missing.
    pub fn from_vars(
        region: Option<String>,
        bucket: Option<String>,
        bucket_url: Option<String>,
    ) -> (out: Result<EnvVars, String>)
        ensures
            match missing_setting(region, bucket, bucket_url) {
                Some(complaint) => out matches Err(text) && text@ == complaint,
                None => {
                    &&& out matches Ok(env_vars)
                    &&& env_vars.region@ == region->0@
                    &&& env_vars.bucket@ == bucket->0@
                    &&& env_vars.bucket_url@ == bucket_url->0@
                },
            },
    {
        match region {
            None => Err(String::from_str(REGION_MISSING)),
            Some(region) => match bucket {
                None => Err(String::from_str(BUCKET_MISSING)),
                Some(bucket) => match bucket_url {
                    None => Err(String::from_str(BUCKET_URL_MISSING)),
                    Some(bucket_url) => Ok(EnvVars { region, bucket, bucket_url }),
                },
            },
        }
    }
}

/// A stored object as clients see it.
#[derive(Clone, Debug, PartialEq, Eq)]
pub struct Image {
    pub object_key: String,
    pub public_url: String,
}

/// The mathematical content of an [`Image`].
pub struct ImageView {
    pub object_key: Seq<char>,
    pub public_url: Seq<char>,
}

impl DeepView for Image {
    type V = ImageView;

    open spec fn deep_view(&self) -> ImageView {
        ImageView { object_key: self.object_key@, public_url: self.public_url@ }
    }
}

impl View for Image {
    type V = ImageView;

    open spec fn view(&self) -> ImageView {
        self.deep_view()
    }
}

impl Image {
    /// A copy with the same key and URL.
    pub fn duplicate(&self) -> (copy: Image)
        ensures
            copy@ == self@,
    {
        Image { object_key: self.object_key.clone(), public_url: self.public_url.clone() }
    }
}

/// The body of a delete call: the full object key to remove.
#[derive(Clone, Debug, PartialEq, Eq)]
pub struct DeleteRequest {
    pub file_name: String,
}

/// Envelope of the upload endpoint.
#[derive(Clone, Debug, PartialEq, Eq)]
pub struct UploadResponse {
    pub data: Option<Image>,
    pub error: Option<String>,
}

/// The mathematical content of an [`UploadResponse`].
pub struct UploadResponseView {
    pub data: Option<ImageView>,
    pub error: Option<Seq<char>>,
}

impl View for UploadResponse {
    type V = UploadResponseView;

    open spec fn view(&self) -> UploadResponseView {
        UploadResponseView { data: self.data.deep_view(), error: self.error.deep_view() }
    }
}

/// Envelope of the list endpoint.
#[derive(Clone, Debug, PartialEq, Eq)]
pub struct ListResponse {
    pub data: Vec<Image>,
    pub error: Option<String>,
}

/// The mathematical content of a [`ListResponse`].
pub struct ListResponseView {
    pub data: Seq<ImageView>,
    pub error: Option<Seq<char>>,
}

impl View for ListResponse {
    type V = ListResponseView;

    open spec fn view(&self) -> ListResponseView {
        ListResponseView { data: self.data.deep_view(), error: self.error.deep_view() }
    }
}

/// Envelope of the delete and liveness endpoints.
#[derive(Clone, Debug, PartialEq, Eq)]
pub struct StandardResponse {
    pub data: Option<String>,
    pub error: Option<String>,
}

/// The mathematical content of a [`StandardResponse`].
pub struct StandardResponseView {
    pub data: Option<Seq<char>>,
    pub error: Option<Seq<char>>,
}

impl View for StandardResponse {
    type V = StandardResponseView;

    open spec fn view(&self) -> StandardResponseView {
        StandardResponseView { data: self.data.deep_view(), error: self.error.deep_view() }
    }
}

/// The HTTP status a reply goes out with.
#[derive(Clone, Copy, Debug, PartialEq, Eq, Structural)]
pub enum Status {
    Success,
    BadRequest,
    InternalServerError,
}

impl Status {
    /// The numeric status code.
    pub open spec fn spec_code(self) -> u16 {
        match self {
            Status::Success => 200,
            Status::BadRequest => 400,
            Status::InternalServerError => 500,
        }
    }

    /// The numeric status code.
    #[verifier::when_used_as_spec(spec_code)]
    pub fn code(self) -> (code: u16)
        ensures
            code == self.spec_code(),
    {
        match self {
            Status::Success => 200,
            Status::BadRequest => 400,
            Status::InternalServerError => 500,
        }
    }
}

/// A terminal answer of a handler: the status and the envelope to send.
#[derive(Clone, Debug, PartialEq, Eq)]
pub struct Reply<T> {
    pub status: Status,
    pub body: T,
}

} // verus!
