//! What the handlers share: public URLs, error texts, and the delete and
//! liveness answers.

use crate::key::{prefix_marker, OBJECT_KEY_PREFIX};
use crate::model::{
    DeleteRequest, EnvVars, Image, ImageView, Reply, StandardResponse, StandardResponseView, Status,
};
use vstd::prelude::*;

verus! {

/// What opens the error of a failed upload, and of a failed listing.
pub const UPLOAD_FAILED: &'static str = "An error occured during image upload: ";

/// What opens the error of a failed delete.
pub const DELETE_FAILED: &'static str = "An error occured during file delete: ";

/// The confirmation of a delete.
pub const OBJECT_DELETED: &'static str = "Object deleted.";

/// The liveness greeting.
pub const GREETING: &'static str = "Hello World!";

/// The base of every public URL of a bucket in a region.
pub open spec fn public_base(bucket: Seq<char>, region: Seq<char>) -> Seq<char> {
    "https://"@ + bucket + ".s3."@ + region + ".amazonaws.com"@
}

/// The client-facing record of the object stored under `key`, with `base` as
/// the public base URL: the URL is the base, a slash and the key.
pub open spec fn image_of(base: Seq<char>, key: Seq<char>) -> ImageView {
    ImageView { object_key: key, public_url: base + seq!['/'] + key }
}

/// Whether `image` is the record of an object under the service's prefix,
/// as seen from `base`.
pub open spec fn served_from(image: ImageView, base: Seq<char>) -> bool {
    &&& image == image_of(base, image.object_key)
    &&& prefix_marker(OBJECT_KEY_PREFIX@).is_prefix_of(image.object_key)
    &&& image.object_key != prefix_marker(OBJECT_KEY_PREFIX@)
}

/// The public base URL of the configured bucket.
pub fn get_aws_public_url(env_vars: &EnvVars) -> (url: String)
    ensures
        url@ == public_base(env_vars.bucket@, env_vars.region@),
{
    let mut url = String::from_str("https://");
    url.append(env_vars.bucket.as_str());
    url.append(".s3.");
    url.append(env_vars.region.as_str());
    url.append(".amazonaws.com");
    url
}

/// The record of the object stored under `key`.
pub fn image_for(base: &str, key: String) -> (image: Image)
    ensures
        image@ == image_of(base@, key@),
{
    proof {
        reveal_strlit("/");
    }
    let mut public_url = String::from_str(base);
    public_url.append("/");
    public_url.append(key.as_str());
    assert("/"@ =~= seq!['/']);
    Image { object_key: key, public_url }
}

/// The text of an error: what the operation was, then the underlying cause.
pub fn error_text(context: &str, cause: &str) -> (text: String)
    ensures
        text@ == context@ + cause@,
{
    let mut text = String::from_str(context);
    text.append(cause);
    text
}

/// What to ask of the store for a delete.
#[derive(Clone, Debug, PartialEq, Eq)]
pub struct DeleteCommand {
    pub bucket: String,
    pub key: String,
}

/// The store call of a delete request: the configured bucket, and the
/// request's `file_name` taken as the full object key.
pub fn delete_command(env_vars: &EnvVars, request: &DeleteRequest) -> (command: DeleteCommand)
    ensures
        command.bucket@ == env_vars.bucket@,
        command.key@ == request.file_name@,
{
    DeleteCommand { bucket: env_vars.bucket.clone(), key: request.file_name.clone() }
}

/// The answer to a delete once the store has answered.
pub open spec fn delete_reply(outcome: Result<(), String>) -> (Status, StandardResponseView) {
    match outcome {
        Ok(_) => (
            Status::Success,
            StandardResponseView { data: Some(OBJECT_DELETED@), error: None },
        ),
        Err(cause) => (
            Status::InternalServerError,
            StandardResponseView { data: None, error: Some(DELETE_FAILED@ + cause@) },
        ),
    }
}

/// Turns the store's answer to a delete into the reply: the confirmation
/// where the store succeeded, else its error under status 500. Exactly one of
/// `data` and `error` is present.
pub fn delete_finished(outcome: Result<(), String>) -> (reply: Reply<StandardResponse>)
    ensures
        (reply.status, reply.body@) == delete_reply(outcome),
        reply.body.data is Some <==> reply.body.error is None,
        reply.status == Status::Success <==> outcome is Ok,
{
    match outcome {
        Ok(_) => Reply {
            status: Status::Success,
            body: StandardResponse { data: Some(String::from_str(OBJECT_DELETED)), error: None },
        },
        Err(cause) => Reply {
            status: Status::InternalServerError,
            body: StandardResponse {
                data: None,
                error: Some(error_text(DELETE_FAILED, cause.as_str())),
            },
        },
    }
}

/// The answer of the liveness endpoint.
pub fn liveness() -> (reply: Reply<StandardResponse>)
    ensures
        reply.status == Status::Success,
        reply.body@ == (StandardResponseView { data: Some(GREETING@), error: None }),
{
    Reply {
        status: Status::Success,
        body: StandardResponse { data: Some(String::from_str(GREETING)), error: None },
    }
}

} // verus!
