//! Uploading media.

use crate::backend::{
    settle, settled, BlueskyApiError, ClientBackend, Decoded, HttpMethod, HttpRequest, RequestBody,
};
use crate::defs::embed::AspectRatio;
use crate::defs::Blob;
use image::GenericImageView;
use vstd::prelude::*;
use vstd::string::StringExecFns;

verus! {

/// The body of the answer to an upload.
#[derive(Debug)]
pub struct Response {
    pub blob: Blob,
}

/// `image::load_from_memory`, and `dimensions` of what it gives: the width
/// and height of the decoded image, or nothing where decoding fails.
/// Nothing is claimed of the result: what the bytes decode to also depends
/// on the decoders that are registered in the process.
#[verifier::external_body]
fn image_dimensions(bytes: &Vec<u8>) -> (size: Option<(u32, u32)>)
{
    image::load_from_memory(bytes.as_slice()).ok().map(|picture| picture.dimensions())
}

/// The aspect ratio of an image of the given size.
pub open spec fn ratio_of(size: Option<(u32, u32)>) -> Option<AspectRatio> {
    match size {
        Some((width, height)) => Some(AspectRatio { width, height }),
        None => None,
    }
}

/// The aspect ratio to send along with an image of the given size: its
/// width and height, or none where the size is not known.
pub fn ratio_from(size: Option<(u32, u32)>) -> (ratio: Option<AspectRatio>)
    ensures
        ratio == ratio_of(size),
{
    match size {
        Some((width, height)) => Some(AspectRatio { width, height }),
        None => None,
    }
}

/// The aspect ratio of the image that `bytes` hold, where they can be
/// decoded as an image. What comes back is whatever the decoder makes of
/// the bytes; `ratio_from` says what becomes of its answer.
pub(crate) fn aspect_ratio(bytes: &Vec<u8>) -> (ratio: Option<AspectRatio>)
{
    ratio_from(image_dimensions(bytes))
}

impl ClientBackend {
    /// The request that uploads `buffer` as an image.
    pub fn upload_blob_request(&self, buffer: Vec<u8>) -> (request: HttpRequest)
        ensures
            request.method == HttpMethod::Post,
            request.url@ == self.session().user_pds@ + "/xrpc/com.atproto.repo.uploadBlob"@,
            request.bearer is None,
            request.content_type matches Some(t) && t@ == "image/*"@,
            request.body == RequestBody::Bytes(buffer),
    {
        HttpRequest {
            method: HttpMethod::Post,
            url: self.user_url("/xrpc/com.atproto.repo.uploadBlob"),
            bearer: None,
            content_type: Some(String::from_str("image/*")),
            body: RequestBody::Bytes(buffer),
        }
    }

    /// Ends an upload: the descriptor that the service gave the blob.
    pub fn upload_blob(&self, reply: Result<Decoded<Response>, BlueskyApiError>) -> (result: Result<
        Blob,
        BlueskyApiError,
    >)
        ensures
            match settled(reply) {
                Ok(response) => result == Ok::<Blob, BlueskyApiError>(response.blob),
                Err(error) => result == Err::<Blob, BlueskyApiError>(error),
            },
    {
        match settle(reply) {
            Ok(response) => Ok(response.blob),
            Err(error) => Err(error),
        }
    }
}

} // verus!
