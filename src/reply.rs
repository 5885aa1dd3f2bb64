use vstd::prelude::*;
use crate::pipeline::{render, rendered, PipelineError};

verus! {

/// The body of an HTTP reply.
#[derive(Debug)]
pub enum ReplyBody {
    Image(Vec<u8>),
    Text(String),
}

/// An HTTP reply: status code, content type and body.
#[derive(Debug)]
pub struct Reply {
    pub status: u16,
    pub content_type: String,
    pub body: ReplyBody,
}

/// The message a client sees for a failure: it names the kind, never the cause.
pub open spec fn error_message(e: PipelineError) -> Seq<char> {
    match e {
        PipelineError::IO(_) => "Failed during IO image"@,
        PipelineError::Load(_) => "Failed to load image"@,
        PipelineError::Encode(_) => "Failed to encode image"@,
    }
}

impl PipelineError {
    /// The message that names this failure's kind.
    pub fn message(&self) -> (r: String)
        ensures
            r@ == error_message(*self),
    {
        match self {
            PipelineError::IO(_) => "Failed during IO image".to_owned(),
            PipelineError::Load(_) => "Failed to load image".to_owned(),
            PipelineError::Encode(_) => "Failed to encode image".to_owned(),
        }
    }

    /// The reply for this failure: status 500 with a plain-text message.
    pub fn into_response(self) -> (r: Reply)
        ensures
            r.status == 500,
            r.content_type@ == "text/plain; charset=utf-8"@,
            r.body is Text && r.body->Text_0@ == error_message(self),
    {
        let message = self.message();
        Reply {
            status: 500,
            content_type: "text/plain; charset=utf-8".to_owned(),
            body: ReplyBody::Text(message),
        }
    }
}

/// The reply for one request's pipeline outcome: the JPEG bytes with status
/// 200, or the failure's reply.
pub fn reply_for(outcome: Result<Vec<u8>, PipelineError>) -> (r: Reply)
    ensures
        outcome is Ok ==> r.status == 200 && r.content_type@ == "image/jpeg"@ && r.body
            == ReplyBody::Image(outcome->Ok_0),
        outcome is Err ==> r.status == 500 && r.content_type@ == "text/plain; charset=utf-8"@
            && r.body is Text && r.body->Text_0@ == error_message(outcome->Err_0),
{
    match outcome {
        Ok(bytes) => Reply {
            status: 200,
            content_type: "image/jpeg".to_owned(),
            body: ReplyBody::Image(bytes),
        },
        Err(e) => e.into_response(),
    }
}

/// The reply to one request for a random image, given what reading the
/// selected file gave and the configured thumbnail bound. A read failure
/// fails this request alone; nothing is retried. The failure message names
/// the kind of failure that rendering met.
pub fn art_reply(contents: Result<Vec<u8>, String>, resolution: u32) -> (r: Reply)
    requires
        resolution > 0,
    ensures
        contents is Err ==> r.status == 500 && r.body is Text && r.body->Text_0@
            == "Failed during IO image"@,
        contents is Ok ==> {
            let out = rendered(contents->Ok_0@, resolution);
            &&& out is None ==> r.status == 500 && r.body is Text && r.body->Text_0@
                == "Failed to load image"@
            &&& out == Some(None::<Seq<u8>>) ==> r.status == 500 && r.body is Text
                && r.body->Text_0@ == "Failed to encode image"@
            &&& (out is Some && out->Some_0 is Some) ==> r.status == 200 && r.content_type@
                == "image/jpeg"@ && r.body is Image && r.body->Image_0@ == out->Some_0->Some_0
        },
{
    reply_for(render(contents, resolution))
}

} // verus!
