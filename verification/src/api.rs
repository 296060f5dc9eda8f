//! Uploading a paste: build the payload, hand it to the transport once, and
//! classify what comes back.

use crate::attributes::{ExpirationDate, VisibilityLevel};
use crate::error::{outcome_view, ErrorView, PastebinError};
use crate::request::{checked_payload, text_of, PasteRequest, Text};
use crate::response::{classify_reply, reply_outcome, reply_view};
use vstd::prelude::*;

verus! {

/// A copy of an optional string.
fn copy_optional(value: &Option<String>) -> (r: Option<String>)
    ensures
        text_of(r) == text_of(*value),
{
    match value {
        Some(s) => Some(s.clone()),
        None => None,
    }
}

/// The credential under which pastes are created.
pub struct PastebinApi {
    api_key: String,
}

impl PastebinApi {
    /// The credential as text.
    pub closed spec fn key(&self) -> Text {
        self.api_key@
    }

    /// An uploader that presents `api_key` to the service. The key is taken
    /// as it is.
    pub fn new(api_key: String) -> (r: PastebinApi)
        ensures
            r.key() == api_key@,
    {
        PastebinApi { api_key }
    }

    /// The payload that uploading this paste would send, or the reason why
    /// nothing would be sent.
    pub fn request(
        &self,
        paste_name: Option<String>,
        visibility: Option<VisibilityLevel>,
        text: String,
        format: Option<String>,
        expire_date: Option<ExpirationDate>,
    ) -> (r: Result<PasteRequest, PastebinError>)
        ensures
            match checked_payload(
                self.key(),
                text@,
                text_of(paste_name),
                visibility,
                text_of(format),
                expire_date,
            ) {
                Ok(fields) => r matches Ok(request) && request@ == fields,
                Err(error) => r matches Err(e) && e@ == error,
            },
    {
        PasteRequest::build(
            self.api_key.clone(),
            text,
            paste_name,
            visibility,
            format,
            expire_date,
        )
    }

    /// Uploads a paste. The content is checked first; where it is refused,
    /// `send` is not called. Otherwise `send` is called once with the
    /// payload and what it hands back is classified: `Ok` with the body of
    /// the reply, `Err` with a rendering of the transport's failure.
    pub fn upload<F: FnOnce(PasteRequest) -> Result<String, String>>(
        &self,
        paste_name: Option<String>,
        visibility: Option<VisibilityLevel>,
        text: String,
        format: Option<String>,
        expire_date: Option<ExpirationDate>,
        send: F,
    ) -> (r: Result<String, PastebinError>)
        requires
            forall|request: PasteRequest|
                checked_payload(
                    self.key(),
                    text@,
                    text_of(paste_name),
                    visibility,
                    text_of(format),
                    expire_date,
                ) == Ok::<Map<Text, Text>, ErrorView>(request@) ==> send.requires(
                    (request,),
                ),
        ensures
            match checked_payload(
                self.key(),
                text@,
                text_of(paste_name),
                visibility,
                text_of(format),
                expire_date,
            ) {
                Ok(fields) => exists|request: PasteRequest, reply: Result<String, String>|
                    request@ == fields && #[trigger] send.ensures((request,), reply)
                        && outcome_view(r) == reply_outcome(reply_view(reply)),
                Err(error) => outcome_view(r) == Err::<Text, ErrorView>(error),
            },
    {
        match self.request(paste_name, visibility, text, format, expire_date) {
            Ok(request) => {
                let ghost sent = request;
                let reply = send(request);
                let r = classify_reply(reply);
                assert(send.ensures((sent,), reply) && outcome_view(r) == reply_outcome(
                    reply_view(reply),
                ));
                r
            },
            Err(error) => Err(error),
        }
    }
}

/// The attributes of one paste as contracts speak of them.
pub struct PasteView {
    pub api_key: Text,
    pub paste_name: Option<Text>,
    pub visibility: Option<VisibilityLevel>,
    pub text: Text,
    pub format: Option<Text>,
    pub expire_date: Option<ExpirationDate>,
}

/// A paste with its credential and all its attributes, ready to be uploaded
/// later.
pub struct PastebinBuilder {
    api: PastebinApi,
    paste_name: Option<String>,
    visibility: Option<VisibilityLevel>,
    text: String,
    format: Option<String>,
    expire_date: Option<ExpirationDate>,
}

impl View for PastebinBuilder {
    type V = PasteView;

    closed spec fn view(&self) -> PasteView {
        PasteView {
            api_key: self.api.key(),
            paste_name: text_of(self.paste_name),
            visibility: self.visibility,
            text: self.text@,
            format: text_of(self.format),
            expire_date: self.expire_date,
        }
    }
}

impl PastebinBuilder {
    /// Keeps the credential and the attributes as they are given; nothing is
    /// checked before the upload.
    pub fn new(
        api_key: String,
        text: String,
        paste_name: Option<String>,
        visibility: Option<VisibilityLevel>,
        format: Option<String>,
        expire_date: Option<ExpirationDate>,
    ) -> (r: PastebinBuilder)
        ensures
            r@ == (PasteView {
                api_key: api_key@,
                paste_name: text_of(paste_name),
                visibility,
                text: text@,
                format: text_of(format),
                expire_date,
            }),
    {
        PastebinBuilder {
            api: PastebinApi::new(api_key),
            paste_name,
            visibility,
            text,
            format,
            expire_date,
        }
    }

    /// Uploads the paste through `send`, as `PastebinApi::upload` does with
    /// the attributes kept here.
    pub fn execute<F: FnOnce(PasteRequest) -> Result<String, String>>(&self, send: F) -> (r:
        Result<String, PastebinError>)
        requires
            forall|request: PasteRequest|
                checked_payload(
                    self@.api_key,
                    self@.text,
                    self@.paste_name,
                    self@.visibility,
                    self@.format,
                    self@.expire_date,
                ) == Ok::<Map<Text, Text>, ErrorView>(request@) ==> send.requires(
                    (request,),
                ),
        ensures
            match checked_payload(
                self@.api_key,
                self@.text,
                self@.paste_name,
                self@.visibility,
                self@.format,
                self@.expire_date,
            ) {
                Ok(fields) => exists|request: PasteRequest, reply: Result<String, String>|
                    request@ == fields && #[trigger] send.ensures((request,), reply)
                        && outcome_view(r) == reply_outcome(reply_view(reply)),
                Err(error) => outcome_view(r) == Err::<Text, ErrorView>(error),
            },
    {
        self.api.upload(
            copy_optional(&self.paste_name),
            self.visibility,
            self.text.clone(),
            copy_optional(&self.format),
            self.expire_date,
            send,
        )
    }
}

} // verus!
