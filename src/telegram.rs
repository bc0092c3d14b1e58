//! The chat platform's messages and calls, as plain values.
use vstd::prelude::*;

verus! {

#[derive(Debug, Clone, Copy, PartialEq, Eq, Structural)]
pub enum ChatType {
    Private,
    Group,
    Supergroup,
    Channel,
}

/// The webhook registration.
pub struct SetWebhook {
    pub url: String,
}

#[derive(Debug, Clone, Copy, PartialEq, Eq, Structural)]
pub struct Chat {
    pub id: i64,
    pub chat_type: ChatType,
}

pub struct Message {
    pub message_id: Option<isize>,
    pub chat: Option<Chat>,
    pub text: Option<String>,
    pub reply_to_message: Option<Box<Message>>,
    pub video: Option<Video>,
}

pub struct Video {
    pub file_id: String,
}

pub struct Update {
    pub update_id: isize,
    pub message: Option<Message>,
}

pub struct LinkPreviewOptions {
    pub is_disabled: Option<bool>,
}

pub struct SendMessage {
    pub chat_id: i64,
    pub text: String,
    pub reply_to_message_id: Option<isize>,
    pub link_preview_options: Option<LinkPreviewOptions>,
}

pub struct EditMessageText {
    pub chat_id: i64,
    pub message_id: Option<isize>,
    pub text: String,
}

pub struct DeleteMessage {
    pub chat_id: i64,
    pub message_id: isize,
}

pub struct SendVideo {
    pub chat_id: i64,
    pub video: String,
    pub reply_to_message_id: Option<isize>,
    pub caption: Option<String>,
}

/// The envelope of the chat platform's answers.
pub enum Response<T> {
    Success { result: T },
    Failure { error_code: i64, description: String },
}

impl<T> Response<T> {
    /// The result, or the error's description.
    pub fn into_result(self) -> (r: Result<T, String>)
        ensures
            match self {
                Response::Success { result } => r == Ok::<T, String>(result),
                Response::Failure { description, .. } => r matches Err(d) && d@ == description@,
            },
    {
        match self {
            Response::Success { result } => Ok(result),
            Response::Failure { description, .. } => Err(description),
        }
    }
}

} // verus!
