//! Value types carried by the webhook that triggers a delivery job. The
//! HTTP layer deserialises into its own mirror of these and converts.

use vstd::prelude::*;

verus! {

pub struct TelegramWebhook {
    pub message: TelegramMessage,
}

pub struct TelegramMessage {
    pub chat: TelegramChat,
    pub from: TelegramFrom,
    pub text: Option<String>,
}

pub struct TelegramChat {
    pub id: i64,
}

pub struct TelegramFrom {
    pub id: i64,
}

} // verus!
