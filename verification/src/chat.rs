//! Chat completions, as far as the library reads them, and how they are wiped.

use vstd::prelude::*;

use crate::crypto;
use crate::jobs::Usage;

verus! {

/// A part of a message of several parts.
pub enum ContentPart {
    Text { text: String },
    ImageUrl { url: String, detail: Option<String> },
}

impl ContentPart {
    pub open spec fn is_wiped(self) -> bool {
        match self {
            ContentPart::Text { text } => text@.len() == 0,
            ContentPart::ImageUrl { url, detail } => url@.len() == 0 && is_wiped_option(detail),
        }
    }
}

/// What a message holds.
pub enum MessageContent {
    Text(String),
    Parts(Vec<ContentPart>),
}

impl MessageContent {
    /// How many parts the message has, unless it is a plain text.
    pub open spec fn parts(self) -> Option<nat> {
        match self {
            MessageContent::Text(_) => None,
            MessageContent::Parts(parts) => Some(parts@.len()),
        }
    }

    pub open spec fn is_wiped(self) -> bool {
        match self {
            MessageContent::Text(text) => text@.len() == 0,
            MessageContent::Parts(parts) => forall|i: int|
                0 <= i < parts@.len() ==> (#[trigger] parts@[i]).is_wiped(),
        }
    }
}

/// One answer of a chat completion.
pub struct ChatChoice {
    pub content: MessageContent,
    pub name: Option<String>,
    pub tool_call_id: Option<String>,
}

impl ChatChoice {
    pub open spec fn is_wiped(self) -> bool {
        self.content.is_wiped() && is_wiped_option(self.name) && is_wiped_option(
            self.tool_call_id,
        )
    }
}

/// A chat completion.
pub struct ChatCompletionsResponse {
    pub id: String,
    pub object: String,
    pub model: String,
    pub system_fingerprint: Option<String>,
    pub choices: Vec<ChatChoice>,
    pub usage: Usage,
}

impl ChatCompletionsResponse {
    pub open spec fn is_wiped(self) -> bool {
        &&& self.id@.len() == 0
        &&& self.object@.len() == 0
        &&& self.model@.len() == 0
        &&& is_wiped_option(self.system_fingerprint)
        &&& forall|i: int| 0 <= i < self.choices@.len() ==> (#[trigger] self.choices@[i]).is_wiped()
    }

    /// Overwrites every text of the completion.
    pub fn zeroize_owned(&mut self)
        ensures
            final(self).is_wiped(),
            final(self).choices@.len() == old(self).choices@.len(),
    {
        crypto::wipe_text(&mut self.id);
        crypto::wipe_text(&mut self.object);
        crypto::wipe_text(&mut self.model);
        wipe_option(&mut self.system_fingerprint);
        let ghost total = self.choices@.len();
        let mut i: usize = 0;
        while i < self.choices.len()
            invariant
                i <= self.choices@.len(),
                self.choices@.len() == total,
                self.id@.len() == 0,
                self.object@.len() == 0,
                self.model@.len() == 0,
                is_wiped_option(self.system_fingerprint),
                forall|j: int| 0 <= j < i ==> (#[trigger] self.choices@[j]).is_wiped(),
            decreases total - i,
        {
            let mut choice = ChatChoice {
                content: MessageContent::Text(String::new()),
                name: None,
                tool_call_id: None,
            };
            std::mem::swap(&mut self.choices[i], &mut choice);
            zeroize_message_content(&mut choice.content);
            wipe_option(&mut choice.name);
            wipe_option(&mut choice.tool_call_id);
            self.choices.set(i, choice);
            i += 1;
        }
    }
}

/// A text that is missing, or was overwritten.
pub open spec fn is_wiped_option(text: Option<String>) -> bool {
    text matches Some(text) ==> text@.len() == 0
}

fn wipe_option(text: &mut Option<String>)
    ensures
        is_wiped_option(*final(text)),
        *final(text) is Some <==> *old(text) is Some,
{
    let mut taken: Option<String> = None;
    std::mem::swap(&mut taken, text);
    if let Some(held) = taken {
        let mut held = held;
        crypto::wipe_text(&mut held);
        *text = Some(held);
    }
}

/// Overwrites every text of a message, in whatever part it stands.
pub fn zeroize_message_content(content: &mut MessageContent)
    ensures
        final(content).is_wiped(),
        final(content).parts() == old(content).parts(),
{
    let mut taken = MessageContent::Parts(Vec::new());
    std::mem::swap(&mut taken, content);
    match taken {
        MessageContent::Text(text) => {
            let mut text = text;
            crypto::wipe_text(&mut text);
            *content = MessageContent::Text(text);
        },
        MessageContent::Parts(parts) => {
            let mut parts = parts;
            let ghost total = parts@.len();
            let mut i: usize = 0;
            while i < parts.len()
                invariant
                    i <= parts@.len(),
                    parts@.len() == total,
                    forall|j: int| 0 <= j < i ==> (#[trigger] parts@[j]).is_wiped(),
                decreases total - i,
            {
                let mut part = ContentPart::Text { text: String::new() };
                std::mem::swap(&mut parts[i], &mut part);
                match part {
                    ContentPart::Text { text } => {
                        let mut text = text;
                        crypto::wipe_text(&mut text);
                        parts.set(i, ContentPart::Text { text });
                    },
                    ContentPart::ImageUrl { url, detail } => {
                        let mut url = url;
                        let mut detail = detail;
                        crypto::wipe_text(&mut url);
                        wipe_option(&mut detail);
                        parts.set(i, ContentPart::ImageUrl { url, detail });
                    },
                }
                i += 1;
            }
            *content = MessageContent::Parts(parts);
        },
    }
}

/// A completion that was wiped holds no text anywhere: not in its marks, and in no part of any of
/// its answers.
pub proof fn wiped_completions_hold_no_text(response: ChatCompletionsResponse)
    requires
        response.is_wiped(),
    ensures
        response.id@.len() == 0 && response.object@.len() == 0 && response.model@.len() == 0,
        response.system_fingerprint matches Some(mark) ==> mark@.len() == 0,
        forall|i: int|
            0 <= i < response.choices@.len() ==> {
                &&& (#[trigger] response.choices@[i]).name matches Some(name) ==> name@.len() == 0
                &&& response.choices@[i].tool_call_id matches Some(call) ==> call@.len() == 0
                &&& response.choices@[i].content matches MessageContent::Text(said) ==> said@.len()
                    == 0
            },
        forall|i: int|
            0 <= i < response.choices@.len() ==> (
            (#[trigger] response.choices@[i]).content matches MessageContent::Parts(parts)
                ==> wiped_parts(parts@)),
{
    assert forall|i: int| 0 <= i < response.choices@.len() implies (
    (#[trigger] response.choices@[i]).content matches MessageContent::Parts(parts) ==> wiped_parts(
        parts@,
    )) by {
        assert(response.choices@[i].is_wiped());
        if let MessageContent::Parts(parts) = response.choices@[i].content {
            assert forall|k: int| 0 <= k < parts@.len() implies match #[trigger] parts@[k] {
                ContentPart::Text { text } => text@.len() == 0,
                ContentPart::ImageUrl { url, detail } => url@.len() == 0 && (detail matches Some(
                    detail,
                ) ==> detail@.len() == 0),
            } by {
                assert(parts@[k].is_wiped());
            }
        }
    }
    assert forall|i: int| 0 <= i < response.choices@.len() implies {
        &&& (#[trigger] response.choices@[i]).name matches Some(name) ==> name@.len() == 0
        &&& response.choices@[i].tool_call_id matches Some(call) ==> call@.len() == 0
        &&& response.choices@[i].content matches MessageContent::Text(said) ==> said@.len() == 0
    } by {
        assert(response.choices@[i].is_wiped());
    }
}

/// No part holds a text or an address.
pub open spec fn wiped_parts(parts: Seq<ContentPart>) -> bool {
    forall|k: int|
        0 <= k < parts.len() ==> match #[trigger] parts[k] {
            ContentPart::Text { text } => text@.len() == 0,
            ContentPart::ImageUrl { url, detail } => url@.len() == 0 && (detail matches Some(detail)
                ==> detail@.len() == 0),
        }
}

} // verus!
