use vstd::prelude::*;

use crate::text::{chars_of, contains, has_str, join2, same_str, string_of, trim, trim_str};
use vstd::utf8::encode_utf8;

verus! {

/// One message of a conversation: its role (`system`, `user` or
/// `assistant`) and its text.
#[derive(Debug)]
pub struct ChatMessage {
    pub role: String,
    pub content: String,
}

/// A message as plain values: role, text.
pub type MessageModel = (Seq<char>, Seq<char>);

pub open spec fn message_view(m: ChatMessage) -> MessageModel {
    (m.role@, m.content@)
}

pub open spec fn message_views(v: Seq<ChatMessage>) -> Seq<MessageModel> {
    Seq::new(v.len(), |i: int| message_view(v[i]))
}

/// The most messages a conversation may hold.
pub const MAX_MESSAGES: usize = 50;

/// The most bytes of text a conversation may hold.
pub const MAX_TOTAL_CHARS: usize = 50000;

/// The length of a text in bytes of UTF-8, as `str::len` reports it.
pub open spec fn byte_len(s: Seq<char>) -> nat {
    (encode_utf8(s).len() as usize) as nat
}

/// The number of bytes of UTF-8 text in the messages `ms`.
pub open spec fn total_bytes(ms: Seq<ChatMessage>) -> nat
    decreases ms.len(),
{
    if ms.len() == 0 {
        0
    } else {
        total_bytes(ms.drop_last()) + byte_len(ms.last().content@)
    }
}

proof fn lemma_total_bytes_grows(ms: Seq<ChatMessage>, i: int)
    requires
        0 <= i <= ms.len(),
    ensures
        total_bytes(ms.subrange(0, i)) <= total_bytes(ms),
    decreases ms.len() - i,
{
    if i < ms.len() {
        lemma_total_bytes_grows(ms, i + 1);
        assert(ms.subrange(0, i + 1).drop_last() =~= ms.subrange(0, i));
    } else {
        assert(ms.subrange(0, i) =~= ms);
    }
}

/// Checks that a conversation is short enough to send: at most
/// `MAX_MESSAGES` messages, and at most `MAX_TOTAL_CHARS` bytes of text.
pub fn validate_conversation_length(messages: &[ChatMessage]) -> (r: Result<(), String>)
    ensures
        messages@.len() > MAX_MESSAGES ==> (r matches Err(e) && e@
            == "Conversation too long. Maximum 50 messages allowed."@),
        messages@.len() <= MAX_MESSAGES && total_bytes(messages@) > MAX_TOTAL_CHARS ==> (r matches Err(
            e,
        ) && e@ == "Conversation history too large. Please start a new conversation."@),
        messages@.len() <= MAX_MESSAGES && total_bytes(messages@) <= MAX_TOTAL_CHARS ==> r is Ok,
{
    if messages.len() > MAX_MESSAGES {
        return Err("Conversation too long. Maximum 50 messages allowed.".to_owned());
    }
    let mut total: usize = 0;
    let mut i: usize = 0;
    assert(messages@.subrange(0, 0) =~= Seq::<ChatMessage>::empty());
    while i < messages.len()
        invariant
            i <= messages@.len(),
            messages@.len() <= MAX_MESSAGES,
            total == total_bytes(messages@.subrange(0, i as int)),
            total <= MAX_TOTAL_CHARS,
        decreases messages.len() - i,
    {
        let n = messages[i].content.as_str().len();
        assert(messages@.subrange(0, i + 1).drop_last() =~= messages@.subrange(0, i as int));
        assert(messages@.subrange(0, i + 1).last() == messages@[i as int]);
        assert(n == byte_len(messages@[i as int].content@));
        if n > MAX_TOTAL_CHARS - total {
            proof {
                lemma_total_bytes_grows(messages@, i + 1);
            }
            return Err("Conversation history too large. Please start a new conversation.".to_owned());
        }
        total = total + n;
        i += 1;
    }
    assert(messages@.subrange(0, messages@.len() as int) =~= messages@);
    Ok(())
}

/// The role a message is sent under: `user` and `assistant` stay, any other
/// role is sent as `user`.
pub open spec fn normal_role(role: Seq<char>) -> Seq<char> {
    if role == "user"@ || role == "assistant"@ {
        role
    } else {
        "user"@
    }
}

/// The messages `ms` made fit to send, in order: empty ones dropped, text
/// trimmed, roles normalized, and a message dropped when it has the same
/// role as the last one kept, so that roles alternate.
pub open spec fn cleaned(ms: Seq<MessageModel>) -> Seq<MessageModel>
    decreases ms.len(),
{
    if ms.len() == 0 {
        Seq::empty()
    } else {
        let prev = cleaned(ms.drop_last());
        let m = ms.last();
        let role = normal_role(m.0);
        if trim(m.1).len() == 0 {
            prev
        } else if prev.len() > 0 && prev.last().0 == role {
            prev
        } else {
            prev.push((role, trim(m.1)))
        }
    }
}

/// Makes a message history fit to send: see `cleaned`. Fails when no
/// message is given, when none is left, or when the first one left is not
/// the user's.
pub fn clean_message_history(messages: Vec<ChatMessage>) -> (r: Result<Vec<ChatMessage>, String>)
    ensures
        messages@.len() == 0 ==> (r matches Err(e) && e@ == "No messages provided"@),
        messages@.len() > 0 && cleaned(message_views(messages@)).len() == 0 ==> (r matches Err(e)
            && e@ == "No valid messages after cleaning"@),
        messages@.len() > 0 && cleaned(message_views(messages@)).len() > 0 && cleaned(
            message_views(messages@),
        )[0].0 != "user"@ ==> (r matches Err(e) && e@ == "First message must be from user"@),
        messages@.len() > 0 && cleaned(message_views(messages@)).len() > 0 && cleaned(
            message_views(messages@),
        )[0].0 == "user"@ ==> (r matches Ok(c) && message_views(c@) == cleaned(
            message_views(messages@),
        )),
{
    if messages.len() == 0 {
        return Err("No messages provided".to_owned());
    }
    let ghost ms = message_views(messages@);
    let mut out: Vec<ChatMessage> = Vec::new();
    let mut i: usize = 0;
    assert(ms.subrange(0, 0) =~= Seq::<MessageModel>::empty());
    assert(message_views(out@) =~= Seq::<MessageModel>::empty());
    while i < messages.len()
        invariant
            i <= messages@.len(),
            ms == message_views(messages@),
            message_views(out@) == cleaned(ms.subrange(0, i as int)),
        decreases messages.len() - i,
    {
        assert(ms.subrange(0, i + 1).drop_last() =~= ms.subrange(0, i as int));
        assert(ms.subrange(0, i + 1).last() == message_view(messages@[i as int]));
        let m = &messages[i];
        let content = trim_str(m.content.as_str());
        if content.len() > 0 {
            let rv = chars_of(m.role.as_str());
            let role = if same_str(&rv, "user") || same_str(&rv, "assistant") {
                m.role.clone()
            } else {
                "user".to_owned()
            };
            let repeat = out.len() > 0 && same_str(
                &chars_of(role.as_str()),
                out[out.len() - 1].role.as_str(),
            );
            if !repeat {
                let ghost before = message_views(out@);
                let msg = ChatMessage { role, content: string_of(&content) };
                let ghost v = message_view(msg);
                out.push(msg);
                assert(message_views(out@) =~= before.push(v));
            }
        }
        i += 1;
    }
    assert(ms.subrange(0, messages.len() as int) =~= ms);
    if out.len() == 0 {
        return Err("No valid messages after cleaning".to_owned());
    }
    assert(message_views(out@)[0] == message_view(out@[0]));
    if !same_str(&chars_of(out[0].role.as_str()), "user") {
        return Err("First message must be from user".to_owned());
    }
    Ok(out)
}

/// The sentence for an HTTP error status of the assistant's service, given
/// the status as a number, the status as its `Display` writes it (code and
/// reason), and the body of the reply.
pub open spec fn status_error(status: u16, status_text: Seq<char>, body: Seq<char>) -> Seq<char> {
    if status == 400 {
        if contains(body, "model"@) || contains(body, "Model"@) {
            "Invalid model specified. Use 'sonar', 'sonar-pro', or 'sonar-reasoning'. Error: "@ + body
        } else if contains(body, "invalid_message"@) || contains(body, "message"@) {
            "Message format error. Your conversation may be too complex. Try starting a new chat or simplifying your question."@
        } else {
            "Bad request (400): "@ + body + ". Try rephrasing your question or starting a new chat."@
        }
    } else if status == 401 {
        "Invalid API key. Please check your PERPLEXITY_API_KEY in .env file."@
    } else if status == 429 {
        "Rate limit exceeded. Please wait a moment and try again."@
    } else if 500 <= status <= 599 {
        "Perplexity AI server error. Please try again later."@
    } else {
        "API error ("@ + status_text + "): "@ + body
    }
}

/// Explains an HTTP error status of the assistant's service.
pub fn chat_status_error(status: u16, status_text: &str, body: &str) -> (r: String)
    ensures
        r@ == status_error(status, status_text@, body@),
{
    let b = chars_of(body);
    if status == 400 {
        if has_str(&b, "model") || has_str(&b, "Model") {
            join2(
                "Invalid model specified. Use 'sonar', 'sonar-pro', or 'sonar-reasoning'. Error: ",
                body,
            )
        } else if has_str(&b, "invalid_message") || has_str(&b, "message") {
            "Message format error. Your conversation may be too complex. Try starting a new chat or simplifying your question.".to_owned()
        } else {
            let a = join2("Bad request (400): ", body);
            join2(a.as_str(), ". Try rephrasing your question or starting a new chat.")
        }
    } else if status == 401 {
        "Invalid API key. Please check your PERPLEXITY_API_KEY in .env file.".to_owned()
    } else if status == 429 {
        "Rate limit exceeded. Please wait a moment and try again.".to_owned()
    } else if 500 <= status && status <= 599 {
        "Perplexity AI server error. Please try again later.".to_owned()
    } else {
        let a = join2("API error (", status_text);
        let b2 = join2(a.as_str(), "): ");
        join2(b2.as_str(), body)
    }
}

/// The assistant's answer, from the content of its first choice if there
/// was one: an answer of white space only is refused.
pub fn chat_reply(content: Option<String>) -> (r: Result<String, String>)
    ensures
        match content {
            None => r matches Err(e) && e@ == "No response from Perplexity AI. Please try again."@,
            Some(c) => if trim(c@).len() == 0 {
                r matches Err(e) && e@
                    == "AI returned an empty response. Please rephrase your question."@
            } else {
                r == Ok::<String, String>(c)
            },
        },
{
    match content {
        None => Err("No response from Perplexity AI. Please try again.".to_owned()),
        Some(c) => {
            if trim_str(c.as_str()).len() == 0 {
                Err("AI returned an empty response. Please rephrase your question.".to_owned())
            } else {
                Ok(c)
            }
        },
    }
}

/// The line that names the user's device in the assistant's instructions.
pub fn device_context(device_name: Option<&str>) -> (r: String)
    ensures
        match device_name {
            Some(n) => r@ == "\n📱 CURRENT DEVICE: "@ + n@,
            None => r@.len() == 0,
        },
{
    match device_name {
        Some(n) => join2("\n📱 CURRENT DEVICE: ", n),
        None => String::new(),
    }
}

} // verus!
