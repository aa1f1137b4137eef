//! Requests to the AI completion service: where they go, what they carry
//! and what is kept of the answer.

use vstd::prelude::*;

use crate::text::{drop_trailing, is_char, trim_end_char};

verus! {

/// One message of a chat completion request.
#[derive(Clone, Debug)]
pub struct ChatMessage {
    pub role: String,
    pub content: String,
}

/// The largest answer asked for, in tokens.
pub const MAX_TOKENS: u32 = 1500;

/// The base URL of the service without trailing slashes.
pub fn normalized_base_url(base_url: &str) -> (r: String)
    ensures
        r@ == drop_trailing(base_url@, is_char('/')),
{
    String::from_str(trim_end_char(base_url, '/'))
}

/// The chat completion endpoint below a base URL.
pub fn completions_url(base_url: &str) -> (r: String)
    ensures
        r@ == base_url@ + "/chat/completions"@,
{
    let mut s = String::from_str(base_url);
    s.append("/chat/completions");
    s
}

/// The value of the `Authorization` header for an API key.
pub fn bearer_header(api_key: &str) -> (r: String)
    ensures
        r@ == "Bearer "@ + api_key@,
{
    let mut s = String::from_str("Bearer ");
    s.append(api_key);
    s
}

/// The messages of a reading request: the system prompt, then the user's
/// context.
pub fn reading_messages(system_prompt: &str, user_context: &str) -> (r: Vec<ChatMessage>)
    ensures
        r@.len() == 2,
        r@[0].role@ == "system"@,
        r@[0].content@ == system_prompt@,
        r@[1].role@ == "user"@,
        r@[1].content@ == user_context@,
{
    let mut v: Vec<ChatMessage> = Vec::new();
    v.push(ChatMessage { role: String::from_str("system"), content: String::from_str(system_prompt) });
    v.push(ChatMessage { role: String::from_str("user"), content: String::from_str(user_context) });
    v
}

/// What is said when the service gives no text.
pub open spec fn silence_text() -> Seq<char> {
    "Оракул сохранил молчание... Попробуйте повторить запрос позже."@
}

/// The interpretation in an answer whose choices carry the given contents:
/// the content of the first choice, or a fixed text when there is no
/// choice or the first has no content.
pub fn interpretation(contents: &Vec<Option<String>>) -> (r: String)
    ensures
        contents@.len() > 0 && contents@[0] is Some ==> r@ == contents@[0]->0@,
        !(contents@.len() > 0 && contents@[0] is Some) ==> r@ == silence_text(),
{
    if contents.len() > 0 {
        match &contents[0] {
            Some(c) => return c.clone(),
            None => {},
        }
    }
    String::from_str("Оракул сохранил молчание... Попробуйте повторить запрос позже.")
}

} // verus!
