use vstd::prelude::*;

verus! {

/// A conversation record.
pub struct Chat {
    pub id: String,
    pub title: String,
    pub created_at: String,
    pub updated_at: String,
}

/// Title given to a conversation when it is created.
pub open spec fn new_chat_title() -> Seq<char> {
    "New Chat"@
}

/// The offset that ends RFC 3339 text of a UTC time.
pub open spec fn utc_suffix() -> Seq<char> {
    "+00:00"@
}

/// `text` is RFC 3339 text of a UTC time as chrono writes it: it ends with
/// the offset `+00:00`.
pub open spec fn is_utc_timestamp(text: Seq<char>) -> bool {
    text.len() > utc_suffix().len() && text.subrange(
        text.len() - utc_suffix().len(),
        text.len() as int,
    ) == utc_suffix()
}

/// Relies on chrono's `Utc::now` and `DateTime::to_rfc3339`: the current UTC
/// time as RFC 3339 text, whose offset is written `+00:00` (never `Z`).
#[verifier::external_body]
fn now_rfc3339() -> (r: String)
    ensures
        is_utc_timestamp(r@),
{
    chrono::Utc::now().to_rfc3339()
}

/// A new conversation named "New Chat", created and updated now.
pub fn create_chat(chat_id: String) -> (r: Result<Chat, String>)
    ensures
        r is Ok,
        r matches Ok(c) ==> {
            &&& c.id == chat_id
            &&& c.title@ == new_chat_title()
            &&& c.created_at@ == c.updated_at@
            &&& is_utc_timestamp(c.created_at@)
        },
{
    let now = now_rfc3339();
    let updated_at = now.clone();
    Ok(Chat { id: chat_id, title: String::from_str("New Chat"), created_at: now, updated_at })
}

/// A reply assembled from streamed fragments.
pub struct ChatReply {
    content: String,
}

impl View for ChatReply {
    type V = Seq<char>;

    closed spec fn view(&self) -> Seq<char> {
        self.content@
    }
}

impl ChatReply {
    pub fn new() -> (r: ChatReply)
        ensures
            r@ == Seq::<char>::empty(),
    {
        ChatReply { content: String::new() }
    }

    /// Appends one streamed fragment.
    pub fn push_fragment(&mut self, fragment: &str)
        ensures
            final(self)@ == old(self)@ + fragment@,
    {
        self.content.append(fragment);
    }

    pub fn content(&self) -> (r: &str)
        ensures
            r@ == self@,
    {
        self.content.as_str()
    }

    pub fn into_content(self) -> (r: String)
        ensures
            r@ == self@,
    {
        self.content
    }
}

} // verus!
