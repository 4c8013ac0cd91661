use vstd::prelude::*;

verus! {

/// The other party of a conversation.
#[derive(Debug, Clone, PartialEq)]
pub struct ConversationCounterpart {
    pub name: String,
    pub image: Option<String>,
}

/// The latest message of a conversation, shortened.
#[derive(Debug, Clone, PartialEq)]
pub struct ConversationLastMessage {
    pub author_id: String,
    pub author_name: Option<String>,
    pub excerpt: String,
}

/// A conversation as the inbox lists it.
#[derive(Debug, Clone, PartialEq)]
pub struct ConversationRow {
    pub id: String,
    pub archived: bool,
    pub assigned_to: Option<String>,
    pub conversation_type: String,
    pub counterpart: Option<ConversationCounterpart>,
    pub created_at: String,
    pub direct: bool,
    pub last_message: Option<ConversationLastMessage>,
    pub last_message_at: String,
    pub muted: bool,
    pub needs_reply: bool,
    pub proposal_id: Option<String>,
    pub proposal_title: Option<String>,
    pub status: String,
    pub subject: Option<String>,
    pub unread_count: usize,
}

/// Someone taking part in a conversation.
#[derive(Debug, Clone, PartialEq)]
pub struct ConversationParticipant {
    pub id: Option<String>,
    pub name: Option<String>,
    pub is_organizer: bool,
}

/// One message of a conversation.
#[derive(Debug, Clone, PartialEq)]
pub struct ConversationMessage {
    pub id: String,
    pub author_id: String,
    pub author_name: Option<String>,
    pub body: String,
    pub created_at: String,
}

/// The reader's settings for a conversation.
#[derive(Debug, Clone, PartialEq)]
pub struct ConversationPreference {
    pub muted: bool,
    pub email_override: Option<String>,
}

/// The head of a conversation.
#[derive(Debug, Clone, PartialEq)]
pub struct ConversationDetail {
    pub id: String,
    pub subject: Option<String>,
    pub proposal_id: Option<String>,
}

/// A conversation with its messages and participants.
#[derive(Debug, Clone, PartialEq)]
pub struct GetConversationResult {
    pub conversation: ConversationDetail,
    pub messages: Vec<ConversationMessage>,
    pub participants: Vec<ConversationParticipant>,
    pub preference: Option<ConversationPreference>,
}

} // verus!
