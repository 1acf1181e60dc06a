//! The data model: a DeepSeek chat export, and the summaries and details
//! that the library derives from it.
use vstd::prelude::*;

verus! {

/// One exported conversation (`chat_*.json`).
#[derive(Debug)]
pub struct ChatHistory {
    pub data: ChatData,
}

/// The `data` member of an export.
#[derive(Debug)]
pub struct ChatData {
    pub biz_data: BizData,
}

/// The `biz_data` member of an export: the session and its messages.
#[derive(Debug)]
pub struct BizData {
    pub chat_session: ChatSession,
    pub chat_messages: Vec<ChatMessage>,
}

/// The session header of an export.
#[derive(Debug)]
pub struct ChatSession {
    pub id: String,
    pub title: Option<String>,
    /// The update time in whole seconds since the Unix epoch: the export's
    /// fractional timestamp converted with `as i64` (toward zero, saturating).
    pub updated_at: Option<i64>,
}

/// One message of a conversation.
#[derive(Debug)]
pub struct ChatMessage {
    pub message_id: i64,
    pub parent_id: Option<i64>,
    pub role: String,
    pub fragments: Vec<Fragment>,
}

/// One fragment of a message (`REQUEST`, `TEXT`, `THINK`, ...).
#[derive(Debug)]
pub struct Fragment {
    pub frag_type: String,
    pub content: String,
}

/// What the overview lists of one session.
#[derive(Debug)]
pub struct SessionSummary {
    pub title: String,
    pub updated_at: String,
    /// The update time in whole seconds since the Unix epoch, by which the
    /// most recent sessions are chosen; `None` when unknown.
    pub updated_secs: Option<i64>,
    pub question_count: usize,
    pub sample_questions: Vec<String>,
    pub total_chars: usize,
}

/// One session with its conversation turns.
#[derive(Debug)]
pub struct SessionDetail {
    pub title: String,
    pub updated_at: String,
    pub turns: Vec<ConversationTurn>,
}

/// One turn of a conversation: who spoke, and what.
#[derive(Debug)]
pub struct ConversationTurn {
    pub role: String,
    pub content: String,
}

/// The mathematical value of a [`SessionSummary`].
pub ghost struct SummaryView {
    pub title: Seq<char>,
    pub updated_at: Seq<char>,
    pub updated_secs: Option<i64>,
    pub question_count: nat,
    pub sample_questions: Seq<Seq<char>>,
    pub total_chars: nat,
}

/// The mathematical value of a [`ConversationTurn`].
pub ghost struct TurnView {
    pub role: Seq<char>,
    pub content: Seq<char>,
}

/// The mathematical value of a [`SessionDetail`].
pub ghost struct DetailView {
    pub title: Seq<char>,
    pub updated_at: Seq<char>,
    pub turns: Seq<TurnView>,
}

impl View for SessionSummary {
    type V = SummaryView;

    open spec fn view(&self) -> SummaryView {
        SummaryView {
            title: self.title@,
            updated_at: self.updated_at@,
            updated_secs: self.updated_secs,
            question_count: self.question_count as nat,
            sample_questions: self.sample_questions@.map_values(|q: String| q@),
            total_chars: self.total_chars as nat,
        }
    }
}

impl View for ConversationTurn {
    type V = TurnView;

    open spec fn view(&self) -> TurnView {
        TurnView { role: self.role@, content: self.content@ }
    }
}

impl View for SessionDetail {
    type V = DetailView;

    open spec fn view(&self) -> DetailView {
        DetailView {
            title: self.title@,
            updated_at: self.updated_at@,
            turns: self.turns@.map_values(|t: ConversationTurn| t@),
        }
    }
}

} // verus!
