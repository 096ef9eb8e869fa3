//! The conversation: its messages, the calls inside them and what they cost.

use vstd::prelude::*;

use crate::map::{copy_all, views, Duplicate};
use crate::provider::opt_view;
use crate::text::{begins, own, starts_with};

verus! {

/// Who a message is from.
#[derive(Clone, Copy, Debug, PartialEq, Eq, Structural)]
pub enum Role {
    System,
    User,
    Assistant,
    Tool,
    Notice,
}

/// The tokens of one request.
#[derive(Clone, Copy, Debug, PartialEq, Eq, Structural)]
pub struct Usage {
    pub input: u64,
    pub output: u64,
    pub cache_read: u64,
    pub cache_write: u64,
    pub total: u64,
}

impl Default for Usage {
    fn default() -> (r: Usage)
        ensures
            r == no_usage(),
    {
        Usage { input: 0, output: 0, cache_read: 0, cache_write: 0, total: 0 }
    }
}

/// No tokens at all.
pub open spec fn no_usage() -> Usage {
    Usage { input: 0, output: 0, cache_read: 0, cache_write: 0, total: 0 }
}

/// One call the model asked for; the arguments are kept as the text of their object.
pub struct ToolCall {
    pub id: String,
    pub name: String,
    pub arguments: String,
}

/// What a [`ToolCall`] says.
pub struct CallView {
    pub id: Seq<char>,
    pub name: Seq<char>,
    pub arguments: Seq<char>,
}

impl View for ToolCall {
    type V = CallView;

    open spec fn view(&self) -> CallView {
        CallView { id: self.id@, name: self.name@, arguments: self.arguments@ }
    }
}

impl Duplicate for ToolCall {
    fn duplicate(&self) -> (r: ToolCall) {
        ToolCall {
            id: self.id.clone(),
            name: self.name.clone(),
            arguments: self.arguments.clone(),
        }
    }
}

/// One tool the model may call; the definition is kept as its text.
pub struct ToolDef {
    pub name: String,
    pub definition: String,
}

/// What a [`ToolDef`] says.
pub struct DefView {
    pub name: Seq<char>,
    pub definition: Seq<char>,
}

impl View for ToolDef {
    type V = DefView;

    open spec fn view(&self) -> DefView {
        DefView { name: self.name@, definition: self.definition@ }
    }
}

impl Duplicate for ToolDef {
    fn duplicate(&self) -> (r: ToolDef) {
        ToolDef { name: self.name.clone(), definition: self.definition.clone() }
    }
}

/// A file that travels with a message.
pub struct Attachment {
    pub filename: String,
    pub mime_type: String,
    pub data: Vec<u8>,
}

/// What an [`Attachment`] holds.
pub struct FileView {
    pub filename: Seq<char>,
    pub mime_type: Seq<char>,
    pub data: Seq<u8>,
}

impl View for Attachment {
    type V = FileView;

    open spec fn view(&self) -> FileView {
        FileView { filename: self.filename@, mime_type: self.mime_type@, data: self.data@ }
    }
}

/// A copy of a list of bytes.
pub fn copy_bytes(v: &Vec<u8>) -> (r: Vec<u8>)
    ensures
        r@ == v@,
{
    let mut r: Vec<u8> = Vec::new();
    for i in 0..v.len()
        invariant
            r@ == v@.take(i as int),
    {
        r.push(v[i]);
        assert(r@ =~= v@.take(i + 1));
    }
    assert(r@ =~= v@);
    r
}

impl Duplicate for Attachment {
    fn duplicate(&self) -> (r: Attachment) {
        Attachment {
            filename: self.filename.clone(),
            mime_type: self.mime_type.clone(),
            data: copy_bytes(&self.data),
        }
    }
}

/// Whether a file is an image.
pub open spec fn is_image_file(a: FileView) -> bool {
    begins(a.mime_type, "image/"@)
}

impl Attachment {
    /// Whether the file is an image.
    pub fn is_image(&self) -> (r: bool)
        ensures
            r == is_image_file(self@),
    {
        starts_with(self.mime_type.as_str(), "image/")
    }
}

/// What an assistant message carries beside its content.
pub struct AssistantBody {
    pub reasoning: String,
    pub tool_calls: Vec<ToolCall>,
    /// The provider's own blocks, replayed as they came.
    pub raw_content: Option<String>,
    pub usage: Option<Usage>,
}

/// What an [`AssistantBody`] says.
pub struct AssistantView {
    pub reasoning: Seq<char>,
    pub tool_calls: Seq<CallView>,
    pub raw_content: Option<Seq<char>>,
    pub usage: Option<Usage>,
}

impl View for AssistantBody {
    type V = AssistantView;

    open spec fn view(&self) -> AssistantView {
        AssistantView {
            reasoning: self.reasoning@,
            tool_calls: views(self.tool_calls@),
            raw_content: opt_view(self.raw_content),
            usage: self.usage,
        }
    }
}

/// What kind of message it is.
pub enum Body {
    /// The instructions.
    System,
    /// Tools that were loaded into the conversation.
    SystemTools(Vec<ToolDef>),
    /// What the user said.
    User,
    /// What the model said.
    Assistant(AssistantBody),
    /// What a call gave.
    ToolResult {
        /// The call.
        id: String,
        /// The tool.
        name: String,
        /// Whether the call failed.
        is_error: bool,
    },
    /// What happened in the background.
    Notice,
}

/// What a [`Body`] says.
pub enum BodyView {
    System,
    SystemTools(Seq<DefView>),
    User,
    Assistant(AssistantView),
    ToolResult(Seq<char>, Seq<char>, bool),
    Notice,
}

impl View for Body {
    type V = BodyView;

    open spec fn view(&self) -> BodyView {
        match *self {
            Body::System => BodyView::System,
            Body::SystemTools(v) => BodyView::SystemTools(views(v@)),
            Body::User => BodyView::User,
            Body::Assistant(a) => BodyView::Assistant(a@),
            Body::ToolResult { id, name, is_error } => BodyView::ToolResult(id@, name@, is_error),
            Body::Notice => BodyView::Notice,
        }
    }
}

/// One message.
pub struct Message {
    pub content: String,
    pub attachments: Vec<Attachment>,
    pub body: Body,
}

/// What a [`Message`] says.
pub struct MessageView {
    pub content: Seq<char>,
    pub attachments: Seq<FileView>,
    pub body: BodyView,
}

impl View for Message {
    type V = MessageView;

    open spec fn view(&self) -> MessageView {
        MessageView {
            content: self.content@,
            attachments: views(self.attachments@),
            body: self.body@,
        }
    }
}

impl Duplicate for Message {
    fn duplicate(&self) -> (r: Message) {
        let body: Body = match &self.body {
            Body::System => Body::System,
            Body::SystemTools(v) => Body::SystemTools(copy_all(v)),
            Body::User => Body::User,
            Body::Assistant(a) => Body::Assistant(
                AssistantBody {
                    reasoning: a.reasoning.clone(),
                    tool_calls: copy_all(&a.tool_calls),
                    raw_content: a.raw_content.clone(),
                    usage: a.usage,
                },
            ),
            Body::ToolResult { id, name, is_error } => Body::ToolResult {
                id: id.clone(),
                name: name.clone(),
                is_error: *is_error,
            },
            Body::Notice => Body::Notice,
        };
        Message {
            content: self.content.clone(),
            attachments: copy_all(&self.attachments),
            body,
        }
    }
}

/// A message without attachments.
pub open spec fn plain_message(content: Seq<char>, body: BodyView) -> MessageView {
    MessageView { content, attachments: Seq::empty(), body }
}

/// Who a message is from.
pub open spec fn role_of(m: MessageView) -> Role {
    match m.body {
        BodyView::System => Role::System,
        BodyView::SystemTools(_) => Role::System,
        BodyView::User => Role::User,
        BodyView::Assistant(_) => Role::Assistant,
        BodyView::ToolResult(_, _, _) => Role::Tool,
        BodyView::Notice => Role::Notice,
    }
}

impl Message {
    /// A message without attachments.
    fn plain(content: String, body: Body) -> (r: Message)
        ensures
            r@ == plain_message(content@, body@),
    {
        let r = Message { content, attachments: Vec::new(), body };
        assert(r@.attachments =~= Seq::<FileView>::empty());
        r
    }

    /// The instructions.
    pub fn system(content: &str) -> (r: Message)
        ensures
            r@ == plain_message(content@, BodyView::System),
    {
        Message::plain(own(content), Body::System)
    }

    /// Tools that were loaded into the conversation.
    pub fn system_tools(tools: Vec<ToolDef>) -> (r: Message)
        ensures
            r@ == plain_message(Seq::empty(), BodyView::SystemTools(views(tools@))),
    {
        Message::plain(String::new(), Body::SystemTools(tools))
    }

    /// What the user said.
    pub fn user(content: &str) -> (r: Message)
        ensures
            r@ == plain_message(content@, BodyView::User),
    {
        Message::plain(own(content), Body::User)
    }

    /// What the model said.
    pub fn assistant(content: String, body: AssistantBody) -> (r: Message)
        ensures
            r@ == plain_message(content@, BodyView::Assistant(body@)),
    {
        Message::plain(content, Body::Assistant(body))
    }

    /// What a call gave.
    pub fn tool_result(call: &ToolCall, text: String, is_error: bool) -> (r: Message)
        ensures
            r@ == plain_message(text@, BodyView::ToolResult(call@.id, call@.name, is_error)),
    {
        Message::plain(
            text,
            Body::ToolResult { id: call.id.clone(), name: call.name.clone(), is_error },
        )
    }

    /// What happened in the background.
    pub fn notice(content: String) -> (r: Message)
        ensures
            r@ == plain_message(content@, BodyView::Notice),
    {
        Message::plain(content, Body::Notice)
    }

    /// Who the message is from.
    pub fn role(&self) -> (r: Role)
        ensures
            r == role_of(self@),
    {
        match &self.body {
            Body::System => Role::System,
            Body::SystemTools(_) => Role::System,
            Body::User => Role::User,
            Body::Assistant(_) => Role::Assistant,
            Body::ToolResult { .. } => Role::Tool,
            Body::Notice => Role::Notice,
        }
    }
}

} // verus!
