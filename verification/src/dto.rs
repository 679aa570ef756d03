//! What is sent to the backend: the chat request with its conversation items,
//! and the description of an uploaded image. Each type comes with its
//! mathematical value, over which the contracts of the library speak.

use vstd::prelude::*;

verus! {

/// The view of a text that may be absent.
pub open spec fn text_view(text: Option<String>) -> Option<Seq<char>> {
    match text {
        Some(t) => Some(t@),
        None => None,
    }
}

/// An image as the chat transport describes it.
#[derive(Clone, Debug, PartialEq, Eq)]
pub struct ImgData {
    /// What the transport says the image shows.
    pub summary: String,
    /// The file's name.
    pub file: String,
    /// Where the file can be fetched.
    pub url: String,
    /// The file's size in bytes, as a decimal numeral.
    pub file_size: String,
}

/// The mathematical value of [`ImgData`].
pub struct ImgDataView {
    pub summary: Seq<char>,
    pub file: Seq<char>,
    pub url: Seq<char>,
    pub file_size: Seq<char>,
}

impl View for ImgData {
    type V = ImgDataView;

    open spec fn view(&self) -> ImgDataView {
        ImgDataView {
            summary: self.summary@,
            file: self.file@,
            url: self.url@,
            file_size: self.file_size@,
        }
    }
}

impl DeepView for ImgData {
    type V = ImgDataView;

    open spec fn deep_view(&self) -> ImgDataView {
        self@
    }
}

/// A file that the backend has stored and indexed.
#[derive(Clone, Debug, PartialEq, Eq)]
pub struct ImageItem {
    pub use_full_text: bool,
    pub file_name: String,
    pub file_type: String,
    pub file_ext: String,
    pub file_size: u64,
    pub file_url: String,
    pub file_uid: String,
    pub file_chunks: u64,
    pub file_tokens: u64,
}

/// The mathematical value of [`ImageItem`].
pub struct ImageItemView {
    pub use_full_text: bool,
    pub file_name: Seq<char>,
    pub file_type: Seq<char>,
    pub file_ext: Seq<char>,
    pub file_size: u64,
    pub file_url: Seq<char>,
    pub file_uid: Seq<char>,
    pub file_chunks: u64,
    pub file_tokens: u64,
}

impl View for ImageItem {
    type V = ImageItemView;

    open spec fn view(&self) -> ImageItemView {
        ImageItemView {
            use_full_text: self.use_full_text,
            file_name: self.file_name@,
            file_type: self.file_type@,
            file_ext: self.file_ext@,
            file_size: self.file_size,
            file_url: self.file_url@,
            file_uid: self.file_uid@,
            file_chunks: self.file_chunks,
            file_tokens: self.file_tokens,
        }
    }
}

impl DeepView for ImageItem {
    type V = ImageItemView;

    open spec fn deep_view(&self) -> ImageItemView {
        self@
    }
}

/// What a conversation item says.
#[derive(Clone, Debug, PartialEq, Eq)]
pub struct ItemData {
    /// The kind of content: `text`, or `file_with_text`.
    pub data_type: String,
    pub content: String,
    pub quote_content: Option<String>,
    pub max_token: Option<i32>,
    pub is_incognito: Option<bool>,
    pub file_infos: Option<Vec<ImageItem>>,
}

/// The mathematical value of [`ItemData`].
pub struct ItemDataView {
    pub data_type: Seq<char>,
    pub content: Seq<char>,
    pub quote_content: Option<Seq<char>>,
    pub max_token: Option<i32>,
    pub is_incognito: Option<bool>,
    pub file_infos: Option<Seq<ImageItemView>>,
}

impl View for ItemData {
    type V = ItemDataView;

    open spec fn view(&self) -> ItemDataView {
        ItemDataView {
            data_type: self.data_type@,
            content: self.content@,
            quote_content: text_view(self.quote_content),
            max_token: self.max_token,
            is_incognito: self.is_incognito,
            file_infos: match self.file_infos {
                Some(files) => Some(files.deep_view()),
                None => None,
            },
        }
    }
}

/// One turn of a conversation: a question, or a reply.
#[derive(Clone, Debug, PartialEq, Eq)]
pub struct ConversationItem {
    pub item_id: String,
    pub conversation_id: String,
    /// `question` or `reply`.
    pub item_type: String,
    pub summary: String,
    pub parent_item_id: Option<String>,
    pub data: ItemData,
}

/// The mathematical value of [`ConversationItem`].
pub struct ConversationItemView {
    pub item_id: Seq<char>,
    pub conversation_id: Seq<char>,
    pub item_type: Seq<char>,
    pub summary: Seq<char>,
    pub parent_item_id: Option<Seq<char>>,
    pub data: ItemDataView,
}

impl View for ConversationItem {
    type V = ConversationItemView;

    open spec fn view(&self) -> ConversationItemView {
        ConversationItemView {
            item_id: self.item_id@,
            conversation_id: self.conversation_id@,
            item_type: self.item_type@,
            summary: self.summary@,
            parent_item_id: text_view(self.parent_item_id),
            data: self.data@,
        }
    }
}

impl DeepView for ConversationItem {
    type V = ConversationItemView;

    open spec fn deep_view(&self) -> ConversationItemView {
        self@
    }
}

/// The conversation that a chat request continues.
#[derive(Clone, Debug, PartialEq, Eq)]
pub struct ConversationData {
    pub conversation_id: String,
    pub items: Vec<ConversationItem>,
    pub pre_generated_reply_id: String,
    pub pre_parent_item_id: String,
    pub origin: &'static str,
    pub origin_page_title: &'static str,
    pub trigger_by: &'static str,
    pub use_model: String,
    pub is_incognito: bool,
    pub use_new_memory: bool,
}

/// The mathematical value of [`ConversationData`].
pub struct ConversationDataView {
    pub conversation_id: Seq<char>,
    pub items: Seq<ConversationItemView>,
    pub pre_generated_reply_id: Seq<char>,
    pub pre_parent_item_id: Seq<char>,
    pub origin: Seq<char>,
    pub origin_page_title: Seq<char>,
    pub trigger_by: Seq<char>,
    pub use_model: Seq<char>,
    pub is_incognito: bool,
    pub use_new_memory: bool,
}

impl View for ConversationData {
    type V = ConversationDataView;

    open spec fn view(&self) -> ConversationDataView {
        ConversationDataView {
            conversation_id: self.conversation_id@,
            items: self.items.deep_view(),
            pre_generated_reply_id: self.pre_generated_reply_id@,
            pre_parent_item_id: self.pre_parent_item_id@,
            origin: self.origin@,
            origin_page_title: self.origin_page_title@,
            trigger_by: self.trigger_by@,
            use_model: self.use_model@,
            is_incognito: self.is_incognito,
            use_new_memory: self.use_new_memory,
        }
    }
}

/// The skills that the backend may use on its own.
#[derive(Clone, Debug, PartialEq, Eq)]
pub struct ToolData {
    pub sys_skill_list: Vec<String>,
}

/// The mathematical value of [`ToolData`].
pub struct ToolDataView {
    pub sys_skill_list: Seq<Seq<char>>,
}

impl View for ToolData {
    type V = ToolDataView;

    open spec fn view(&self) -> ToolDataView {
        ToolDataView { sys_skill_list: self.sys_skill_list.deep_view() }
    }
}

/// A chat request.
#[derive(Clone, Debug, PartialEq, Eq)]
pub struct ChatData {
    pub task_uid: String,
    pub bot_uid: String,
    pub data: ConversationData,
    pub language: &'static str,
    pub locale: &'static str,
    pub task_type: &'static str,
    pub tool_data: ToolData,
    pub ai_resp_language: &'static str,
}

/// The mathematical value of [`ChatData`].
pub struct ChatDataView {
    pub task_uid: Seq<char>,
    pub bot_uid: Seq<char>,
    pub data: ConversationDataView,
    pub language: Seq<char>,
    pub locale: Seq<char>,
    pub task_type: Seq<char>,
    pub tool_data: ToolDataView,
    pub ai_resp_language: Seq<char>,
}

impl View for ChatData {
    type V = ChatDataView;

    open spec fn view(&self) -> ChatDataView {
        ChatDataView {
            task_uid: self.task_uid@,
            bot_uid: self.bot_uid@,
            data: self.data@,
            language: self.language@,
            locale: self.locale@,
            task_type: self.task_type@,
            tool_data: self.tool_data@,
            ai_resp_language: self.ai_resp_language@,
        }
    }
}

} // verus!
