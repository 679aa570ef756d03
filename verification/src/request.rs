//! The chat requests that go to the backend: the next turn of a session, a
//! question to a helper bot, and the request to describe an image.

use crate::dto::{
    ChatData, ChatDataView, ConversationData, ConversationDataView, ConversationItem,
    ConversationItemView, ImageItem, ImageItemView, ItemData, ItemDataView, ToolData,
    ToolDataView,
};
use crate::session::{Session, SessionView};
use crate::text::join;
use crate::token::{FreshTokens, FreshTokensView};
use vstd::prelude::*;

verus! {

/// What stands in place of the greeting that opens a conversation.
pub open spec fn welcome_text() -> Seq<char> {
    "__RENDER_BOT_WELCOME_MSG__"@
}

/// What an image is asked about.
pub open spec fn caption_prompt() -> Seq<char> {
    "解释这张图片 "@
}

/// The placeholder for the greeting that a conversation opens with: a reply
/// with no parent.
pub open spec fn welcome_item(conversation: Seq<char>, item: Seq<char>) -> ConversationItemView {
    ConversationItemView {
        item_id: "msg:"@ + item,
        conversation_id: "conv:"@ + conversation,
        item_type: "reply"@,
        summary: welcome_text(),
        parent_item_id: None,
        data: ItemDataView {
            data_type: "text"@,
            content: welcome_text(),
            quote_content: None,
            max_token: None,
            is_incognito: None,
            file_infos: None,
        },
    }
}

/// A question in plain text that hangs on `parent`.
pub open spec fn question_item(
    conversation: Seq<char>,
    item: Seq<char>,
    parent: Seq<char>,
    text: Seq<char>,
    incognito: bool,
) -> ConversationItemView {
    ConversationItemView {
        item_id: "msg:"@ + item,
        conversation_id: "conv:"@ + conversation,
        item_type: "question"@,
        summary: text,
        parent_item_id: Some("msg:"@ + parent),
        data: ItemDataView {
            data_type: "text"@,
            content: text,
            quote_content: Some(Seq::empty()),
            max_token: Some(0i32),
            is_incognito: Some(incognito),
            file_infos: None,
        },
    }
}

/// The items of a turn. A session that has seen no turn yet opens with the
/// greeting's placeholder, and its question begins with the initial prompt;
/// a later turn is the question alone, as it was asked.
pub open spec fn turn_items(
    session: SessionView,
    input: Seq<char>,
    init_prompt: Seq<char>,
    incognito: bool,
) -> Seq<ConversationItemView> {
    if session.turn_count == 0 {
        seq![
            welcome_item(session.conversation_id, session.prev_item_id),
            question_item(
                session.conversation_id,
                session.current_item_id,
                session.prev_item_id,
                init_prompt + input,
                incognito,
            ),
        ]
    } else {
        seq![
            question_item(
                session.conversation_id,
                session.current_item_id,
                session.prev_item_id,
                input,
                incognito,
            ),
        ]
    }
}

/// The request for the next turn of a session: the question `input` to the
/// bot `bot` on the model `model`, with `reply` as the identifier of the
/// answer to come and `task` as that of the request.
pub open spec fn chat_request(
    session: SessionView,
    model: Seq<char>,
    bot: Seq<char>,
    input: Seq<char>,
    init_prompt: Seq<char>,
    reply: Seq<char>,
    task: Seq<char>,
    incognito: bool,
) -> ChatDataView {
    ChatDataView {
        task_uid: "task:"@ + task,
        bot_uid: bot,
        data: ConversationDataView {
            conversation_id: "conv:"@ + session.conversation_id,
            items: turn_items(session, input, init_prompt, incognito),
            pre_generated_reply_id: "msg:"@ + reply,
            pre_parent_item_id: "msg:"@ + session.current_item_id,
            origin: "https://monica.im/home/chat/DeepSeek%20V3/deepseek_chat"@,
            origin_page_title: "o3-mini - Monica 智能体"@,
            trigger_by: "auto"@,
            use_model: model,
            is_incognito: incognito,
            use_new_memory: true,
        },
        language: "auto"@,
        locale: "zh_CN"@,
        task_type: "chat"@,
        tool_data: ToolDataView { sys_skill_list: Seq::empty() },
        ai_resp_language: "Chinese (Simplified)"@,
    }
}

fn welcome(conversation: &str, item: &str) -> (r: ConversationItem)
    ensures
        r@ == welcome_item(conversation@, item@),
{
    ConversationItem {
        item_id: join("msg:", item),
        conversation_id: join("conv:", conversation),
        item_type: "reply".to_owned(),
        summary: "__RENDER_BOT_WELCOME_MSG__".to_owned(),
        parent_item_id: None,
        data: ItemData {
            data_type: "text".to_owned(),
            content: "__RENDER_BOT_WELCOME_MSG__".to_owned(),
            quote_content: None,
            max_token: None,
            is_incognito: None,
            file_infos: None,
        },
    }
}

fn question(conversation: &str, item: &str, parent: &str, text: &str, incognito: bool) -> (r:
    ConversationItem)
    ensures
        r@ == question_item(conversation@, item@, parent@, text@, incognito),
{
    ConversationItem {
        item_id: join("msg:", item),
        conversation_id: join("conv:", conversation),
        item_type: "question".to_owned(),
        summary: text.to_owned(),
        parent_item_id: Some(join("msg:", parent)),
        data: ItemData {
            data_type: "text".to_owned(),
            content: text.to_owned(),
            quote_content: Some(String::new()),
            max_token: Some(0),
            is_incognito: Some(incognito),
            file_infos: None,
        },
    }
}

/// Builds the request for the next turn of a session.
pub fn build_chat_request(
    session: &Session,
    model: &str,
    bot: &str,
    input: &str,
    init_prompt: &str,
    reply: &str,
    task: &str,
    incognito: bool,
) -> (r: ChatData)
    ensures
        r@ == chat_request(
            session@,
            model@,
            bot@,
            input@,
            init_prompt@,
            reply@,
            task@,
            incognito,
        ),
{
    let conversation = session.conversation_id.as_str();
    let prev = session.prev_item_id.as_str();
    let current = session.current_item_id.as_str();
    let mut items: Vec<ConversationItem> = Vec::new();
    if session.turn_count == 0 {
        items.push(welcome(conversation, prev));
        let text = join(init_prompt, input);
        items.push(question(conversation, current, prev, text.as_str(), incognito));
    } else {
        items.push(question(conversation, current, prev, input, incognito));
    }
    assert(items.deep_view() =~= turn_items(session@, input@, init_prompt@, incognito));
    let skills: Vec<String> = Vec::new();
    assert(skills.deep_view() =~= Seq::<Seq<char>>::empty());
    ChatData {
        task_uid: join("task:", task),
        bot_uid: bot.to_owned(),
        data: ConversationData {
            conversation_id: join("conv:", conversation),
            items,
            pre_generated_reply_id: join("msg:", reply),
            pre_parent_item_id: join("msg:", current),
            origin: "https://monica.im/home/chat/DeepSeek%20V3/deepseek_chat",
            origin_page_title: "o3-mini - Monica 智能体",
            trigger_by: "auto",
            use_model: model.to_owned(),
            is_incognito: incognito,
            use_new_memory: true,
        },
        language: "auto",
        locale: "zh_CN",
        task_type: "chat",
        tool_data: ToolData { sys_skill_list: skills },
        ai_resp_language: "Chinese (Simplified)",
    }
}

/// The question that asks what an image shows: it carries the stored file
/// and is marked incognito.
pub open spec fn image_question(
    conversation: Seq<char>,
    item: Seq<char>,
    parent: Seq<char>,
    image: ImageItemView,
) -> ConversationItemView {
    ConversationItemView {
        item_id: "msg:"@ + item,
        conversation_id: "conv:"@ + conversation,
        item_type: "question"@,
        summary: caption_prompt(),
        parent_item_id: Some("msg:"@ + parent),
        data: ItemDataView {
            data_type: "file_with_text"@,
            content: caption_prompt(),
            quote_content: None,
            max_token: Some(0i32),
            is_incognito: Some(true),
            file_infos: Some(seq![image]),
        },
    }
}

/// The request that asks what an image shows. It opens a conversation of its
/// own with the tokens given, goes to the bot `gemini_2_0` on the model
/// `gemini-2.0`, and is marked incognito. The conversation is named by its
/// bare token in the request and with the prefix `conv:` in the items.
pub open spec fn caption_request(image: ImageItemView, tokens: FreshTokensView) -> ChatDataView {
    ChatDataView {
        task_uid: "task:"@ + tokens.task,
        bot_uid: "gemini_2_0"@,
        data: ConversationDataView {
            conversation_id: tokens.conversation,
            items: seq![
                welcome_item(tokens.conversation, tokens.parent),
                image_question(tokens.conversation, tokens.item, tokens.parent, image),
            ],
            pre_generated_reply_id: "msg:"@ + tokens.reply,
            pre_parent_item_id: "msg:"@ + tokens.item,
            origin: "https://monica.im/home/chat/Gemini%202.0%20Flash/gemini_2_0"@,
            origin_page_title: "Gemini 2.0 Flash - Monica Bots"@,
            trigger_by: "auto"@,
            use_model: "gemini-2.0"@,
            is_incognito: true,
            use_new_memory: true,
        },
        language: "auto"@,
        locale: "zh_CN"@,
        task_type: "chat"@,
        tool_data: ToolDataView { sys_skill_list: Seq::empty() },
        ai_resp_language: "Chinese (Simplified)"@,
    }
}

/// Builds the request that asks what an image shows, with the tokens given.
pub fn explain_image_with(image: ImageItem, tokens: FreshTokens) -> (r: ChatData)
    ensures
        r@ == caption_request(image@, tokens@),
{
    let conversation = tokens.conversation.as_str();
    let parent = tokens.parent.as_str();
    let item = tokens.item.as_str();
    let ghost image_view = image@;
    let mut files: Vec<ImageItem> = Vec::new();
    files.push(image);
    assert(files.deep_view() =~= seq![image_view]);
    let ask = ConversationItem {
        item_id: join("msg:", item),
        conversation_id: join("conv:", conversation),
        item_type: "question".to_owned(),
        summary: "解释这张图片 ".to_owned(),
        parent_item_id: Some(join("msg:", parent)),
        data: ItemData {
            data_type: "file_with_text".to_owned(),
            content: "解释这张图片 ".to_owned(),
            quote_content: None,
            max_token: Some(0),
            is_incognito: Some(true),
            file_infos: Some(files),
        },
    };
    assert(ask@ == image_question(conversation@, item@, parent@, image_view));
    let mut items: Vec<ConversationItem> = Vec::new();
    items.push(welcome(conversation, parent));
    items.push(ask);
    assert(items.deep_view() =~= seq![
        welcome_item(conversation@, parent@),
        image_question(conversation@, item@, parent@, image_view),
    ]);
    let skills: Vec<String> = Vec::new();
    assert(skills.deep_view() =~= Seq::<Seq<char>>::empty());
    ChatData {
        task_uid: join("task:", tokens.task.as_str()),
        bot_uid: "gemini_2_0".to_owned(),
        data: ConversationData {
            conversation_id: conversation.to_owned(),
            items,
            pre_generated_reply_id: join("msg:", tokens.reply.as_str()),
            pre_parent_item_id: join("msg:", item),
            origin: "https://monica.im/home/chat/Gemini%202.0%20Flash/gemini_2_0",
            origin_page_title: "Gemini 2.0 Flash - Monica Bots",
            trigger_by: "auto",
            use_model: "gemini-2.0".to_owned(),
            is_incognito: true,
            use_new_memory: true,
        },
        language: "auto",
        locale: "zh_CN",
        task_type: "chat",
        tool_data: ToolData { sys_skill_list: skills },
        ai_resp_language: "Chinese (Simplified)",
    }
}

/// Builds the request that asks what an image shows, with tokens drawn for
/// it.
pub fn explain_image(image: ImageItem) -> (r: ChatData)
    ensures
        exists|tokens: FreshTokensView|
            tokens.well_formed() && r@ == #[trigger] caption_request(image@, tokens),
{
    let tokens = FreshTokens::draw();
    let ghost witness = tokens@;
    let request = explain_image_with(image, tokens);
    assert(request@ == caption_request(image@, witness));
    request
}

} // verus!
