//! The variables that a message gives to a filter.

use vstd::prelude::*;
use vstd::string::*;

use crate::evaluation::{ContainsVariable, ToVariables};
use crate::text::str_eq;
use crate::typed::{
    bool_model, bool_or_empty, int_model, int_or_empty, str_model, str_or_empty,
};
use crate::value::{Value, ValueView};
use crate::variables::{lemma_nothing_marked, put_fresh, Binding, Variables};

verus! {

/// What a filter can read of a message: who sent it, where it was
/// forwarded from, and what it holds.
#[derive(Debug)]
pub struct MessageVariables {
    pub has_from: bool,
    pub from_id: Option<i64>,
    pub from_is_bot: Option<bool>,
    pub from_username: Option<String>,
    pub from_is_premium: Option<bool>,
    pub has_origin: bool,
    pub origin_type: Option<String>,
    pub origin_user_id: Option<i64>,
    pub origin_user_is_bot: Option<bool>,
    pub origin_user_username: Option<String>,
    pub origin_hidden_user_username: Option<String>,
    pub origin_chat_id: Option<i64>,
    pub origin_chat_author_signature: Option<String>,
    pub origin_channel_id: Option<i64>,
    pub origin_channel_message_id: Option<i64>,
    pub origin_channel_author_signature: Option<String>,
    pub has_text: bool,
    pub text: Option<String>,
    pub has_audio: bool,
    pub has_document: bool,
    pub has_animation: bool,
    pub has_game: bool,
    pub has_photo: bool,
    pub has_sticker: bool,
    pub has_story: bool,
    pub has_video: bool,
    pub has_voice: bool,
    pub has_caption: bool,
    pub caption: Option<String>,
}

impl Default for MessageVariables {
    fn default() -> (r: Self)
        ensures
            r.is_blank(),
    {
        MessageVariables {
            has_from: false,
            from_id: None,
            from_is_bot: None,
            from_username: None,
            from_is_premium: None,
            has_origin: false,
            origin_type: None,
            origin_user_id: None,
            origin_user_is_bot: None,
            origin_user_username: None,
            origin_hidden_user_username: None,
            origin_chat_id: None,
            origin_chat_author_signature: None,
            origin_channel_id: None,
            origin_channel_message_id: None,
            origin_channel_author_signature: None,
            has_text: false,
            text: None,
            has_audio: false,
            has_document: false,
            has_animation: false,
            has_game: false,
            has_photo: false,
            has_sticker: false,
            has_story: false,
            has_video: false,
            has_voice: false,
            has_caption: false,
            caption: None,
        }
    }
}

impl Clone for MessageVariables {
    fn clone(&self) -> (r: Self)
        ensures
            r.fields() == self.fields(),
    {
        let r = MessageVariables {
            has_from: self.has_from,
            from_id: self.from_id,
            from_is_bot: self.from_is_bot,
            from_username: clone_text(&self.from_username),
            from_is_premium: self.from_is_premium,
            has_origin: self.has_origin,
            origin_type: clone_text(&self.origin_type),
            origin_user_id: self.origin_user_id,
            origin_user_is_bot: self.origin_user_is_bot,
            origin_user_username: clone_text(&self.origin_user_username),
            origin_hidden_user_username: clone_text(&self.origin_hidden_user_username),
            origin_chat_id: self.origin_chat_id,
            origin_chat_author_signature: clone_text(&self.origin_chat_author_signature),
            origin_channel_id: self.origin_channel_id,
            origin_channel_message_id: self.origin_channel_message_id,
            origin_channel_author_signature: clone_text(&self.origin_channel_author_signature),
            has_text: self.has_text,
            text: clone_text(&self.text),
            has_audio: self.has_audio,
            has_document: self.has_document,
            has_animation: self.has_animation,
            has_game: self.has_game,
            has_photo: self.has_photo,
            has_sticker: self.has_sticker,
            has_story: self.has_story,
            has_video: self.has_video,
            has_voice: self.has_voice,
            has_caption: self.has_caption,
            caption: clone_text(&self.caption),
        };
        assert(r.fields() =~= self.fields());
        r
    }
}

fn clone_text(text: &Option<String>) -> (r: Option<String>)
    ensures
        str_model(r) == str_model(*text),
{
    match text {
        Some(s) => Some(s.clone()),
        None => None,
    }
}

/// Whether `identifier` is the name of a variable of a message.
pub open spec fn is_message_variable(identifier: Seq<char>) -> bool {
    identifier == "has_from"@
        || identifier == "from_id"@
        || identifier == "from_is_bot"@
        || identifier == "from_username"@
        || identifier == "from_is_premium"@
        || identifier == "has_origin"@
        || identifier == "origin_type"@
        || identifier == "origin_user_id"@
        || identifier == "origin_user_is_bot"@
        || identifier == "origin_user_username"@
        || identifier == "origin_hidden_user_username"@
        || identifier == "origin_chat_id"@
        || identifier == "origin_chat_author_signature"@
        || identifier == "origin_channel_id"@
        || identifier == "origin_channel_message_id"@
        || identifier == "origin_channel_author_signature"@
        || identifier == "has_text"@
        || identifier == "text"@
        || identifier == "has_audio"@
        || identifier == "has_document"@
        || identifier == "has_animation"@
        || identifier == "has_game"@
        || identifier == "has_photo"@
        || identifier == "has_sticker"@
        || identifier == "has_story"@
        || identifier == "has_video"@
        || identifier == "has_voice"@
        || identifier == "has_caption"@
        || identifier == "caption"@
}

impl MessageVariables {
    /// Every flag is off and every other field is null.
    pub open spec fn is_blank(&self) -> bool {
        !self.has_from
            && self.from_id is None
            && self.from_is_bot is None
            && self.from_username is None
            && self.from_is_premium is None
            && !self.has_origin
            && self.origin_type is None
            && self.origin_user_id is None
            && self.origin_user_is_bot is None
            && self.origin_user_username is None
            && self.origin_hidden_user_username is None
            && self.origin_chat_id is None
            && self.origin_chat_author_signature is None
            && self.origin_channel_id is None
            && self.origin_channel_message_id is None
            && self.origin_channel_author_signature is None
            && !self.has_text
            && self.text is None
            && !self.has_audio
            && !self.has_document
            && !self.has_animation
            && !self.has_game
            && !self.has_photo
            && !self.has_sticker
            && !self.has_story
            && !self.has_video
            && !self.has_voice
            && !self.has_caption
            && self.caption is None
    }
}

impl ToVariables for MessageVariables {
    open spec fn fields(&self) -> Seq<Binding> {
        Seq::empty()
            .push(("has_from"@, ValueView::Bool(self.has_from)))
            .push(("from_id"@, int_model(self.from_id)))
            .push(("from_is_bot"@, bool_model(self.from_is_bot)))
            .push(("from_username"@, str_model(self.from_username)))
            .push(("from_is_premium"@, bool_model(self.from_is_premium)))
            .push(("has_origin"@, ValueView::Bool(self.has_origin)))
            .push(("origin_type"@, str_model(self.origin_type)))
            .push(("origin_user_id"@, int_model(self.origin_user_id)))
            .push(("origin_user_is_bot"@, bool_model(self.origin_user_is_bot)))
            .push(("origin_user_username"@, str_model(self.origin_user_username)))
            .push(("origin_hidden_user_username"@, str_model(self.origin_hidden_user_username)))
            .push(("origin_chat_id"@, int_model(self.origin_chat_id)))
            .push(("origin_chat_author_signature"@, str_model(self.origin_chat_author_signature)))
            .push(("origin_channel_id"@, int_model(self.origin_channel_id)))
            .push(("origin_channel_message_id"@, int_model(self.origin_channel_message_id)))
            .push(("origin_channel_author_signature"@, str_model(self.origin_channel_author_signature)))
            .push(("has_text"@, ValueView::Bool(self.has_text)))
            .push(("text"@, str_model(self.text)))
            .push(("has_audio"@, ValueView::Bool(self.has_audio)))
            .push(("has_document"@, ValueView::Bool(self.has_document)))
            .push(("has_animation"@, ValueView::Bool(self.has_animation)))
            .push(("has_game"@, ValueView::Bool(self.has_game)))
            .push(("has_photo"@, ValueView::Bool(self.has_photo)))
            .push(("has_sticker"@, ValueView::Bool(self.has_sticker)))
            .push(("has_story"@, ValueView::Bool(self.has_story)))
            .push(("has_video"@, ValueView::Bool(self.has_video)))
            .push(("has_voice"@, ValueView::Bool(self.has_voice)))
            .push(("has_caption"@, ValueView::Bool(self.has_caption)))
            .push(("caption"@, str_model(self.caption)))
    }

    fn to_variables(self) -> (r: Variables) {
        proof {
            reveal_strlit("has_from");
            reveal_strlit("from_id");
            reveal_strlit("from_is_bot");
            reveal_strlit("from_username");
            reveal_strlit("from_is_premium");
            reveal_strlit("has_origin");
            reveal_strlit("origin_type");
            reveal_strlit("origin_user_id");
            reveal_strlit("origin_user_is_bot");
            reveal_strlit("origin_user_username");
            reveal_strlit("origin_hidden_user_username");
            reveal_strlit("origin_chat_id");
            reveal_strlit("origin_chat_author_signature");
            reveal_strlit("origin_channel_id");
            reveal_strlit("origin_channel_message_id");
            reveal_strlit("origin_channel_author_signature");
            reveal_strlit("has_text");
            reveal_strlit("text");
            reveal_strlit("has_audio");
            reveal_strlit("has_document");
            reveal_strlit("has_animation");
            reveal_strlit("has_game");
            reveal_strlit("has_photo");
            reveal_strlit("has_sticker");
            reveal_strlit("has_story");
            reveal_strlit("has_video");
            reveal_strlit("has_voice");
            reveal_strlit("has_caption");
            reveal_strlit("caption");
        }
        let mut result = Variables::new();
        let marks = Ghost(Set::<(nat, char, char)>::empty());
        proof {
            lemma_nothing_marked();
        }
        let marks = put_fresh(&mut result, "has_from", Value::Bool(self.has_from), marks);
        let marks = put_fresh(&mut result, "from_id", int_or_empty(self.from_id), marks);
        let marks = put_fresh(&mut result, "from_is_bot", bool_or_empty(self.from_is_bot), marks);
        let marks = put_fresh(&mut result, "from_username", str_or_empty(self.from_username), marks);
        let marks = put_fresh(&mut result, "from_is_premium", bool_or_empty(self.from_is_premium), marks);
        let marks = put_fresh(&mut result, "has_origin", Value::Bool(self.has_origin), marks);
        let marks = put_fresh(&mut result, "origin_type", str_or_empty(self.origin_type), marks);
        let marks = put_fresh(&mut result, "origin_user_id", int_or_empty(self.origin_user_id), marks);
        let marks = put_fresh(&mut result, "origin_user_is_bot", bool_or_empty(self.origin_user_is_bot), marks);
        let marks = put_fresh(&mut result, "origin_user_username", str_or_empty(self.origin_user_username), marks);
        let marks = put_fresh(&mut result, "origin_hidden_user_username", str_or_empty(self.origin_hidden_user_username), marks);
        let marks = put_fresh(&mut result, "origin_chat_id", int_or_empty(self.origin_chat_id), marks);
        let marks = put_fresh(&mut result, "origin_chat_author_signature", str_or_empty(self.origin_chat_author_signature), marks);
        let marks = put_fresh(&mut result, "origin_channel_id", int_or_empty(self.origin_channel_id), marks);
        let marks = put_fresh(&mut result, "origin_channel_message_id", int_or_empty(self.origin_channel_message_id), marks);
        let marks = put_fresh(&mut result, "origin_channel_author_signature", str_or_empty(self.origin_channel_author_signature), marks);
        let marks = put_fresh(&mut result, "has_text", Value::Bool(self.has_text), marks);
        let marks = put_fresh(&mut result, "text", str_or_empty(self.text), marks);
        let marks = put_fresh(&mut result, "has_audio", Value::Bool(self.has_audio), marks);
        let marks = put_fresh(&mut result, "has_document", Value::Bool(self.has_document), marks);
        let marks = put_fresh(&mut result, "has_animation", Value::Bool(self.has_animation), marks);
        let marks = put_fresh(&mut result, "has_game", Value::Bool(self.has_game), marks);
        let marks = put_fresh(&mut result, "has_photo", Value::Bool(self.has_photo), marks);
        let marks = put_fresh(&mut result, "has_sticker", Value::Bool(self.has_sticker), marks);
        let marks = put_fresh(&mut result, "has_story", Value::Bool(self.has_story), marks);
        let marks = put_fresh(&mut result, "has_video", Value::Bool(self.has_video), marks);
        let marks = put_fresh(&mut result, "has_voice", Value::Bool(self.has_voice), marks);
        let marks = put_fresh(&mut result, "has_caption", Value::Bool(self.has_caption), marks);
        let marks = put_fresh(&mut result, "caption", str_or_empty(self.caption), marks);
        result
    }
}

impl ContainsVariable for MessageVariables {
    /// A message has the same variables whatever it holds.
    open spec fn holds(&self, identifier: Seq<char>) -> bool {
        is_message_variable(identifier)
    }

    fn contains_variable(&self, identifier: &str) -> (r: bool) {
        str_eq(identifier, "has_from")
            || str_eq(identifier, "from_id")
            || str_eq(identifier, "from_is_bot")
            || str_eq(identifier, "from_username")
            || str_eq(identifier, "from_is_premium")
            || str_eq(identifier, "has_origin")
            || str_eq(identifier, "origin_type")
            || str_eq(identifier, "origin_user_id")
            || str_eq(identifier, "origin_user_is_bot")
            || str_eq(identifier, "origin_user_username")
            || str_eq(identifier, "origin_hidden_user_username")
            || str_eq(identifier, "origin_chat_id")
            || str_eq(identifier, "origin_chat_author_signature")
            || str_eq(identifier, "origin_channel_id")
            || str_eq(identifier, "origin_channel_message_id")
            || str_eq(identifier, "origin_channel_author_signature")
            || str_eq(identifier, "has_text")
            || str_eq(identifier, "text")
            || str_eq(identifier, "has_audio")
            || str_eq(identifier, "has_document")
            || str_eq(identifier, "has_animation")
            || str_eq(identifier, "has_game")
            || str_eq(identifier, "has_photo")
            || str_eq(identifier, "has_sticker")
            || str_eq(identifier, "has_story")
            || str_eq(identifier, "has_video")
            || str_eq(identifier, "has_voice")
            || str_eq(identifier, "has_caption")
            || str_eq(identifier, "caption")
    }
}

} // verus!
