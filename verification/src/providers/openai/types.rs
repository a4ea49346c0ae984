//! The documents that the provider answers with, and how they are decoded.
//! Members that a schema does not name are ignored. The members of a
//! document are read in the order in which the schema lists them, and the
//! first that is missing or of the wrong type gives the error.

use crate::json::{
    decoded_list, decoded_member, list_field, member_as, optional_decoded_list,
    optional_decoded_member, optional_list_field, optional_member_as, views, FromJson, Json,
    JsonValue,
};
use vstd::prelude::*;

verus! {

/// The answer to a chat completion.
#[derive(Debug, Clone)]
pub struct ChatCompletionResponse {
    pub id: String,
    pub object: String,
    pub created: i64,
    pub model: String,
    pub choices: Vec<Choice>,
    pub usage: Option<Usage>,
}

/// One choice of a chat completion.
#[derive(Debug, Clone)]
pub struct Choice {
    pub index: i32,
    pub message: ResponseMessage,
    pub finish_reason: Option<String>,
}

/// The message of a choice.
#[derive(Debug, Clone)]
pub struct ResponseMessage {
    pub role: String,
    pub content: Option<String>,
    pub tool_calls: Option<Vec<ToolCall>>,
}

/// A call of a tool that the model asks for.
#[derive(Debug, Clone)]
pub struct ToolCall {
    pub id: String,
    pub call_type: String,
    pub function: FunctionCall,
}

/// The function of a tool call, with its arguments as JSON text.
#[derive(Debug, Clone)]
pub struct FunctionCall {
    pub name: String,
    pub arguments: String,
}

/// Token counts of a chat completion.
#[derive(Debug, Clone, Copy, PartialEq, Eq)]
pub struct Usage {
    pub prompt_tokens: i32,
    pub completion_tokens: i32,
    pub total_tokens: i32,
}

/// The answer to an image generation.
#[derive(Debug, Clone)]
pub struct ImageGenerationResponse {
    pub created: i64,
    pub data: Vec<ImageData>,
}

/// One generated image: where it is, or what it is.
#[derive(Debug, Clone)]
pub struct ImageData {
    pub url: Option<String>,
    pub b64_json: Option<String>,
    pub revised_prompt: Option<String>,
}

/// The answer to a listing of models.
#[derive(Debug, Clone)]
pub struct ModelListResponse {
    pub data: Vec<Model>,
}

/// One model of the provider.
#[derive(Debug, Clone)]
pub struct Model {
    pub id: String,
    pub object: String,
    pub created: i64,
    pub owned_by: String,
}

/// The value of a [`ChatCompletionResponse`].
pub struct ChatCompletionResponseView {
    pub id: Seq<char>,
    pub object: Seq<char>,
    pub created: i64,
    pub model: Seq<char>,
    pub choices: Seq<ChoiceView>,
    pub usage: Option<Usage>,
}

/// The value of a [`Choice`].
pub struct ChoiceView {
    pub index: i32,
    pub message: ResponseMessageView,
    pub finish_reason: Option<Seq<char>>,
}

/// The value of a [`ResponseMessage`].
pub struct ResponseMessageView {
    pub role: Seq<char>,
    pub content: Option<Seq<char>>,
    pub tool_calls: Option<Seq<ToolCallView>>,
}

/// The value of a [`ToolCall`].
pub struct ToolCallView {
    pub id: Seq<char>,
    pub call_type: Seq<char>,
    pub function: FunctionCallView,
}

/// The value of a [`FunctionCall`].
pub struct FunctionCallView {
    pub name: Seq<char>,
    pub arguments: Seq<char>,
}

/// The value of an [`ImageGenerationResponse`].
pub struct ImageGenerationResponseView {
    pub created: i64,
    pub data: Seq<ImageDataView>,
}

/// The value of an [`ImageData`].
pub struct ImageDataView {
    pub url: Option<Seq<char>>,
    pub b64_json: Option<Seq<char>>,
    pub revised_prompt: Option<Seq<char>>,
}

/// The value of a [`ModelListResponse`].
pub struct ModelListResponseView {
    pub data: Seq<ModelView>,
}

/// The value of a [`Model`].
pub struct ModelView {
    pub id: Seq<char>,
    pub object: Seq<char>,
    pub created: i64,
    pub owned_by: Seq<char>,
}

impl View for Usage {
    type V = Usage;

    open spec fn view(&self) -> Usage {
        *self
    }
}

impl View for FunctionCall {
    type V = FunctionCallView;

    open spec fn view(&self) -> FunctionCallView {
        FunctionCallView { name: self.name@, arguments: self.arguments@ }
    }
}

impl View for ToolCall {
    type V = ToolCallView;

    open spec fn view(&self) -> ToolCallView {
        ToolCallView { id: self.id@, call_type: self.call_type@, function: self.function@ }
    }
}

impl View for ResponseMessage {
    type V = ResponseMessageView;

    open spec fn view(&self) -> ResponseMessageView {
        ResponseMessageView {
            role: self.role@,
            content: self.content.deep_view(),
            tool_calls: match self.tool_calls {
                Some(calls) => Some(views(calls@)),
                None => None,
            },
        }
    }
}

impl View for Choice {
    type V = ChoiceView;

    open spec fn view(&self) -> ChoiceView {
        ChoiceView {
            index: self.index,
            message: self.message@,
            finish_reason: self.finish_reason.deep_view(),
        }
    }
}

impl View for ChatCompletionResponse {
    type V = ChatCompletionResponseView;

    open spec fn view(&self) -> ChatCompletionResponseView {
        ChatCompletionResponseView {
            id: self.id@,
            object: self.object@,
            created: self.created,
            model: self.model@,
            choices: views(self.choices@),
            usage: self.usage,
        }
    }
}

impl View for ImageData {
    type V = ImageDataView;

    open spec fn view(&self) -> ImageDataView {
        ImageDataView {
            url: self.url.deep_view(),
            b64_json: self.b64_json.deep_view(),
            revised_prompt: self.revised_prompt.deep_view(),
        }
    }
}

impl View for ImageGenerationResponse {
    type V = ImageGenerationResponseView;

    open spec fn view(&self) -> ImageGenerationResponseView {
        ImageGenerationResponseView {
            created: self.created,
            data: views(self.data@),
        }
    }
}

impl View for Model {
    type V = ModelView;

    open spec fn view(&self) -> ModelView {
        ModelView {
            id: self.id@,
            object: self.object@,
            created: self.created,
            owned_by: self.owned_by@,
        }
    }
}

impl View for ModelListResponse {
    type V = ModelListResponseView;

    open spec fn view(&self) -> ModelListResponseView {
        ModelListResponseView { data: views(self.data@) }
    }
}

impl FromJson for Model {
    /// The model that a document stands for.
    open spec fn of(doc: JsonValue) -> Result<ModelView, serde_json::Error> {
        match (
            doc.text_member("id"@),
            doc.text_member("object"@),
            doc.i64_member("created"@),
            doc.text_member("owned_by"@),
        ) {
            (Ok(id), Ok(object), Ok(created), Ok(owned_by)) => Ok(ModelView { id, object, created, owned_by }),
            (Err(e), _, _, _) => Err(e),
            (_, Err(e), _, _) => Err(e),
            (_, _, Err(e), _) => Err(e),
            (_, _, _, Err(e)) => Err(e),
        }
    }

    /// Decodes a model.
    fn decode(doc: &Json) -> (out: Result<Model, serde_json::Error>) {
        let id = doc.text_field("id")?;
        let object = doc.text_field("object")?;
        let created = doc.i64_field("created")?;
        let owned_by = doc.text_field("owned_by")?;
        Ok(Model { id, object, created, owned_by })
    }
}

impl FromJson for ModelListResponse {
    /// The listing of models that a document stands for.
    open spec fn of(doc: JsonValue) -> Result<ModelListResponseView, serde_json::Error> {
        match decoded_list::<Model>(doc, "data"@) {
            Ok(data) => Ok(ModelListResponseView { data }),
            Err(e) => Err(e),
        }
    }

    /// Decodes a listing of models.
    fn decode(doc: &Json) -> (out: Result<ModelListResponse, serde_json::Error>) {
        let data = list_field::<Model>(doc, "data")?;
        Ok(ModelListResponse { data })
    }
}

impl FromJson for FunctionCall {
    /// The function call that a document stands for.
    open spec fn of(doc: JsonValue) -> Result<FunctionCallView, serde_json::Error> {
        match (
            doc.text_member("name"@),
            doc.text_member("arguments"@),
        ) {
            (Ok(name), Ok(arguments)) => Ok(FunctionCallView { name, arguments }),
            (Err(e), _) => Err(e),
            (_, Err(e)) => Err(e),
        }
    }

    /// Decodes a function call.
    fn decode(doc: &Json) -> (out: Result<FunctionCall, serde_json::Error>) {
        let name = doc.text_field("name")?;
        let arguments = doc.text_field("arguments")?;
        Ok(FunctionCall { name, arguments })
    }
}

impl FromJson for ToolCall {
    /// The tool call that a document stands for.
    open spec fn of(doc: JsonValue) -> Result<ToolCallView, serde_json::Error> {
        match (
            doc.text_member("id"@),
            doc.text_member("type"@),
            decoded_member::<FunctionCall>(doc, "function"@),
        ) {
            (Ok(id), Ok(call_type), Ok(function)) => Ok(ToolCallView { id, call_type, function }),
            (Err(e), _, _) => Err(e),
            (_, Err(e), _) => Err(e),
            (_, _, Err(e)) => Err(e),
        }
    }

    /// Decodes a tool call.
    fn decode(doc: &Json) -> (out: Result<ToolCall, serde_json::Error>) {
        let id = doc.text_field("id")?;
        let call_type = doc.text_field("type")?;
        let function = member_as::<FunctionCall>(doc, "function")?;
        Ok(ToolCall { id, call_type, function })
    }
}

impl FromJson for ResponseMessage {
    /// The message that a document stands for.
    open spec fn of(doc: JsonValue) -> Result<ResponseMessageView, serde_json::Error> {
        match (
            doc.text_member("role"@),
            doc.optional_text_member("content"@),
            optional_decoded_list::<ToolCall>(doc, "tool_calls"@),
        ) {
            (Ok(role), Ok(content), Ok(tool_calls)) => Ok(ResponseMessageView { role, content, tool_calls }),
            (Err(e), _, _) => Err(e),
            (_, Err(e), _) => Err(e),
            (_, _, Err(e)) => Err(e),
        }
    }

    /// Decodes the message of a choice.
    fn decode(doc: &Json) -> (out: Result<ResponseMessage, serde_json::Error>) {
        let role = doc.text_field("role")?;
        let content = doc.optional_text_field("content")?;
        let tool_calls = optional_list_field::<ToolCall>(doc, "tool_calls")?;
        Ok(ResponseMessage { role, content, tool_calls })
    }
}

impl FromJson for Choice {
    /// The choice that a document stands for.
    open spec fn of(doc: JsonValue) -> Result<ChoiceView, serde_json::Error> {
        match (
            doc.i32_member("index"@),
            decoded_member::<ResponseMessage>(doc, "message"@),
            doc.optional_text_member("finish_reason"@),
        ) {
            (Ok(index), Ok(message), Ok(finish_reason)) => Ok(ChoiceView { index, message, finish_reason }),
            (Err(e), _, _) => Err(e),
            (_, Err(e), _) => Err(e),
            (_, _, Err(e)) => Err(e),
        }
    }

    /// Decodes a choice.
    fn decode(doc: &Json) -> (out: Result<Choice, serde_json::Error>) {
        let index = doc.i32_field("index")?;
        let message = member_as::<ResponseMessage>(doc, "message")?;
        let finish_reason = doc.optional_text_field("finish_reason")?;
        Ok(Choice { index, message, finish_reason })
    }
}

impl FromJson for Usage {
    /// The token counts that a document stands for.
    open spec fn of(doc: JsonValue) -> Result<Usage, serde_json::Error> {
        match (
            doc.i32_member("prompt_tokens"@),
            doc.i32_member("completion_tokens"@),
            doc.i32_member("total_tokens"@),
        ) {
            (Ok(prompt_tokens), Ok(completion_tokens), Ok(total_tokens)) => Ok(Usage { prompt_tokens, completion_tokens, total_tokens }),
            (Err(e), _, _) => Err(e),
            (_, Err(e), _) => Err(e),
            (_, _, Err(e)) => Err(e),
        }
    }

    /// Decodes token counts.
    fn decode(doc: &Json) -> (out: Result<Usage, serde_json::Error>) {
        let prompt_tokens = doc.i32_field("prompt_tokens")?;
        let completion_tokens = doc.i32_field("completion_tokens")?;
        let total_tokens = doc.i32_field("total_tokens")?;
        Ok(Usage { prompt_tokens, completion_tokens, total_tokens })
    }
}

impl FromJson for ChatCompletionResponse {
    /// The chat completion that a document stands for.
    open spec fn of(doc: JsonValue) -> Result<ChatCompletionResponseView, serde_json::Error> {
        match (
            doc.text_member("id"@),
            doc.text_member("object"@),
            doc.i64_member("created"@),
            doc.text_member("model"@),
            decoded_list::<Choice>(doc, "choices"@),
            optional_decoded_member::<Usage>(doc, "usage"@),
        ) {
            (Ok(id), Ok(object), Ok(created), Ok(model), Ok(choices), Ok(usage)) => Ok(ChatCompletionResponseView { id, object, created, model, choices, usage }),
            (Err(e), _, _, _, _, _) => Err(e),
            (_, Err(e), _, _, _, _) => Err(e),
            (_, _, Err(e), _, _, _) => Err(e),
            (_, _, _, Err(e), _, _) => Err(e),
            (_, _, _, _, Err(e), _) => Err(e),
            (_, _, _, _, _, Err(e)) => Err(e),
        }
    }

    /// Decodes the answer to a chat completion.
    fn decode(doc: &Json) -> (out: Result<ChatCompletionResponse, serde_json::Error>) {
        let id = doc.text_field("id")?;
        let object = doc.text_field("object")?;
        let created = doc.i64_field("created")?;
        let model = doc.text_field("model")?;
        let choices = list_field::<Choice>(doc, "choices")?;
        let usage = optional_member_as::<Usage>(doc, "usage")?;
        Ok(ChatCompletionResponse { id, object, created, model, choices, usage })
    }
}

impl FromJson for ImageData {
    /// The image that a document stands for.
    open spec fn of(doc: JsonValue) -> Result<ImageDataView, serde_json::Error> {
        match (
            doc.object_or_rejection("image"@),
            doc.optional_text_member("url"@),
            doc.optional_text_member("b64_json"@),
            doc.optional_text_member("revised_prompt"@),
        ) {
            (Ok(_), Ok(url), Ok(b64_json), Ok(revised_prompt)) => Ok(ImageDataView { url, b64_json, revised_prompt }),
            (Err(e), _, _, _) => Err(e),
            (_, Err(e), _, _) => Err(e),
            (_, _, Err(e), _) => Err(e),
            (_, _, _, Err(e)) => Err(e),
        }
    }

    /// Decodes one generated image.
    fn decode(doc: &Json) -> (out: Result<ImageData, serde_json::Error>) {
        doc.expect_object("image")?;
        let url = doc.optional_text_field("url")?;
        let b64_json = doc.optional_text_field("b64_json")?;
        let revised_prompt = doc.optional_text_field("revised_prompt")?;
        Ok(ImageData { url, b64_json, revised_prompt })
    }
}

impl FromJson for ImageGenerationResponse {
    /// The image generation that a document stands for.
    open spec fn of(doc: JsonValue) -> Result<ImageGenerationResponseView, serde_json::Error> {
        match (
            doc.i64_member("created"@),
            decoded_list::<ImageData>(doc, "data"@),
        ) {
            (Ok(created), Ok(data)) => Ok(ImageGenerationResponseView { created, data }),
            (Err(e), _) => Err(e),
            (_, Err(e)) => Err(e),
        }
    }

    /// Decodes the answer to an image generation.
    fn decode(doc: &Json) -> (out: Result<ImageGenerationResponse, serde_json::Error>) {
        let created = doc.i64_field("created")?;
        let data = list_field::<ImageData>(doc, "data")?;
        Ok(ImageGenerationResponse { created, data })
    }
}

} // verus!
