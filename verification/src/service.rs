//! The service: what it asks of the chat completion API, and what it makes of
//! the answer.
//!
//! The service never talks to the API itself. It says what to send and where,
//! judges the status that came back, and turns a decoded answer into the
//! operation that logs the interaction.

use vstd::prelude::*;
use vstd::string::StringExecFns;

use crate::interaction::{ChatInteraction, ChatInteractionView, Operation, OperationView};

verus! {

/// The model that answers when the caller names none.
pub const DEFAULT_MODEL: &'static str = "meta-llama/Llama-3.3-70B-Instruct";

/// The limit on the tokens of an answer when the caller sets none.
pub const DEFAULT_MAX_TOKENS: usize = 128;

/// The base URL to access the Atoma Cloud proxy.
pub const ATOMA_CLOUD_URL: &'static str = "https://api.atoma.network";

/// The path of the chat completion API below the base URL.
pub const CHAT_COMPLETIONS_PATH: &'static str = "/v1/chat/completions";

/// The status of a successful API query.
pub const STATUS_OK: u16 = 200;

/// Why the service could not produce an operation.
#[derive(Clone, Copy, Debug, PartialEq, Eq, Structural)]
pub enum ServiceError {
    /// The API answered with a status other than success.
    QueryFailed { status: u16 },
    /// The API's answer holds no choice.
    EmptyChoices,
}

/// The character that stands for a decimal digit.
pub open spec fn digit_char(digit: nat) -> char {
    if digit == 0 {
        '0'
    } else if digit == 1 {
        '1'
    } else if digit == 2 {
        '2'
    } else if digit == 3 {
        '3'
    } else if digit == 4 {
        '4'
    } else if digit == 5 {
        '5'
    } else if digit == 6 {
        '6'
    } else if digit == 7 {
        '7'
    } else if digit == 8 {
        '8'
    } else {
        '9'
    }
}

/// The decimal digits of a number, the most significant first, without
/// leading zeros.
pub open spec fn decimal_digits(number: nat) -> Seq<char>
    decreases number,
{
    if number < 10 {
        seq![digit_char(number)]
    } else {
        decimal_digits(number / 10).push(digit_char(number % 10))
    }
}

/// The text of one decimal digit.
fn digit_text(digit: u16) -> (text: &'static str)
    requires
        digit < 10,
    ensures
        text@ == seq![digit_char(digit as nat)],
{
    proof {
        reveal_strlit("0");
        reveal_strlit("1");
        reveal_strlit("2");
        reveal_strlit("3");
        reveal_strlit("4");
        reveal_strlit("5");
        reveal_strlit("6");
        reveal_strlit("7");
        reveal_strlit("8");
        reveal_strlit("9");
    }
    let text = if digit == 0 {
        "0"
    } else if digit == 1 {
        "1"
    } else if digit == 2 {
        "2"
    } else if digit == 3 {
        "3"
    } else if digit == 4 {
        "4"
    } else if digit == 5 {
        "5"
    } else if digit == 6 {
        "6"
    } else if digit == 7 {
        "7"
    } else if digit == 8 {
        "8"
    } else {
        "9"
    };
    assert(text@ =~= seq![digit_char(digit as nat)]);
    text
}

/// A number written in decimal digits.
pub fn decimal_text(number: u16) -> (text: String)
    ensures
        text@ == decimal_digits(number as nat),
    decreases number,
{
    if number < 10 {
        String::from_str(digit_text(number))
    } else {
        let text = decimal_text(number / 10).concat(digit_text(number % 10));
        assert(text@ =~= decimal_digits(number as nat));
        text
    }
}

impl ServiceError {
    /// The reason in words.
    pub fn message(&self) -> (text: String)
        ensures
            text@ == match *self {
                ServiceError::QueryFailed { status } =>
                    "Failed to perform chat completion API query. Status code: "@
                        + decimal_digits(status as nat),
                ServiceError::EmptyChoices =>
                    "Chat completion response has an empty `choices` list"@,
            },
    {
        match self {
            ServiceError::QueryFailed { status } => String::from_str(
                "Failed to perform chat completion API query. Status code: ",
            ).concat(decimal_text(*status).as_str()),
            ServiceError::EmptyChoices => String::from_str(
                "Chat completion response has an empty `choices` list",
            ),
        }
    }
}

/// A message to be sent to the AI chat.
#[derive(Clone, Debug, Eq, PartialEq)]
pub struct ChatMessage {
    pub content: String,
    pub role: String,
    pub name: Option<String>,
}

/// The text of a [`ChatMessage`].
pub struct ChatMessageView {
    pub content: Seq<char>,
    pub role: Seq<char>,
    pub name: Option<Seq<char>>,
}

impl View for ChatMessage {
    type V = ChatMessageView;

    open spec fn view(&self) -> ChatMessageView {
        ChatMessageView {
            content: self.content@,
            role: self.role@,
            name: match self.name {
                Some(name) => Some(name@),
                None => None,
            },
        }
    }
}

/// The POST body to be sent to the chat completion API.
#[derive(Clone, Debug)]
pub struct ChatCompletionRequest<'message> {
    pub stream: bool,
    pub messages: &'message [&'message ChatMessage],
    pub model: String,
    pub max_tokens: usize,
}

impl<'message> ChatCompletionRequest<'message> {
    /// The request that asks for one complete answer to `messages`, from
    /// `model` or else the default model, of at most `max_tokens` tokens or
    /// else the default limit.
    pub fn new(
        messages: &'message [&'message ChatMessage],
        model: Option<String>,
        max_tokens: Option<usize>,
    ) -> (request: Self)
        ensures
            !request.stream,
            request.messages == messages,
            request.model@ == match model {
                Some(name) => name@,
                None => DEFAULT_MODEL@,
            },
            request.max_tokens == match max_tokens {
                Some(limit) => limit,
                None => DEFAULT_MAX_TOKENS,
            },
    {
        let model = match model {
            Some(name) => name,
            None => String::from_str(DEFAULT_MODEL),
        };
        let max_tokens = match max_tokens {
            Some(limit) => limit,
            None => DEFAULT_MAX_TOKENS,
        };
        ChatCompletionRequest { stream: false, messages, model, max_tokens }
    }
}

/// The response received from the chat completion API.
#[derive(Clone, Debug)]
pub struct ChatCompletionResponse {
    pub choices: Vec<ChatCompletionChoice>,
}

/// A choice received in the response from a chat completion API.
#[derive(Clone, Debug)]
pub struct ChatCompletionChoice {
    pub message: ChatMessage,
}

/// Only the response for a [`ChatInteraction`].
#[derive(Clone, Debug)]
pub struct ChatInteractionResponse {
    pub response: String,
}

impl View for ChatInteractionResponse {
    type V = Seq<char>;

    open spec fn view(&self) -> Seq<char> {
        self.response@
    }
}

impl ChatInteractionResponse {
    /// Parses the first choice from a [`ChatCompletionResponse`] to extract the
    /// [`ChatInteractionResponse`]. A response without a choice is an error.
    pub fn parse_from_completion_response(response: ChatCompletionResponse) -> (result: Result<
        Self,
        ServiceError,
    >)
        ensures
            match result {
                Ok(parsed) => response.choices@.len() > 0 && parsed@
                    == response.choices@[0].message.content@,
                Err(error) => response.choices@.len() == 0 && error == ServiceError::EmptyChoices,
            },
    {
        let mut choices = response.choices;
        if choices.is_empty() {
            return Err(ServiceError::EmptyChoices);
        }
        let first_choice = choices.swap_remove(0);
        Ok(ChatInteractionResponse { response: first_choice.message.content })
    }

    /// Builds a [`ChatInteraction`] using this response and the provided `prompt`.
    pub fn with_prompt(self, prompt: String) -> (interaction: ChatInteraction)
        ensures
            interaction@ == (ChatInteractionView { prompt: prompt@, response: self@ }),
    {
        ChatInteraction { prompt, response: self.response }
    }
}

/// The URL of the chat completion API: the path of the API below
/// `atoma_proxy_url`, or below the Atoma Cloud proxy where none is given.
pub fn chat_completions_url(atoma_proxy_url: Option<&str>) -> (url: String)
    ensures
        url@ == match atoma_proxy_url {
            Some(base_url) => base_url@,
            None => ATOMA_CLOUD_URL@,
        } + CHAT_COMPLETIONS_PATH@,
{
    let base_url = match atoma_proxy_url {
        Some(base_url) => base_url,
        None => ATOMA_CLOUD_URL,
    };
    String::from_str(base_url).concat(CHAT_COMPLETIONS_PATH)
}

/// The value of the `Authorization` header that carries `api_token`.
pub fn bearer_authorization(api_token: &str) -> (value: String)
    ensures
        value@ == "Bearer "@ + api_token@,
{
    String::from_str("Bearer ").concat(api_token)
}

/// Judges the status of the API's answer: anything but success is an error
/// that carries the status.
pub fn check_query_status(status: u16) -> (result: Result<(), ServiceError>)
    ensures
        result == if status == STATUS_OK {
            Ok::<(), ServiceError>(())
        } else {
            Err::<(), ServiceError>(ServiceError::QueryFailed { status })
        },
{
    if status == STATUS_OK {
        Ok(())
    } else {
        Err(ServiceError::QueryFailed { status })
    }
}

/// The operation that logs the interaction made of `prompt` and the first
/// choice of the API's answer. An answer without a choice is an error.
pub fn chat_operation(prompt: String, response: ChatCompletionResponse) -> (result: Result<
    Operation,
    ServiceError,
>)
    ensures
        match result {
            Ok(operation) => response.choices@.len() > 0 && operation@
                == (OperationView::LogChatInteraction {
                interaction: ChatInteractionView {
                    prompt: prompt@,
                    response: response.choices@[0].message.content@,
                },
            }),
            Err(error) => response.choices@.len() == 0 && error == ServiceError::EmptyChoices,
        },
{
    match ChatInteractionResponse::parse_from_completion_response(response) {
        Ok(parsed) => Ok(Operation::LogChatInteraction { interaction: parsed.with_prompt(prompt) }),
        Err(error) => Err(error),
    }
}

} // verus!
