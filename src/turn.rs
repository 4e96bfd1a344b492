use vstd::prelude::*;

verus! {

/// The model every request names.
pub const MODEL: &'static str = "gpt-4.1-mini";

/// Where requests are sent.
pub const ENDPOINT: &'static str = "https://api.openai.com/v1/responses";

/// The environment variable that holds the service credential.
pub const CREDENTIAL_VAR: &'static str = "OPENAI_API_KEY";

/// The reply used when a successful response holds no text where one is
/// expected.
pub const NO_TEXT: &'static str = "<no text in response>";

/// The behavioural preamble sent with every request.
pub const INSTRUCTIONS: &'static str = "\nYou are a helpful assistant with the following style:\n- Use quick, clever humor when appropriate.\n- You can swear, but use profanity sparingly for emphasis, not constantly.\n- You have a dark sense of humor and a skeptical, questioning attitude.\n- You do NOT act like Gen Z or use TikTok slang.\n- You are direct, blunt, and honest, but not cruel. \n- You still follow safety rules and avoid encouraging harmful or hateful behavior.\n";

/// A parsed response document. Numbers are kept in their textual form, as
/// nothing here reads them; an object keeps its fields in order.
pub enum Json {
    Null,
    Bool(bool),
    Number(String),
    Str(String),
    Array(Vec<Json>),
    Object(Vec<(String, Json)>),
}

/// The ways a turn can fail.
pub enum ChatError {
    /// The credential variable is not set.
    MissingCredential,
    /// A context file could not be read as text.
    FileRead { path: String },
    /// The exchange with the service did not complete.
    Transport { cause: String },
    /// The service answered with a status outside the success range.
    Service { status: u16, body: String },
}

/// The abstract value of a failure.
pub enum ErrorView {
    MissingCredential,
    FileRead(Seq<char>),
    Transport(Seq<char>),
    Service(u16, Seq<char>),
}

impl View for ChatError {
    type V = ErrorView;

    open spec fn view(&self) -> ErrorView {
        match self {
            ChatError::MissingCredential => ErrorView::MissingCredential,
            ChatError::FileRead { path } => ErrorView::FileRead(path@),
            ChatError::Transport { cause } => ErrorView::Transport(cause@),
            ChatError::Service { status, body } => ErrorView::Service(*status, body@),
        }
    }
}

impl ChatError {
    /// A copy of the failure.
    pub fn duplicate(&self) -> (r: ChatError)
        ensures
            r@ == self@,
    {
        match self {
            ChatError::MissingCredential => ChatError::MissingCredential,
            ChatError::FileRead { path } => ChatError::FileRead { path: path.clone() },
            ChatError::Transport { cause } => ChatError::Transport { cause: cause.clone() },
            ChatError::Service { status, body } => ChatError::Service {
                status: *status,
                body: body.clone(),
            },
        }
    }
}

/// The request sent for one turn.
pub struct RequestBody {
    pub model: String,
    pub input: String,
    pub instructions: String,
}

/// The request for a prompt: the fixed model, the prompt as input and the
/// fixed preamble.
pub fn request_body(prompt: &str) -> (r: RequestBody)
    ensures
        r.model@ == MODEL@,
        r.input@ == prompt@,
        r.instructions@ == INSTRUCTIONS@,
{
    RequestBody {
        model: MODEL.to_owned(),
        input: prompt.to_owned(),
        instructions: INSTRUCTIONS.to_owned(),
    }
}

/// The credential, from the variable's value if it is set.
pub fn credential(value: Option<String>) -> (r: Result<String, ChatError>)
    ensures
        value is Some <==> r is Ok,
        value is Some ==> r->Ok_0@ == value->0@,
        value is None ==> r matches Err(ChatError::MissingCredential),
{
    match value {
        Some(v) => Ok(v),
        None => Err(ChatError::MissingCredential),
    }
}

/// The value of the first field named `key` of an object's fields.
pub open spec fn first_field(fields: Seq<(String, Json)>, key: Seq<char>) -> Option<Json>
    decreases fields.len(),
{
    if fields.len() == 0 {
        None
    } else if fields[0].0@ == key {
        Some(fields[0].1)
    } else {
        first_field(fields.drop_first(), key)
    }
}

/// Looking up a field: only an object has fields.
pub open spec fn field_of(v: Json, key: Seq<char>) -> Option<Json> {
    match v {
        Json::Object(fields) => first_field(fields@, key),
        _ => None,
    }
}

/// Looking up a position: only an array has positions.
pub open spec fn item_of(v: Json, i: int) -> Option<Json> {
    match v {
        Json::Array(items) => if 0 <= i < items@.len() {
            Some(items@[i])
        } else {
            None
        },
        _ => None,
    }
}

/// The text at `output[0].content[0].text`, if every step is there and the
/// last one is a string.
pub open spec fn reply_at_path(v: Json) -> Option<Seq<char>> {
    match field_of(v, "output"@) {
        None => None,
        Some(output) => match item_of(output, 0) {
            None => None,
            Some(first) => match field_of(first, "content"@) {
                None => None,
                Some(content) => match item_of(content, 0) {
                    None => None,
                    Some(part) => match field_of(part, "text"@) {
                        Some(Json::Str(s)) => Some(s@),
                        _ => None,
                    },
                },
            },
        },
    }
}

/// The reply of a successful response: the text at the reply path, or the
/// placeholder.
pub open spec fn reply_text(v: Json) -> Seq<char> {
    match reply_at_path(v) {
        Some(t) => t,
        None => NO_TEXT@,
    }
}

/// A successful response whose `output[0].content[0].text` is the string
/// `x` yields `x`; one where any step of that path is missing, or where the
/// text is not a string, yields the placeholder, never a failure.
pub proof fn lemma_reply_or_placeholder(
    v: Json,
    output: Json,
    first: Json,
    content: Json,
    part: Json,
    x: String,
)
    requires
        field_of(v, "output"@) == Some(output),
        item_of(output, 0) == Some(first),
        field_of(first, "content"@) == Some(content),
        item_of(content, 0) == Some(part),
    ensures
        field_of(part, "text"@) == Some(Json::Str(x)) ==> reply_text(v) == x@,
        !(field_of(part, "text"@) matches Some(Json::Str(_))) ==> reply_text(v) == NO_TEXT@,
{
}

/// A response without the reply path yields the placeholder.
pub proof fn lemma_no_path_placeholder(v: Json)
    requires
        reply_at_path(v) is None,
    ensures
        reply_text(v) == NO_TEXT@,
{
}

fn get_field<'a>(v: &'a Json, key: &str) -> (r: Option<&'a Json>)
    ensures
        r is Some <==> field_of(*v, key@) is Some,
        r is Some ==> field_of(*v, key@) == Some(*r->0),
{
    match v {
        Json::Object(fields) => {
            let k = key.to_owned();
            let mut i: usize = 0;
            assert(fields@.skip(0) =~= fields@);
            while i < fields.len()
                invariant
                    i <= fields@.len(),
                    k@ == key@,
                    field_of(*v, key@) == first_field(fields@, key@),
                    first_field(fields@, key@) == first_field(fields@.skip(i as int), key@),
                decreases fields@.len() - i,
            {
                assert(fields@.skip(i as int).drop_first() =~= fields@.skip(i + 1));
                assert(fields@.skip(i as int)[0] == fields@[i as int]);
                if fields[i].0 == k {
                    return Some(&fields[i].1);
                }
                i = i + 1;
            }
            None
        },
        _ => None,
    }
}

fn get_item<'a>(v: &'a Json, i: usize) -> (r: Option<&'a Json>)
    ensures
        r is Some <==> item_of(*v, i as int) is Some,
        r is Some ==> item_of(*v, i as int) == Some(*r->0),
{
    match v {
        Json::Array(items) => if i < items.len() {
            Some(&items[i])
        } else {
            None
        },
        _ => None,
    }
}

/// Extracts the reply text from a successful response.
pub fn extract_reply(body: &Json) -> (r: String)
    ensures
        r@ == reply_text(*body),
{
    let found: Option<&String> = match get_field(body, "output") {
        None => None,
        Some(output) => match get_item(output, 0) {
            None => None,
            Some(first) => match get_field(first, "content") {
                None => None,
                Some(content) => match get_item(content, 0) {
                    None => None,
                    Some(part) => match get_field(part, "text") {
                        Some(Json::Str(s)) => Some(s),
                        _ => None,
                    },
                },
            },
        },
    };
    match found {
        Some(s) => s.clone(),
        None => NO_TEXT.to_owned(),
    }
}

/// Whether a status is in the success range.
pub open spec fn is_success(status: u16) -> bool {
    200 <= status < 300
}

/// The outcome of one exchange, from the response's status, its body text
/// and the body decoded as a document (`None` where it does not decode).
/// A successful response that does not decode yields the placeholder.
pub fn finish_exchange(status: u16, body: String, parsed: Option<Json>) -> (r: Result<
    String,
    ChatError,
>)
    ensures
        !is_success(status) ==> (r matches Err(ChatError::Service { status: s, body: b }) && s
            == status && b@ == body@),
        is_success(status) && parsed is None ==> (r is Ok && r->Ok_0@ == NO_TEXT@),
        is_success(status) && parsed is Some ==> (r is Ok && r->Ok_0@ == reply_text(
            parsed->0,
        )),
{
    if status < 200 || status >= 300 {
        Err(ChatError::Service { status, body })
    } else {
        match parsed {
            None => Ok(NO_TEXT.to_owned()),
            Some(doc) => Ok(extract_reply(&doc)),
        }
    }
}

} // verus!
