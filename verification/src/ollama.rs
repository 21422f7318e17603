//! The exchange with the Ollama API: what is sent and how the reply is decoded.

use vstd::prelude::*;
use vstd::string::*;

use crate::json::{json_document, json_views, Json, JsonValue};
use crate::oneiromancer::{
    variable_views, OneiromancerError, OneiromancerResults, ResultsView, Variable, VariableView,
};

verus! {

/// A generation request, as plain values.
pub struct RequestView {
    pub model: Seq<char>,
    pub prompt: Seq<char>,
    pub stream: bool,
    pub format: Seq<char>,
}

/// A request to generate an analysis of a piece of pseudocode.
#[derive(Debug, Clone)]
pub struct OllamaRequest<'a> {
    model: &'a str,
    prompt: &'a str,
    stream: bool,
    format: &'a str,
}

impl<'a> View for OllamaRequest<'a> {
    type V = RequestView;

    closed spec fn view(&self) -> RequestView {
        RequestView {
            model: self.model@,
            prompt: self.prompt@,
            stream: self.stream,
            format: self.format@,
        }
    }
}

impl<'a> OllamaRequest<'a> {
    /// The request that asks `model` about `prompt`. The answer is asked for
    /// in one piece, not as a stream, and as JSON.
    pub fn new(model: &'a str, prompt: &'a str) -> (request: Self)
        ensures
            request@.model == model@,
            request@.prompt == prompt@,
            !request@.stream,
            request@.format == "json"@,
    {
        OllamaRequest { model, prompt, stream: false, format: "json" }
    }

    /// The model that is asked.
    pub fn model(&self) -> (model: &'a str)
        ensures
            model@ == self@.model,
    {
        self.model
    }

    /// The pseudocode that is sent.
    pub fn prompt(&self) -> (prompt: &'a str)
        ensures
            prompt@ == self@.prompt,
    {
        self.prompt
    }

    /// Whether the answer is asked for as a stream: never.
    pub fn stream(&self) -> (stream: bool)
        ensures
            stream == self@.stream,
    {
        self.stream
    }

    /// The format asked of the answer.
    pub fn format(&self) -> (format: &'a str)
        ensures
            format@ == self@.format,
    {
        self.format
    }
}

/// `text` without the slashes at its end.
pub open spec fn without_trailing_slashes(text: Seq<char>) -> Seq<char>
    decreases text.len(),
{
    if text.len() > 0 && text.last() == '/' {
        without_trailing_slashes(text.drop_last())
    } else {
        text
    }
}

/// The address of the generation endpoint of the server at `baseurl`.
pub open spec fn generate_endpoint(baseurl: Seq<char>) -> Seq<char> {
    without_trailing_slashes(baseurl) + "/api/generate"@
}

/// The address to which a request for the server at `baseurl` is posted:
/// `baseurl` without trailing slashes, followed by the endpoint's path.
pub fn generate_url(baseurl: &str) -> (url: String)
    ensures
        url@ == generate_endpoint(baseurl@),
{
    let mut end = baseurl.unicode_len();
    assert(baseurl@.take(end as int) =~= baseurl@);
    while end > 0 && baseurl.get_char(end - 1) == '/'
        invariant
            end <= baseurl@.len(),
            without_trailing_slashes(baseurl@) == without_trailing_slashes(
                baseurl@.take(end as int),
            ),
        decreases end,
    {
        assert(baseurl@.take(end as int).drop_last() =~= baseurl@.take(end - 1));
        end = end - 1;
    }
    let mut url = String::from_str(baseurl.substring_char(0, end));
    url.append("/api/generate");
    url
}

/// The text that `document` holds under `key`: `None` unless `document` is
/// an object with such a member and the member is a string.
pub open spec fn text_at(document: JsonValue, key: Seq<char>) -> Option<Seq<char>> {
    match document.member(key) {
        Some(value) => value.text(),
        None => None,
    }
}

/// The elements that `document` holds under `key`: `None` unless `document`
/// is an object with such a member and the member is an array.
pub open spec fn items_at(document: JsonValue, key: Seq<char>) -> Option<Seq<JsonValue>> {
    match document.member(key) {
        Some(value) => value.items(),
        None => None,
    }
}

/// The text of the answer in a reply: the string under `response`.
pub open spec fn decoded_response(document: JsonValue) -> Option<Seq<char>> {
    text_at(document, "response"@)
}

/// The rename that `item` spells out: an object with the strings
/// `original_name` and `new_name`.
pub open spec fn decoded_variable(item: JsonValue) -> Option<VariableView> {
    match (text_at(item, "original_name"@), text_at(item, "new_name"@)) {
        (Some(original_name), Some(new_name)) => Some(VariableView { original_name, new_name }),
        _ => None,
    }
}

/// The renames that `items` spell out, in the same order: `None` unless each
/// of them is a rename.
pub open spec fn decoded_variables(items: Seq<JsonValue>) -> Option<Seq<VariableView>> {
    if forall|i: int| 0 <= i < items.len() ==> (#[trigger] decoded_variable(items[i])) is Some {
        Some(items.map_values(|item: JsonValue| decoded_variable(item)->0))
    } else {
        None
    }
}

/// The results that `document` spells out: an object with the strings
/// `function_name` and `comment` and, under `variables`, an array of renames.
pub open spec fn decoded_results(document: JsonValue) -> Option<ResultsView> {
    match (
        text_at(document, "function_name"@),
        text_at(document, "comment"@),
        items_at(document, "variables"@),
    ) {
        (Some(function_name), Some(comment), Some(items)) => match decoded_variables(items) {
            Some(variables) => Some(ResultsView { function_name, comment, variables }),
            None => None,
        },
        _ => None,
    }
}

/// The results that the text of an answer spells out: `None` unless the text
/// is a JSON document of the expected shape.
pub open spec fn parsed_results(response: Seq<char>) -> Option<ResultsView> {
    match json_document(response) {
        Some(document) => decoded_results(document),
        None => None,
    }
}

/// The answer in the body of a reply: `None` unless the body is a JSON
/// document with a string under `response`.
pub open spec fn parsed_response(body: Seq<char>) -> Option<Seq<char>> {
    match json_document(body) {
        Some(document) => decoded_response(document),
        None => None,
    }
}

/// The error that `serde_json` makes of a message of one's own: the error
/// that says `message`.
pub uninterp spec fn json_error_saying(message: Seq<char>) -> serde_json::Error;

/// `serde::de::Error::custom` for `serde_json::Error`: the error made of
/// `message`, which depends on nothing else.
#[verifier::external_body]
fn shape_error(message: &str) -> (e: serde_json::Error)
    ensures
        e == json_error_saying(message@),
{
    <serde_json::Error as serde::de::Error>::custom(message)
}

/// What is said of a document in which `field` is missing or is not of the
/// expected kind.
pub open spec fn shape_message(field: Seq<char>) -> Seq<char> {
    "missing or invalid field `"@ + field + "`"@
}

/// The failure to report for a document in which `field` is missing or is not
/// of the expected kind: a parse failure whose cause names the field.
fn wrong_shape(field: &str) -> (e: OneiromancerError)
    ensures
        e == OneiromancerError::ResponseParseFailed(json_error_saying(shape_message(field@))),
{
    let mut message = String::from_str("missing or invalid field `");
    message.append(field);
    message.append("`");
    OneiromancerError::ResponseParseFailed(shape_error(message.as_str()))
}

/// The string that `document` holds under `key`.
fn text_member<'a>(document: &'a Json, key: &str) -> (found: Result<&'a str, OneiromancerError>)
    ensures
        match found {
            Ok(text) => text_at(document@, key@) == Some(text@),
            Err(e) => text_at(document@, key@) is None && e is ResponseParseFailed,
        },
{
    match document.get(key) {
        Some(value) => match value.as_text() {
            Some(text) => Ok(text),
            None => Err(wrong_shape(key)),
        },
        None => Err(wrong_shape(key)),
    }
}

/// The array that `document` holds under `key`.
fn array_member<'a>(document: &'a Json, key: &str) -> (found: Result<
    &'a Vec<Json>,
    OneiromancerError,
>)
    ensures
        match found {
            Ok(items) => items_at(document@, key@) == Some(json_views(items@)),
            Err(e) => items_at(document@, key@) is None && e is ResponseParseFailed,
        },
{
    match document.get(key) {
        Some(value) => match value.as_array() {
            Some(items) => Ok(items),
            None => Err(wrong_shape(key)),
        },
        None => Err(wrong_shape(key)),
    }
}

impl Variable {
    /// Decodes one rename from the JSON object that spells it out.
    pub fn from_json(item: &Json) -> (outcome: Result<Variable, OneiromancerError>)
        ensures
            match outcome {
                Ok(variable) => decoded_variable(item@) == Some(variable@),
                Err(e) => decoded_variable(item@) is None && e is ResponseParseFailed,
            },
    {
        let original_name = match text_member(item, "original_name") {
            Ok(text) => text,
            Err(e) => {
                return Err(e);
            },
        };
        let new_name = match text_member(item, "new_name") {
            Ok(text) => text,
            Err(e) => {
                return Err(e);
            },
        };
        Ok(Variable::new(original_name, new_name))
    }
}

impl OneiromancerResults {
    /// Decodes the results of an analysis from the JSON document that spells
    /// them out. Members other than the three expected ones are ignored.
    pub fn from_json(document: &Json) -> (outcome: Result<OneiromancerResults, OneiromancerError>)
        ensures
            match outcome {
                Ok(results) => decoded_results(document@) == Some(results@),
                Err(e) => decoded_results(document@) is None && e is ResponseParseFailed,
            },
    {
        let function_name = match text_member(document, "function_name") {
            Ok(text) => text,
            Err(e) => {
                return Err(e);
            },
        };
        let comment = match text_member(document, "comment") {
            Ok(text) => text,
            Err(e) => {
                return Err(e);
            },
        };
        let items = match array_member(document, "variables") {
            Ok(items) => items,
            Err(e) => {
                return Err(e);
            },
        };
        let ghost trees = json_views(items@);
        let mut variables: Vec<Variable> = Vec::new();
        let mut i: usize = 0;
        while i < items.len()
            invariant
                i <= items.len(),
                trees == json_views(items@),
                items_at(document@, "variables"@) == Some(trees),
                variables@.len() == i,
                forall|j: int|
                    0 <= j < i ==> (#[trigger] decoded_variable(trees[j])) == Some(variables@[j]@),
            decreases items.len() - i,
        {
            match Variable::from_json(&items[i]) {
                Ok(variable) => {
                    variables.push(variable);
                },
                Err(e) => {
                    assert(decoded_variable(trees[i as int]) is None);
                    return Err(e);
                },
            }
            i = i + 1;
        }
        assert(decoded_variables(trees) == Some(variable_views(variables@))) by {
            assert(decoded_variables(trees)->0 =~= variable_views(variables@));
        }
        Ok(OneiromancerResults::new(function_name, comment, variables))
    }
}

/// The reply of the endpoint to a generation request.
#[derive(Debug, Clone)]
pub struct OllamaResponse {
    response: String,
}

impl View for OllamaResponse {
    type V = Seq<char>;

    /// The text of the answer.
    closed spec fn view(&self) -> Seq<char> {
        self.response@
    }
}

impl OllamaResponse {
    /// The reply whose answer is `response`.
    pub fn new(response: &str) -> (reply: Self)
        ensures
            reply@ == response@,
    {
        OllamaResponse { response: String::from_str(response) }
    }

    /// The text of the answer.
    pub fn response(&self) -> (response: &str)
        ensures
            response@ == self@,
    {
        self.response.as_str()
    }

    /// Decodes a reply from the JSON document that spells it out. Members
    /// other than `response` are ignored.
    pub fn from_json(document: &Json) -> (outcome: Result<OllamaResponse, OneiromancerError>)
        ensures
            match outcome {
                Ok(reply) => decoded_response(document@) == Some(reply@),
                Err(e) => decoded_response(document@) is None && e is ResponseParseFailed,
            },
    {
        match text_member(document, "response") {
            Ok(text) => Ok(OllamaResponse::new(text)),
            Err(e) => Err(e),
        }
    }

    /// Decodes a reply from the body that the endpoint sent.
    pub fn from_body(body: &str) -> (outcome: Result<OllamaResponse, OneiromancerError>)
        ensures
            match outcome {
                Ok(reply) => parsed_response(body@) == Some(reply@),
                Err(e) => parsed_response(body@) is None && e is ResponseParseFailed,
            },
    {
        match Json::parse(body) {
            Ok(document) => OllamaResponse::from_json(&document),
            Err(cause) => Err(OneiromancerError::ResponseParseFailed(cause)),
        }
    }

    /// Turns the outcome of posting a request into a reply: a failure of the
    /// transport is a failed query, whatever it is, and a body that arrived
    /// is decoded.
    pub fn receive(posted: Result<String, ureq::Error>) -> (outcome: Result<
        OllamaResponse,
        OneiromancerError,
    >)
        ensures
            match posted {
                Ok(body) => match outcome {
                    Ok(reply) => parsed_response(body@) == Some(reply@),
                    Err(e) => parsed_response(body@) is None && e is ResponseParseFailed,
                },
                Err(cause) => outcome matches Err(e) && e == OneiromancerError::OllamaQueryFailed(
                    cause,
                ),
            },
    {
        match posted {
            Ok(body) => OllamaResponse::from_body(body.as_str()),
            Err(cause) => Err(OneiromancerError::OllamaQueryFailed(cause)),
        }
    }

    /// Decodes the results of the analysis from the text of the answer, which
    /// is itself a JSON document. An empty answer, which is what the endpoint
    /// gives for empty pseudocode, is no document and fails.
    pub fn parse(&self) -> (outcome: Result<OneiromancerResults, OneiromancerError>)
        ensures
            match outcome {
                Ok(results) => parsed_results(self@) == Some(results@),
                Err(e) => parsed_results(self@) is None && e is ResponseParseFailed,
            },
            self@.len() == 0 ==> outcome is Err,
    {
        match Json::parse(self.response.as_str()) {
            Ok(document) => OneiromancerResults::from_json(&document),
            Err(cause) => Err(OneiromancerError::ResponseParseFailed(cause)),
        }
    }
}

} // verus!
