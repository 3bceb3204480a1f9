//! The service facade: what each request comes to.
//!
//! A request is first validated. An unknown category and an argument that
//! cannot be marshalled are answered at once, without a native call. Any
//! other request is answered after one native call, from its return code and
//! its buffer. Every answer is the same envelope: a success flag and the data.

use crate::buffer::{
    c_text, decoding, gbk_text, process_buffer, process_error, DecodeFault, Decoding,
    MAX_DECODE_LEN,
};
use crate::category::{history_code, order_code, query_code};
use crate::category::{HistoryCategory, OrderSide, QueryCategory};
use crate::session::{call_reply, cancel_call, history_call, order_call};
use crate::session::{CallView, NativeCall, ThsClient};
use vstd::prelude::*;

verus! {

/// HTTP status of an answer that carries data.
pub const STATUS_OK: u16 = 200;

/// HTTP status of every failure, of validation and of the native library alike.
pub const STATUS_BAD_REQUEST: u16 = 400;

/// The body of an order request. The price is the bit pattern of the
/// single-precision number in the body.
#[derive(Debug, Clone)]
pub struct SendOrderParams {
    pub gddm: String,
    pub gpdm: String,
    pub price_bits: u32,
    pub quantity: i32,
}

/// The query string of a history request.
#[derive(Debug, Clone)]
pub struct HistoryDataParams {
    pub begin_date: String,
    pub end_date: String,
}

/// The data of an answer.
#[derive(Debug, PartialEq)]
pub enum Payload {
    /// No value: the envelope carries `null`.
    Null,
    /// The decoded value of a successful call.
    Json(serde_json::Value),
    /// A hint or a diagnostic.
    Text(String),
}

/// An answer: the HTTP status and the envelope.
#[derive(Debug, PartialEq)]
pub struct ApiResponse {
    pub status: u16,
    pub success: bool,
    pub data: Payload,
}

/// What a request comes to before any native call is made.
#[derive(Debug, PartialEq)]
pub enum Step {
    /// The request is answered at once.
    Reply(ApiResponse),
    /// The request needs this call; its result is to be handed to `finish`.
    Call(NativeCall),
}

/// The data of an answer as the contracts speak of it.
pub ghost enum PayloadView {
    Null,
    Json(serde_json::Value),
    Text(Seq<char>),
}

/// An answer as the contracts speak of it.
pub ghost struct ResponseView {
    pub status: u16,
    pub success: bool,
    pub data: PayloadView,
}

/// A step as the contracts speak of it.
pub ghost enum StepView {
    Reply(ResponseView),
    Call(CallView),
}

impl View for Payload {
    type V = PayloadView;

    open spec fn view(&self) -> PayloadView {
        match self {
            Payload::Null => PayloadView::Null,
            Payload::Json(value) => PayloadView::Json(*value),
            Payload::Text(text) => PayloadView::Text(text@),
        }
    }
}

impl View for ApiResponse {
    type V = ResponseView;

    open spec fn view(&self) -> ResponseView {
        ResponseView { status: self.status, success: self.success, data: self.data@ }
    }
}

impl View for Step {
    type V = StepView;

    open spec fn view(&self) -> StepView {
        match self {
            Step::Reply(response) => StepView::Reply(response@),
            Step::Call(call) => StepView::Call(call@),
        }
    }
}

/// The hint that answers an unknown query category.
pub open spec fn query_hint() -> Seq<char> {
    "参数错误,应为 zijin, chicang, weituo, chengjiao, weituokeche, gudong"@
}

/// The hint that answers an unknown order side.
pub open spec fn order_hint() -> Seq<char> {
    "url路径参数错误,应为 buy, sell"@
}

/// The hint that answers an unknown history category.
pub open spec fn history_hint() -> Seq<char> {
    "参数错误,应为 weituo, chengjiao"@
}

/// The answer to a request that failed, with the text that says why.
pub open spec fn failure(text: Seq<char>) -> ResponseView {
    ResponseView { status: STATUS_BAD_REQUEST, success: false, data: PayloadView::Text(text) }
}

/// The answer to a successful call that returned no value.
pub open spec fn success_without_value() -> ResponseView {
    ResponseView { status: STATUS_OK, success: true, data: PayloadView::Null }
}

/// The answer to a successful call that returned a value.
pub open spec fn success_with(value: serde_json::Value) -> ResponseView {
    ResponseView { status: STATUS_OK, success: true, data: PayloadView::Json(value) }
}

/// The step that marshalling comes to: the call, or the answer that carries
/// the conversion error, decoded like any diagnostic.
pub open spec fn marshalled_step(marshalled: Result<CallView, Seq<u8>>) -> StepView {
    match marshalled {
        Ok(call) => StepView::Call(call),
        Err(message) => StepView::Reply(failure(gbk_text(c_text(message)))),
    }
}

/// What a data query for a named category comes to.
pub open spec fn query_step(client: usize, category: Seq<char>) -> StepView {
    match query_code(category) {
        Some(code) => StepView::Call(CallView::QueryData { client, category: code }),
        None => StepView::Reply(failure(query_hint())),
    }
}

/// What an order for a named side comes to.
pub open spec fn order_step(client: usize, category: Seq<char>, params: SendOrderParams) -> StepView {
    match order_code(category) {
        Some(code) => marshalled_step(
            order_call(
                client,
                code,
                params.gddm@,
                params.gpdm@,
                params.price_bits,
                params.quantity,
            ),
        ),
        None => StepView::Reply(failure(order_hint())),
    }
}

/// What a history query for a named category comes to.
pub open spec fn history_step(
    client: usize,
    category: Seq<char>,
    params: HistoryDataParams,
) -> StepView {
    match history_code(category) {
        Some(code) => marshalled_step(
            history_call(client, code, params.begin_date@, params.end_date@),
        ),
        None => StepView::Reply(failure(history_hint())),
    }
}

/// The answer that a return code and a buffer come to, or the fault of a
/// success whose buffer cannot be read. A positive code with a readable buffer
/// is a success with the decoded value; any other code is a failure with the
/// buffer's text.
pub open spec fn answer(code: i32, buffer: Seq<u8>) -> Result<ResponseView, Decoding> {
    if code > 0 {
        match decoding(buffer) {
            Decoding::Absent => Ok(success_without_value()),
            Decoding::Value(value) => Ok(success_with(value)),
            fault => Err(fault),
        }
    } else {
        Ok(failure(gbk_text(c_text(buffer))))
    }
}

/// An answer, or a fault, as the contracts speak of them.
pub open spec fn answered(outcome: Result<ApiResponse, DecodeFault>) -> Result<
    ResponseView,
    Decoding,
> {
    match outcome {
        Ok(response) => Ok(response@),
        Err(DecodeFault::TruncatedFrame) => Err(Decoding::Truncated),
        Err(DecodeFault::MalformedPayload { text }) => Err(Decoding::Malformed(text@)),
    }
}

/// The answer to a failed request.
fn reject(text: String) -> (response: ApiResponse)
    ensures
        response@ == failure(text@),
{
    ApiResponse { status: STATUS_BAD_REQUEST, success: false, data: Payload::Text(text) }
}

/// The step of a prepared call: the call itself, or the answer to a text that
/// could not be marshalled.
fn prepared_step(outcome: Result<NativeCall, Vec<u8>>) -> (step: Step)
    requires
        outcome matches Err(message) ==> message@.len() <= MAX_DECODE_LEN,
    ensures
        step@ == marshalled_step(crate::session::prepared(outcome)),
{
    match outcome {
        Ok(call) => Step::Call(call),
        Err(message) => Step::Reply(reject(process_error(message.as_slice()))),
    }
}

/// Handles a data query: `GET /query/{category}`.
pub fn query_data(client: &ThsClient, category: &str) -> (step: Step)
    ensures
        step@ == query_step(client.token(), category@),
{
    match QueryCategory::from_name(category) {
        Some(found) => Step::Call(client.query_data(found.code())),
        None => Step::Reply(
            reject("参数错误,应为 zijin, chicang, weituo, chengjiao, weituokeche, gudong".to_owned()),
        ),
    }
}

/// Handles an order: `POST /order/{category}`.
pub fn send_order(client: &ThsClient, category: &str, params: &SendOrderParams) -> (step: Step)
    ensures
        step@ == order_step(client.token(), category@, *params),
{
    match OrderSide::from_name(category) {
        Some(side) => {
            let outcome = client.send_order(
                side.code(),
                params.gddm.as_str(),
                params.gpdm.as_str(),
                params.price_bits,
                params.quantity,
            );
            prepared_step(outcome)
        },
        None => Step::Reply(reject("url路径参数错误,应为 buy, sell".to_owned())),
    }
}

/// Handles a cancellation: `GET /order/cancel/{order_id}`.
pub fn cancel_order(client: &ThsClient, order_id: &str) -> (step: Step)
    ensures
        step@ == marshalled_step(cancel_call(client.token(), order_id@)),
{
    let outcome = client.cancel_order(order_id);
    prepared_step(outcome)
}

/// Handles a history query: `POST /history/{category}`.
pub fn query_history_data(client: &ThsClient, category: &str, params: &HistoryDataParams) -> (step:
    Step)
    ensures
        step@ == history_step(client.token(), category@, *params),
{
    match HistoryCategory::from_name(category) {
        Some(found) => {
            let outcome = client.query_history_data(
                found.code(),
                params.begin_date.as_str(),
                params.end_date.as_str(),
            );
            prepared_step(outcome)
        },
        None => Step::Reply(reject("参数错误,应为 weituo, chengjiao".to_owned())),
    }
}

/// Answers a request from what its native call returned. A success whose
/// buffer cannot be read is no answer but a fault.
pub fn finish(code: i32, buffer: Vec<u8>) -> (outcome: Result<ApiResponse, DecodeFault>)
    requires
        buffer@.len() <= MAX_DECODE_LEN,
    ensures
        answered(outcome) == answer(code, buffer@),
{
    match call_reply(code, buffer) {
        Ok(data) => match process_buffer(data.as_slice()) {
            Ok(None) => Ok(ApiResponse { status: STATUS_OK, success: true, data: Payload::Null }),
            Ok(Some(value)) => Ok(
                ApiResponse { status: STATUS_OK, success: true, data: Payload::Json(value) },
            ),
            Err(fault) => Err(fault),
        },
        Err(diagnostic) => Ok(reject(process_error(diagnostic.as_slice()))),
    }
}

/// A name outside a family's enumeration is answered at once with the
/// family's hint, and a name inside it is never answered with that hint: no
/// native call is made for the first, and the second goes on to marshalling.
pub proof fn lemma_unknown_names_are_rejected(
    client: usize,
    category: Seq<char>,
    order: SendOrderParams,
    period: HistoryDataParams,
)
    ensures
        query_code(category) is None <==> query_step(client, category) == StepView::Reply(
            failure(query_hint()),
        ),
        query_code(category) is Some <==> query_step(client, category) is Call,
        order_code(category) is None ==> order_step(client, category, order) == StepView::Reply(
            failure(order_hint()),
        ),
        history_code(category) is None ==> history_step(client, category, period)
            == StepView::Reply(failure(history_hint())),
{
}

/// Every answer is one of two envelopes. A positive return code gives a
/// success with status 200 that carries a value or nothing, or else a fault;
/// any other code gives a failure with status 400 that carries a text.
pub proof fn lemma_answer_envelope(code: i32, buffer: Seq<u8>)
    ensures
        match answer(code, buffer) {
            Ok(response) => {
                &&& response.success <==> code > 0
                &&& response.success ==> response.status == STATUS_OK && !(response.data is Text)
                &&& !response.success ==> response.status == STATUS_BAD_REQUEST && response.data
                    == PayloadView::Text(gbk_text(c_text(buffer)))
            },
            Err(fault) => code > 0 && (fault is Truncated || fault is Malformed),
        },
{
}

} // verus!
