use serde_json::{Number, Value};
use ths_adapter::buffer::DecodeFault;
use ths_adapter::service::{
    cancel_order, finish, query_data, query_history_data, send_order, ApiResponse,
    HistoryDataParams, Payload, SendOrderParams, Step, STATUS_BAD_REQUEST, STATUS_OK,
};
use ths_adapter::session::{NativeCall, ThsClient};

/// `资金不足` in the legacy encoding.
const INSUFFICIENT_FUNDS: [u8; 8] = [215, 202, 189, 240, 178, 187, 215, 227];

fn client() -> ThsClient {
    let mut client = ThsClient::new();
    assert!(client.logon_reply(4096, Vec::new()).is_ok());
    client
}

fn filled(call: &NativeCall, text: &[u8]) -> Vec<u8> {
    let mut buffer = call.output_buffer();
    buffer[..text.len()].copy_from_slice(text);
    buffer
}

fn rejected(text: &str) -> ApiResponse {
    ApiResponse { status: 400, success: false, data: Payload::Text(text.to_string()) }
}

fn order() -> SendOrderParams {
    SendOrderParams {
        gddm: "A123456".to_string(),
        gpdm: "600000".to_string(),
        price_bits: 9.87f32.to_bits(),
        quantity: 100,
    }
}

fn period() -> HistoryDataParams {
    HistoryDataParams { begin_date: "20240101".to_string(), end_date: "20240131".to_string() }
}

fn legacy_text(bytes: &[u8]) -> String {
    encoding_rs::GBK.decode(bytes).0.into_owned()
}

#[test]
fn status_codes() {
    assert_eq!(STATUS_OK, 200);
    assert_eq!(STATUS_BAD_REQUEST, 400);
}

#[test]
fn query_funds_succeeds_with_decoded_value() {
    let client = client();
    let call = match query_data(&client, "zijin") {
        Step::Call(call) => call,
        Step::Reply(reply) => panic!("answered without a call: {:?}", reply),
    };
    assert_eq!(call, NativeCall::QueryData { client: 4096, category: 0 });
    let buffer = filled(&call, b"{\n\t\"data\" : {\"balance\":100}\n}\n");
    assert_eq!(buffer.len(), 524288);
    let mut object = serde_json::Map::new();
    object.insert("balance".to_string(), Value::Number(Number::from(100)));
    assert_eq!(
        finish(1, buffer),
        Ok(ApiResponse { status: 200, success: true, data: Payload::Json(Value::Object(object)) })
    );
}

#[test]
fn query_unknown_category_is_rejected_without_a_call() {
    let client = client();
    assert_eq!(
        query_data(&client, "unknown"),
        Step::Reply(rejected(
            "参数错误,应为 zijin, chicang, weituo, chengjiao, weituokeche, gudong"
        ))
    );
}

#[test]
fn order_failure_carries_the_diagnostic() {
    let client = client();
    let call = match send_order(&client, "buy", &order()) {
        Step::Call(call) => call,
        Step::Reply(reply) => panic!("answered without a call: {:?}", reply),
    };
    assert_eq!(
        call,
        NativeCall::SendOrder {
            client: 4096,
            category: 0,
            gddm: b"A123456".to_vec(),
            gpdm: b"600000".to_vec(),
            price_bits: 9.87f32.to_bits(),
            quantity: 100,
        }
    );
    let buffer = filled(&call, &INSUFFICIENT_FUNDS);
    assert_eq!(finish(-1, buffer), Ok(rejected("资金不足")));
}

#[test]
fn every_query_name_reaches_its_code() {
    let client = client();
    let names = ["zijin", "chicang", "weituo", "chengjiao", "weituokeche", "gudong"];
    for (code, name) in names.iter().enumerate() {
        assert_eq!(
            query_data(&client, name),
            Step::Call(NativeCall::QueryData { client: 4096, category: code as i32 })
        );
        assert_eq!(
            query_data(&client, &name.to_uppercase()),
            Step::Call(NativeCall::QueryData { client: 4096, category: code as i32 })
        );
    }
}

#[test]
fn order_sides_reach_their_codes() {
    let client = client();
    assert!(matches!(
        send_order(&client, "Buy", &order()),
        Step::Call(NativeCall::SendOrder { category: 0, .. })
    ));
    assert!(matches!(
        send_order(&client, "SELL", &order()),
        Step::Call(NativeCall::SendOrder { category: 1, .. })
    ));
}

#[test]
fn order_unknown_side_is_rejected_without_a_call() {
    let client = client();
    assert_eq!(
        send_order(&client, "hold", &order()),
        Step::Reply(rejected("url路径参数错误,应为 buy, sell"))
    );
    // The side is checked before the body.
    let mut bad = order();
    bad.gddm = "A\0".to_string();
    assert_eq!(
        send_order(&client, "zijin", &bad),
        Step::Reply(rejected("url路径参数错误,应为 buy, sell"))
    );
}

#[test]
fn unmarshallable_order_is_rejected_without_a_call() {
    let client = client();
    let mut bad = order();
    bad.gpdm = "6000\0".to_string();
    let message = "转换字符串失败: nul byte found in provided data at position: 4";
    assert_eq!(
        send_order(&client, "sell", &bad),
        Step::Reply(rejected(&legacy_text(message.as_bytes())))
    );
}

#[test]
fn cancel_reaches_the_native_call() {
    let client = client();
    let call = match cancel_order(&client, "12345") {
        Step::Call(call) => call,
        Step::Reply(reply) => panic!("answered without a call: {:?}", reply),
    };
    assert_eq!(call, NativeCall::CancelOrder { client: 4096, order_id: b"12345".to_vec() });
    assert_eq!(
        finish(1, filled(&call, b"{\n\t\"data\" : null\n}\n")),
        Ok(ApiResponse { status: 200, success: true, data: Payload::Null })
    );
    assert_eq!(finish(0, filled(&call, b"no such order")), Ok(rejected("no such order")));
}

#[test]
fn unmarshallable_order_id_is_rejected_without_a_call() {
    let client = client();
    let message = "转换字符串失败: nul byte found in provided data at position: 0";
    assert_eq!(
        cancel_order(&client, "\0"),
        Step::Reply(rejected(&legacy_text(message.as_bytes())))
    );
}

#[test]
fn history_names_reach_their_codes() {
    let client = client();
    assert_eq!(
        query_history_data(&client, "weituo", &period()),
        Step::Call(NativeCall::QueryHistoryData {
            client: 4096,
            category: 0,
            begin_date: b"20240101".to_vec(),
            end_date: b"20240131".to_vec(),
        })
    );
    assert!(matches!(
        query_history_data(&client, "ChengJiao", &period()),
        Step::Call(NativeCall::QueryHistoryData { category: 1, .. })
    ));
}

#[test]
fn history_unknown_category_is_rejected_without_a_call() {
    let client = client();
    assert_eq!(
        query_history_data(&client, "zijin", &period()),
        Step::Reply(rejected("参数错误,应为 weituo, chengjiao"))
    );
}

#[test]
fn unmarshallable_dates_are_rejected_without_a_call() {
    let client = client();
    let bad = HistoryDataParams { begin_date: "2024".to_string(), end_date: "2\0".to_string() };
    let message = "转换字符串失败: nul byte found in provided data at position: 1";
    assert_eq!(
        query_history_data(&client, "weituo", &bad),
        Step::Reply(rejected(&legacy_text(message.as_bytes())))
    );
}

#[test]
fn history_buffer_holds_a_large_answer() {
    let client = client();
    let call = match query_history_data(&client, "chengjiao", &period()) {
        Step::Call(call) => call,
        Step::Reply(reply) => panic!("answered without a call: {:?}", reply),
    };
    let mut text = b"{\n\t\"data\" : [".to_vec();
    for i in 0..200000 {
        if i > 0 {
            text.push(b',');
        }
        text.extend_from_slice(b"1234567");
    }
    text.extend_from_slice(b"]\n}\n");
    let buffer = filled(&call, &text);
    assert_eq!(buffer.len(), 2097152);
    match finish(7, buffer) {
        Ok(ApiResponse { status: 200, success: true, data: Payload::Json(Value::Array(items)) }) => {
            assert_eq!(items.len(), 200000)
        }
        other => panic!("unexpected answer: {:?}", other),
    }
}

#[test]
fn success_with_empty_buffer_has_no_value() {
    assert_eq!(
        finish(1, vec![0u8; 1024]),
        Ok(ApiResponse { status: 200, success: true, data: Payload::Null })
    );
}

#[test]
fn failure_is_never_parsed() {
    let text = b"{\n\t\"data\" : {\"balance\":100}\n}\n";
    assert_eq!(
        finish(0, text.to_vec()),
        Ok(rejected("{\n\t\"data\" : {\"balance\":100}\n}\n"))
    );
}

#[test]
fn unreadable_success_is_a_fault() {
    assert_eq!(
        finish(1, b"{\n\t\"data\" : oops\n}\n\0".to_vec()),
        Err(DecodeFault::MalformedPayload { text: " oops\n".to_string() })
    );
    assert_eq!(finish(1, b"{\n\t\"data\" :\0".to_vec()), Err(DecodeFault::TruncatedFrame));
    assert_eq!(
        finish(1, INSUFFICIENT_FUNDS.to_vec()),
        Err(DecodeFault::MalformedPayload { text: "资金不足".to_string() })
    );
}
