use ths_adapter::config::{Account, Address, Server};
use ths_adapter::session::{
    call_reply, to_cstr, NativeCall, ThsClient, CONVERSION_ERROR_MAX, HISTORY_BUFFER,
    LOGON_FLAG, LOGON_RESERVED, QUERY_BUFFER, SMALL_BUFFER,
};

fn server() -> Server {
    Server {
        qsid: 72,
        address: vec![
            Address { host: "trade.example.com".to_string(), port: 8002 },
            Address { host: "backup.example.com".to_string(), port: 8003 },
        ],
        version: "E065.18.77".to_string(),
        trader_server_port: 8080,
    }
}

fn account() -> Account {
    Account {
        name: "main".to_string(),
        yyb_id: "12".to_string(),
        account: "600123".to_string(),
        password: "secret".to_string(),
        comm_password: "comm".to_string(),
    }
}

fn conversion_error(position: usize) -> Vec<u8> {
    format!("转换字符串失败: nul byte found in provided data at position: {}", position)
        .into_bytes()
}

fn logged_on(handle: usize) -> ThsClient {
    let mut client = ThsClient::new();
    assert_eq!(client.logon_reply(handle, vec![0u8; SMALL_BUFFER]), Ok(()));
    client
}

#[test]
fn buffer_sizes_by_operation() {
    assert_eq!(SMALL_BUFFER, 1024);
    assert_eq!(QUERY_BUFFER, 1024 * 512);
    assert_eq!(HISTORY_BUFFER, 1024 * 1024 * 2);
    let client = ThsClient::new();
    let server = server();
    let logon = client.logon(&server, &account(), &server.address[0]).unwrap();
    assert_eq!(logon.buffer_len(), 1024);
    assert_eq!(client.query_data(1).buffer_len(), 524288);
    assert_eq!(client.send_order(0, "A1", "600000", 0, 1).unwrap().buffer_len(), 1024);
    assert_eq!(client.cancel_order("77").unwrap().buffer_len(), 1024);
    assert_eq!(
        client.query_history_data(0, "20240101", "20240131").unwrap().buffer_len(),
        2097152
    );
    assert_eq!(NativeCall::Logoff { client: 5 }.buffer_len(), 0);
}

#[test]
fn output_buffer_is_fresh_and_zeroed() {
    let client = ThsClient::new();
    let call = client.cancel_order("77").unwrap();
    let mut first = call.output_buffer();
    assert_eq!(first.len(), 1024);
    assert!(first.iter().all(|byte| *byte == 0));
    first[0] = 9;
    let second = call.output_buffer();
    assert!(second.iter().all(|byte| *byte == 0));
    assert_eq!(client.query_data(0).output_buffer().len(), 524288);
    assert!(NativeCall::Logoff { client: 5 }.output_buffer().is_empty());
}

#[test]
fn text_without_zero_byte_is_marshalled_whole() {
    assert_eq!(to_cstr("600000"), Ok(b"600000".to_vec()));
    assert_eq!(to_cstr(""), Ok(Vec::new()));
    assert_eq!(to_cstr("资金"), Ok("资金".as_bytes().to_vec()));
}

#[test]
fn embedded_zero_byte_is_refused_with_its_position() {
    assert_eq!(to_cstr("ab\0cd"), Err(conversion_error(2)));
    assert_eq!(to_cstr("\0"), Err(conversion_error(0)));
    assert_eq!(to_cstr("ab\0cd\0"), Err(conversion_error(2)));
    // The position counts bytes, not characters.
    assert_eq!(to_cstr("资金\0"), Err(conversion_error(6)));
    let long = format!("{}\0", "x".repeat(1234567));
    assert_eq!(to_cstr(&long), Err(conversion_error(1234567)));
    let ten = format!("{}\0", "x".repeat(10));
    assert_eq!(to_cstr(&ten), Err(conversion_error(10)));
    assert!(conversion_error(usize::MAX).len() <= CONVERSION_ERROR_MAX);
}

#[test]
fn new_handle_holds_no_session() {
    let mut client = ThsClient::new();
    assert_eq!(client.client_id(), 0);
    assert_eq!(client.close(), None);
}

#[test]
fn logon_marshals_every_argument() {
    let client = ThsClient::new();
    let server = server();
    let call = client.logon(&server, &account(), &server.address[0]);
    assert_eq!(
        call,
        Ok(NativeCall::Logon {
            qsid: 72,
            host: b"trade.example.com".to_vec(),
            port: 8002,
            version: b"E065.18.77".to_vec(),
            yyb_id: b"12".to_vec(),
            reserved: 0,
            account: b"600123".to_vec(),
            password: b"secret".to_vec(),
            comm_password: b"comm".to_vec(),
            flag: false,
        })
    );
    assert_eq!(LOGON_RESERVED, 0);
    assert!(!LOGON_FLAG);
    let other = client.logon(&server, &account(), &server.address[1]).unwrap();
    assert!(matches!(other, NativeCall::Logon { port: 8003, .. }));
}

#[test]
fn logon_first_address_is_the_login_address() {
    let server = server();
    assert_eq!(server.login_address().map(|a| a.port), Some(8002));
    let mut empty = server.clone();
    empty.address.clear();
    assert!(empty.login_address().is_none());
}

#[test]
fn logon_reports_first_unmarshallable_text() {
    let client = ThsClient::new();
    let server = server();
    let mut bad_account = account();
    bad_account.password = "se\0cret".to_string();
    bad_account.comm_password = "\0".to_string();
    assert_eq!(
        client.logon(&server, &bad_account, &server.address[0]),
        Err(conversion_error(2))
    );
    let mut bad_server = server.clone();
    bad_server.version = "E065\0".to_string();
    assert_eq!(
        client.logon(&bad_server, &bad_account, &server.address[0]),
        Err(conversion_error(4))
    );
    let bad_address = Address { host: "a\0".to_string(), port: 1 };
    assert_eq!(
        client.logon(&bad_server, &bad_account, &bad_address),
        Err(conversion_error(1))
    );
    let mut bad_branch = account();
    bad_branch.yyb_id = "123\0".to_string();
    bad_branch.account = "\0".to_string();
    assert_eq!(
        client.logon(&server, &bad_branch, &server.address[0]),
        Err(conversion_error(3))
    );
    let mut bad_number = account();
    bad_number.account = "60\0".to_string();
    assert_eq!(
        client.logon(&server, &bad_number, &server.address[0]),
        Err(conversion_error(2))
    );
    let mut bad_comm = account();
    bad_comm.comm_password = "12345\0".to_string();
    assert_eq!(
        client.logon(&server, &bad_comm, &server.address[0]),
        Err(conversion_error(5))
    );
}

#[test]
fn null_handle_fails_logon_with_the_diagnostic() {
    let mut client = ThsClient::new();
    let mut buffer = vec![0u8; SMALL_BUFFER];
    buffer[0] = b'x';
    assert_eq!(client.logon_reply(0, buffer.clone()), Err(buffer));
    assert_eq!(client.client_id(), 0);
}

#[test]
fn handle_becomes_the_token() {
    let mut client = ThsClient::new();
    assert_eq!(client.logon_reply(4096, vec![0u8; SMALL_BUFFER]), Ok(()));
    assert_eq!(client.client_id(), 4096);
    // A later failure leaves the token as it was.
    assert!(client.logon_reply(0, vec![1u8]).is_err());
    assert_eq!(client.client_id(), 4096);
    // A later success replaces it.
    assert_eq!(client.logon_reply(8192, Vec::new()), Ok(()));
    assert_eq!(client.client_id(), 8192);
}

#[test]
fn calls_carry_the_token() {
    let client = logged_on(77);
    assert_eq!(client.query_data(3), NativeCall::QueryData { client: 77, category: 3 });
    assert_eq!(
        client.send_order(1, "A123", "600000", 10.5f32.to_bits(), 200),
        Ok(NativeCall::SendOrder {
            client: 77,
            category: 1,
            gddm: b"A123".to_vec(),
            gpdm: b"600000".to_vec(),
            price_bits: 10.5f32.to_bits(),
            quantity: 200,
        })
    );
    assert_eq!(
        client.cancel_order("998"),
        Ok(NativeCall::CancelOrder { client: 77, order_id: b"998".to_vec() })
    );
    assert_eq!(
        client.query_history_data(1, "20240101", "20240131"),
        Ok(NativeCall::QueryHistoryData {
            client: 77,
            category: 1,
            begin_date: b"20240101".to_vec(),
            end_date: b"20240131".to_vec(),
        })
    );
}

#[test]
fn price_and_quantity_pass_through_unchecked() {
    let client = logged_on(1);
    let call = client.send_order(0, "A", "B", (-1.0f32).to_bits(), -5).unwrap();
    assert_eq!(
        call,
        NativeCall::SendOrder {
            client: 1,
            category: 0,
            gddm: b"A".to_vec(),
            gpdm: b"B".to_vec(),
            price_bits: (-1.0f32).to_bits(),
            quantity: -5,
        }
    );
    let nan = client.send_order(0, "A", "B", f32::NAN.to_bits(), 0).unwrap();
    assert!(matches!(nan, NativeCall::SendOrder { price_bits, .. } if f32::from_bits(price_bits).is_nan()));
}

#[test]
fn unmarshallable_arguments_fail_the_request() {
    let client = logged_on(1);
    assert_eq!(client.send_order(0, "A\0", "B\0\0", 0, 0), Err(conversion_error(1)));
    assert_eq!(client.send_order(0, "A", "BC\0", 0, 0), Err(conversion_error(2)));
    assert_eq!(client.cancel_order("\0"), Err(conversion_error(0)));
    assert_eq!(client.query_history_data(0, "2024\0", "\0"), Err(conversion_error(4)));
    assert_eq!(client.query_history_data(0, "2024", "20\0"), Err(conversion_error(2)));
}

#[test]
fn return_code_sign_decides() {
    let buffer = vec![7u8, 0, 0];
    assert_eq!(call_reply(1, buffer.clone()), Ok(buffer.clone()));
    assert_eq!(call_reply(i32::MAX, buffer.clone()), Ok(buffer.clone()));
    assert_eq!(call_reply(0, buffer.clone()), Err(buffer.clone()));
    assert_eq!(call_reply(-1, buffer.clone()), Err(buffer.clone()));
    assert_eq!(call_reply(i32::MIN, buffer.clone()), Err(buffer));
}

#[test]
fn close_logs_off_once() {
    let mut client = logged_on(4096);
    assert_eq!(client.close(), Some(NativeCall::Logoff { client: 4096 }));
    assert_eq!(client.client_id(), 0);
    assert_eq!(client.close(), None);
    assert_eq!(client.close(), None);
}

#[test]
fn close_without_session_does_nothing() {
    let mut client = ThsClient::new();
    assert!(client.logon_reply(0, Vec::new()).is_err());
    assert!(client.logon_reply(0, Vec::new()).is_err());
    assert_eq!(client.close(), None);
    assert_eq!(client.client_id(), 0);
}

#[test]
fn close_logs_off_the_token_held_last() {
    let mut client = ThsClient::new();
    assert!(client.logon_reply(0, Vec::new()).is_err());
    assert!(client.logon_reply(11, Vec::new()).is_ok());
    assert!(client.logon_reply(0, Vec::new()).is_err());
    assert!(client.logon_reply(22, Vec::new()).is_ok());
    assert!(client.logon_reply(0, Vec::new()).is_err());
    assert_eq!(client.close(), Some(NativeCall::Logoff { client: 22 }));
    assert_eq!(client.close(), None);
}
