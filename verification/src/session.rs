//! The native session handle.
//!
//! A handle owns the one session token that a successful logon yields. It
//! describes each native call it wants made, with the arguments marshalled and
//! checked, and interprets what the call returned. Making the call is left to
//! the embedding program.

use crate::config::{Account, Address, Server};
use vstd::prelude::*;
use vstd::slice::slice_to_vec;
use vstd::string::StringSliceAdditionalSpecFns;
use vstd::utf8::encode_utf8;

verus! {

/// Size of the output buffer of a logon, an order and a cancellation.
pub const SMALL_BUFFER: usize = 1024;

/// Size of the output buffer of a data query.
pub const QUERY_BUFFER: usize = 524288;

/// Size of the output buffer of a history query.
pub const HISTORY_BUFFER: usize = 2097152;

/// The slot of the logon entry point that sits between the branch identifier
/// and the account number. The protocol wants it zero; what it stands for is
/// not known.
pub const LOGON_RESERVED: i16 = 0;

/// The flag that the logon entry point takes last before its output buffer.
/// The protocol wants it false; what it stands for is not known.
pub const LOGON_FLAG: bool = false;

/// What a text argument with an embedded zero byte is answered with, up to the
/// position of that byte.
pub open spec fn conversion_notice() -> Seq<char> {
    "转换字符串失败: nul byte found in provided data at position: "@
}

/// The decimal digits of `n`, as ASCII bytes, most significant first.
pub open spec fn decimal(n: nat) -> Seq<u8>
    decreases n,
{
    if n < 10 {
        seq![(48 + n) as u8]
    } else {
        decimal(n / 10).push((48 + n % 10) as u8)
    }
}

/// A text can cross the native boundary: its UTF-8 form holds no zero byte.
pub open spec fn is_c_text(text: Seq<char>) -> bool {
    crate::buffer::nul_free(encode_utf8(text))
}

/// The bytes that answer a text with an embedded zero byte: the notice and the
/// position of the first such byte.
pub open spec fn conversion_error(text: Seq<char>) -> Seq<u8> {
    encode_utf8(conversion_notice()) + decimal(crate::buffer::text_len(encode_utf8(text)))
}

/// Ten to the power of `k`.
spec fn pow10(k: nat) -> nat
    decreases k,
{
    if k == 0 {
        1
    } else {
        10 * pow10((k - 1) as nat)
    }
}

/// A number below ten to the `k` has at most `k` digits.
proof fn lemma_decimal_len(n: nat, k: nat)
    requires
        k >= 1,
        n < pow10(k),
    ensures
        1 <= decimal(n).len() <= k,
    decreases k,
{
    if n >= 10 {
        assert(pow10(1) == 10) by {
            reveal_with_fuel(pow10, 2);
        }
        lemma_decimal_len(n / 10, (k - 1) as nat);
    }
}

/// The UTF-8 form of a text has at most four bytes for each character.
proof fn lemma_utf8_len(chars: Seq<char>)
    ensures
        encode_utf8(chars).len() <= 4 * chars.len(),
    decreases chars.len(),
{
    if chars.len() > 0 {
        lemma_utf8_len(chars.drop_first());
    }
}

/// Longest conversion error there is.
pub const CONVERSION_ERROR_MAX: usize = 256;

/// A conversion error is short, whatever the text it answers.
pub proof fn lemma_conversion_error_len(text: Seq<char>)
    requires
        encode_utf8(text).len() <= usize::MAX,
    ensures
        conversion_error(text).len() <= CONVERSION_ERROR_MAX,
{
    reveal_strlit("转换字符串失败: nul byte found in provided data at position: ");
    lemma_utf8_len(conversion_notice());
    crate::buffer::lemma_text_len(encode_utf8(text));
    assert(pow10(20) == 100000000000000000000) by {
        reveal_with_fuel(pow10, 21);
    }
    lemma_decimal_len(crate::buffer::text_len(encode_utf8(text)), 20);
}

/// Appends the decimal digits of `n` to `out`.
fn push_decimal(n: usize, out: &mut Vec<u8>)
    ensures
        final(out)@ == old(out)@ + decimal(n as nat),
    decreases n,
{
    if n >= 10 {
        push_decimal(n / 10, out);
    }
    let digit: u8 = 48 + (n % 10) as u8;
    out.push(digit);
    assert(out@ =~= old(out)@ + decimal(n as nat));
}

/// Marshals a text argument. A text without zero bytes gives its UTF-8 bytes.
/// Any other text is refused, never cut short: the error holds the notice and
/// the position of the first zero byte.
pub fn to_cstr(text: &str) -> (marshalled: Result<Vec<u8>, Vec<u8>>)
    ensures
        match marshalled {
            Ok(bytes) => is_c_text(text@) && bytes@ == encode_utf8(text@),
            Err(message) => {
                &&& !is_c_text(text@)
                &&& message@ == conversion_error(text@)
                &&& message@.len() <= CONVERSION_ERROR_MAX
            },
        },
{
    let bytes = text.as_bytes();
    let found = crate::buffer::text_of(bytes);
    proof {
        crate::buffer::lemma_text_len(bytes@);
        assert(bytes@.len() == bytes.len());
        lemma_conversion_error_len(text@);
    }
    if found.len() == bytes.len() {
        Ok(slice_to_vec(bytes))
    } else {
        let mut message = slice_to_vec(
            "转换字符串失败: nul byte found in provided data at position: ".as_bytes(),
        );
        push_decimal(found.len(), &mut message);
        Err(message)
    }
}

/// A native call, described by plain values: which entry point, and every
/// argument but the output buffer.
#[derive(Debug, Clone, PartialEq, Eq)]
pub enum NativeCall {
    /// Open a session.
    Logon {
        qsid: i32,
        host: Vec<u8>,
        port: i16,
        version: Vec<u8>,
        yyb_id: Vec<u8>,
        reserved: i16,
        account: Vec<u8>,
        password: Vec<u8>,
        comm_password: Vec<u8>,
        flag: bool,
    },
    /// Query data of the session's account.
    QueryData { client: usize, category: i32 },
    /// Place an order. The price is carried as the bit pattern of the
    /// single-precision number that the caller sent.
    SendOrder {
        client: usize,
        category: i32,
        gddm: Vec<u8>,
        gpdm: Vec<u8>,
        price_bits: u32,
        quantity: i32,
    },
    /// Cancel an order.
    CancelOrder { client: usize, order_id: Vec<u8> },
    /// Query past orders or trades between two dates.
    QueryHistoryData { client: usize, category: i32, begin_date: Vec<u8>, end_date: Vec<u8> },
    /// Close a session.
    Logoff { client: usize },
}

/// A native call as the contracts speak of it.
pub ghost enum CallView {
    Logon {
        qsid: i32,
        host: Seq<u8>,
        port: i16,
        version: Seq<u8>,
        yyb_id: Seq<u8>,
        reserved: i16,
        account: Seq<u8>,
        password: Seq<u8>,
        comm_password: Seq<u8>,
        flag: bool,
    },
    QueryData { client: usize, category: i32 },
    SendOrder {
        client: usize,
        category: i32,
        gddm: Seq<u8>,
        gpdm: Seq<u8>,
        price_bits: u32,
        quantity: i32,
    },
    CancelOrder { client: usize, order_id: Seq<u8> },
    QueryHistoryData { client: usize, category: i32, begin_date: Seq<u8>, end_date: Seq<u8> },
    Logoff { client: usize },
}

impl View for NativeCall {
    type V = CallView;

    open spec fn view(&self) -> CallView {
        match self {
            NativeCall::Logon {
                qsid,
                host,
                port,
                version,
                yyb_id,
                reserved,
                account,
                password,
                comm_password,
                flag,
            } => CallView::Logon {
                qsid: *qsid,
                host: host@,
                port: *port,
                version: version@,
                yyb_id: yyb_id@,
                reserved: *reserved,
                account: account@,
                password: password@,
                comm_password: comm_password@,
                flag: *flag,
            },
            NativeCall::QueryData { client, category } => CallView::QueryData {
                client: *client,
                category: *category,
            },
            NativeCall::SendOrder { client, category, gddm, gpdm, price_bits, quantity } => {
                CallView::SendOrder {
                    client: *client,
                    category: *category,
                    gddm: gddm@,
                    gpdm: gpdm@,
                    price_bits: *price_bits,
                    quantity: *quantity,
                }
            },
            NativeCall::CancelOrder { client, order_id } => CallView::CancelOrder {
                client: *client,
                order_id: order_id@,
            },
            NativeCall::QueryHistoryData { client, category, begin_date, end_date } => {
                CallView::QueryHistoryData {
                    client: *client,
                    category: *category,
                    begin_date: begin_date@,
                    end_date: end_date@,
                }
            },
            NativeCall::Logoff { client } => CallView::Logoff { client: *client },
        }
    }
}

impl CallView {
    /// Size of the output buffer the call is given. A logoff has none.
    pub open spec fn buffer_len(self) -> usize {
        match self {
            CallView::Logon { .. } => SMALL_BUFFER,
            CallView::QueryData { .. } => QUERY_BUFFER,
            CallView::SendOrder { .. } => SMALL_BUFFER,
            CallView::CancelOrder { .. } => SMALL_BUFFER,
            CallView::QueryHistoryData { .. } => HISTORY_BUFFER,
            CallView::Logoff { .. } => 0,
        }
    }

    /// Every text argument of the call is free of zero bytes.
    pub open spec fn marshalled(self) -> bool {
        match self {
            CallView::Logon { host, version, yyb_id, account, password, comm_password, .. } => {
                &&& crate::buffer::nul_free(host)
                &&& crate::buffer::nul_free(version)
                &&& crate::buffer::nul_free(yyb_id)
                &&& crate::buffer::nul_free(account)
                &&& crate::buffer::nul_free(password)
                &&& crate::buffer::nul_free(comm_password)
            },
            CallView::SendOrder { gddm, gpdm, .. } => {
                crate::buffer::nul_free(gddm) && crate::buffer::nul_free(gpdm)
            },
            CallView::CancelOrder { order_id, .. } => crate::buffer::nul_free(order_id),
            CallView::QueryHistoryData { begin_date, end_date, .. } => {
                crate::buffer::nul_free(begin_date) && crate::buffer::nul_free(end_date)
            },
            _ => true,
        }
    }
}

impl NativeCall {
    /// Size of the output buffer the call is given. A logoff has none.
    pub fn buffer_len(&self) -> (len: usize)
        ensures
            len == self@.buffer_len(),
    {
        match self {
            NativeCall::Logon { .. } => SMALL_BUFFER,
            NativeCall::QueryData { .. } => QUERY_BUFFER,
            NativeCall::SendOrder { .. } => SMALL_BUFFER,
            NativeCall::CancelOrder { .. } => SMALL_BUFFER,
            NativeCall::QueryHistoryData { .. } => HISTORY_BUFFER,
            NativeCall::Logoff { .. } => 0,
        }
    }

    /// A fresh output buffer for the call: of the call's size, every byte zero.
    pub fn output_buffer(&self) -> (buffer: Vec<u8>)
        ensures
            buffer@.len() == self@.buffer_len(),
            forall|i: int| 0 <= i < buffer@.len() ==> buffer@[i] == 0,
    {
        let buffer = vec![0u8; self.buffer_len()];
        buffer
    }
}

/// What marshalling the arguments of a logon comes to: the call, or the
/// conversion error of the first text, in the order of the entry point's
/// parameters, that holds a zero byte.
pub open spec fn logon_call(server: Server, account: Account, address: Address) -> Result<
    CallView,
    Seq<u8>,
> {
    if !is_c_text(address.host@) {
        Err(conversion_error(address.host@))
    } else if !is_c_text(server.version@) {
        Err(conversion_error(server.version@))
    } else if !is_c_text(account.yyb_id@) {
        Err(conversion_error(account.yyb_id@))
    } else if !is_c_text(account.account@) {
        Err(conversion_error(account.account@))
    } else if !is_c_text(account.password@) {
        Err(conversion_error(account.password@))
    } else if !is_c_text(account.comm_password@) {
        Err(conversion_error(account.comm_password@))
    } else {
        Ok(
            CallView::Logon {
                qsid: server.qsid,
                host: encode_utf8(address.host@),
                port: address.port,
                version: encode_utf8(server.version@),
                yyb_id: encode_utf8(account.yyb_id@),
                reserved: LOGON_RESERVED,
                account: encode_utf8(account.account@),
                password: encode_utf8(account.password@),
                comm_password: encode_utf8(account.comm_password@),
                flag: LOGON_FLAG,
            },
        )
    }
}

/// What marshalling the arguments of an order comes to.
pub open spec fn order_call(
    client: usize,
    category: i32,
    gddm: Seq<char>,
    gpdm: Seq<char>,
    price_bits: u32,
    quantity: i32,
) -> Result<CallView, Seq<u8>> {
    if !is_c_text(gddm) {
        Err(conversion_error(gddm))
    } else if !is_c_text(gpdm) {
        Err(conversion_error(gpdm))
    } else {
        Ok(
            CallView::SendOrder {
                client,
                category,
                gddm: encode_utf8(gddm),
                gpdm: encode_utf8(gpdm),
                price_bits,
                quantity,
            },
        )
    }
}

/// What marshalling the argument of a cancellation comes to.
pub open spec fn cancel_call(client: usize, order_id: Seq<char>) -> Result<CallView, Seq<u8>> {
    if !is_c_text(order_id) {
        Err(conversion_error(order_id))
    } else {
        Ok(CallView::CancelOrder { client, order_id: encode_utf8(order_id) })
    }
}

/// What marshalling the arguments of a history query comes to.
pub open spec fn history_call(
    client: usize,
    category: i32,
    begin_date: Seq<char>,
    end_date: Seq<char>,
) -> Result<CallView, Seq<u8>> {
    if !is_c_text(begin_date) {
        Err(conversion_error(begin_date))
    } else if !is_c_text(end_date) {
        Err(conversion_error(end_date))
    } else {
        Ok(
            CallView::QueryHistoryData {
                client,
                category,
                begin_date: encode_utf8(begin_date),
                end_date: encode_utf8(end_date),
            },
        )
    }
}

/// A prepared call, or the error bytes that answer the request at once, as the
/// contracts speak of them.
pub open spec fn prepared(outcome: Result<NativeCall, Vec<u8>>) -> Result<CallView, Seq<u8>> {
    match outcome {
        Ok(call) => Ok(call@),
        Err(message) => Err(message@),
    }
}

/// The token a handle holds once a logon has returned `handle`: a null handle
/// leaves it as it was.
pub open spec fn token_after_logon(token: usize, handle: usize) -> usize {
    if handle == 0 {
        token
    } else {
        handle
    }
}

/// The logoff that giving up a token calls for: one for the token held, none
/// where none is held.
pub open spec fn logoff_call(token: usize) -> Option<CallView> {
    if token != 0 {
        Some(CallView::Logoff { client: token })
    } else {
        None
    }
}

/// The call of an optional call, as the contracts speak of it.
pub open spec fn issued(call: Option<NativeCall>) -> Option<CallView> {
    match call {
        Some(call) => Some(call@),
        None => None,
    }
}

/// The session handle: the owner of at most one session token.
#[derive(Debug)]
pub struct ThsClient {
    client_id: usize,
}

impl ThsClient {
    /// The session token held, zero where there is none.
    pub closed spec fn token(&self) -> usize {
        self.client_id
    }

    /// A handle without a session.
    pub fn new() -> (client: ThsClient)
        ensures
            client.token() == 0,
    {
        ThsClient { client_id: 0 }
    }

    /// The session token held, zero where there is none.
    pub fn client_id(&self) -> (token: usize)
        ensures
            token == self.token(),
    {
        self.client_id
    }

    /// Prepares a logon: the server's identifier, the address, the protocol
    /// version, the credentials and the two constants of the protocol. A text
    /// with an embedded zero byte fails the logon before any call is made.
    pub fn logon(&self, server: &Server, account: &Account, address: &Address) -> (outcome: Result<
        NativeCall,
        Vec<u8>,
    >)
        ensures
            prepared(outcome) == logon_call(*server, *account, *address),
            outcome matches Err(message) ==> message@.len() <= CONVERSION_ERROR_MAX,
    {
        let host = to_cstr(address.host.as_str())?;
        let version = to_cstr(server.version.as_str())?;
        let yyb_id = to_cstr(account.yyb_id.as_str())?;
        let account_number = to_cstr(account.account.as_str())?;
        let password = to_cstr(account.password.as_str())?;
        let comm_password = to_cstr(account.comm_password.as_str())?;
        Ok(
            NativeCall::Logon {
                qsid: server.qsid,
                host,
                port: address.port,
                version,
                yyb_id,
                reserved: LOGON_RESERVED,
                account: account_number,
                password,
                comm_password,
                flag: LOGON_FLAG,
            },
        )
    }

    /// Takes in what a logon returned. A null handle is a failure, and the
    /// buffer holds its diagnostic; any other handle becomes the token held.
    pub fn logon_reply(&mut self, handle: usize, buffer: Vec<u8>) -> (outcome: Result<(), Vec<u8>>)
        ensures
            final(self).token() == token_after_logon(old(self).token(), handle),
            handle == 0 ==> outcome == Err::<(), Vec<u8>>(buffer),
            handle != 0 ==> outcome is Ok,
    {
        if handle == 0 {
            Err(buffer)
        } else {
            self.client_id = handle;
            Ok(())
        }
    }

    /// Prepares a data query with the native category code.
    pub fn query_data(&self, category: i32) -> (call: NativeCall)
        ensures
            call@ == (CallView::QueryData { client: self.token(), category }),
    {
        NativeCall::QueryData { client: self.client_id, category }
    }

    /// Prepares an order. Price and quantity go through as they came.
    pub fn send_order(
        &self,
        category: i32,
        gddm: &str,
        gpdm: &str,
        price_bits: u32,
        quantity: i32,
    ) -> (outcome: Result<NativeCall, Vec<u8>>)
        ensures
            prepared(outcome) == order_call(
                self.token(),
                category,
                gddm@,
                gpdm@,
                price_bits,
                quantity,
            ),
            outcome matches Err(message) ==> message@.len() <= CONVERSION_ERROR_MAX,
    {
        let gddm = to_cstr(gddm)?;
        let gpdm = to_cstr(gpdm)?;
        Ok(
            NativeCall::SendOrder {
                client: self.client_id,
                category,
                gddm,
                gpdm,
                price_bits,
                quantity,
            },
        )
    }

    /// Prepares the cancellation of an order.
    pub fn cancel_order(&self, order_id: &str) -> (outcome: Result<NativeCall, Vec<u8>>)
        ensures
            prepared(outcome) == cancel_call(self.token(), order_id@),
            outcome matches Err(message) ==> message@.len() <= CONVERSION_ERROR_MAX,
    {
        let order_id = to_cstr(order_id)?;
        Ok(NativeCall::CancelOrder { client: self.client_id, order_id })
    }

    /// Prepares a history query between two dates.
    pub fn query_history_data(&self, category: i32, begin_date: &str, end_date: &str) -> (outcome:
        Result<NativeCall, Vec<u8>>)
        ensures
            prepared(outcome) == history_call(self.token(), category, begin_date@, end_date@),
            outcome matches Err(message) ==> message@.len() <= CONVERSION_ERROR_MAX,
    {
        let begin_date = to_cstr(begin_date)?;
        let end_date = to_cstr(end_date)?;
        Ok(NativeCall::QueryHistoryData { client: self.client_id, category, begin_date, end_date })
    }

    /// Gives up the session. Where a token is held, the logoff to make is
    /// returned and the handle holds none afterwards; where none is held,
    /// there is nothing to do.
    pub fn close(&mut self) -> (logoff: Option<NativeCall>)
        ensures
            final(self).token() == 0,
            issued(logoff) == logoff_call(old(self).token()),
    {
        if self.client_id != 0 {
            let client = self.client_id;
            self.client_id = 0;
            Some(NativeCall::Logoff { client })
        } else {
            None
        }
    }
}

/// Reads the return code of a data, order, cancel or history call. A positive
/// code is success. Any other code is failure, and the same buffer, which then
/// holds the diagnostic, comes back as the error.
pub fn call_reply(code: i32, buffer: Vec<u8>) -> (outcome: Result<Vec<u8>, Vec<u8>>)
    ensures
        code > 0 ==> outcome == Ok::<Vec<u8>, Vec<u8>>(buffer),
        code <= 0 ==> outcome == Err::<Vec<u8>, Vec<u8>>(buffer),
{
    if code > 0 {
        Ok(buffer)
    } else {
        Err(buffer)
    }
}

/// The token held after a run of logons that returned the given handles, in
/// order, by a handle that held `token` before.
pub open spec fn token_after_logons(token: usize, handles: Seq<usize>) -> usize
    decreases handles.len(),
{
    if handles.len() == 0 {
        token
    } else {
        token_after_logon(token_after_logons(token, handles.drop_last()), handles.last())
    }
}

/// Number of logoffs that closing a handle `closes` times in a row calls for,
/// where it holds `token` before the first.
pub open spec fn logoffs(token: usize, closes: nat) -> nat
    decreases closes,
{
    if closes == 0 {
        0
    } else if logoff_call(token) is Some {
        1 + logoffs(0, (closes - 1) as nat)
    } else {
        logoffs(0, (closes - 1) as nat)
    }
}

/// A fresh handle holds a token after some logons exactly if one of them
/// returned a handle that is not null.
pub proof fn lemma_token_held(handles: Seq<usize>)
    ensures
        token_after_logons(0, handles) != 0 <==> exists|i: int|
            0 <= i < handles.len() && handles[i] != 0,
    decreases handles.len(),
{
    if handles.len() > 0 {
        let before = handles.drop_last();
        lemma_token_held(before);
        if handles.last() != 0 {
            assert(handles[handles.len() - 1] != 0);
        } else if token_after_logons(0, before) != 0 {
            let i = choose|i: int| 0 <= i < before.len() && before[i] != 0;
            assert(handles[i] != 0);
        } else if exists|i: int| 0 <= i < handles.len() && handles[i] != 0 {
            let i = choose|i: int| 0 <= i < handles.len() && handles[i] != 0;
            assert(before[i] != 0);
        }
    }
}

/// However often it is closed, a handle calls for one logoff if it holds a
/// token and for none if it holds none.
pub proof fn lemma_logoffs(token: usize, closes: nat)
    ensures
        logoffs(token, closes) == if closes > 0 && token != 0 {
            1nat
        } else {
            0nat
        },
    decreases closes,
{
    if closes > 0 {
        lemma_logoffs(0, (closes - 1) as nat);
    }
}

/// Session token exclusivity. A handle that starts without a session, takes
/// in any run of logon results and is then closed one or more times calls for
/// exactly one logoff if some logon returned a handle that is not null, and
/// for none otherwise.
pub proof fn lemma_one_logoff(handles: Seq<usize>, closes: nat)
    requires
        closes >= 1,
    ensures
        logoffs(token_after_logons(0, handles), closes) == if exists|i: int|
            0 <= i < handles.len() && handles[i] != 0 {
            1nat
        } else {
            0nat
        },
{
    lemma_token_held(handles);
    lemma_logoffs(token_after_logons(0, handles), closes);
}

} // verus!
