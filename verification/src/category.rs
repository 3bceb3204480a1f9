//! Category names and the integer codes the native library expects.
//!
//! Each endpoint family has its own closed enumeration. A name is matched
//! without regard to case; a name outside the enumeration has no category and
//! never reaches the native library.

use vstd::prelude::*;
use vstd::string::StringSliceAdditionalSpecFns;

verus! {

/// The lowercase form that `str::to_lowercase` gives a text.
pub uninterp spec fn lowercase(name: Seq<char>) -> Seq<char>;

/// `str::to_lowercase`. The lowercase form follows the Unicode rules and
/// depends on the text alone; the contract names it.
#[verifier::external_body]
fn to_lowercase(name: &str) -> (lowered: String)
    ensures
        lowered@ == lowercase(name@),
{
    name.to_lowercase()
}

/// Whether two texts hold the same characters.
fn same_text(left: &str, right: &str) -> (same: bool)
    ensures
        same <==> left@ == right@,
{
    broadcast use vstd::utf8::encode_utf8_decode_utf8;

    let a = left.as_bytes();
    let b = right.as_bytes();
    if a.len() != b.len() {
        return false;
    }
    let mut i: usize = 0;
    while i < a.len()
        invariant
            i <= a@.len(),
            a@.len() == b@.len(),
            a@ == left.spec_bytes(),
            b@ == right.spec_bytes(),
            forall|k: int| 0 <= k < i ==> a@[k] == b@[k],
        decreases a@.len() - i,
    {
        if a[i] != b[i] {
            assert(left@ != right@) by {
                if left@ == right@ {
                    assert(a@[i as int] == b@[i as int]);
                }
            }
            return false;
        }
        i = i + 1;
    }
    assert(a@ =~= b@);
    assert(vstd::utf8::decode_utf8(a@) == vstd::utf8::decode_utf8(b@));
    true
}

/// What a data query asks for.
#[derive(Clone, Copy, PartialEq, Eq, Debug, Structural)]
pub enum QueryCategory {
    /// Funds of the account.
    Funds,
    /// Positions held.
    Holdings,
    /// Orders placed today.
    PendingOrders,
    /// Orders filled today.
    FilledOrders,
    /// Orders that can still be cancelled.
    CancelableOrders,
    /// Shareholder accounts.
    Shareholders,
}

/// The side of an order.
#[derive(Clone, Copy, PartialEq, Eq, Debug, Structural)]
pub enum OrderSide {
    Buy,
    Sell,
}

/// What a history query asks for.
#[derive(Clone, Copy, PartialEq, Eq, Debug, Structural)]
pub enum HistoryCategory {
    /// Orders placed in the period.
    Orders,
    /// Orders filled in the period.
    Trades,
}

impl QueryCategory {
    /// The code the native library expects.
    pub open spec fn code_of(self) -> i32 {
        match self {
            QueryCategory::Funds => 0,
            QueryCategory::Holdings => 1,
            QueryCategory::PendingOrders => 2,
            QueryCategory::FilledOrders => 3,
            QueryCategory::CancelableOrders => 4,
            QueryCategory::Shareholders => 5,
        }
    }

    /// The category with a given lowercase name.
    pub open spec fn named(lowered: Seq<char>) -> Option<QueryCategory> {
        if lowered == "zijin"@ {
            Some(QueryCategory::Funds)
        } else if lowered == "chicang"@ {
            Some(QueryCategory::Holdings)
        } else if lowered == "weituo"@ {
            Some(QueryCategory::PendingOrders)
        } else if lowered == "chengjiao"@ {
            Some(QueryCategory::FilledOrders)
        } else if lowered == "weituokeche"@ {
            Some(QueryCategory::CancelableOrders)
        } else if lowered == "gudong"@ {
            Some(QueryCategory::Shareholders)
        } else {
            None
        }
    }

    /// The code the native library expects.
    pub fn code(self) -> (code: i32)
        ensures
            code == self.code_of(),
    {
        match self {
            QueryCategory::Funds => 0,
            QueryCategory::Holdings => 1,
            QueryCategory::PendingOrders => 2,
            QueryCategory::FilledOrders => 3,
            QueryCategory::CancelableOrders => 4,
            QueryCategory::Shareholders => 5,
        }
    }

    /// The category that a name in lowercase stands for.
    pub fn from_lowercase(lowered: &str) -> (category: Option<QueryCategory>)
        ensures
            category == Self::named(lowered@),
    {
        if same_text(lowered, "zijin") {
            Some(QueryCategory::Funds)
        } else if same_text(lowered, "chicang") {
            Some(QueryCategory::Holdings)
        } else if same_text(lowered, "weituo") {
            Some(QueryCategory::PendingOrders)
        } else if same_text(lowered, "chengjiao") {
            Some(QueryCategory::FilledOrders)
        } else if same_text(lowered, "weituokeche") {
            Some(QueryCategory::CancelableOrders)
        } else if same_text(lowered, "gudong") {
            Some(QueryCategory::Shareholders)
        } else {
            None
        }
    }

    /// The category that a name stands for, whatever its case.
    pub fn from_name(name: &str) -> (category: Option<QueryCategory>)
        ensures
            category == Self::named(lowercase(name@)),
    {
        let lowered = to_lowercase(name);
        Self::from_lowercase(lowered.as_str())
    }
}

impl OrderSide {
    /// The code the native library expects.
    pub open spec fn code_of(self) -> i32 {
        match self {
            OrderSide::Buy => 0,
            OrderSide::Sell => 1,
        }
    }

    /// The side with a given lowercase name.
    pub open spec fn named(lowered: Seq<char>) -> Option<OrderSide> {
        if lowered == "buy"@ {
            Some(OrderSide::Buy)
        } else if lowered == "sell"@ {
            Some(OrderSide::Sell)
        } else {
            None
        }
    }

    /// The code the native library expects.
    pub fn code(self) -> (code: i32)
        ensures
            code == self.code_of(),
    {
        match self {
            OrderSide::Buy => 0,
            OrderSide::Sell => 1,
        }
    }

    /// The side that a name in lowercase stands for.
    pub fn from_lowercase(lowered: &str) -> (side: Option<OrderSide>)
        ensures
            side == Self::named(lowered@),
    {
        if same_text(lowered, "buy") {
            Some(OrderSide::Buy)
        } else if same_text(lowered, "sell") {
            Some(OrderSide::Sell)
        } else {
            None
        }
    }

    /// The side that a name stands for, whatever its case.
    pub fn from_name(name: &str) -> (side: Option<OrderSide>)
        ensures
            side == Self::named(lowercase(name@)),
    {
        let lowered = to_lowercase(name);
        Self::from_lowercase(lowered.as_str())
    }
}

impl HistoryCategory {
    /// The code the native library expects.
    pub open spec fn code_of(self) -> i32 {
        match self {
            HistoryCategory::Orders => 0,
            HistoryCategory::Trades => 1,
        }
    }

    /// The category with a given lowercase name.
    pub open spec fn named(lowered: Seq<char>) -> Option<HistoryCategory> {
        if lowered == "weituo"@ {
            Some(HistoryCategory::Orders)
        } else if lowered == "chengjiao"@ {
            Some(HistoryCategory::Trades)
        } else {
            None
        }
    }

    /// The code the native library expects.
    pub fn code(self) -> (code: i32)
        ensures
            code == self.code_of(),
    {
        match self {
            HistoryCategory::Orders => 0,
            HistoryCategory::Trades => 1,
        }
    }

    /// The category that a name in lowercase stands for.
    pub fn from_lowercase(lowered: &str) -> (category: Option<HistoryCategory>)
        ensures
            category == Self::named(lowered@),
    {
        if same_text(lowered, "weituo") {
            Some(HistoryCategory::Orders)
        } else if same_text(lowered, "chengjiao") {
            Some(HistoryCategory::Trades)
        } else {
            None
        }
    }

    /// The category that a name stands for, whatever its case.
    pub fn from_name(name: &str) -> (category: Option<HistoryCategory>)
        ensures
            category == Self::named(lowercase(name@)),
    {
        let lowered = to_lowercase(name);
        Self::from_lowercase(lowered.as_str())
    }
}

/// The code that a query name maps to, whatever its case.
pub open spec fn query_code(name: Seq<char>) -> Option<i32> {
    match QueryCategory::named(lowercase(name)) {
        Some(category) => Some(category.code_of()),
        None => None,
    }
}

/// The code that an order side name maps to, whatever its case.
pub open spec fn order_code(name: Seq<char>) -> Option<i32> {
    match OrderSide::named(lowercase(name)) {
        Some(side) => Some(side.code_of()),
        None => None,
    }
}

/// The code that a history name maps to, whatever its case.
pub open spec fn history_code(name: Seq<char>) -> Option<i32> {
    match HistoryCategory::named(lowercase(name)) {
        Some(category) => Some(category.code_of()),
        None => None,
    }
}

/// The six query names map to the codes 0 to 5 in their documented order, and
/// a name maps to a code exactly if its lowercase form is one of the six.
pub proof fn lemma_query_names(name: Seq<char>)
    ensures
        lowercase(name) == "zijin"@ ==> query_code(name) == Some(0i32),
        lowercase(name) == "chicang"@ ==> query_code(name) == Some(1i32),
        lowercase(name) == "weituo"@ ==> query_code(name) == Some(2i32),
        lowercase(name) == "chengjiao"@ ==> query_code(name) == Some(3i32),
        lowercase(name) == "weituokeche"@ ==> query_code(name) == Some(4i32),
        lowercase(name) == "gudong"@ ==> query_code(name) == Some(5i32),
        query_code(name) is Some <==> {
            ||| lowercase(name) == "zijin"@
            ||| lowercase(name) == "chicang"@
            ||| lowercase(name) == "weituo"@
            ||| lowercase(name) == "chengjiao"@
            ||| lowercase(name) == "weituokeche"@
            ||| lowercase(name) == "gudong"@
        },
{
    reveal_strlit("zijin");
    reveal_strlit("chicang");
    reveal_strlit("weituo");
    reveal_strlit("chengjiao");
    reveal_strlit("weituokeche");
    reveal_strlit("gudong");
    assert("zijin"@.len() == 5 && "chicang"@.len() == 7 && "chengjiao"@.len() == 9);
    assert("weituokeche"@.len() == 11 && "weituo"@.len() == 6 && "gudong"@.len() == 6);
    assert("weituo"@[0] == 'w' && "gudong"@[0] == 'g');
}

/// The two order sides map to the codes 0 and 1, and a name maps to a code
/// exactly if its lowercase form is one of the two.
pub proof fn lemma_order_names(name: Seq<char>)
    ensures
        lowercase(name) == "buy"@ ==> order_code(name) == Some(0i32),
        lowercase(name) == "sell"@ ==> order_code(name) == Some(1i32),
        order_code(name) is Some <==> lowercase(name) == "buy"@ || lowercase(name) == "sell"@,
{
    reveal_strlit("buy");
    reveal_strlit("sell");
    assert("buy"@.len() == 3 && "sell"@.len() == 4);
}

/// The two history names map to the codes 0 and 1, and a name maps to a code
/// exactly if its lowercase form is one of the two.
pub proof fn lemma_history_names(name: Seq<char>)
    ensures
        lowercase(name) == "weituo"@ ==> history_code(name) == Some(0i32),
        lowercase(name) == "chengjiao"@ ==> history_code(name) == Some(1i32),
        history_code(name) is Some <==> lowercase(name) == "weituo"@ || lowercase(name)
            == "chengjiao"@,
{
    reveal_strlit("weituo");
    reveal_strlit("chengjiao");
    assert("weituo"@.len() == 6 && "chengjiao"@.len() == 9);
}

/// Case does not matter: two names with the same lowercase form map alike in
/// every family.
pub proof fn lemma_case_insensitive(left: Seq<char>, right: Seq<char>)
    requires
        lowercase(left) == lowercase(right),
    ensures
        query_code(left) == query_code(right),
        order_code(left) == order_code(right),
        history_code(left) == history_code(right),
{
}

} // verus!
