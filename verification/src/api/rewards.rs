//! The rewards shop: the items on offer and the purchase call.

use vstd::prelude::*;

use crate::api::helpers::{
    decode_empties, empty_decoder, field_yes_no, spec_field_yes_no, Empty,
};
use crate::client::{spec_authed_request, Client, Method, PreparedRequest};
use crate::envelope::{cc_parse, spec_classify, SuccessResponse};
use crate::error::ErrorResponse;
use crate::json::{
    field_bool, field_string, field_usize, get_field, json_of, lemma_decode_seq_fail,
    lemma_decode_seq_step, obj_get, parse_json, spec_decode_seq, spec_field_bool,
    spec_field_string, spec_field_usize, JsonValue,
};

verus! {

/// How often an item was purchased: upstream sends either a string
/// or a number.
#[derive(Debug, PartialEq, Eq)]
pub enum PurchasedCount {
    Text(String),
    Number(usize),
}

/// One shop item.
#[derive(Debug, PartialEq, Eq)]
pub struct RewardItem {
    pub id: usize,
    pub name: String,
    pub description: String,
    pub photo: String,
    pub price: usize,
    pub stock_control: bool,
    pub stock: usize,
    pub can_purchase: bool,
    pub unable_to_purchase_reason: String,
    pub once_per_pupil: bool,
    pub purchased: bool,
    pub purchased_count: PurchasedCount,
    pub price_balance_difference: usize,
}

/// Shop metadata: the student's point balance.
#[derive(Debug, PartialEq, Eq, Structural)]
pub struct RewardsMeta {
    pub pupil_score_balance: usize,
}

pub type RewardsData = Vec<RewardItem>;

pub type Rewards = SuccessResponse<RewardsData, RewardsMeta>;

/// The receipt of a purchase.
#[derive(Debug, PartialEq, Eq)]
pub struct RewardPurchaseData {
    pub single_purchase: bool,
    pub order_id: usize,
    pub balance: usize,
}

pub type RewardPurchaseMeta = Vec<Empty>;

pub type RewardPurchase = SuccessResponse<RewardPurchaseData, RewardPurchaseMeta>;

/// A purchase count: a string, or a number that fits the machine.
pub open spec fn spec_decode_purchased_count(v: JsonValue) -> Option<PurchasedCount> {
    match v {
        JsonValue::Str(s) => Some(PurchasedCount::Text(s)),
        JsonValue::UInt(u) => if u <= usize::MAX {
            Some(PurchasedCount::Number(u as usize))
        } else {
            None
        },
        _ => None,
    }
}

/// Decodes a purchase count.
pub fn decode_purchased_count(v: &JsonValue) -> (r: Option<PurchasedCount>)
    ensures
        r == spec_decode_purchased_count(*v),
{
    match v {
        JsonValue::Str(s) => Some(PurchasedCount::Text(s.clone())),
        JsonValue::UInt(u) => if *u <= usize::MAX as u64 {
            Some(PurchasedCount::Number(*u as usize))
        } else {
            None
        },
        _ => None,
    }
}

/// A required purchase-count field.
pub open spec fn spec_field_purchased_count(
    fields: Seq<(String, JsonValue)>,
    key: Seq<char>,
) -> Option<PurchasedCount> {
    match obj_get(fields, key) {
        Some(v) => spec_decode_purchased_count(v),
        None => None,
    }
}

fn field_purchased_count(fields: &Vec<(String, JsonValue)>, key: &str) -> (r: Option<
    PurchasedCount,
>)
    ensures
        r == spec_field_purchased_count(fields@, key@),
{
    match get_field(fields, key) {
        Some(v) => decode_purchased_count(v),
        None => None,
    }
}

/// One shop item: an object carrying every [`RewardItem`] field.
pub open spec fn spec_decode_reward_item(v: JsonValue) -> Option<RewardItem> {
    match v {
        JsonValue::Object(f) => {
            let fs = f@;
            if spec_field_usize(fs, "id"@) is Some && spec_field_string(fs, "name"@) is Some
                && spec_field_string(fs, "description"@) is Some && spec_field_string(
                fs,
                "photo"@,
            ) is Some && spec_field_usize(fs, "price"@) is Some && spec_field_bool(
                fs,
                "stock_control"@,
            ) is Some && spec_field_usize(fs, "stock"@) is Some && spec_field_bool(
                fs,
                "can_purchase"@,
            ) is Some && spec_field_string(fs, "unable_to_purchase_reason"@) is Some
                && spec_field_bool(fs, "once_per_pupil"@) is Some && spec_field_bool(
                fs,
                "purchased"@,
            ) is Some && spec_field_purchased_count(fs, "purchased_count"@) is Some
                && spec_field_usize(fs, "price_balance_difference"@) is Some {
                Some(
                    RewardItem {
                        id: spec_field_usize(fs, "id"@)->Some_0,
                        name: spec_field_string(fs, "name"@)->Some_0,
                        description: spec_field_string(fs, "description"@)->Some_0,
                        photo: spec_field_string(fs, "photo"@)->Some_0,
                        price: spec_field_usize(fs, "price"@)->Some_0,
                        stock_control: spec_field_bool(fs, "stock_control"@)->Some_0,
                        stock: spec_field_usize(fs, "stock"@)->Some_0,
                        can_purchase: spec_field_bool(fs, "can_purchase"@)->Some_0,
                        unable_to_purchase_reason: spec_field_string(
                            fs,
                            "unable_to_purchase_reason"@,
                        )->Some_0,
                        once_per_pupil: spec_field_bool(fs, "once_per_pupil"@)->Some_0,
                        purchased: spec_field_bool(fs, "purchased"@)->Some_0,
                        purchased_count: spec_field_purchased_count(
                            fs,
                            "purchased_count"@,
                        )->Some_0,
                        price_balance_difference: spec_field_usize(
                            fs,
                            "price_balance_difference"@,
                        )->Some_0,
                    },
                )
            } else {
                None
            }
        },
        _ => None,
    }
}

/// Decodes one shop item.
#[verifier::rlimit(100)]
#[verifier::spinoff_prover]
pub fn decode_reward_item(v: &JsonValue) -> (r: Option<RewardItem>)
    ensures
        r == spec_decode_reward_item(*v),
{
    let fields = match v {
        JsonValue::Object(f) => f,
        _ => { return None },
    };
    let id = match field_usize(fields, "id") {
        Some(x) => x,
        None => { return None },
    };
    let name = match field_string(fields, "name") {
        Some(x) => x,
        None => { return None },
    };
    let description = match field_string(fields, "description") {
        Some(x) => x,
        None => { return None },
    };
    let photo = match field_string(fields, "photo") {
        Some(x) => x,
        None => { return None },
    };
    let price = match field_usize(fields, "price") {
        Some(x) => x,
        None => { return None },
    };
    let stock_control = match field_bool(fields, "stock_control") {
        Some(x) => x,
        None => { return None },
    };
    let stock = match field_usize(fields, "stock") {
        Some(x) => x,
        None => { return None },
    };
    let can_purchase = match field_bool(fields, "can_purchase") {
        Some(x) => x,
        None => { return None },
    };
    let unable_to_purchase_reason = match field_string(fields, "unable_to_purchase_reason") {
        Some(x) => x,
        None => { return None },
    };
    let once_per_pupil = match field_bool(fields, "once_per_pupil") {
        Some(x) => x,
        None => { return None },
    };
    let purchased = match field_bool(fields, "purchased") {
        Some(x) => x,
        None => { return None },
    };
    let purchased_count = match field_purchased_count(fields, "purchased_count") {
        Some(x) => x,
        None => { return None },
    };
    let price_balance_difference = match field_usize(fields, "price_balance_difference") {
        Some(x) => x,
        None => { return None },
    };
    Some(
        RewardItem {
            id,
            name,
            description,
            photo,
            price,
            stock_control,
            stock,
            can_purchase,
            unable_to_purchase_reason,
            once_per_pupil,
            purchased,
            purchased_count,
            price_balance_difference,
        },
    )
}

/// The element decoder of the shop list, as a spec value.
pub open spec fn reward_item_decoder() -> spec_fn(JsonValue) -> Option<RewardItem> {
    |v: JsonValue| spec_decode_reward_item(v)
}

/// Decodes the shop list.
pub fn decode_reward_items(items: &Vec<JsonValue>) -> (r: Option<Vec<RewardItem>>)
    ensures
        match r {
            Some(out) => spec_decode_seq(items@, reward_item_decoder()) == Some(out@),
            None => spec_decode_seq(items@, reward_item_decoder()) is None,
        },
{
    let mut out: Vec<RewardItem> = Vec::new();
    let mut i: usize = 0;
    proof {
        assert(items@.take(0) =~= Seq::<JsonValue>::empty());
    }
    while i < items.len()
        invariant
            i <= items@.len(),
            spec_decode_seq(items@.take(i as int), reward_item_decoder()) == Some(out@),
        decreases items@.len() - i,
    {
        match decode_reward_item(&items[i]) {
            Some(item) => {
                out.push(item);
            },
            None => {
                proof {
                    lemma_decode_seq_fail(items@, reward_item_decoder(), i as int);
                }
                return None;
            },
        }
        proof {
            lemma_decode_seq_step(items@, reward_item_decoder(), i as int);
        }
        i = i + 1;
    }
    proof {
        assert(items@.take(items@.len() as int) =~= items@);
    }
    Some(out)
}

/// Shop metadata: the point balance.
pub open spec fn spec_decode_rewards_meta(v: JsonValue) -> Option<RewardsMeta> {
    match v {
        JsonValue::Object(f) => match spec_field_usize(f@, "pupil_score_balance"@) {
            Some(pupil_score_balance) => Some(RewardsMeta { pupil_score_balance }),
            None => None,
        },
        _ => None,
    }
}

/// Decodes shop metadata.
pub fn decode_rewards_meta(v: &JsonValue) -> (r: Option<RewardsMeta>)
    ensures
        r == spec_decode_rewards_meta(*v),
{
    match v {
        JsonValue::Object(f) => match field_usize(f, "pupil_score_balance") {
            Some(pupil_score_balance) => Some(RewardsMeta { pupil_score_balance }),
            None => None,
        },
        _ => None,
    }
}

/// The shop payload shape.
pub open spec fn spec_rewards_payload_ok(doc: JsonValue) -> bool {
    match doc {
        JsonValue::Object(fs) => match (obj_get(fs@, "data"@), obj_get(fs@, "meta"@)) {
            (Some(JsonValue::Array(items)), Some(mv)) => spec_decode_seq(
                items@,
                reward_item_decoder(),
            ) is Some && spec_decode_rewards_meta(mv) is Some,
            _ => false,
        },
        _ => false,
    }
}

/// The typed reading of a shop body.
pub open spec fn spec_rewards_payload_matches(resp: Rewards, doc: JsonValue) -> bool {
    match doc {
        JsonValue::Object(fs) => match (obj_get(fs@, "data"@), obj_get(fs@, "meta"@)) {
            (Some(JsonValue::Array(items)), Some(mv)) => spec_decode_seq(
                items@,
                reward_item_decoder(),
            ) == Some(resp.data@) && spec_decode_rewards_meta(mv) == Some(resp.meta),
            _ => false,
        },
        _ => false,
    }
}

/// Interprets the body of a shop response.
pub fn parse_rewards_response(text: &str) -> (r: Result<Rewards, ErrorResponse>)
    ensures
        match r {
            Ok(resp) => spec_classify(text@) is Ok && spec_rewards_payload_ok(
                json_of(text@)->Some_0,
            ) && spec_rewards_payload_matches(resp, json_of(text@)->Some_0),
            Err(e) => (spec_classify(text@) matches Err(e0) && e == e0) || (spec_classify(text@)
                is Ok && !spec_rewards_payload_ok(json_of(text@)->Some_0)
                && e == ErrorResponse::SerdeJsonParsingError),
        },
{
    let body = match cc_parse(text) {
        Ok(b) => b,
        Err(e) => { return Err(e) },
    };
    match parse_json(body.as_str()) {
        Some(JsonValue::Object(fields)) => {
            let items = match get_field(&fields, "data") {
                Some(JsonValue::Array(items)) => items,
                _ => { return Err(ErrorResponse::SerdeJsonParsingError) },
            };
            let mv = match get_field(&fields, "meta") {
                Some(x) => x,
                None => { return Err(ErrorResponse::SerdeJsonParsingError) },
            };
            let data = match decode_reward_items(items) {
                Some(x) => x,
                None => { return Err(ErrorResponse::SerdeJsonParsingError) },
            };
            let meta = match decode_rewards_meta(mv) {
                Some(x) => x,
                None => { return Err(ErrorResponse::SerdeJsonParsingError) },
            };
            Ok(SuccessResponse { data, meta })
        },
        _ => Err(ErrorResponse::SerdeJsonParsingError),
    }
}

/// A purchase receipt: the yes/no single-purchase flag, the order id
/// and the remaining balance.
pub open spec fn spec_decode_reward_purchase_data(v: JsonValue) -> Option<RewardPurchaseData> {
    match v {
        JsonValue::Object(f) => {
            let fs = f@;
            if spec_field_yes_no(fs, "single_purchase"@) is Some && spec_field_usize(
                fs,
                "order_id"@,
            ) is Some && spec_field_usize(fs, "balance"@) is Some {
                Some(
                    RewardPurchaseData {
                        single_purchase: spec_field_yes_no(fs, "single_purchase"@)->Some_0,
                        order_id: spec_field_usize(fs, "order_id"@)->Some_0,
                        balance: spec_field_usize(fs, "balance"@)->Some_0,
                    },
                )
            } else {
                None
            }
        },
        _ => None,
    }
}

/// Decodes a purchase receipt.
pub fn decode_reward_purchase_data(v: &JsonValue) -> (r: Option<RewardPurchaseData>)
    ensures
        r == spec_decode_reward_purchase_data(*v),
{
    let fields = match v {
        JsonValue::Object(f) => f,
        _ => { return None },
    };
    let single_purchase = match field_yes_no(fields, "single_purchase") {
        Some(x) => x,
        None => { return None },
    };
    let order_id = match field_usize(fields, "order_id") {
        Some(x) => x,
        None => { return None },
    };
    let balance = match field_usize(fields, "balance") {
        Some(x) => x,
        None => { return None },
    };
    Some(RewardPurchaseData { single_purchase, order_id, balance })
}

/// The purchase payload shape.
pub open spec fn spec_purchase_payload_ok(doc: JsonValue) -> bool {
    match doc {
        JsonValue::Object(fs) => match (obj_get(fs@, "data"@), obj_get(fs@, "meta"@)) {
            (Some(dv), Some(JsonValue::Array(mitems))) => spec_decode_reward_purchase_data(dv)
                is Some && spec_decode_seq(mitems@, empty_decoder()) is Some,
            _ => false,
        },
        _ => false,
    }
}

/// The typed reading of a purchase body.
pub open spec fn spec_purchase_payload_matches(resp: RewardPurchase, doc: JsonValue) -> bool {
    match doc {
        JsonValue::Object(fs) => match (obj_get(fs@, "data"@), obj_get(fs@, "meta"@)) {
            (Some(dv), Some(JsonValue::Array(mitems))) => spec_decode_reward_purchase_data(dv)
                == Some(resp.data) && spec_decode_seq(mitems@, empty_decoder()) == Some(
                resp.meta@,
            ),
            _ => false,
        },
        _ => false,
    }
}

/// Interprets the body of a purchase response.
///
/// An envelope that cannot even be probed is reported as an upstream
/// failure with an explanatory message, since the service answers a
/// purchase of a missing item with an unparseable error page; a
/// well-formed envelope that fails typed decoding keeps the plain
/// decode error.
pub fn parse_purchase_response(text: &str) -> (r: Result<RewardPurchase, ErrorResponse>)
    ensures
        match r {
            Ok(resp) => spec_classify(text@) is Ok && spec_purchase_payload_ok(
                json_of(text@)->Some_0,
            ) && spec_purchase_payload_matches(resp, json_of(text@)->Some_0),
            Err(e) => match spec_classify(text@) {
                Err(ErrorResponse::SerdeJsonParsingError) => e matches
                    ErrorResponse::ClassChartsError(code, message) && code == 0 && message@
                    == "Internal Server Error, the item may not exist."@,
                Err(e0) => e == e0,
                Ok(_) => !spec_purchase_payload_ok(json_of(text@)->Some_0) && e
                    == ErrorResponse::SerdeJsonParsingError,
            },
        },
{
    let body = match cc_parse(text) {
        Ok(b) => b,
        Err(e) => {
            return Err(
                match e {
                    ErrorResponse::SerdeJsonParsingError => ErrorResponse::ClassChartsError(
                        0,
                        String::from_str("Internal Server Error, the item may not exist."),
                    ),
                    other => other,
                },
            )
        },
    };
    match parse_json(body.as_str()) {
        Some(JsonValue::Object(fields)) => {
            let dv = match get_field(&fields, "data") {
                Some(x) => x,
                None => { return Err(ErrorResponse::SerdeJsonParsingError) },
            };
            let mitems = match get_field(&fields, "meta") {
                Some(JsonValue::Array(mitems)) => mitems,
                _ => { return Err(ErrorResponse::SerdeJsonParsingError) },
            };
            let data = match decode_reward_purchase_data(dv) {
                Some(x) => x,
                None => { return Err(ErrorResponse::SerdeJsonParsingError) },
            };
            let meta = match decode_empties(mitems) {
                Some(x) => x,
                None => { return Err(ErrorResponse::SerdeJsonParsingError) },
            };
            Ok(SuccessResponse { data, meta })
        },
        _ => Err(ErrorResponse::SerdeJsonParsingError),
    }
}

impl Client {
    /// Prepares the request for the rewards shop.
    pub fn rewards_request(&self) -> (r: PreparedRequest)
        requires
            self.student_id@.len() > 0,
        ensures
            spec_authed_request(r, *self, Method::Get, "/rewards/"@ + self.student_id@),
            r.content_type is None,
            r.body is None,
    {
        let mut path = String::from_str("/rewards/");
        path.append(self.student_id.as_str());
        self.build_get(path.as_str())
    }

    /// Prepares the purchase of a shop item: a POST whose body names
    /// the purchasing pupil.
    pub fn purchase_request(&self, item_id: &str) -> (r: PreparedRequest)
        requires
            self.student_id@.len() > 0,
        ensures
            spec_authed_request(r, *self, Method::Post, "/purchase/"@ + item_id@),
            r.content_type is None,
            match r.body {
                Some(b) => b@ == "pupil_id="@ + self.student_id@,
                None => false,
            },
    {
        let mut path = String::from_str("/purchase/");
        path.append(item_id);
        let mut body = String::from_str("pupil_id=");
        body.append(self.student_id.as_str());
        let mut request = self.build_post(path.as_str());
        request.body = Some(body);
        request
    }
}

} // verus!
