//! The transfer entry point's pure side: pre-flight validation of the
//! request, and the hex rendering of the finished transaction identifier.
//!
//! The caller runs the gateway steps (pre-execution, endorsement, broadcast)
//! and the external signing around the session builders; everything that can
//! be decided from the request alone is decided here.

use vstd::prelude::*;

use crate::amount::{bytes_to_dec, dec_to_bytes, dec_val, is_dec_string, parse_i64};
use crate::session::Session;
use crate::types::{
    clone_bytes, Account, ComplianceCheckConfig, InvokeRPCRequest, Message,
    PreExecWithSelectUTXORequest, Transaction,
};
use crate::Error;

verus! {

/// A decimal string whose value fits a non-negative signed 64-bit integer.
pub open spec fn rep_i64(s: Seq<char>) -> bool {
    is_dec_string(s) && dec_val(s) <= i64::MAX
}

/// The inputs a transfer request is accepted on: every amount is 64-bit
/// representable, the endorsement fee is strictly below the transfer amount,
/// and the request total does not wrap the 64-bit boundary.
pub open spec fn preflight_ok(amount: Seq<char>, fee: Seq<char>, cfg_fee: Seq<char>) -> bool {
    &&& rep_i64(amount)
    &&& rep_i64(fee)
    &&& rep_i64(cfg_fee)
    &&& dec_val(cfg_fee) < dec_val(amount)
    &&& dec_val(amount) + dec_val(fee) + dec_val(cfg_fee) <= i64::MAX
}

/// The session and the pre-execution request that a validated transfer call
/// starts from.
pub open spec fn prepared_ok(
    sess: Session,
    req: PreExecWithSelectUTXORequest,
    account: Account,
    chain: Seq<char>,
    to: Seq<char>,
    amount: Seq<char>,
    fee: Seq<char>,
    desc: Seq<char>,
    cfg: ComplianceCheckConfig,
) -> bool {
    &&& sess.chain_name@ == chain
    &&& sess.account.address@ == account.address@
    &&& sess.account.public_key@ == account.public_key@
    &&& sess.account.contract_name@ == account.contract_name@
    &&& sess.msg.to@ == to
    &&& sess.msg.amount@ == amount
    &&& is_dec_string(sess.msg.fee@)
    &&& dec_val(sess.msg.fee@) == dec_val(fee)
    &&& sess.msg.fee@.len() > 1 ==> sess.msg.fee@[0] != '0'
    &&& sess.msg.desc@ == desc
    &&& sess.msg.frozen_height == 0
    &&& sess.msg.initiator@ == account.address@
    &&& sess.msg.auth_require@.len() == 1
    &&& sess.msg.auth_require@[0]@ == cfg.endorse_service_addr@
    &&& req.bcname@ == chain
    &&& req.address@ == account.address@
    &&& req.total_amount == dec_val(amount) + dec_val(fee) + dec_val(cfg.endorse_service_fee@)
    &&& req.request.bcname@ == chain
    &&& req.request.initiator@ == account.address@
    &&& req.request.requests@.len() == 0
    &&& req.request.auth_require@.len() == 1
    &&& req.request.auth_require@[0]@ == cfg.endorse_service_addr@
}

/// Validate a transfer request and set up the session and the pre-execution
/// request. The caller then runs pre-execution, the two builders, the
/// endorsement and the broadcast; a request rejected here fails before any
/// of that.
pub fn prepare_transfer(
    account: &Account,
    chain_name: &String,
    to: &String,
    amount: &String,
    fee: &String,
    desc: &String,
    cfg: &ComplianceCheckConfig,
) -> (r: Result<(Session, PreExecWithSelectUTXORequest), Error>)
    ensures
        r is Ok <==> preflight_ok(amount@, fee@, cfg.endorse_service_fee@),
        r matches Ok(p) ==> prepared_ok(
            p.0,
            p.1,
            *account,
            chain_name@,
            to@,
            amount@,
            fee@,
            desc@,
            *cfg,
        ),
        r matches Err(e) ==> e == (if rep_i64(amount@) && rep_i64(fee@) && rep_i64(
            cfg.endorse_service_fee@,
        ) {
            Error::InvalidArguments
        } else {
            Error::ParseError
        }),
{
    let amount_v: i64 = match parse_i64(amount.as_str()) {
        Ok(v) => v,
        Err(e) => {
            return Err(e);
        },
    };
    let fee_v: i64 = match parse_i64(fee.as_str()) {
        Ok(v) => v,
        Err(e) => {
            return Err(e);
        },
    };
    let ef_v: i64 = match parse_i64(cfg.endorse_service_fee.as_str()) {
        Ok(v) => v,
        Err(e) => {
            return Err(e);
        },
    };
    if ef_v >= amount_v {
        return Err(Error::InvalidArguments);
    }
    if amount_v > i64::MAX - fee_v {
        return Err(Error::InvalidArguments);
    }
    let part: i64 = amount_v + fee_v;
    if part > i64::MAX - ef_v {
        return Err(Error::InvalidArguments);
    }
    let total_amount: i64 = part + ef_v;

    let fee_bytes = dec_to_bytes(fee.as_str());
    let fee_norm = bytes_to_dec(&fee_bytes);

    let mut auth_msg: Vec<String> = Vec::new();
    auth_msg.push(cfg.endorse_service_addr.clone());
    let mut auth_req: Vec<String> = Vec::new();
    auth_req.push(cfg.endorse_service_addr.clone());

    let msg = Message {
        to: to.clone(),
        amount: amount.clone(),
        fee: fee_norm,
        desc: desc.clone(),
        frozen_height: 0,
        initiator: account.address.clone(),
        auth_require: auth_msg,
    };
    let acct = Account {
        address: account.address.clone(),
        public_key: clone_bytes(&account.public_key),
        contract_name: account.contract_name.clone(),
    };
    let sess = Session::new(chain_name.clone(), acct, msg);

    let invoke_req = InvokeRPCRequest {
        bcname: chain_name.clone(),
        initiator: account.address.clone(),
        auth_require: auth_req,
        requests: Vec::new(),
    };
    let req = PreExecWithSelectUTXORequest {
        bcname: chain_name.clone(),
        address: account.address.clone(),
        total_amount,
        request: invoke_req,
    };
    Ok((sess, req))
}

pub open spec fn hex_digit_char(v: int) -> char {
    if v == 0 {
        '0'
    } else if v == 1 {
        '1'
    } else if v == 2 {
        '2'
    } else if v == 3 {
        '3'
    } else if v == 4 {
        '4'
    } else if v == 5 {
        '5'
    } else if v == 6 {
        '6'
    } else if v == 7 {
        '7'
    } else if v == 8 {
        '8'
    } else if v == 9 {
        '9'
    } else if v == 10 {
        'a'
    } else if v == 11 {
        'b'
    } else if v == 12 {
        'c'
    } else if v == 13 {
        'd'
    } else if v == 14 {
        'e'
    } else {
        'f'
    }
}

/// The lowercase hex rendering of a byte string: two digits per byte, high
/// nibble first.
pub open spec fn hex_seq(b: Seq<u8>) -> Seq<char>
    decreases b.len(),
{
    if b.len() == 0 {
        Seq::empty()
    } else {
        hex_seq(b.drop_last()) + seq![
            hex_digit_char(b.last() as int / 16),
            hex_digit_char(b.last() as int % 16),
        ]
    }
}

/// Relies on `hex::encode`: two lowercase hex digits per byte, high nibble
/// first, in byte order.
#[verifier::external_body]
pub(crate) fn encode_hex(b: &Vec<u8>) -> (r: String)
    ensures
        r@ == hex_seq(b@),
{
    hex::encode(b)
}

/// The value a finished transfer returns: the transaction identifier as a
/// lowercase hex string.
pub fn transaction_id_hex(tx: &Transaction) -> (r: String)
    ensures
        r@ == hex_seq(tx.txid@),
{
    encode_hex(&tx.txid)
}

} // verus!
