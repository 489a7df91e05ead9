use xchain_client_sdk::amount::{parse_decimal, parse_i64, to_decimal};
use xchain_client_sdk::session::{Session, TX_VERSION};
use xchain_client_sdk::transfer::{prepare_transfer, transaction_id_hex};
use xchain_client_sdk::types::{
    Account, ComplianceCheckConfig, ContractResponse, InvokeArg, InvokeRequest, InvokeResponse,
    Message, PreExecWithSelectUTXOResponse, SignatureInfo, Transaction, TxInputExt, TxOutput,
    TxOutputExt, Utxo, UtxoOutput,
};
use xchain_client_sdk::Error;

fn account(address: &str) -> Account {
    Account {
        address: address.to_string(),
        public_key: vec![1, 2, 3],
        contract_name: String::new(),
    }
}

fn message(to: &str, amount: &str, fee: &str, initiator: &str) -> Message {
    Message {
        to: to.to_string(),
        amount: amount.to_string(),
        fee: fee.to_string(),
        desc: String::new(),
        frozen_height: 0,
        initiator: initiator.to_string(),
        auth_require: vec!["endorser".to_string()],
    }
}

fn session(to: &str, amount: &str, fee: &str, addr: &str) -> Session {
    Session::new(
        "xuper".to_string(),
        account(addr),
        message(to, amount, fee, addr),
    )
}

fn config(fee: &str) -> ComplianceCheckConfig {
    ComplianceCheckConfig {
        endorse_service_fee: fee.to_string(),
        endorse_service_fee_addr: "feebank".to_string(),
        endorse_service_addr: "endorser".to_string(),
    }
}

fn pre_exec_resp(pool: UtxoOutput) -> PreExecWithSelectUTXOResponse {
    PreExecWithSelectUTXOResponse {
        response: InvokeResponse {
            inputs: vec![],
            outputs: vec![],
            responses: vec![],
            requests: vec![],
        },
        utxo_output: pool,
    }
}

fn one_unit_pool(owner: &str, amount: Vec<u8>, total: Vec<u8>) -> UtxoOutput {
    UtxoOutput {
        utxo_list: vec![Utxo {
            ref_txid: vec![0xee; 4],
            ref_offset: 0,
            to_addr: owner.to_string(),
            amount,
        }],
        total_selected: total,
    }
}

#[test]
fn amount_roundtrip_preserves_value() {
    for (input, expected) in [
        ("0", "0"),
        ("7", "7"),
        ("1401", "1401"),
        ("000123", "123"),
        ("18446744073709551616", "18446744073709551616"),
    ] {
        let bytes = parse_decimal(input).unwrap();
        assert_eq!(to_decimal(&bytes), expected);
    }
}

#[test]
fn parse_decimal_gives_big_endian_bytes() {
    assert_eq!(parse_decimal("256").unwrap(), vec![1, 0]);
    assert_eq!(parse_decimal("100").unwrap(), vec![100]);
    assert_eq!(to_decimal(&vec![7, 208]), "2000");
}

#[test]
fn parse_decimal_rejects_malformed_strings() {
    for bad in ["", "12a", "+5", "-1", " 7"] {
        assert_eq!(parse_decimal(bad), Err(Error::ParseError));
    }
}

#[test]
fn parse_i64_bounds() {
    assert_eq!(parse_i64("0"), Ok(0));
    assert_eq!(parse_i64("9223372036854775807"), Ok(i64::MAX));
    assert_eq!(parse_i64("9223372036854775808"), Err(Error::ParseError));
    assert_eq!(parse_i64(""), Err(Error::ParseError));
}

#[test]
fn output_builder_empty_destination_has_no_destination_output() {
    let s = session("", "1401", "0", "alice");
    let outs = s
        .generate_tx_output(&String::new(), &"1401".to_string(), "7")
        .unwrap();
    assert_eq!(outs.len(), 1);
    assert_eq!(outs[0].to_addr, "$");
    assert_eq!(outs[0].amount, vec![7]);
}

#[test]
fn output_builder_zero_or_empty_fee_has_no_fee_output() {
    let s = session("bob", "1401", "0", "alice");
    for fee in ["0", ""] {
        let outs = s
            .generate_tx_output(&"bob".to_string(), &"1401".to_string(), fee)
            .unwrap();
        assert_eq!(outs.len(), 1);
        assert_eq!(outs[0].to_addr, "bob");
        assert_eq!(outs[0].amount, vec![5, 121]);
    }
}

#[test]
fn output_builder_orders_destination_before_fee() {
    let s = session("bob", "1401", "7", "alice");
    let outs = s
        .generate_tx_output(&"bob".to_string(), &"1401".to_string(), "7")
        .unwrap();
    assert_eq!(outs.len(), 2);
    assert_eq!(outs[0].to_addr, "bob");
    assert_eq!(outs[1].to_addr, "$");
    assert_eq!(outs[1].amount, vec![7]);
}

#[test]
fn output_builder_rejects_malformed_amount() {
    let s = session("bob", "x", "0", "alice");
    let r = s.generate_tx_output(&"bob".to_string(), &"x".to_string(), "0");
    assert_eq!(r.unwrap_err(), Error::ParseError);
}

#[test]
fn input_selector_excess_pool_returns_single_change_output() {
    let s = session("bob", "1401", "0", "alice");
    let pool = one_unit_pool("alice", vec![7, 208], vec![7, 208]);
    let (inputs, change) = s.generate_tx_input(&pool, &vec![100]);
    assert_eq!(inputs.len(), 1);
    assert_eq!(inputs[0].ref_txid, vec![0xee; 4]);
    assert_eq!(inputs[0].ref_offset, 0);
    assert_eq!(inputs[0].from_addr, "alice");
    assert_eq!(inputs[0].amount, vec![7, 208]);
    let change = change.unwrap();
    assert_eq!(change.to_addr, "alice");
    assert_eq!(change.amount, vec![7, 108]);
}

#[test]
fn input_selector_exact_pool_returns_no_change_output() {
    let s = session("bob", "1401", "0", "alice");
    let pool = one_unit_pool("alice", vec![100], vec![100]);
    let (inputs, change) = s.generate_tx_input(&pool, &vec![100]);
    assert_eq!(inputs.len(), 1);
    assert!(change.is_none());
}

#[test]
fn fee_change_pool_keeps_only_initiator_outputs_in_order() {
    let s = session("bob", "1401", "0", "alice");
    let cctx = Transaction {
        version: TX_VERSION,
        coinbase: false,
        timestamp: 7,
        tx_inputs: vec![],
        tx_outputs: vec![
            TxOutput { to_addr: "feebank".to_string(), amount: vec![100] },
            TxOutput { to_addr: "alice".to_string(), amount: vec![7, 108] },
            TxOutput { to_addr: "carol".to_string(), amount: vec![5] },
            TxOutput { to_addr: "alice".to_string(), amount: vec![1] },
        ],
        desc: String::new(),
        initiator: "alice".to_string(),
        nonce: "n1".to_string(),
        auth_require: vec![],
        tx_inputs_ext: vec![],
        tx_outputs_ext: vec![],
        contract_requests: vec![],
        initiator_signs: vec![],
        auth_require_signs: vec![],
        txid: vec![0xab, 0xcd],
    };
    let pool = s.derive_fee_change_pool(&cctx);
    assert_eq!(pool.utxo_list.len(), 2);
    assert_eq!(pool.utxo_list[0].ref_offset, 1);
    assert_eq!(pool.utxo_list[0].amount, vec![7, 108]);
    assert_eq!(pool.utxo_list[0].ref_txid, vec![0xab, 0xcd]);
    assert_eq!(pool.utxo_list[0].to_addr, "alice");
    assert_eq!(pool.utxo_list[1].ref_offset, 3);
    assert_eq!(pool.utxo_list[1].amount, vec![1]);
    // 1900 + 1 = 1901 = 0x076d
    assert_eq!(pool.total_selected, vec![7, 109]);
}

#[test]
fn check_resp_code_rejects_status_above_400() {
    let s = session("bob", "1401", "0", "alice");
    let ok = vec![
        ContractResponse { status: 200, message: String::new(), body: vec![] },
        ContractResponse { status: 400, message: String::new(), body: vec![] },
    ];
    assert!(s.check_resp_code(&ok).is_ok());
    let bad = vec![ContractResponse { status: 401, message: String::new(), body: vec![] }];
    assert_eq!(s.check_resp_code(&bad).unwrap_err(), Error::ContractCodeGT400);
}

#[test]
fn missing_endorsement_signature_is_an_error() {
    let s = session("bob", "1401", "0", "alice");
    let cfg = config("100");
    let resp = pre_exec_resp(one_unit_pool("alice", vec![7, 208], vec![7, 208]));
    let mut tx = s
        .gen_compliance_check_tx(&resp, &cfg, 1, "n1".to_string())
        .unwrap();
    let before = tx.auth_require_signs.len();
    let r = tx.append_endorsement(None);
    assert_eq!(r.unwrap_err(), Error::MissingEndorsementSignature);
    assert_eq!(tx.auth_require_signs.len(), before);
}

#[test]
fn transfer_rejects_endorsement_fee_not_below_amount() {
    // endorsement fee equal to the amount is already rejected
    let r = prepare_transfer(
        &account("alice"),
        &"xuper".to_string(),
        &"bob".to_string(),
        &"1401".to_string(),
        &"0".to_string(),
        &String::new(),
        &config("1401"),
    );
    assert_eq!(r.err(), Some(Error::InvalidArguments));
}

#[test]
fn transfer_rejects_oversized_endorsement_fee() {
    let r = prepare_transfer(
        &account("alice"),
        &"xuper".to_string(),
        &"bob".to_string(),
        &"1401".to_string(),
        &"0".to_string(),
        &String::new(),
        &config("1500"),
    );
    assert_eq!(r.err(), Some(Error::InvalidArguments));
}

#[test]
fn transfer_rejects_wrapping_total() {
    let r = prepare_transfer(
        &account("alice"),
        &"xuper".to_string(),
        &"bob".to_string(),
        &"9223372036854775806".to_string(),
        &"2".to_string(),
        &String::new(),
        &config("1"),
    );
    assert_eq!(r.err(), Some(Error::InvalidArguments));
}

#[test]
fn prepare_transfer_builds_session_and_request() {
    let r = prepare_transfer(
        &account("alice"),
        &"xuper".to_string(),
        &"bob".to_string(),
        &"1401".to_string(),
        &"000".to_string(),
        &"hello".to_string(),
        &config("100"),
    );
    let (sess, req) = r.unwrap();
    assert_eq!(sess.chain_name, "xuper");
    assert_eq!(sess.msg.to, "bob");
    assert_eq!(sess.msg.amount, "1401");
    // the fee string is normalized: no leading zeros survive
    assert_eq!(sess.msg.fee, "0");
    assert_eq!(sess.msg.desc, "hello");
    assert_eq!(sess.msg.frozen_height, 0);
    assert_eq!(sess.msg.initiator, "alice");
    assert_eq!(sess.msg.auth_require, vec!["endorser".to_string()]);
    assert_eq!(req.bcname, "xuper");
    assert_eq!(req.address, "alice");
    assert_eq!(req.total_amount, 1501);
    assert_eq!(req.request.bcname, "xuper");
    assert_eq!(req.request.initiator, "alice");
    assert!(req.request.requests.is_empty());
    assert_eq!(req.request.auth_require, vec!["endorser".to_string()]);
}

#[test]
fn transaction_id_hex_is_lowercase_big_endian() {
    let mut tx = Transaction {
        version: TX_VERSION,
        coinbase: false,
        timestamp: 0,
        tx_inputs: vec![],
        tx_outputs: vec![],
        desc: String::new(),
        initiator: "alice".to_string(),
        nonce: String::new(),
        auth_require: vec![],
        tx_inputs_ext: vec![],
        tx_outputs_ext: vec![],
        contract_requests: vec![],
        initiator_signs: vec![],
        auth_require_signs: vec![],
        txid: vec![],
    };
    tx.set_txid(vec![0x00, 0x0a, 0xff]);
    assert_eq!(transaction_id_hex(&tx), "000aff");
}

#[test]
fn end_to_end_transfer_scenario() {
    // initiator owns one 2000 spend unit; amount 1401, fee 0, endorsement
    // fee 100
    let cfg = config("100");
    let (sess, req) = prepare_transfer(
        &account("alice"),
        &"xuper".to_string(),
        &"bob".to_string(),
        &"1401".to_string(),
        &"0".to_string(),
        &String::new(),
        &cfg,
    )
    .unwrap();
    assert_eq!(req.total_amount, 1501);

    let resp = pre_exec_resp(one_unit_pool("alice", vec![7, 208], vec![7, 208]));

    // fee transaction: spends the 2000 unit, pays 100 to the fee recipient,
    // returns 1900 change to the initiator
    let mut cctx = sess
        .gen_compliance_check_tx(&resp, &cfg, 11, "n1".to_string())
        .unwrap();
    assert_eq!(cctx.desc, "compliance check tx");
    assert_eq!(cctx.tx_inputs.len(), 1);
    assert_eq!(cctx.tx_inputs[0].amount, vec![7, 208]);
    assert_eq!(cctx.tx_outputs.len(), 2);
    assert_eq!(cctx.tx_outputs[0].to_addr, "feebank");
    assert_eq!(cctx.tx_outputs[0].amount, vec![100]);
    assert_eq!(cctx.tx_outputs[1].to_addr, "alice");
    assert_eq!(cctx.tx_outputs[1].amount, vec![7, 108]);
    let account_sig = SignatureInfo { public_key: vec![1, 2, 3], sign: vec![9, 9] };
    cctx.attach_initiator_sign(account_sig);
    assert_eq!(cctx.initiator_signs.len(), 1);
    assert!(cctx.auth_require_signs.is_empty());
    cctx.set_txid(vec![0xab, 0xcd]);

    // real transaction: consumes the 1900 change unit, pays 1401 to the
    // destination, returns 499 change
    let mut tx = sess.gen_real_tx(&resp, &cctx, 12, "n2".to_string()).unwrap();
    assert!(tx.desc.is_empty());
    assert_eq!(tx.tx_inputs.len(), 1);
    assert_eq!(tx.tx_inputs[0].ref_txid, vec![0xab, 0xcd]);
    assert_eq!(tx.tx_inputs[0].ref_offset, 1);
    assert_eq!(tx.tx_inputs[0].amount, vec![7, 108]);
    assert_eq!(tx.tx_outputs.len(), 2);
    assert_eq!(tx.tx_outputs[0].to_addr, "bob");
    assert_eq!(tx.tx_outputs[0].amount, vec![5, 121]);
    assert_eq!(tx.tx_outputs[1].to_addr, "alice");
    assert_eq!(tx.tx_outputs[1].amount, vec![1, 243]);
    assert_eq!(tx.auth_require, vec!["endorser".to_string()]);
    let account_sig = SignatureInfo { public_key: vec![1, 2, 3], sign: vec![8, 8] };
    sess.attach_real_tx_signatures(&mut tx, account_sig);
    assert_eq!(tx.initiator_signs.len(), 1);
    assert!(tx.auth_require_signs.is_empty());
    tx.set_txid(vec![0x11]);

    // endorsement: one more signature on the auth-required list, then the
    // identifier is recomputed
    let endorser_sig = SignatureInfo { public_key: vec![4, 4], sign: vec![5, 5] };
    tx.append_endorsement(Some(endorser_sig)).unwrap();
    assert_eq!(tx.initiator_signs.len(), 1);
    assert_eq!(tx.auth_require_signs.len(), 1);
    tx.set_txid(vec![0x0a, 0xff]);
    assert_eq!(transaction_id_hex(&tx), "0aff");
}

fn plain_cctx(outputs: Vec<TxOutput>, txid: Vec<u8>) -> Transaction {
    Transaction {
        version: TX_VERSION,
        coinbase: false,
        timestamp: 1,
        tx_inputs: vec![],
        tx_outputs: outputs,
        desc: String::new(),
        initiator: "alice".to_string(),
        nonce: "n0".to_string(),
        auth_require: vec![],
        tx_inputs_ext: vec![],
        tx_outputs_ext: vec![],
        contract_requests: vec![],
        initiator_signs: vec![],
        auth_require_signs: vec![],
        txid,
    }
}

#[test]
fn real_tx_copies_contract_effects_verbatim() {
    let s = session("bob", "10", "0", "alice");
    let mut resp = pre_exec_resp(UtxoOutput { utxo_list: vec![], total_selected: vec![10] });
    resp.response.inputs = vec![TxInputExt {
        bucket: "b1".to_string(),
        key: vec![1],
        ref_txid: vec![2],
        ref_offset: 3,
    }];
    resp.response.outputs = vec![TxOutputExt {
        bucket: "b2".to_string(),
        key: vec![4],
        value: vec![5],
    }];
    resp.response.requests = vec![InvokeRequest {
        module_name: "wasm".to_string(),
        contract_name: "counter".to_string(),
        method_name: "increase".to_string(),
        args: vec![InvokeArg { name: "key".to_string(), value: vec![6] }],
    }];
    let cctx = plain_cctx(
        vec![TxOutput { to_addr: "alice".to_string(), amount: vec![10] }],
        vec![0xcc],
    );
    let tx = s.gen_real_tx(&resp, &cctx, 5, "n3".to_string()).unwrap();
    assert_eq!(tx.tx_inputs_ext.len(), 1);
    assert_eq!(tx.tx_inputs_ext[0].bucket, "b1");
    assert_eq!(tx.tx_inputs_ext[0].key, vec![1]);
    assert_eq!(tx.tx_inputs_ext[0].ref_txid, vec![2]);
    assert_eq!(tx.tx_inputs_ext[0].ref_offset, 3);
    assert_eq!(tx.tx_outputs_ext.len(), 1);
    assert_eq!(tx.tx_outputs_ext[0].bucket, "b2");
    assert_eq!(tx.tx_outputs_ext[0].value, vec![5]);
    assert_eq!(tx.contract_requests.len(), 1);
    assert_eq!(tx.contract_requests[0].method_name, "increase");
    assert_eq!(tx.contract_requests[0].args.len(), 1);
    assert_eq!(tx.contract_requests[0].args[0].name, "key");
    assert_eq!(tx.contract_requests[0].args[0].value, vec![6]);
}

#[test]
fn real_tx_exact_change_pool_gives_no_change_output() {
    // the fee transaction's change is exactly the amount owed: no further
    // change output
    let s = session("bob", "10", "0", "alice");
    let resp = pre_exec_resp(UtxoOutput { utxo_list: vec![], total_selected: vec![] });
    let cctx = plain_cctx(
        vec![TxOutput { to_addr: "alice".to_string(), amount: vec![10] }],
        vec![0xcc],
    );
    let tx = s.gen_real_tx(&resp, &cctx, 5, "n3".to_string()).unwrap();
    assert_eq!(tx.tx_inputs.len(), 1);
    assert_eq!(tx.tx_outputs.len(), 1);
    assert_eq!(tx.tx_outputs[0].to_addr, "bob");
    assert_eq!(tx.tx_outputs[0].amount, vec![10]);
}

#[test]
fn real_tx_rejects_empty_fee_string() {
    // an empty fee string builds no fee output but still fails the required
    // total computation
    let s = session("bob", "10", "", "alice");
    let resp = pre_exec_resp(UtxoOutput { utxo_list: vec![], total_selected: vec![] });
    let cctx = plain_cctx(vec![], vec![0xcc]);
    let r = s.gen_real_tx(&resp, &cctx, 5, "n3".to_string());
    assert_eq!(r.unwrap_err(), Error::ParseError);
}

#[test]
fn contract_backed_account_signs_auth_list_on_real_tx_only() {
    let mut acct = account("alice");
    acct.contract_name = "counter".to_string();
    let sess = Session::new(
        "xuper".to_string(),
        acct,
        message("bob", "1401", "0", "alice"),
    );
    let resp = pre_exec_resp(one_unit_pool("alice", vec![7, 208], vec![7, 208]));

    // the fee transaction carries only the initiator signature, even for a
    // contract-backed account
    let mut cctx = sess
        .gen_compliance_check_tx(&resp, &config("100"), 1, "n1".to_string())
        .unwrap();
    let sig = SignatureInfo { public_key: vec![1], sign: vec![2] };
    cctx.attach_initiator_sign(sig);
    assert_eq!(cctx.initiator_signs.len(), 1);
    assert!(cctx.auth_require_signs.is_empty());
    cctx.set_txid(vec![0xab]);

    // the real transaction of a contract-backed account also signs the
    // auth-required list
    let mut tx = sess.gen_real_tx(&resp, &cctx, 2, "n2".to_string()).unwrap();
    let sig = SignatureInfo { public_key: vec![1], sign: vec![3] };
    sess.attach_real_tx_signatures(&mut tx, sig);
    assert_eq!(tx.initiator_signs.len(), 1);
    assert_eq!(tx.auth_require_signs.len(), 1);
    assert_eq!(tx.auth_require_signs[0].sign, vec![3]);
}
