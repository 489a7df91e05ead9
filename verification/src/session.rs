//! One transfer session: building the compliance-check (fee) transaction and
//! the real transfer transaction, and the signature bookkeeping around them.
//!
//! Both builders are pure: the caller supplies the timestamp and the nonce,
//! and the signing digest, the signatures and the transaction identifier are
//! produced outside and handed back in through the attach/set steps below.

use vstd::prelude::*;

use crate::amount::{
    add_bytes, be_val, canon_bytes, dec_val, gt_bytes, is_dec_string, parse_decimal, sub_bytes,
};
use crate::types::{
    clone_bytes, clone_in_exts, clone_out_exts, clone_reqs, clone_strings, in_exts_eq, out_exts_eq,
    reqs_eq, sig_eq, Account, ComplianceCheckConfig, ContractResponse, Message,
    PreExecWithSelectUTXOResponse, SignatureInfo, Transaction, TxInput, TxOutput, Utxo, UtxoOutput,
};
use crate::Error;

verus! {

/// The transaction format version this library writes.
pub const TX_VERSION: i32 = 1;

/// One transfer in progress: the ledger name, the local account's data, and
/// the transfer intent.
#[derive(Clone, Debug)]
pub struct Session {
    pub chain_name: String,
    pub account: Account,
    pub msg: Message,
}

pub open spec fn wants_dest(to: Seq<char>) -> bool {
    to.len() > 0
}

pub open spec fn wants_fee(fee: Seq<char>) -> bool {
    fee.len() > 0 && !(fee.len() == 1 && fee[0] == '0')
}

/// The inputs on which the output builder succeeds: each amount string it
/// actually reads must be a well-formed decimal string.
pub open spec fn output_parse_ok(to: Seq<char>, amount: Seq<char>, fee: Seq<char>) -> bool {
    (wants_dest(to) ==> is_dec_string(amount)) && (wants_fee(fee) ==> is_dec_string(fee))
}

/// What the output builder returns: a destination output only for a
/// non-empty destination, a fee-burn output only for a non-empty, non-zero
/// fee, destination before fee.
pub open spec fn built_outputs_ok(
    outs: Seq<TxOutput>,
    to: Seq<char>,
    amount: Seq<char>,
    fee: Seq<char>,
) -> bool {
    let nbase: int = (if wants_dest(to) {
        1int
    } else {
        0int
    }) + (if wants_fee(fee) {
        1int
    } else {
        0int
    });
    &&& outs.len() == nbase
    &&& wants_dest(to) ==> outs[0].to_addr@ == to && be_val(outs[0].amount@) == dec_val(amount)
        && canon_bytes(outs[0].amount@)
    &&& wants_fee(fee) ==> {
        let j: int = if wants_dest(to) {
            1int
        } else {
            0int
        };
        outs[j].to_addr@ == seq!['$'] && be_val(outs[j].amount@) == dec_val(fee) && canon_bytes(
            outs[j].amount@,
        )
    }
}

pub open spec fn input_matches_utxo(inp: TxInput, u: Utxo) -> bool {
    inp.ref_txid@ == u.ref_txid@ && inp.ref_offset == u.ref_offset && inp.from_addr@ == u.to_addr@
        && inp.amount@ == u.amount@
}

pub open spec fn inputs_match_pool(ins: Seq<TxInput>, us: Seq<Utxo>) -> bool {
    ins.len() == us.len() && (forall|i: int|
        0 <= i < us.len() ==> input_matches_utxo(#[trigger] ins[i], us[i]))
}

/// The outputs of the fee transaction: the fee payment (if a fee-recipient
/// address is configured) followed by the change output (if the pool holds
/// more than the fee).
pub open spec fn fee_tx_outputs_ok(
    outs: Seq<TxOutput>,
    s: Session,
    pool: UtxoOutput,
    cfg: ComplianceCheckConfig,
) -> bool {
    let nbase: int = if wants_dest(cfg.endorse_service_fee_addr@) {
        1int
    } else {
        0int
    };
    let has_change = be_val(pool.total_selected@) > dec_val(cfg.endorse_service_fee@);
    &&& outs.len() == nbase + (if has_change {
        1int
    } else {
        0int
    })
    &&& wants_dest(cfg.endorse_service_fee_addr@) ==> outs[0].to_addr@
        == cfg.endorse_service_fee_addr@ && be_val(outs[0].amount@) == dec_val(
        cfg.endorse_service_fee@,
    )
    &&& has_change ==> outs[nbase].to_addr@ == s.account.address@ && be_val(outs[nbase].amount@)
        == be_val(pool.total_selected@) - dec_val(cfg.endorse_service_fee@)
}

/// A transaction fresh out of a builder: no signature collected yet and no
/// identifier set.
pub open spec fn no_signs_or_id(tx: Transaction) -> bool {
    tx.initiator_signs@.len() == 0 && tx.auth_require_signs@.len() == 0 && tx.txid@.len() == 0
}

/// The fee transaction as the compliance-check builder leaves it, before
/// signing.
pub open spec fn fee_tx_ok(
    tx: Transaction,
    s: Session,
    pool: UtxoOutput,
    cfg: ComplianceCheckConfig,
    timestamp: i64,
    nonce: Seq<char>,
) -> bool {
    &&& tx.version == TX_VERSION
    &&& !tx.coinbase
    &&& tx.timestamp == timestamp
    &&& tx.desc@ == "compliance check tx"@
    &&& tx.initiator@ == s.msg.initiator@
    &&& tx.nonce@ == nonce
    &&& tx.auth_require@.len() == 0
    &&& tx.tx_inputs_ext@.len() == 0
    &&& tx.tx_outputs_ext@.len() == 0
    &&& tx.contract_requests@.len() == 0
    &&& no_signs_or_id(tx)
    &&& inputs_match_pool(tx.tx_inputs@, pool.utxo_list@)
    &&& fee_tx_outputs_ok(tx.tx_outputs@, s, pool, cfg)
}

/// The change outputs of the fee transaction that belong to a given address,
/// as (output index, output) pairs in output order.
pub open spec fn change_entries(outs: Seq<TxOutput>, addr: Seq<char>) -> Seq<(int, TxOutput)>
    decreases outs.len(),
{
    if outs.len() == 0 {
        Seq::empty()
    } else {
        let prefix = change_entries(outs.drop_last(), addr);
        if outs.last().to_addr@ == addr {
            prefix.push(((outs.len() - 1) as int, outs.last()))
        } else {
            prefix
        }
    }
}

pub open spec fn entries_total(es: Seq<(int, TxOutput)>) -> int
    decreases es.len(),
{
    if es.len() == 0 {
        0
    } else {
        entries_total(es.drop_last()) + be_val(es.last().1.amount@)
    }
}

pub open spec fn utxo_matches_entry(u: Utxo, e: (int, TxOutput), txid: Seq<u8>) -> bool {
    u.ref_txid@ == txid && u.ref_offset == e.0 && u.to_addr@ == e.1.to_addr@ && u.amount@
        == e.1.amount@
}

/// The synthetic pool derived from the fee transaction: exactly its outputs
/// paying the given address, in output-index order, referencing the fee
/// transaction's identifier, with the declared total equal to their sum.
pub open spec fn pool_is_change_of(pool: UtxoOutput, cctx: Transaction, addr: Seq<char>) -> bool {
    let es = change_entries(cctx.tx_outputs@, addr);
    &&& pool.utxo_list@.len() == es.len()
    &&& forall|i: int|
        0 <= i < es.len() ==> utxo_matches_entry(#[trigger] pool.utxo_list@[i], es[i], cctx.txid@)
    &&& be_val(pool.total_selected@) == entries_total(es)
}

/// Every entry the change filter keeps is an output of the transaction, pays
/// the filtered address, the kept indices increase strictly, and every
/// output paying the address is kept.
pub proof fn lemma_change_entries_sound(outs: Seq<TxOutput>, addr: Seq<char>)
    ensures
        forall|i: int|
            0 <= i < change_entries(outs, addr).len() ==> {
                let e = #[trigger] change_entries(outs, addr)[i];
                &&& 0 <= e.0 < outs.len()
                &&& e.1 == outs[e.0]
                &&& e.1.to_addr@ == addr
            },
        forall|i: int, j: int|
            0 <= i < j < change_entries(outs, addr).len() ==> #[trigger] change_entries(
                outs,
                addr,
            )[i].0 < #[trigger] change_entries(outs, addr)[j].0,
        forall|k: int|
            0 <= k < outs.len() && (#[trigger] outs[k]).to_addr@ == addr ==> exists|i: int|
                0 <= i < change_entries(outs, addr).len() && change_entries(outs, addr)[i] == (
                k,
                outs[k],
                ),
    decreases outs.len(),
{
    if outs.len() > 0 {
        lemma_change_entries_sound(outs.drop_last(), addr);
        let es = change_entries(outs, addr);
        let pre = outs.drop_last();
        let es_pre = change_entries(pre, addr);
        assert(forall|i: int| 0 <= i < es_pre.len() ==> 0 <= #[trigger] es_pre[i].0 < pre.len());
        assert(forall|i: int| 0 <= i < pre.len() ==> pre[i] == #[trigger] outs[i]);
        assert forall|k: int|
            0 <= k < outs.len() && (#[trigger] outs[k]).to_addr@ == addr implies exists|i: int|
            0 <= i < es.len() && es[i] == (k, outs[k]) by {
            if k < outs.len() - 1 {
                assert(pre[k] == outs[k]);
                let i = choose|i: int| 0 <= i < es_pre.len() && es_pre[i] == (k, pre[k]);
                assert(es[i] == (k, outs[k]));
            } else {
                assert(es[es_pre.len() as int] == (k, outs[k]));
            }
        }
    }
}

impl Session {
    pub fn new(c: String, w: Account, m: Message) -> (r: Session)
        ensures
            r.chain_name == c,
            r.account == w,
            r.msg == m,
    {
        Session { chain_name: c, account: w, msg: m }
    }

    /// Reject a pre-execution result as soon as any contract response status
    /// lies above 400.
    pub fn check_resp_code(&self, resp: &Vec<ContractResponse>) -> (r: Result<(), Error>)
        ensures
            r is Ok <==> (forall|i: int| 0 <= i < resp@.len() ==> #[trigger] resp@[i].status <= 400),
            r matches Err(e) ==> e == Error::ContractCodeGT400,
    {
        let n: usize = resp.len();
        let mut i: usize = 0;
        while i < n
            invariant
                n == resp@.len(),
                0 <= i <= n,
                forall|j: int| 0 <= j < i ==> #[trigger] resp@[j].status <= 400,
            decreases n - i,
        {
            if resp[i].status > 400 {
                return Err(Error::ContractCodeGT400);
            }
            i += 1;
        }
        Ok(())
    }

    /// The input selector: one input per pool entry in pool order, and one
    /// change output back to the account exactly when the pool's declared
    /// total strictly exceeds the required total.
    pub fn generate_tx_input(&self, utxo_output: &UtxoOutput, total_need: &Vec<u8>) -> (r: (
        Vec<TxInput>,
        Option<TxOutput>,
    ))
        ensures
            inputs_match_pool(r.0@, utxo_output.utxo_list@),
            be_val(utxo_output.total_selected@) > be_val(total_need@) ==> (r.1 matches Some(c)
                && c.to_addr@ == self.account.address@ && be_val(c.amount@) == be_val(
                utxo_output.total_selected@,
            ) - be_val(total_need@) && canon_bytes(c.amount@)),
            be_val(utxo_output.total_selected@) <= be_val(total_need@) ==> r.1 is None,
    {
        let mut tx_inputs: Vec<TxInput> = Vec::new();
        let n: usize = utxo_output.utxo_list.len();
        let mut i: usize = 0;
        while i < n
            invariant
                n == utxo_output.utxo_list@.len(),
                0 <= i <= n,
                tx_inputs@.len() == i,
                forall|j: int|
                    0 <= j < i ==> input_matches_utxo(
                        #[trigger] tx_inputs@[j],
                        utxo_output.utxo_list@[j],
                    ),
            decreases n - i,
        {
            let u = &utxo_output.utxo_list[i];
            tx_inputs.push(
                TxInput {
                    ref_txid: clone_bytes(&u.ref_txid),
                    ref_offset: u.ref_offset,
                    from_addr: u.to_addr.clone(),
                    amount: clone_bytes(&u.amount),
                },
            );
            i += 1;
        }
        if gt_bytes(&utxo_output.total_selected, total_need) {
            let delta = sub_bytes(&utxo_output.total_selected, total_need);
            let change = TxOutput { to_addr: self.account.address.clone(), amount: delta };
            (tx_inputs, Some(change))
        } else {
            (tx_inputs, None)
        }
    }

    /// The output builder: destination output for a non-empty destination,
    /// fee-burn output (address "$") for a non-empty, non-zero fee string,
    /// destination before fee.
    pub fn generate_tx_output(&self, to: &String, amount: &String, fee: &str) -> (r: Result<
        Vec<TxOutput>,
        Error,
    >)
        ensures
            r is Ok <==> output_parse_ok(to@, amount@, fee@),
            r matches Ok(outs) ==> built_outputs_ok(outs@, to@, amount@, fee@),
            r matches Err(e) ==> e == Error::ParseError,
    {
        let mut tx_outputs: Vec<TxOutput> = Vec::new();
        if !to.as_str().is_empty() {
            match parse_decimal(amount.as_str()) {
                Ok(am) => {
                    tx_outputs.push(TxOutput { to_addr: to.clone(), amount: am });
                },
                Err(e) => {
                    return Err(e);
                },
            }
        }
        let flen: usize = fee.unicode_len();
        let fee_is_zero: bool = flen == 1 && fee.get_char(0) == '0';
        if flen > 0 && !fee_is_zero {
            match parse_decimal(fee) {
                Ok(am) => {
                    let sentinel = String::from_str("$");
                    proof {
                        reveal_strlit("$");
                        assert(sentinel@ =~= seq!['$']);
                    }
                    tx_outputs.push(TxOutput { to_addr: sentinel, amount: am });
                },
                Err(e) => {
                    return Err(e);
                },
            }
        }
        Ok(tx_outputs)
    }

    /// The compliance-check transaction builder: pays the configured
    /// endorsement fee from the pre-selected pool and returns the unsigned
    /// fee transaction.
    pub fn gen_compliance_check_tx(
        &self,
        resp: &PreExecWithSelectUTXOResponse,
        cfg: &ComplianceCheckConfig,
        timestamp: i64,
        nonce: String,
    ) -> (r: Result<Transaction, Error>)
        ensures
            r is Ok <==> is_dec_string(cfg.endorse_service_fee@),
            r matches Ok(tx) ==> fee_tx_ok(tx, *self, resp.utxo_output, *cfg, timestamp, nonce@),
            r matches Err(e) ==> e == Error::ParseError,
    {
        let total_need = match parse_decimal(cfg.endorse_service_fee.as_str()) {
            Ok(b) => b,
            Err(e) => {
                return Err(e);
            },
        };
        let (tx_inputs, change) = self.generate_tx_input(&resp.utxo_output, &total_need);
        proof {
            reveal_strlit("0");
        }
        let mut tx_outputs = match self.generate_tx_output(
            &cfg.endorse_service_fee_addr,
            &cfg.endorse_service_fee,
            "0",
        ) {
            Ok(v) => v,
            Err(e) => {
                return Err(e);
            },
        };
        let ghost nbase: int = tx_outputs@.len() as int;
        if let Some(c) = change {
            tx_outputs.push(c);
        }
        let tx = Transaction {
            version: TX_VERSION,
            coinbase: false,
            timestamp,
            tx_inputs,
            tx_outputs,
            desc: String::from_str("compliance check tx"),
            initiator: self.msg.initiator.clone(),
            nonce,
            auth_require: Vec::new(),
            tx_inputs_ext: Vec::new(),
            tx_outputs_ext: Vec::new(),
            contract_requests: Vec::new(),
            initiator_signs: Vec::new(),
            auth_require_signs: Vec::new(),
            txid: Vec::new(),
        };
        Ok(tx)
    }

    /// Scan the fee transaction for the outputs still owed to the initiator
    /// and collect them as the synthetic pool that funds the real transfer.
    pub fn derive_fee_change_pool(&self, cctx: &Transaction) -> (pool: UtxoOutput)
        requires
            cctx.tx_outputs@.len() <= i32::MAX as int,
        ensures
            pool_is_change_of(pool, *cctx, self.msg.initiator@),
    {
        let mut utxo_list: Vec<Utxo> = Vec::new();
        let mut total: Vec<u8> = Vec::new();
        let n: usize = cctx.tx_outputs.len();
        let mut i: usize = 0;
        while i < n
            invariant
                n == cctx.tx_outputs@.len(),
                n <= i32::MAX as int,
                0 <= i <= n,
                ({
                    let es = change_entries(
                        cctx.tx_outputs@.subrange(0, i as int),
                        self.msg.initiator@,
                    );
                    &&& utxo_list@.len() == es.len()
                    &&& forall|j: int|
                        0 <= j < es.len() ==> utxo_matches_entry(
                            #[trigger] utxo_list@[j],
                            es[j],
                            cctx.txid@,
                        )
                    &&& be_val(total@) == entries_total(es)
                }),
            decreases n - i,
        {
            let o = &cctx.tx_outputs[i];
            proof {
                let pre = cctx.tx_outputs@.subrange(0, i as int);
                let post = cctx.tx_outputs@.subrange(0, i as int + 1);
                assert(post.drop_last() =~= pre);
            }
            if o.to_addr == self.msg.initiator {
                let u = Utxo {
                    ref_txid: clone_bytes(&cctx.txid),
                    ref_offset: i as i32,
                    to_addr: o.to_addr.clone(),
                    amount: clone_bytes(&o.amount),
                };
                utxo_list.push(u);
                total = add_bytes(&total, &o.amount);
                proof {
                    let pre = cctx.tx_outputs@.subrange(0, i as int);
                    let es_pre = change_entries(pre, self.msg.initiator@);
                    let post = cctx.tx_outputs@.subrange(0, i as int + 1);
                    let es = change_entries(post, self.msg.initiator@);
                    assert(es == es_pre.push((i as int, cctx.tx_outputs@[i as int])));
                    assert(es.drop_last() =~= es_pre);
                }
            }
            i += 1;
        }
        proof {
            assert(cctx.tx_outputs@.subrange(0, n as int) =~= cctx.tx_outputs@);
        }
        UtxoOutput { utxo_list, total_selected: total }
    }

    /// The real transaction builder: destination and fee outputs from the
    /// intent, inputs drawn from the fee transaction's change, contract
    /// effects copied verbatim from pre-execution, unsigned.
    pub fn gen_real_tx(
        &self,
        resp: &PreExecWithSelectUTXOResponse,
        cctx: &Transaction,
        timestamp: i64,
        nonce: String,
    ) -> (r: Result<Transaction, Error>)
        requires
            cctx.tx_outputs@.len() <= i32::MAX as int,
        ensures
            r is Ok <==> is_dec_string(self.msg.amount@) && is_dec_string(self.msg.fee@),
            r matches Ok(tx) ==> real_tx_ok(tx, *self, *resp, *cctx, timestamp, nonce@),
            r matches Err(e) ==> e == Error::ParseError,
    {
        let mut tx_outputs = match self.generate_tx_output(
            &self.msg.to,
            &self.msg.amount,
            self.msg.fee.as_str(),
        ) {
            Ok(v) => v,
            Err(e) => {
                return Err(e);
            },
        };
        let ghost nbase: int = tx_outputs@.len() as int;

        let utxo_output = self.derive_fee_change_pool(cctx);

        let amount_bytes = match parse_decimal(self.msg.amount.as_str()) {
            Ok(b) => b,
            Err(e) => {
                return Err(e);
            },
        };
        let fee_bytes = match parse_decimal(self.msg.fee.as_str()) {
            Ok(b) => b,
            Err(e) => {
                return Err(e);
            },
        };
        let total_need = add_bytes(&amount_bytes, &fee_bytes);

        let (tx_inputs, change) = self.generate_tx_input(&utxo_output, &total_need);
        if let Some(c) = change {
            tx_outputs.push(c);
        }
        let tx = Transaction {
            version: TX_VERSION,
            coinbase: false,
            timestamp,
            tx_inputs,
            tx_outputs,
            desc: String::new(),
            initiator: self.msg.initiator.clone(),
            nonce,
            auth_require: clone_strings(&self.msg.auth_require),
            tx_inputs_ext: clone_in_exts(&resp.response.inputs),
            tx_outputs_ext: clone_out_exts(&resp.response.outputs),
            contract_requests: clone_reqs(&resp.response.requests),
            initiator_signs: Vec::new(),
            auth_require_signs: Vec::new(),
            txid: Vec::new(),
        };
        Ok(tx)
    }

    /// The real transaction's signing step: attach the initiator's signature
    /// as the only initiator signature, and, for a contract-backed account,
    /// place the same signature on the auth-required list as well. The fee
    /// transaction is signed with `Transaction::attach_initiator_sign`
    /// instead, which never touches the auth-required list.
    pub fn attach_real_tx_signatures(&self, tx: &mut Transaction, sig: SignatureInfo)
        ensures
            core_fields_eq(*final(tx), *old(tx)),
            final(tx).txid == old(tx).txid,
            final(tx).initiator_signs@.len() == 1,
            sig_eq(final(tx).initiator_signs@[0], sig),
            self.account.contract_name@.len() > 0 ==> final(tx).auth_require_signs@.len() == 1
                && sig_eq(final(tx).auth_require_signs@[0], sig),
            self.account.contract_name@.len() == 0 ==> final(tx).auth_require_signs
                == old(tx).auth_require_signs,
    {
        if !self.account.contract_name.as_str().is_empty() {
            let copy = SignatureInfo {
                public_key: clone_bytes(&sig.public_key),
                sign: clone_bytes(&sig.sign),
            };
            let mut auth_signs: Vec<SignatureInfo> = Vec::new();
            auth_signs.push(copy);
            tx.auth_require_signs = auth_signs;
        }
        tx.attach_initiator_sign(sig);
    }
}

/// The fields that feed the signing digest: everything except the two
/// signature lists and the identifier.
pub open spec fn core_fields_eq(a: Transaction, b: Transaction) -> bool {
    &&& a.version == b.version
    &&& a.coinbase == b.coinbase
    &&& a.timestamp == b.timestamp
    &&& a.tx_inputs == b.tx_inputs
    &&& a.tx_outputs == b.tx_outputs
    &&& a.desc == b.desc
    &&& a.initiator == b.initiator
    &&& a.nonce == b.nonce
    &&& a.auth_require == b.auth_require
    &&& a.tx_inputs_ext == b.tx_inputs_ext
    &&& a.tx_outputs_ext == b.tx_outputs_ext
    &&& a.contract_requests == b.contract_requests
}

/// The content the transaction identifier is computed over: the digest's
/// input together with every signature collected so far.
pub open spec fn signed_content_eq(a: Transaction, b: Transaction) -> bool {
    &&& core_fields_eq(a, b)
    &&& a.initiator_signs@ == b.initiator_signs@
    &&& a.auth_require_signs@ == b.auth_require_signs@
}

/// The real transaction as its builder leaves it, before signing.
pub open spec fn real_tx_ok(
    tx: Transaction,
    s: Session,
    resp: PreExecWithSelectUTXOResponse,
    cctx: Transaction,
    timestamp: i64,
    nonce: Seq<char>,
) -> bool {
    let es = change_entries(cctx.tx_outputs@, s.msg.initiator@);
    let pool_total = entries_total(es);
    let need = dec_val(s.msg.amount@) + dec_val(s.msg.fee@);
    let nbase: int = (if wants_dest(s.msg.to@) {
        1int
    } else {
        0int
    }) + (if wants_fee(s.msg.fee@) {
        1int
    } else {
        0int
    });
    let has_change = pool_total > need;
    &&& tx.version == TX_VERSION
    &&& !tx.coinbase
    &&& tx.timestamp == timestamp
    &&& tx.desc@.len() == 0
    &&& tx.initiator@ == s.msg.initiator@
    &&& tx.nonce@ == nonce
    &&& tx.auth_require@.len() == s.msg.auth_require@.len()
    &&& forall|i: int|
        0 <= i < s.msg.auth_require@.len() ==> #[trigger] tx.auth_require@[i]@
            == s.msg.auth_require@[i]@
    &&& in_exts_eq(tx.tx_inputs_ext@, resp.response.inputs@)
    &&& out_exts_eq(tx.tx_outputs_ext@, resp.response.outputs@)
    &&& reqs_eq(tx.contract_requests@, resp.response.requests@)
    &&& no_signs_or_id(tx)
    &&& tx.tx_inputs@.len() == es.len()
    &&& forall|i: int|
        0 <= i < es.len() ==> input_spends_entry(#[trigger] tx.tx_inputs@[i], es[i], cctx.txid@)
    &&& built_outputs_ok(tx.tx_outputs@.subrange(0, nbase), s.msg.to@, s.msg.amount@, s.msg.fee@)
    &&& has_change ==> tx.tx_outputs@.len() == nbase + 1 && tx.tx_outputs@[nbase].to_addr@
        == s.account.address@ && be_val(tx.tx_outputs@[nbase].amount@) == pool_total - need
    &&& !has_change ==> tx.tx_outputs@.len() == nbase
}

pub open spec fn input_spends_entry(inp: TxInput, e: (int, TxOutput), txid: Seq<u8>) -> bool {
    inp.ref_txid@ == txid && inp.ref_offset == e.0 && inp.from_addr@ == e.1.to_addr@ && inp.amount@
        == e.1.amount@
}

impl Transaction {
    /// The fee transaction's signing step: attach the initiator's signature
    /// as the only initiator signature; the auth-required signature list is
    /// left untouched, whatever the account.
    pub fn attach_initiator_sign(&mut self, sig: SignatureInfo)
        ensures
            core_fields_eq(*final(self), *old(self)),
            final(self).txid == old(self).txid,
            final(self).initiator_signs@.len() == 1,
            sig_eq(final(self).initiator_signs@[0], sig),
            final(self).auth_require_signs == old(self).auth_require_signs,
    {
        let mut signs: Vec<SignatureInfo> = Vec::new();
        signs.push(sig);
        self.initiator_signs = signs;
    }

    /// Set the transaction identifier computed outside over the signed
    /// content; nothing else changes.
    pub fn set_txid(&mut self, txid: Vec<u8>)
        ensures
            core_fields_eq(*final(self), *old(self)),
            final(self).initiator_signs == old(self).initiator_signs,
            final(self).auth_require_signs == old(self).auth_require_signs,
            final(self).txid == txid,
    {
        self.txid = txid;
    }

    /// Take the endorsement service's answer: append its signature to the
    /// auth-required list, or fail if the answer carried none.
    pub fn append_endorsement(&mut self, sig: Option<SignatureInfo>) -> (r: Result<(), Error>)
        ensures
            sig matches Some(s) ==> r is Ok && core_fields_eq(*final(self), *old(self))
                && final(self).initiator_signs == old(self).initiator_signs
                && final(self).txid == old(self).txid
                && final(self).auth_require_signs@ == old(self).auth_require_signs@.push(s),
            sig is None ==> (r matches Err(e) && e == Error::MissingEndorsementSignature)
                && *final(self) == *old(self),
    {
        match sig {
            Some(s) => {
                self.auth_require_signs.push(s);
                Ok(())
            },
            None => Err(Error::MissingEndorsementSignature),
        }
    }
}

/// The signing digest reads only the signature-free content, while the
/// identifier reads the signature lists too: appending an endorsement
/// signature leaves the digest's input unchanged and always changes the
/// identifier's input, so the identifier must be recomputed afterwards.
pub proof fn lemma_endorsement_changes_identifier_input(
    pre: Transaction,
    post: Transaction,
    s: SignatureInfo,
)
    requires
        core_fields_eq(post, pre),
        post.initiator_signs == pre.initiator_signs,
        post.auth_require_signs@ == pre.auth_require_signs@.push(s),
    ensures
        core_fields_eq(post, pre),
        !signed_content_eq(post, pre),
{
    assert(post.auth_require_signs@.len() == pre.auth_require_signs@.len() + 1);
}

} // verus!
