//! The data model: transfer intents, spend units, transaction parts, and the
//! pre-execution request/response shapes exchanged with the collaborating
//! services, all held as plain values.

use vstd::prelude::*;

verus! {

/// A transfer intent: what one `transfer` call is asked to do.
#[derive(Clone, Debug)]
pub struct Message {
    pub to: String,
    pub amount: String,
    pub fee: String,
    pub desc: String,
    pub frozen_height: i64,
    pub initiator: String,
    pub auth_require: Vec<String>,
}

/// The local signer's data this library reads; the signing operation itself
/// stays with the caller.
#[derive(Clone, Debug)]
pub struct Account {
    pub address: String,
    pub public_key: Vec<u8>,
    pub contract_name: String,
}

/// The endorsement service's configuration, passed in explicitly: its fee as
/// a decimal string, the address the fee is paid to, and the service's own
/// address that must co-sign.
#[derive(Clone, Debug)]
pub struct ComplianceCheckConfig {
    pub endorse_service_fee: String,
    pub endorse_service_fee_addr: String,
    pub endorse_service_addr: String,
}

/// A spendable prior output ("UTXO").
#[derive(Clone, Debug)]
pub struct Utxo {
    pub ref_txid: Vec<u8>,
    pub ref_offset: i32,
    pub to_addr: String,
    pub amount: Vec<u8>,
}

/// An ordered pool of spend units with their declared total value.
#[derive(Clone, Debug)]
pub struct UtxoOutput {
    pub utxo_list: Vec<Utxo>,
    pub total_selected: Vec<u8>,
}

/// One consumed spend unit inside a transaction.
#[derive(Clone, Debug)]
pub struct TxInput {
    pub ref_txid: Vec<u8>,
    pub ref_offset: i32,
    pub from_addr: String,
    pub amount: Vec<u8>,
}

/// One produced output inside a transaction; the address "$" is the fee-burn
/// sentinel.
#[derive(Clone, Debug)]
pub struct TxOutput {
    pub to_addr: String,
    pub amount: Vec<u8>,
}

/// A public key together with a signature over a signing digest.
#[derive(Clone, Debug)]
pub struct SignatureInfo {
    pub public_key: Vec<u8>,
    pub sign: Vec<u8>,
}

/// A contract-execution read dependency, copied verbatim from pre-execution.
#[derive(Clone, Debug)]
pub struct TxInputExt {
    pub bucket: String,
    pub key: Vec<u8>,
    pub ref_txid: Vec<u8>,
    pub ref_offset: i32,
}

/// A contract-execution write effect, copied verbatim from pre-execution.
#[derive(Clone, Debug)]
pub struct TxOutputExt {
    pub bucket: String,
    pub key: Vec<u8>,
    pub value: Vec<u8>,
}

/// One named argument of a contract invocation.
#[derive(Clone, Debug)]
pub struct InvokeArg {
    pub name: String,
    pub value: Vec<u8>,
}

/// A contract invocation, copied verbatim from pre-execution.
#[derive(Clone, Debug)]
pub struct InvokeRequest {
    pub module_name: String,
    pub contract_name: String,
    pub method_name: String,
    pub args: Vec<InvokeArg>,
}

/// One contract call's result inside a pre-execution response; a status above
/// 400 marks a failed call.
#[derive(Clone, Debug)]
pub struct ContractResponse {
    pub status: i32,
    pub message: String,
    pub body: Vec<u8>,
}

/// The contract-execution effects a pre-execution response reports.
#[derive(Clone, Debug)]
pub struct InvokeResponse {
    pub inputs: Vec<TxInputExt>,
    pub outputs: Vec<TxOutputExt>,
    pub responses: Vec<ContractResponse>,
    pub requests: Vec<InvokeRequest>,
}

/// A pre-execution response: contract effects plus the selected spend pool.
#[derive(Clone, Debug)]
pub struct PreExecWithSelectUTXOResponse {
    pub response: InvokeResponse,
    pub utxo_output: UtxoOutput,
}

/// The contract-invocation part of a pre-execution request.
#[derive(Clone, Debug)]
pub struct InvokeRPCRequest {
    pub bcname: String,
    pub initiator: String,
    pub auth_require: Vec<String>,
    pub requests: Vec<InvokeRequest>,
}

/// The pre-execution request handed to the gateway.
#[derive(Clone, Debug)]
pub struct PreExecWithSelectUTXORequest {
    pub bcname: String,
    pub address: String,
    pub total_amount: i64,
    pub request: InvokeRPCRequest,
}

/// A ledger transaction under construction.
#[derive(Clone, Debug)]
pub struct Transaction {
    pub version: i32,
    pub coinbase: bool,
    pub timestamp: i64,
    pub tx_inputs: Vec<TxInput>,
    pub tx_outputs: Vec<TxOutput>,
    pub desc: String,
    pub initiator: String,
    pub nonce: String,
    pub auth_require: Vec<String>,
    pub tx_inputs_ext: Vec<TxInputExt>,
    pub tx_outputs_ext: Vec<TxOutputExt>,
    pub contract_requests: Vec<InvokeRequest>,
    pub initiator_signs: Vec<SignatureInfo>,
    pub auth_require_signs: Vec<SignatureInfo>,
    pub txid: Vec<u8>,
}

pub open spec fn sig_eq(a: SignatureInfo, b: SignatureInfo) -> bool {
    a.public_key@ == b.public_key@ && a.sign@ == b.sign@
}

pub open spec fn in_ext_eq(a: TxInputExt, b: TxInputExt) -> bool {
    a.bucket@ == b.bucket@ && a.key@ == b.key@ && a.ref_txid@ == b.ref_txid@ && a.ref_offset
        == b.ref_offset
}

pub open spec fn out_ext_eq(a: TxOutputExt, b: TxOutputExt) -> bool {
    a.bucket@ == b.bucket@ && a.key@ == b.key@ && a.value@ == b.value@
}

pub open spec fn arg_eq(a: InvokeArg, b: InvokeArg) -> bool {
    a.name@ == b.name@ && a.value@ == b.value@
}

pub open spec fn req_eq(a: InvokeRequest, b: InvokeRequest) -> bool {
    &&& a.module_name@ == b.module_name@
    &&& a.contract_name@ == b.contract_name@
    &&& a.method_name@ == b.method_name@
    &&& a.args@.len() == b.args@.len()
    &&& forall|i: int| 0 <= i < a.args@.len() ==> arg_eq(#[trigger] a.args@[i], b.args@[i])
}

pub open spec fn in_exts_eq(a: Seq<TxInputExt>, b: Seq<TxInputExt>) -> bool {
    a.len() == b.len() && (forall|i: int| 0 <= i < a.len() ==> in_ext_eq(#[trigger] a[i], b[i]))
}

pub open spec fn out_exts_eq(a: Seq<TxOutputExt>, b: Seq<TxOutputExt>) -> bool {
    a.len() == b.len() && (forall|i: int| 0 <= i < a.len() ==> out_ext_eq(#[trigger] a[i], b[i]))
}

pub open spec fn reqs_eq(a: Seq<InvokeRequest>, b: Seq<InvokeRequest>) -> bool {
    a.len() == b.len() && (forall|i: int| 0 <= i < a.len() ==> req_eq(#[trigger] a[i], b[i]))
}

pub fn clone_bytes(v: &Vec<u8>) -> (r: Vec<u8>)
    ensures
        r@ == v@,
{
    let mut r: Vec<u8> = Vec::new();
    let n: usize = v.len();
    let mut i: usize = 0;
    while i < n
        invariant
            n == v@.len(),
            0 <= i <= n,
            r@ == v@.subrange(0, i as int),
        decreases n - i,
    {
        r.push(v[i]);
        proof {
            assert(r@ =~= v@.subrange(0, i as int + 1));
        }
        i += 1;
    }
    proof {
        assert(r@ =~= v@);
    }
    r
}

pub fn clone_strings(v: &Vec<String>) -> (r: Vec<String>)
    ensures
        r@.len() == v@.len(),
        forall|i: int| 0 <= i < v@.len() ==> #[trigger] r@[i]@ == v@[i]@,
{
    let mut r: Vec<String> = Vec::new();
    let n: usize = v.len();
    let mut i: usize = 0;
    while i < n
        invariant
            n == v@.len(),
            0 <= i <= n,
            r@.len() == i,
            forall|j: int| 0 <= j < i ==> #[trigger] r@[j]@ == v@[j]@,
        decreases n - i,
    {
        r.push(v[i].clone());
        i += 1;
    }
    r
}

pub fn clone_in_exts(v: &Vec<TxInputExt>) -> (r: Vec<TxInputExt>)
    ensures
        in_exts_eq(r@, v@),
{
    let mut r: Vec<TxInputExt> = Vec::new();
    let n: usize = v.len();
    let mut i: usize = 0;
    while i < n
        invariant
            n == v@.len(),
            0 <= i <= n,
            r@.len() == i,
            forall|j: int| 0 <= j < i ==> in_ext_eq(#[trigger] r@[j], v@[j]),
        decreases n - i,
    {
        let x = &v[i];
        r.push(TxInputExt {
            bucket: x.bucket.clone(),
            key: clone_bytes(&x.key),
            ref_txid: clone_bytes(&x.ref_txid),
            ref_offset: x.ref_offset,
        });
        i += 1;
    }
    r
}

pub fn clone_out_exts(v: &Vec<TxOutputExt>) -> (r: Vec<TxOutputExt>)
    ensures
        out_exts_eq(r@, v@),
{
    let mut r: Vec<TxOutputExt> = Vec::new();
    let n: usize = v.len();
    let mut i: usize = 0;
    while i < n
        invariant
            n == v@.len(),
            0 <= i <= n,
            r@.len() == i,
            forall|j: int| 0 <= j < i ==> out_ext_eq(#[trigger] r@[j], v@[j]),
        decreases n - i,
    {
        let x = &v[i];
        r.push(TxOutputExt {
            bucket: x.bucket.clone(),
            key: clone_bytes(&x.key),
            value: clone_bytes(&x.value),
        });
        i += 1;
    }
    r
}

pub fn clone_reqs(v: &Vec<InvokeRequest>) -> (r: Vec<InvokeRequest>)
    ensures
        reqs_eq(r@, v@),
{
    let mut r: Vec<InvokeRequest> = Vec::new();
    let n: usize = v.len();
    let mut i: usize = 0;
    while i < n
        invariant
            n == v@.len(),
            0 <= i <= n,
            r@.len() == i,
            forall|j: int| 0 <= j < i ==> req_eq(#[trigger] r@[j], v@[j]),
        decreases n - i,
    {
        let x = &v[i];
        let mut args: Vec<InvokeArg> = Vec::new();
        let m: usize = x.args.len();
        let mut k: usize = 0;
        while k < m
            invariant
                m == x.args@.len(),
                0 <= k <= m,
                args@.len() == k,
                forall|j: int| 0 <= j < k ==> arg_eq(#[trigger] args@[j], x.args@[j]),
            decreases m - k,
        {
            let a = &x.args[k];
            args.push(InvokeArg { name: a.name.clone(), value: clone_bytes(&a.value) });
            k += 1;
        }
        r.push(InvokeRequest {
            module_name: x.module_name.clone(),
            contract_name: x.contract_name.clone(),
            method_name: x.method_name.clone(),
            args,
        });
        i += 1;
    }
    r
}

} // verus!
