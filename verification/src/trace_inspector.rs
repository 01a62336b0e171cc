//! The observer of calls and creations: what it is shown before a
//! sub-operation runs, and the record that it keeps of it.

use vstd::prelude::*;
use crate::encoding::{hex_encode, hex_lower};
use crate::error::ReplayError;
use crate::primitives::{
    address_create, address_create2, create2_address, create_address, keccak256,
    keccak256_digest, Address, B256, U256,
};

verus! {

/// The engine's answer to a call that an observer decides itself. The
/// observer here never builds one.
#[verifier::external_type_specification]
#[verifier::external_body]
pub struct ExCallOutcome(revm::interpreter::CallOutcome);

/// The engine's answer to a creation that an observer decides itself. The
/// observer here never builds one.
#[verifier::external_type_specification]
#[verifier::external_body]
pub struct ExCreateOutcome(revm::interpreter::CreateOutcome);

/// How control passes to another account's code.
#[derive(Clone, Copy, Debug, PartialEq, Eq)]
pub enum CallScheme {
    Call,
    CallCode,
    DelegateCall,
    StaticCall,
    ExtCall,
    ExtDelegateCall,
    ExtStaticCall,
}

/// How the address of a new contract is derived.
#[derive(Clone, Copy, Debug, PartialEq, Eq)]
pub enum CreateScheme {
    Create,
    Create2 { salt: U256 },
}

/// The amount that a call carries: moved to the callee, or only shown to it.
#[derive(Clone, Copy, Debug, PartialEq, Eq)]
pub enum CallValue {
    Transfer(U256),
    Apparent(U256),
}

/// What the engine shows of a call before the callee's code runs.
#[derive(Clone, Debug, PartialEq, Eq)]
pub struct CallInputs {
    pub caller: Address,
    /// The account whose storage and balance the call works on.
    pub target_address: Address,
    /// The account whose code runs.
    pub bytecode_address: Address,
    pub scheme: CallScheme,
    pub value: CallValue,
    pub input: Vec<u8>,
}

/// What the engine shows of a creation before the init code runs.
#[derive(Clone, Debug, PartialEq, Eq)]
pub struct CreateInputs {
    pub caller: Address,
    pub scheme: CreateScheme,
    pub value: U256,
    pub init_code: Vec<u8>,
}

/// One observed call or creation.
#[derive(Clone, Debug, PartialEq, Eq)]
pub struct CallInfo {
    tx_hash: B256,
    from_addr: Address,
    to_addr: Address,
    storage_addr: Address,
    value: U256,
    action: String,
    calldata: String,
}

/// A record as plain values.
pub struct CallInfoView {
    pub tx_hash: Seq<u8>,
    pub from_addr: Seq<u8>,
    pub to_addr: Seq<u8>,
    pub storage_addr: Seq<u8>,
    pub value: Seq<u8>,
    pub action: Seq<char>,
    pub calldata: Seq<char>,
}

impl CallScheme {
    /// The schemes that run another account's code on the caller's own
    /// storage and balance.
    pub open spec fn borrows_storage(self) -> bool {
        self is CallCode || self is DelegateCall || self is ExtDelegateCall
    }

    /// The tag under which a call of this scheme is recorded.
    pub open spec fn tag(self) -> Seq<char> {
        match self {
            CallScheme::Call => "call"@,
            CallScheme::CallCode => "call_code"@,
            CallScheme::DelegateCall => "delegate_call"@,
            CallScheme::StaticCall => "static_call"@,
            CallScheme::ExtCall => "ext_call"@,
            CallScheme::ExtDelegateCall => "ext_delegate_call"@,
            CallScheme::ExtStaticCall => "ext_static_call"@,
        }
    }
}

impl CreateScheme {
    /// The tag under which a creation of this scheme is recorded.
    pub open spec fn tag(self) -> Seq<char> {
        match self {
            CreateScheme::Create => "create"@,
            CreateScheme::Create2 { .. } => "create2"@,
        }
    }
}

impl CallValue {
    /// The amount, whichever way the call carries it.
    pub open spec fn amount(self) -> U256 {
        match self {
            CallValue::Transfer(v) => v,
            CallValue::Apparent(v) => v,
        }
    }
}

impl CallInputs {
    /// What the engine keeps to when it builds the inputs: only a scheme that
    /// borrows storage names a code account other than the target.
    pub open spec fn coherent(&self) -> bool {
        !self.scheme.borrows_storage() ==> self.target_address@ == self.bytecode_address@
    }
}

impl CreateInputs {
    /// The address of the contract that the creation deploys, `nonce` being
    /// the creator's nonce at that moment.
    pub open spec fn created_address_spec(&self, nonce: u64) -> Seq<u8> {
        match self.scheme {
            CreateScheme::Create => create_address(self.caller@, nonce),
            CreateScheme::Create2 { salt } => create2_address(
                self.caller@,
                salt@,
                keccak256_digest(self.init_code@),
            ),
        }
    }

    pub fn created_address(&self, nonce: u64) -> (created: Address)
        ensures
            created@ == self.created_address_spec(nonce),
    {
        match self.scheme {
            CreateScheme::Create => address_create(&self.caller, nonce),
            CreateScheme::Create2 { salt } => {
                let init_code_hash = keccak256(self.init_code.as_slice());
                address_create2(&self.caller, &salt, &init_code_hash)
            },
        }
    }
}

/// The record of a call observed while the transaction `tx_hash` runs.
pub open spec fn call_record(tx_hash: Seq<u8>, inputs: &CallInputs) -> CallInfoView {
    CallInfoView {
        tx_hash,
        from_addr: inputs.caller@,
        to_addr: inputs.bytecode_address@,
        storage_addr: inputs.target_address@,
        value: inputs.value.amount()@,
        action: inputs.scheme.tag(),
        calldata: hex_lower(inputs.input@),
    }
}

/// The record of a creation observed while the transaction `tx_hash` runs,
/// the creator's nonce being `nonce`.
pub open spec fn create_record(tx_hash: Seq<u8>, inputs: &CreateInputs, nonce: u64) -> CallInfoView {
    CallInfoView {
        tx_hash,
        from_addr: inputs.caller@,
        to_addr: inputs.created_address_spec(nonce),
        storage_addr: inputs.created_address_spec(nonce),
        value: inputs.value@,
        action: inputs.scheme.tag(),
        calldata: Seq::empty(),
    }
}

pub fn call_scheme_to_string(scheme: CallScheme) -> (tag: String)
    ensures
        tag@ == scheme.tag(),
{
    match scheme {
        CallScheme::Call => "call",
        CallScheme::CallCode => "call_code",
        CallScheme::DelegateCall => "delegate_call",
        CallScheme::StaticCall => "static_call",
        CallScheme::ExtCall => "ext_call",
        CallScheme::ExtDelegateCall => "ext_delegate_call",
        CallScheme::ExtStaticCall => "ext_static_call",
    }.to_owned()
}

pub fn create_scheme_to_string(scheme: CreateScheme) -> (tag: String)
    ensures
        tag@ == scheme.tag(),
{
    match scheme {
        CreateScheme::Create => "create",
        CreateScheme::Create2 { .. } => "create2",
    }.to_owned()
}

/// A call is recorded with the code account as its to-address and the
/// target as its storage address. Where the inputs are coherent, the two
/// differ only under a scheme that borrows storage.
pub proof fn law_storage_address(tx_hash: Seq<u8>, inputs: CallInputs)
    requires
        inputs.coherent(),
    ensures
        call_record(tx_hash, &inputs).to_addr == inputs.bytecode_address@,
        call_record(tx_hash, &inputs).storage_addr == inputs.target_address@,
        !inputs.scheme.borrows_storage() ==> call_record(tx_hash, &inputs).storage_addr
            == call_record(tx_hash, &inputs).to_addr,
        call_record(tx_hash, &inputs).storage_addr != call_record(tx_hash, &inputs).to_addr
            ==> inputs.scheme.borrows_storage(),
{
}

/// The address of a `CREATE` depends on the creator and its nonce alone:
/// two such creations by one creator at one nonce give one address, whatever
/// else they carry.
pub proof fn law_create_address(a: CreateInputs, b: CreateInputs, nonce: u64)
    requires
        a.scheme is Create,
        b.scheme is Create,
        a.caller@ == b.caller@,
    ensures
        a.created_address_spec(nonce) == b.created_address_spec(nonce),
        a.created_address_spec(nonce) == create_address(a.caller@, nonce),
{
}

/// The address of a `CREATE2` depends on the creator, the salt and the digest
/// of the init code alone, and not on the nonce.
pub proof fn law_create2_address(a: CreateInputs, b: CreateInputs, nonce_a: u64, nonce_b: u64)
    requires
        a.scheme is Create2,
        b.scheme is Create2,
        a.caller@ == b.caller@,
        a.scheme->salt@ == b.scheme->salt@,
        keccak256_digest(a.init_code@) == keccak256_digest(b.init_code@),
    ensures
        a.created_address_spec(nonce_a) == b.created_address_spec(nonce_b),
        a.created_address_spec(nonce_a) == create2_address(
            a.caller@,
            a.scheme->salt@,
            keccak256_digest(a.init_code@),
        ),
{
}

impl View for CallInfo {
    type V = CallInfoView;

    closed spec fn view(&self) -> CallInfoView {
        CallInfoView {
            tx_hash: self.tx_hash@,
            from_addr: self.from_addr@,
            to_addr: self.to_addr@,
            storage_addr: self.storage_addr@,
            value: self.value@,
            action: self.action@,
            calldata: self.calldata@,
        }
    }
}

impl CallInfo {
    pub fn tx_hash(&self) -> (hash: B256)
        ensures
            hash@ == self@.tx_hash,
    {
        self.tx_hash
    }

    pub fn from_addr(&self) -> (address: Address)
        ensures
            address@ == self@.from_addr,
    {
        self.from_addr
    }

    pub fn to_addr(&self) -> (address: Address)
        ensures
            address@ == self@.to_addr,
    {
        self.to_addr
    }

    pub fn storage_addr(&self) -> (address: Address)
        ensures
            address@ == self@.storage_addr,
    {
        self.storage_addr
    }

    pub fn value(&self) -> (amount: U256)
        ensures
            amount@ == self@.value,
    {
        self.value
    }

    pub fn action(&self) -> (tag: &String)
        ensures
            tag@ == self@.action,
    {
        &self.action
    }

    pub fn calldata(&self) -> (text: &String)
        ensures
            text@ == self@.calldata,
    {
        &self.calldata
    }
}

/// The records of a list, each as plain values.
pub open spec fn records(infos: Seq<CallInfo>) -> Seq<CallInfoView> {
    infos.map_values(|info: CallInfo| info@)
}

/// The observer: the records so far, and the transaction that it tags new
/// records with.
#[derive(Debug)]
pub struct TraceInspector {
    traces: Vec<CallInfo>,
    cur_tx_hash: B256,
}

/// An observer as plain values.
pub struct TraceInspectorView {
    pub traces: Seq<CallInfoView>,
    pub cur_tx_hash: Seq<u8>,
}

impl TraceInspectorView {
    /// The observer before it has seen anything.
    pub open spec fn initial() -> TraceInspectorView {
        TraceInspectorView { traces: Seq::empty(), cur_tx_hash: Seq::new(32, |i: int| 0u8) }
    }

    pub open spec fn after_set_tx(self, hash: Seq<u8>) -> TraceInspectorView {
        TraceInspectorView { cur_tx_hash: hash, ..self }
    }

    pub open spec fn after_call(self, inputs: &CallInputs) -> TraceInspectorView {
        TraceInspectorView { traces: self.traces.push(call_record(self.cur_tx_hash, inputs)), ..self }
    }

    pub open spec fn after_create(self, inputs: &CreateInputs, nonce: u64) -> TraceInspectorView {
        TraceInspectorView {
            traces: self.traces.push(create_record(self.cur_tx_hash, inputs, nonce)),
            ..self
        }
    }
}

impl View for TraceInspector {
    type V = TraceInspectorView;

    closed spec fn view(&self) -> TraceInspectorView {
        TraceInspectorView { traces: records(self.traces@), cur_tx_hash: self.cur_tx_hash@ }
    }
}

/// What the replay asks of an observer between two transactions.
pub trait InspectorHelper {
    /// Names the transaction that is about to run.
    fn set_tx(&mut self, hash: B256);
}

impl InspectorHelper for TraceInspector {
    fn set_tx(&mut self, hash: B256)
        ensures
            final(self)@ == old(self)@.after_set_tx(hash@),
    {
        self.cur_tx_hash = hash;
    }
}

impl Default for TraceInspector {
    fn default() -> (inspector: TraceInspector)
        ensures
            inspector@ == TraceInspectorView::initial(),
    {
        let inspector = TraceInspector { traces: Vec::new(), cur_tx_hash: B256 { bytes: [0u8; 32] } };
        assert(inspector@.traces =~= Seq::empty());
        assert(inspector@.cur_tx_hash =~= Seq::new(32, |i: int| 0u8));
        inspector
    }
}

impl TraceInspector {
    /// Records a call that is about to run, and leaves the call to the
    /// engine.
    pub fn call(&mut self, inputs: &CallInputs) -> (outcome: Option<revm::interpreter::CallOutcome>)
        ensures
            outcome is None,
            final(self)@ == old(self)@.after_call(inputs),
    {
        let value = match inputs.value {
            CallValue::Transfer(v) => v,
            CallValue::Apparent(v) => v,
        };
        let trace = CallInfo {
            tx_hash: self.cur_tx_hash,
            from_addr: inputs.caller,
            storage_addr: inputs.target_address,
            to_addr: inputs.bytecode_address,
            action: call_scheme_to_string(inputs.scheme),
            value,
            calldata: hex_encode(inputs.input.as_slice()),
        };
        assert(trace@ == call_record(old(self)@.cur_tx_hash, inputs));
        self.traces.push(trace);
        assert(self@.traces =~= old(self)@.traces.push(trace@));
        None
    }

    /// Records a creation that is about to run, and leaves the creation to
    /// the engine. `nonce` is the creator's nonce as the running execution
    /// holds it, or `None` where the account could not be read: then nothing
    /// is recorded.
    pub fn create(&mut self, inputs: &CreateInputs, nonce: Option<u64>) -> (outcome: Result<
        Option<revm::interpreter::CreateOutcome>,
        ReplayError,
    >)
        ensures
            match nonce {
                Some(n) => outcome == Ok::<Option<revm::interpreter::CreateOutcome>, ReplayError>(None)
                    && final(self)@ == old(self)@.after_create(inputs, n),
                None => outcome == Err::<Option<revm::interpreter::CreateOutcome>, ReplayError>(
                    ReplayError::AccountLookup,
                ) && final(self)@ == old(self)@,
            },
    {
        let nonce = match nonce {
            Some(n) => n,
            None => {
                return Err(ReplayError::AccountLookup);
            },
        };
        let contract_addr = inputs.created_address(nonce);
        let trace = CallInfo {
            tx_hash: self.cur_tx_hash,
            from_addr: inputs.caller,
            to_addr: contract_addr,
            storage_addr: contract_addr,
            action: create_scheme_to_string(inputs.scheme),
            value: inputs.value,
            calldata: String::new(),
        };
        assert(trace@ == create_record(old(self)@.cur_tx_hash, inputs, nonce));
        self.traces.push(trace);
        assert(self@.traces =~= old(self)@.traces.push(trace@));
        Ok(None)
    }

    /// The records so far, in the order in which they were made.
    pub fn traces(&self) -> (list: &Vec<CallInfo>)
        ensures
            records(list@) == self@.traces,
    {
        &self.traces
    }

    /// Gives up the observer for its records.
    pub fn into_traces(self) -> (list: Vec<CallInfo>)
        ensures
            records(list@) == self@.traces,
    {
        self.traces
    }
}

} // verus!
