use block_tracer::error::ReplayError;
use block_tracer::primitives::{Address, B256, U256};
use block_tracer::trace_inspector::{
    call_scheme_to_string, create_scheme_to_string, CallInputs, CallScheme, CallValue,
    CreateInputs, CreateScheme, InspectorHelper, TraceInspector,
};

fn address(text: &str) -> Address {
    let bytes: [u8; 20] = hex::decode(text).unwrap().try_into().unwrap();
    Address { bytes }
}

fn word(text: &str) -> [u8; 32] {
    hex::decode(text).unwrap().try_into().unwrap()
}

fn amount(value: u64) -> U256 {
    let mut bytes = [0u8; 32];
    bytes[24..].copy_from_slice(&value.to_be_bytes());
    U256 { bytes }
}

fn call_inputs(scheme: CallScheme, value: CallValue, input: Vec<u8>) -> CallInputs {
    CallInputs {
        caller: address("1111111111111111111111111111111111111111"),
        target_address: address("2222222222222222222222222222222222222222"),
        bytecode_address: address("3333333333333333333333333333333333333333"),
        scheme,
        value,
        input,
    }
}

#[test]
fn call_scheme_tags() {
    assert_eq!(call_scheme_to_string(CallScheme::Call), "call");
    assert_eq!(call_scheme_to_string(CallScheme::CallCode), "call_code");
    assert_eq!(call_scheme_to_string(CallScheme::DelegateCall), "delegate_call");
    assert_eq!(call_scheme_to_string(CallScheme::StaticCall), "static_call");
    assert_eq!(call_scheme_to_string(CallScheme::ExtCall), "ext_call");
    assert_eq!(call_scheme_to_string(CallScheme::ExtDelegateCall), "ext_delegate_call");
    assert_eq!(call_scheme_to_string(CallScheme::ExtStaticCall), "ext_static_call");
}

#[test]
fn create_scheme_tags() {
    assert_eq!(create_scheme_to_string(CreateScheme::Create), "create");
    assert_eq!(create_scheme_to_string(CreateScheme::Create2 { salt: amount(9) }), "create2");
}

#[test]
fn a_new_inspector_is_empty() {
    let inspector = TraceInspector::default();
    assert!(inspector.traces().is_empty());
    assert!(inspector.into_traces().is_empty());
}

#[test]
fn call_is_recorded_and_left_to_the_engine() {
    let mut inspector = TraceInspector::default();
    let hash = B256 { bytes: [0xabu8; 32] };
    inspector.set_tx(hash);
    let inputs = call_inputs(
        CallScheme::DelegateCall,
        CallValue::Apparent(amount(77)),
        vec![1, 2, 3, 15, 16],
    );
    let outcome = inspector.call(&inputs);
    assert!(outcome.is_none());

    let traces = inspector.into_traces();
    assert_eq!(traces.len(), 1);
    let record = &traces[0];
    assert_eq!(record.tx_hash(), hash);
    assert_eq!(record.from_addr(), inputs.caller);
    assert_eq!(record.to_addr(), inputs.bytecode_address);
    assert_eq!(record.storage_addr(), inputs.target_address);
    assert_eq!(record.value(), amount(77));
    assert_eq!(record.action(), "delegate_call");
    assert_eq!(record.calldata(), "0102030f10");
}

#[test]
fn transferred_value_is_recorded() {
    let mut inspector = TraceInspector::default();
    let inputs = call_inputs(CallScheme::Call, CallValue::Transfer(amount(5)), vec![]);
    inspector.call(&inputs);
    let traces = inspector.into_traces();
    assert_eq!(traces[0].value(), amount(5));
    assert_eq!(traces[0].action(), "call");
}

#[test]
fn calldata_is_lower_case_hex_without_prefix() {
    let mut inspector = TraceInspector::default();
    inspector.call(&call_inputs(CallScheme::Call, CallValue::Transfer(amount(0)), vec![]));
    inspector.call(&call_inputs(
        CallScheme::StaticCall,
        CallValue::Transfer(amount(0)),
        vec![0x00, 0xff, 0xa9, 0x05, 0x9c, 0xbb],
    ));
    inspector.call(&call_inputs(
        CallScheme::Call,
        CallValue::Transfer(amount(0)),
        "Hello world!".as_bytes().to_vec(),
    ));
    let traces = inspector.into_traces();
    assert_eq!(traces[0].calldata(), "");
    assert_eq!(traces[1].calldata(), "00ffa9059cbb");
    assert_eq!(traces[2].calldata(), "48656c6c6f20776f726c6421");
}

#[test]
fn storage_address_is_the_to_address_of_an_ordinary_call() {
    let target = address("4444444444444444444444444444444444444444");
    for scheme in [CallScheme::Call, CallScheme::StaticCall, CallScheme::ExtCall, CallScheme::ExtStaticCall] {
        let mut inspector = TraceInspector::default();
        let inputs = CallInputs {
            caller: address("1111111111111111111111111111111111111111"),
            target_address: target,
            bytecode_address: target,
            scheme,
            value: CallValue::Transfer(amount(1)),
            input: vec![],
        };
        inspector.call(&inputs);
        let traces = inspector.into_traces();
        assert_eq!(traces[0].storage_addr(), traces[0].to_addr());
        assert_eq!(traces[0].to_addr(), target);
    }
}

#[test]
fn storage_address_of_a_delegate_call_is_the_context() {
    let context = address("5555555555555555555555555555555555555555");
    let code = address("6666666666666666666666666666666666666666");
    for scheme in [CallScheme::CallCode, CallScheme::DelegateCall, CallScheme::ExtDelegateCall] {
        let mut inspector = TraceInspector::default();
        let inputs = CallInputs {
            caller: context,
            target_address: context,
            bytecode_address: code,
            scheme,
            value: CallValue::Apparent(amount(1)),
            input: vec![],
        };
        inspector.call(&inputs);
        let traces = inspector.into_traces();
        assert_eq!(traces[0].to_addr(), code);
        assert_eq!(traces[0].storage_addr(), context);
        assert_ne!(traces[0].storage_addr(), traces[0].to_addr());
    }
}

#[test]
fn create_address_of_known_senders() {
    let sender = address("b20a608c624ca5003905aa834de7156c68b2e1d0");
    let inputs = CreateInputs {
        caller: sender,
        scheme: CreateScheme::Create,
        value: amount(0),
        init_code: vec![0x60, 0x00],
    };
    assert_eq!(inputs.created_address(0), address("00000000219ab540356cbb839cbe05303d7705fa"));
    assert_eq!(inputs.created_address(1), address("e33c6e89e69d085897f98e92b06ebd541d1daa99"));
}

#[test]
fn create2_address_of_known_senders() {
    let inputs = CreateInputs {
        caller: address("8ba1f109551bd432803012645ac136ddd64dba72"),
        scheme: CreateScheme::Create2 {
            salt: U256 { bytes: word("7c5ea36004851c764c44143b1dcb59679b11c9a68e5f41497f6cf3d480715331") },
        },
        value: amount(0),
        init_code: hex::decode("6394198df16000526103ff60206004601c335afa6040516060f3").unwrap(),
    };
    assert_eq!(inputs.created_address(0), address("533ae9d683b10c02ebdb05471642f85230071fc3"));

    // The first example of EIP-1014.
    let zero = CreateInputs {
        caller: address("0000000000000000000000000000000000000000"),
        scheme: CreateScheme::Create2 { salt: amount(0) },
        value: amount(0),
        init_code: vec![0x00],
    };
    assert_eq!(zero.created_address(0), address("4d1a2e2bb4f88f0250f26ffff098b0b30b26bf38"));
}

#[test]
fn created_address_agrees_with_the_engine() {
    let caller = address("6ac7ea33f8831ea9dcc53393aaa88b25a785dbf0");
    let salt = U256 { bytes: word("00000000000000000000000000000000000000000000000000000000cafebabe") };
    let init_code = vec![0xde, 0xad, 0xbe, 0xef];
    for (scheme, theirs) in [
        (CreateScheme::Create, revm::context::CreateScheme::Create),
        (
            CreateScheme::Create2 { salt },
            revm::context::CreateScheme::Create2 {
                salt: revm::primitives::U256::from_be_bytes(salt.bytes),
            },
        ),
    ] {
        let ours = CreateInputs { caller, scheme, value: amount(3), init_code: init_code.clone() };
        let engine = revm::interpreter::CreateInputs {
            caller: revm::primitives::Address::new(caller.bytes),
            scheme: theirs,
            value: revm::primitives::U256::from(3u64),
            init_code: revm::primitives::Bytes::from(init_code.clone()),
            gas_limit: 1_000_000,
        };
        for nonce in [0u64, 1, 127, 128, 255, 256, u64::MAX] {
            assert_eq!(ours.created_address(nonce).bytes, engine.created_address(nonce).into_array());
        }
    }
}

#[test]
fn create_address_is_the_tail_of_the_digest_of_the_list() {
    // The list of the sender and the nonce, written out by hand.
    let sender = "6ac7ea33f8831ea9dcc53393aaa88b25a785dbf0";
    for (nonce, list) in [
        (0u64, format!("d694{sender}80")),
        (1, format!("d694{sender}01")),
        (0x7f, format!("d694{sender}7f")),
        (0x80, format!("d794{sender}8180")),
        (0x0100, format!("d894{sender}820100")),
        (u64::MAX, format!("de94{sender}88ffffffffffffffff")),
    ] {
        let digest = revm::primitives::keccak256(hex::decode(list).unwrap());
        let inputs = CreateInputs {
            caller: address(sender),
            scheme: CreateScheme::Create,
            value: amount(0),
            init_code: vec![],
        };
        assert_eq!(inputs.created_address(nonce).bytes[..], digest.0[12..]);
    }
}

#[test]
fn create2_address_is_the_tail_of_the_digest_of_the_parts() {
    let sender = "8ba1f109551bd432803012645ac136ddd64dba72";
    let salt = "7c5ea36004851c764c44143b1dcb59679b11c9a68e5f41497f6cf3d480715331";
    let init_code = hex::decode("6394198df16000526103ff60206004601c335afa6040516060f3").unwrap();
    let code_hash = hex::encode(revm::primitives::keccak256(&init_code).0);
    let digest =
        revm::primitives::keccak256(hex::decode(format!("ff{sender}{salt}{code_hash}")).unwrap());
    let inputs = CreateInputs {
        caller: address(sender),
        scheme: CreateScheme::Create2 { salt: U256 { bytes: word(salt) } },
        value: amount(0),
        init_code,
    };
    assert_eq!(inputs.created_address(5).bytes[..], digest.0[12..]);
}

#[test]
fn create_address_depends_on_creator_and_nonce_alone() {
    let caller = address("6ac7ea33f8831ea9dcc53393aaa88b25a785dbf0");
    let a = CreateInputs { caller, scheme: CreateScheme::Create, value: amount(1), init_code: vec![1, 2, 3] };
    let b = CreateInputs { caller, scheme: CreateScheme::Create, value: amount(900), init_code: vec![] };
    assert_eq!(a.created_address(7), b.created_address(7));
    assert_ne!(a.created_address(7), a.created_address(8));
    let other = CreateInputs {
        caller: address("6ac7ea33f8831ea9dcc53393aaa88b25a785dbf1"),
        scheme: CreateScheme::Create,
        value: amount(1),
        init_code: vec![1, 2, 3],
    };
    assert_ne!(a.created_address(7), other.created_address(7));
}

#[test]
fn create2_address_does_not_vary_with_the_nonce() {
    let caller = address("6ac7ea33f8831ea9dcc53393aaa88b25a785dbf0");
    let inputs = CreateInputs {
        caller,
        scheme: CreateScheme::Create2 { salt: amount(42) },
        value: amount(0),
        init_code: vec![0x60, 0x80, 0x60, 0x40],
    };
    let first = inputs.created_address(0);
    assert_eq!(inputs.created_address(1), first);
    assert_eq!(inputs.created_address(u64::MAX), first);

    let other_salt = CreateInputs { scheme: CreateScheme::Create2 { salt: amount(43) }, ..inputs.clone() };
    assert_ne!(other_salt.created_address(0), first);
    let other_code = CreateInputs { init_code: vec![0x60, 0x80, 0x60, 0x41], ..inputs.clone() };
    assert_ne!(other_code.created_address(0), first);
}

#[test]
fn creation_is_recorded_and_left_to_the_engine() {
    let mut inspector = TraceInspector::default();
    let hash = B256 { bytes: [0x11u8; 32] };
    inspector.set_tx(hash);
    let inputs = CreateInputs {
        caller: address("b20a608c624ca5003905aa834de7156c68b2e1d0"),
        scheme: CreateScheme::Create,
        value: amount(1_000),
        init_code: vec![0x60, 0x00, 0x60, 0x00, 0xf3],
    };
    let outcome = inspector.create(&inputs, Some(1));
    assert_eq!(outcome, Ok(None));

    let traces = inspector.into_traces();
    assert_eq!(traces.len(), 1);
    let created = address("e33c6e89e69d085897f98e92b06ebd541d1daa99");
    assert_eq!(traces[0].tx_hash(), hash);
    assert_eq!(traces[0].from_addr(), inputs.caller);
    assert_eq!(traces[0].to_addr(), created);
    assert_eq!(traces[0].storage_addr(), created);
    assert_eq!(traces[0].value(), amount(1_000));
    assert_eq!(traces[0].action(), "create");
    assert_eq!(traces[0].calldata(), "");
}

#[test]
fn creation_without_the_creators_account_is_an_error() {
    let mut inspector = TraceInspector::default();
    let call = call_inputs(CallScheme::Call, CallValue::Transfer(amount(0)), vec![]);
    inspector.call(&call);
    for scheme in [CreateScheme::Create, CreateScheme::Create2 { salt: amount(1) }] {
        let inputs = CreateInputs {
            caller: address("b20a608c624ca5003905aa834de7156c68b2e1d0"),
            scheme,
            value: amount(0),
            init_code: vec![],
        };
        assert_eq!(inspector.create(&inputs, None), Err(ReplayError::AccountLookup));
    }
    assert_eq!(inspector.traces().len(), 1);
}

#[test]
fn records_carry_the_transaction_set_before_them() {
    let mut inspector = TraceInspector::default();
    let first = B256 { bytes: [1u8; 32] };
    let second = B256 { bytes: [2u8; 32] };
    let call = call_inputs(CallScheme::Call, CallValue::Transfer(amount(0)), vec![0xaa]);

    inspector.call(&call);
    inspector.set_tx(first);
    inspector.call(&call);
    inspector.call(&call);
    inspector.set_tx(second);
    inspector.call(&call);

    let traces = inspector.traces();
    assert_eq!(traces.len(), 4);
    assert_eq!(traces[0].tx_hash(), B256 { bytes: [0u8; 32] });
    assert_eq!(traces[1].tx_hash(), first);
    assert_eq!(traces[2].tx_hash(), first);
    assert_eq!(traces[3].tx_hash(), second);
}
