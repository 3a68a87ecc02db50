use evm_result::bigint::BigInt;
use evm_result::buffer::ByteBuffer;
use evm_result::engine;
use evm_result::result::{
    Either, Either3, ExceptionalHalt, ExecutionResult, SuccessReason,
};

#[test]
fn success_call_scenario() {
    let return_value = vec![0xde, 0xad, 0xbe, 0xef];
    let result = engine::ExecutionResult::Success {
        reason: engine::SuccessReason::Return,
        gas_used: 21000,
        gas_refunded: 0,
        logs: vec![],
        output: engine::Output::Call(ByteBuffer::from_vec(return_value.clone())),
    };
    assert!(result.well_formed());
    let mapped = ExecutionResult::new(result);
    match mapped.result {
        Either3::A(success) => {
            assert_eq!(success.reason, SuccessReason::Return);
            assert_eq!(success.gas_used, BigInt::from_u64(21000));
            assert_eq!(success.gas_refunded, BigInt::from_u64(0));
            assert_eq!(success.logs.len(), 0);
            match success.output {
                Either::A(call) => {
                    assert_eq!(call.return_value.len(), return_value.len());
                    assert_eq!(call.return_value.as_bytes(), &return_value);
                    assert!(!call.return_value.released());
                }
                Either::B(_) => panic!("expected call output"),
            }
        }
        _ => panic!("expected success"),
    }
}

#[test]
fn halt_scenario_spends_the_gas_limit() {
    let gas_limit: u64 = 30_000_000;
    let result = engine::ExecutionResult::Halt {
        reason: engine::HaltReason::OutOfGas(engine::OutOfGasError::Basic),
        gas_used: gas_limit,
    };
    assert!(result.well_formed());
    let mapped = ExecutionResult::new(result);
    match mapped.result {
        Either3::C(halt) => {
            assert_eq!(halt.reason, ExceptionalHalt::OutOfGas);
            assert_eq!(halt.gas_used, BigInt::from_u64(gas_limit));
        }
        _ => panic!("expected halt"),
    }
}

#[test]
fn revert_scenario_keeps_the_output_bytes() {
    // An ABI error payload starts with the selector 0x08c379a0.
    let output = vec![0x08, 0xc3, 0x79, 0xa0, 0x00, 0x01, 0x02, 0x03];
    let result = engine::ExecutionResult::Revert {
        gas_used: 50000,
        output: ByteBuffer::from_vec(output.clone()),
    };
    assert!(result.well_formed());
    let mapped = ExecutionResult::new(result);
    match mapped.result {
        Either3::B(revert) => {
            assert_eq!(revert.gas_used, BigInt::from_u64(50000));
            assert_eq!(revert.output.as_bytes(), &output);
            assert!(!revert.output.released());
        }
        _ => panic!("expected revert"),
    }
}

#[test]
fn create_with_address_keeps_its_twenty_bytes() {
    let address = vec![0x11; 20];
    let result = engine::ExecutionResult::Success {
        reason: engine::SuccessReason::Return,
        gas_used: 53000,
        gas_refunded: 0,
        logs: vec![],
        output: engine::Output::Create(
            ByteBuffer::from_vec(vec![0x60, 0x80]),
            Some(address.clone()),
        ),
    };
    assert!(result.well_formed());
    let mapped = ExecutionResult::new(result);
    match mapped.result {
        Either3::A(success) => match success.output {
            Either::B(create) => {
                let mapped_address = create.address.expect("address must be present");
                assert_eq!(mapped_address.len(), 20);
                assert_eq!(mapped_address, address);
            }
            Either::A(_) => panic!("expected create output"),
        },
        _ => panic!("expected success"),
    }
}

#[test]
fn create_without_address_stays_absent() {
    let result = engine::ExecutionResult::Success {
        reason: engine::SuccessReason::Stop,
        gas_used: 53000,
        gas_refunded: 100,
        logs: vec![],
        output: engine::Output::Create(ByteBuffer::from_vec(vec![]), None),
    };
    assert!(result.well_formed());
    let mapped = ExecutionResult::new(result);
    match mapped.result {
        Either3::A(success) => match success.output {
            Either::B(create) => assert!(create.address.is_none()),
            Either::A(_) => panic!("expected create output"),
        },
        _ => panic!("expected success"),
    }
}

#[test]
fn logs_keep_their_emission_order() {
    let payloads = [vec![1u8], vec![2, 2], vec![3, 3, 3]];
    let logs = payloads
        .iter()
        .map(|p| engine::Log { data: ByteBuffer::from_vec(p.clone()) })
        .collect();
    let result = engine::ExecutionResult::Success {
        reason: engine::SuccessReason::Stop,
        gas_used: 40000,
        gas_refunded: 0,
        logs,
        output: engine::Output::Call(ByteBuffer::from_vec(vec![])),
    };
    assert!(result.well_formed());
    let mapped = ExecutionResult::new(result);
    match mapped.result {
        Either3::A(success) => {
            assert_eq!(success.logs.len(), 3);
            for i in 0..3 {
                assert_eq!(success.logs[i].data.as_bytes(), &payloads[i]);
                assert!(!success.logs[i].data.released());
            }
        }
        _ => panic!("expected success"),
    }
}

#[test]
fn gas_fields_keep_full_machine_word_precision() {
    let result = engine::ExecutionResult::Success {
        reason: engine::SuccessReason::SelfDestruct,
        gas_used: u64::MAX,
        gas_refunded: u64::MAX - 1,
        logs: vec![],
        output: engine::Output::Call(ByteBuffer::from_vec(vec![])),
    };
    assert!(result.well_formed());
    let mapped = ExecutionResult::new(result);
    match mapped.result {
        Either3::A(success) => {
            assert_eq!(success.gas_used, BigInt::from_u64(u64::MAX));
            assert_eq!(success.gas_used.w0, u64::MAX);
            assert_eq!(success.gas_used.w1, 0);
            assert_eq!(success.gas_refunded, BigInt::from_u64(u64::MAX - 1));
        }
        _ => panic!("expected success"),
    }
}

#[test]
fn bigint_reaches_the_largest_value() {
    let largest = BigInt::from_words(u64::MAX, u64::MAX, u64::MAX, u64::MAX);
    assert_eq!(largest.w0, u64::MAX);
    assert_eq!(largest.w1, u64::MAX);
    assert_eq!(largest.w2, u64::MAX);
    assert_eq!(largest.w3, u64::MAX);
    assert_ne!(largest, BigInt::from_words(u64::MAX, u64::MAX, u64::MAX, u64::MAX - 1));
}

#[test]
fn bigint_embeds_machine_words_in_the_low_word() {
    let value = BigInt::from_u64(21000);
    assert_eq!(value.w0, 21000);
    assert_eq!(value.w1, 0);
    assert_eq!(value.w2, 0);
    assert_eq!(value.w3, 0);
    assert_eq!(value, BigInt::from_words(21000, 0, 0, 0));
}
