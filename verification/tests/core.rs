//! End-to-end checks of the structuring core: classification, flattening,
//! the tree builder's log attribution, and the account-state replay.

use solstream::builder::StructureError;
use solstream::instruction::CompiledInstruction;
use solstream::instruction::InnerInstruction;
use solstream::instruction::InnerInstructions;
use solstream::log::Log;
use solstream::pubkey::Pubkey;
use solstream::spl_token::token_program_id;
use solstream::transaction::ConfirmedTransaction;
use solstream::transaction::TokenBalance;
use solstream::transaction::TransactionContext;
use solstream::transaction::get_signature;
use solstream::transaction::get_structured_instructions;

fn compiled(pid: u32, accounts: Vec<u8>, data: Vec<u8>) -> CompiledInstruction {
    CompiledInstruction { program_id_index: pid, accounts, data }
}

fn inner(pid: u32, accounts: Vec<u8>, data: Vec<u8>, depth: u32) -> InnerInstruction {
    InnerInstruction { program_id_index: pid, accounts, data, stack_height: Some(depth) }
}

fn tx(
    accounts: Vec<Vec<u8>>,
    instructions: Vec<CompiledInstruction>,
    inner_instructions: Vec<InnerInstructions>,
    log_messages: Vec<String>,
) -> ConfirmedTransaction {
    ConfirmedTransaction {
        signatures: vec![vec![9u8; 64]],
        accounts,
        instructions,
        inner_instructions,
        log_messages,
        pre_token_balances: vec![],
        failed: false,
    }
}

#[test]
fn classifies_each_log_shape() {
    let lines = [
        ("Program log: hello world", "program"),
        ("Program data: AQID", "data"),
        ("Program return: SomeProg AQID", "return"),
        ("Program SomeProg invoke [1]", "invoke"),
        ("Program SomeProg success", "success"),
        ("Transaction fee: 5000", "unknown"),
    ];
    for (line, kind) in lines.iter() {
        let log = Log::new(&line.to_string());
        let got = match log {
            Log::Program(_) => "program",
            Log::Data(_) => "data",
            Log::Return(_) => "return",
            Log::Invoke(_) => "invoke",
            Log::Success(_) => "success",
            Log::Unknown(_) => "unknown",
        };
        assert_eq!(got, *kind, "line {line}");
    }
}

#[test]
fn classifier_precedence_keeps_prefixed_lines() {
    // four tokens with `invoke` third, but the prefix wins
    let log = Log::new(&"Program log: invoke [1]".to_string());
    assert!(log.is_program());
    // four tokens, third is not `invoke`
    let log = Log::new(&"Program X invokes [1]".to_string());
    assert!(log.is_unknown());
    // success needs exactly three tokens
    let log = Log::new(&"Program X Y success".to_string());
    assert!(log.is_unknown());
}

#[test]
fn extracts_log_fields() {
    match Log::new(&"Program log: fee was 3".to_string()) {
        Log::Program(p) => assert_eq!(p.message().unwrap(), "fee was 3"),
        _ => panic!("misclassified"),
    }
    match Log::new(&"Program Tok9 invoke [2]".to_string()) {
        Log::Invoke(i) => {
            assert_eq!(i.program_id().unwrap(), "Tok9");
            assert_eq!(i.invoke_depth().unwrap(), 2);
        },
        _ => panic!("misclassified"),
    }
    match Log::new(&"Program Tok9 success".to_string()) {
        Log::Success(s) => assert_eq!(s.program_id().unwrap(), "Tok9"),
        _ => panic!("misclassified"),
    }
    // `AQID` is base64 for the bytes 1, 2, 3
    match Log::new(&"Program data: AQID".to_string()) {
        Log::Data(d) => assert_eq!(d.data().unwrap(), vec![1u8, 2, 3]),
        _ => panic!("misclassified"),
    }
    match Log::new(&"Program return: Tok9 AQID".to_string()) {
        Log::Return(r) => {
            assert_eq!(r.program_id().unwrap(), "Tok9");
            assert_eq!(r.data().unwrap(), vec![1u8, 2, 3]);
        },
        _ => panic!("misclassified"),
    }
    match Log::new(&"Program data: !!!".to_string()) {
        Log::Data(d) => assert!(d.data().is_err()),
        _ => panic!("misclassified"),
    }
}

#[test]
fn invoke_depth_rejects_oversized_and_misshapen_depths() {
    match Log::new(&"Program X invoke [99999999999]".to_string()) {
        Log::Invoke(i) => assert!(i.invoke_depth().is_err()),
        _ => panic!("misclassified"),
    }
    match Log::new(&"Program X invoke [12)".to_string()) {
        Log::Invoke(i) => assert!(i.invoke_depth().is_err()),
        _ => panic!("misclassified"),
    }
}

#[test]
fn one_root_with_invoke_success_pair() {
    // one top-level instruction, no inner instructions, one invoke/success pair
    let t = tx(
        vec![vec![1u8; 32]],
        vec![compiled(0, vec![], vec![])],
        vec![],
        vec!["Program A invoke [1]".to_string(), "Program A success".to_string()],
    );
    let forest = get_structured_instructions(&t).unwrap();
    assert_eq!(forest.roots.len(), 1);
    assert_eq!(forest.nodes.len(), 1);
    let root = &forest.nodes[forest.roots[0]];
    assert_eq!(root.inner_instructions.len(), 0);
    assert_eq!(root.logs.len(), 2);
    assert!(root.parent_instruction.is_none());
}

#[test]
fn nested_invocation_owns_its_log_slice() {
    // a top-level instruction invokes a nested program that logs once
    let t = tx(
        vec![vec![1u8; 32], vec![2u8; 32]],
        vec![compiled(0, vec![], vec![])],
        vec![InnerInstructions { index: 0, instructions: vec![inner(1, vec![], vec![], 2)] }],
        vec![
            "Program A invoke [1]".to_string(),
            "Program B invoke [2]".to_string(),
            "Program log: inside".to_string(),
            "Program B success".to_string(),
            "Program A success".to_string(),
        ],
    );
    let forest = get_structured_instructions(&t).unwrap();
    assert_eq!(forest.roots.len(), 1);
    let root = &forest.nodes[forest.roots[0]];
    assert_eq!(root.inner_instructions.len(), 1);
    assert_eq!(root.logs.len(), 2, "root keeps its own invoke and success");
    let child = &forest.nodes[root.inner_instructions[0]];
    assert_eq!(child.logs.len(), 3, "child keeps invoke, message and success");
    assert_eq!(child.parent_instruction, Some(forest.roots[0]));
    assert_eq!(child.program_id, vec![2u8; 32]);
}

#[test]
fn roots_reproduce_top_level_order() {
    let t = tx(
        vec![vec![1u8; 32], vec![2u8; 32], vec![3u8; 32]],
        vec![
            compiled(0, vec![1], vec![10]),
            compiled(1, vec![2], vec![20]),
            compiled(2, vec![0], vec![30]),
        ],
        vec![InnerInstructions { index: 1, instructions: vec![inner(0, vec![], vec![], 2)] }],
        vec![],
    );
    let forest = get_structured_instructions(&t).unwrap();
    assert_eq!(forest.roots.len(), 3);
    assert_eq!(forest.nodes[forest.roots[0]].data, vec![10]);
    assert_eq!(forest.nodes[forest.roots[1]].data, vec![20]);
    assert_eq!(forest.nodes[forest.roots[2]].data, vec![30]);
    assert_eq!(forest.nodes[forest.roots[1]].inner_instructions.len(), 1);
}

#[test]
fn no_log_line_dropped_or_duplicated() {
    // every line of the transaction log lands in exactly one node
    let lines = vec![
        "Program A invoke [1]".to_string(),
        "Program log: one".to_string(),
        "Program B invoke [2]".to_string(),
        "Program log: two".to_string(),
        "Program B success".to_string(),
        "Program log: three".to_string(),
        "Program A success".to_string(),
    ];
    let t = tx(
        vec![vec![1u8; 32], vec![2u8; 32]],
        vec![compiled(0, vec![], vec![])],
        vec![InnerInstructions { index: 0, instructions: vec![inner(1, vec![], vec![], 2)] }],
        lines.clone(),
    );
    let forest = get_structured_instructions(&t).unwrap();
    let mut collected: Vec<String> = Vec::new();
    for node in forest.nodes.iter() {
        for log in node.logs.iter() {
            let raw = match log {
                Log::Invoke(l) => &l.log,
                Log::Success(l) => &l.log,
                Log::Return(l) => &l.log,
                Log::Data(l) => &l.log,
                Log::Program(l) => &l.log,
                Log::Unknown(l) => &l.log,
            };
            collected.push(raw.clone());
        }
    }
    collected.sort();
    let mut expected = lines.clone();
    expected.sort();
    assert_eq!(collected, expected);
}

#[test]
fn rebuilding_gives_identical_forest() {
    let t = tx(
        vec![vec![1u8; 32], vec![2u8; 32]],
        vec![compiled(0, vec![1], vec![5, 6])],
        vec![InnerInstructions { index: 0, instructions: vec![inner(1, vec![0], vec![7], 2)] }],
        vec![
            "Program A invoke [1]".to_string(),
            "Program B invoke [2]".to_string(),
            "Program B success".to_string(),
            "Program A success".to_string(),
        ],
    );
    let a = get_structured_instructions(&t).unwrap();
    let b = get_structured_instructions(&t).unwrap();
    assert_eq!(a.roots, b.roots);
    assert_eq!(a.nodes.len(), b.nodes.len());
    for (x, y) in a.nodes.iter().zip(b.nodes.iter()) {
        assert_eq!(x.program_id, y.program_id);
        assert_eq!(x.accounts, y.accounts);
        assert_eq!(x.data, y.data);
        assert_eq!(x.inner_instructions, y.inner_instructions);
        assert_eq!(x.parent_instruction, y.parent_instruction);
        assert_eq!(x.logs.len(), y.logs.len());
    }
}

#[test]
fn failed_transaction_is_rejected_without_panic() {
    let mut t = tx(vec![vec![1u8; 32]], vec![compiled(0, vec![], vec![])], vec![], vec![]);
    t.failed = true;
    match get_structured_instructions(&t) {
        Err(StructureError::FailedTransaction) => {},
        _ => panic!("a failed transaction must be rejected"),
    }
    assert!(solstream::transaction::get_context(&t).is_err());
}

#[test]
fn out_of_range_account_index_abandons_the_transaction() {
    let t = tx(vec![vec![1u8; 32]], vec![compiled(7, vec![], vec![])], vec![], vec![]);
    match get_structured_instructions(&t) {
        Err(StructureError::AccountIndexOutOfRange) => {},
        _ => panic!("an unresolvable index must abandon the transaction"),
    }
}

#[test]
fn flattened_traversal_is_preorder() {
    let t = tx(
        vec![vec![1u8; 32], vec![2u8; 32]],
        vec![compiled(0, vec![], vec![1]), compiled(0, vec![], vec![2])],
        vec![InnerInstructions {
            index: 0,
            instructions: vec![inner(1, vec![], vec![3], 2), inner(1, vec![], vec![4], 2)],
        }],
        vec![],
    );
    let forest = get_structured_instructions(&t).unwrap();
    let order = forest.flattened();
    let datas: Vec<Vec<u8>> = order.iter().map(|i| forest.nodes[*i].data.clone()).collect();
    assert_eq!(datas, vec![vec![1], vec![3], vec![4], vec![2]]);
    let first_child = forest.nodes[forest.roots[0]].inner_instructions[0];
    assert_eq!(forest.top_instruction(first_child), Some(forest.roots[0]));
    assert_eq!(forest.top_instruction(forest.roots[0]), None);
}

#[test]
fn dry_log_cursor_is_not_an_error() {
    let t = tx(
        vec![vec![1u8; 32]],
        vec![compiled(0, vec![], vec![])],
        vec![],
        vec![],
    );
    let forest = get_structured_instructions(&t).unwrap();
    assert_eq!(forest.roots.len(), 1);
    assert_eq!(forest.nodes[forest.roots[0]].logs.len(), 0);
}

fn transfer_data(amount: u64) -> Vec<u8> {
    let mut d = vec![3u8];
    d.extend_from_slice(&amount.to_le_bytes());
    d
}

#[test]
fn replay_moves_balances_in_order() {
    // a source seeded with 100, a transfer of 40 into a fresh account
    let tok = token_program_id().0.to_vec();
    let mint = Pubkey([7u8; 32]);
    let owner = Pubkey([8u8; 32]);
    let mut init2 = vec![16u8];
    init2.extend_from_slice(&[8u8; 32]);
    let t = ConfirmedTransaction {
        signatures: vec![vec![9u8; 64]],
        accounts: vec![tok, vec![11u8; 32], vec![12u8; 32], mint.0.to_vec()],
        instructions: vec![
            compiled(0, vec![2, 3], init2),
            compiled(0, vec![1, 2], transfer_data(40)),
        ],
        inner_instructions: vec![],
        log_messages: vec![],
        pre_token_balances: vec![TokenBalance {
            account_index: 1,
            mint: mint.to_string(),
            owner: owner.to_string(),
            amount: "100".to_string(),
        }],
        failed: false,
    };
    let context = TransactionContext::build(&t).unwrap();
    let src_key = vec![11u8; 32];
    let dst_key = vec![12u8; 32];
    let src = context.get_token_account(&solstream::PubkeyRef(&src_key)).unwrap();
    assert_eq!(src.amount, Some(60));
    let dst = context.get_token_account(&solstream::PubkeyRef(&dst_key)).unwrap();
    assert_eq!(dst.amount, Some(40));
    assert_eq!(dst.mint.0, [7u8; 32]);
}

#[test]
fn replaying_transfer_before_initialize_leaves_destination_absent() {
    let tok = token_program_id().0.to_vec();
    let t = ConfirmedTransaction {
        signatures: vec![vec![9u8; 64]],
        accounts: vec![tok, vec![11u8; 32], vec![12u8; 32], vec![7u8; 32]],
        instructions: vec![compiled(0, vec![1, 2], transfer_data(40))],
        inner_instructions: vec![],
        log_messages: vec![],
        pre_token_balances: vec![],
        failed: false,
    };
    let context = TransactionContext::build(&t).unwrap();
    let dst_key = vec![12u8; 32];
    assert!(context.get_token_account(&solstream::PubkeyRef(&dst_key)).is_none());
}

#[test]
fn transfer_with_unknown_destination_moves_nothing() {
    // the source is known, the destination is not: the whole transfer is
    // a recorded miss, so even the source keeps its balance
    let tok = token_program_id().0.to_vec();
    let mint = Pubkey([7u8; 32]);
    let owner = Pubkey([8u8; 32]);
    let t = ConfirmedTransaction {
        signatures: vec![vec![9u8; 64]],
        accounts: vec![tok, vec![11u8; 32], vec![12u8; 32]],
        instructions: vec![compiled(0, vec![1, 2], transfer_data(40))],
        inner_instructions: vec![],
        log_messages: vec![],
        pre_token_balances: vec![TokenBalance {
            account_index: 1,
            mint: mint.to_string(),
            owner: owner.to_string(),
            amount: "100".to_string(),
        }],
        failed: false,
    };
    let context = TransactionContext::build(&t).unwrap();
    let src_key = vec![11u8; 32];
    let dst_key = vec![12u8; 32];
    let src = context.get_token_account(&solstream::PubkeyRef(&src_key)).unwrap();
    assert_eq!(src.amount, Some(100), "the source is untouched by the miss");
    assert!(context.get_token_account(&solstream::PubkeyRef(&dst_key)).is_none());
}

#[test]
fn sync_native_and_close_account_change_balances() {
    let tok = token_program_id().0.to_vec();
    let mint = Pubkey([7u8; 32]);
    let owner = Pubkey([8u8; 32]);
    let seed = |idx: u32| TokenBalance {
        account_index: idx,
        mint: mint.to_string(),
        owner: owner.to_string(),
        amount: "50".to_string(),
    };
    let t = ConfirmedTransaction {
        signatures: vec![vec![9u8; 64]],
        accounts: vec![tok, vec![11u8; 32], vec![12u8; 32]],
        instructions: vec![
            compiled(0, vec![1], vec![17u8]),  // sync-native account 1
            compiled(0, vec![2], vec![9u8]),  // close account 2
        ],
        inner_instructions: vec![],
        log_messages: vec![],
        pre_token_balances: vec![seed(1), seed(2)],
        failed: false,
    };
    let context = TransactionContext::build(&t).unwrap();
    let a = vec![11u8; 32];
    let b = vec![12u8; 32];
    assert_eq!(context.get_token_account(&solstream::PubkeyRef(&a)).unwrap().amount, None);
    assert_eq!(context.get_token_account(&solstream::PubkeyRef(&b)).unwrap().amount, Some(0));
}

#[test]
fn signature_is_base58_of_first_signature() {
    let t = tx(vec![vec![1u8; 32]], vec![], vec![], vec![]);
    let sig = get_signature(&t);
    assert_eq!(bs58::decode(&sig).into_vec().unwrap(), vec![9u8; 64]);
}

#[test]
fn pubkey_text_round_trip() {
    let key = Pubkey([3u8; 32]);
    let text = key.to_string();
    let back = Pubkey::try_from_string(&text).unwrap();
    assert_eq!(back.0, [3u8; 32]);
    // a value the encoder never returns unchanged
    assert_ne!(text.as_bytes(), &[3u8; 32][..]);
    assert!(Pubkey::try_from_string("0OIl").is_err());
    assert_eq!(
        Pubkey([0u8; 32]).to_string(),
        "11111111111111111111111111111111",
    );
}

#[test]
fn short_byte_strings_are_not_pubkeys() {
    assert!(Pubkey::try_from(&[1u8, 2, 3]).is_err());
    assert!(Pubkey::try_from(&[0u8; 32]).is_ok());
    // valid base58, wrong decoded length
    assert!(Pubkey::try_from_string("abc").is_err());
}

#[test]
fn parse_u64_reads_decimal_text() {
    assert_eq!(solstream::decimal::parse_u64("0"), Some(0));
    assert_eq!(solstream::decimal::parse_u64("18446744073709551615"), Some(u64::MAX));
    assert_eq!(solstream::decimal::parse_u64("18446744073709551616"), None);
    assert_eq!(solstream::decimal::parse_u64(""), None);
    assert_eq!(solstream::decimal::parse_u64("12x"), None);
}
