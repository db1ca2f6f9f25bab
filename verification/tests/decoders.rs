//! Checks of the per-program binary decoders layered on the core.

use solstream::instruction::CompiledInstruction;
use solstream::pubkey::Pubkey;
use solstream::pumpfun::PumpfunInstruction;
use solstream::pumpfun::PumpfunLog;
use solstream::raydium_amm::AmmStatus;
use solstream::raydium_amm::Fees;
use solstream::spl_token::TokenInstruction;
use solstream::spl_token::token_program_id;
use solstream::spl_token_events::Event;
use solstream::spl_token_events::parse_instruction;
use solstream::system_program::SystemInstruction;
use solstream::system_program_events::SystemProgramEventKind;
use solstream::spl_token_events::AuthorityType;
use solstream::mpl_instruction::CollectionDetails;
use solstream::mpl_instruction::CollectionDetailsToggle;
use solstream::mpl_instruction::UseAuthorityRecord;
use solstream::mpl_instruction::UsesToggle;
use solstream::mpl_events::Toggle;
use solstream::mpl_events::UseMethod;
use solstream::spl_token_messages::EventType;
use solstream::transaction::ConfirmedTransaction;
use solstream::transaction::TokenBalance;
use solstream::transaction::TransactionContext;
use solstream::transaction::get_structured_instructions;

#[test]
fn token_instruction_transfer_layout() {
    let mut d = vec![3u8];
    d.extend_from_slice(&700u64.to_le_bytes());
    match TokenInstruction::unpack(&d).unwrap() {
        TokenInstruction::Transfer { amount } => assert_eq!(amount, 700),
        _ => panic!("wrong variant"),
    }
    // trailing bytes are tolerated, a short payload is not
    d.push(0);
    assert!(TokenInstruction::unpack(&d).is_ok());
    assert!(TokenInstruction::unpack(&[3u8, 1, 2]).is_err());
    assert!(TokenInstruction::unpack(&[]).is_err());
    assert!(TokenInstruction::unpack(&[200u8]).is_err());
}

#[test]
fn token_instruction_initialize_account3_layout() {
    let mut d = vec![18u8];
    d.extend_from_slice(&[5u8; 32]);
    match TokenInstruction::unpack(&d).unwrap() {
        TokenInstruction::InitializeAccount3 { owner } => assert_eq!(owner.0, [5u8; 32]),
        _ => panic!("wrong variant"),
    }
}

#[test]
fn token_instruction_initialize_mint_optional_authority() {
    let mut with_freeze = vec![0u8, 9];
    with_freeze.extend_from_slice(&[1u8; 32]);
    with_freeze.push(1);
    with_freeze.extend_from_slice(&[2u8; 32]);
    match TokenInstruction::unpack(&with_freeze).unwrap() {
        TokenInstruction::InitializeMint { decimals, mint_authority, freeze_authority } => {
            assert_eq!(decimals, 9);
            assert_eq!(mint_authority.0, [1u8; 32]);
            assert_eq!(freeze_authority.unwrap().0, [2u8; 32]);
        },
        _ => panic!("wrong variant"),
    }
    let mut without = vec![0u8, 9];
    without.extend_from_slice(&[1u8; 32]);
    without.push(0);
    match TokenInstruction::unpack(&without).unwrap() {
        TokenInstruction::InitializeMint { freeze_authority, .. } => {
            assert!(freeze_authority.is_none());
        },
        _ => panic!("wrong variant"),
    }
    // a presence byte above one is rejected
    let mut bad = vec![0u8, 9];
    bad.extend_from_slice(&[1u8; 32]);
    bad.push(2);
    assert!(TokenInstruction::unpack(&bad).is_err());
}

#[test]
fn token_transfer_decodes_into_event() {
    let tok = token_program_id().0.to_vec();
    let mint = Pubkey([7u8; 32]);
    let owner = Pubkey([8u8; 32]);
    let mut d = vec![3u8];
    d.extend_from_slice(&40u64.to_le_bytes());
    let seed = |idx: u32| TokenBalance {
        account_index: idx,
        mint: mint.to_string(),
        owner: owner.to_string(),
        amount: "100".to_string(),
    };
    let t = ConfirmedTransaction {
        signatures: vec![vec![9u8; 64]],
        accounts: vec![tok, vec![11u8; 32], vec![12u8; 32], owner.0.to_vec()],
        instructions: vec![CompiledInstruction {
            program_id_index: 0,
            accounts: vec![1, 2, 3],
            data: d,
        }],
        inner_instructions: vec![],
        log_messages: vec![],
        pre_token_balances: vec![seed(1), seed(2)],
        failed: false,
    };
    let context = TransactionContext::build_partial(&t).unwrap();
    let forest = get_structured_instructions(&t).unwrap();
    let node = &forest.nodes[forest.roots[0]];
    match parse_instruction(node, &context).unwrap().unwrap() {
        Event::Transfer(ev) => {
            assert_eq!(ev.amount, 40);
            assert_eq!(ev.authority, owner.to_string());
            let src = ev.source.unwrap();
            assert_eq!(src.address, Pubkey([11u8; 32]).to_string());
            assert_eq!(src.mint, mint.to_string());
            let dst = ev.destination.unwrap();
            assert_eq!(dst.address, Pubkey([12u8; 32]).to_string());
        },
        _ => panic!("wrong event"),
    }
}

#[test]
fn parse_instruction_rejects_other_programs() {
    let t = ConfirmedTransaction {
        signatures: vec![],
        accounts: vec![vec![1u8; 32]],
        instructions: vec![CompiledInstruction {
            program_id_index: 0,
            accounts: vec![],
            data: vec![3u8, 0, 0, 0, 0, 0, 0, 0, 0],
        }],
        inner_instructions: vec![],
        log_messages: vec![],
        pre_token_balances: vec![],
        failed: false,
    };
    let context = TransactionContext::build_partial(&t).unwrap();
    let forest = get_structured_instructions(&t).unwrap();
    assert!(parse_instruction(&forest.nodes[forest.roots[0]], &context).is_err());
}

#[test]
fn seed_strings_must_be_utf8() {
    // a create-account-with-seed whose seed bytes are not well-formed UTF-8
    let mut d = vec![3u8, 0, 0, 0];
    d.extend_from_slice(&[1u8; 32]);
    d.extend_from_slice(&2u64.to_le_bytes());
    d.extend_from_slice(&[0xffu8, 0xfe]);
    d.extend_from_slice(&11u64.to_le_bytes());
    d.extend_from_slice(&22u64.to_le_bytes());
    d.extend_from_slice(&[2u8; 32]);
    assert!(SystemInstruction::unpack(&d).is_err());
}

#[test]
fn system_instruction_layouts() {
    // transfer: four-byte tag, one word
    let mut d = vec![2u8, 0, 0, 0];
    d.extend_from_slice(&987u64.to_le_bytes());
    match SystemInstruction::unpack(&d).unwrap() {
        SystemInstruction::Transfer(t) => assert_eq!(t.lamports, 987),
        _ => panic!("wrong variant"),
    }
    // create-account-with-seed: base, seed text, two words, owner
    let mut d = vec![3u8, 0, 0, 0];
    d.extend_from_slice(&[1u8; 32]);
    d.extend_from_slice(&4u64.to_le_bytes());
    d.extend_from_slice(b"acct");
    d.extend_from_slice(&11u64.to_le_bytes());
    d.extend_from_slice(&22u64.to_le_bytes());
    d.extend_from_slice(&[2u8; 32]);
    match SystemInstruction::unpack(&d).unwrap() {
        SystemInstruction::CreateAccountWithSeed(v) => {
            assert_eq!(v.base.0, [1u8; 32]);
            assert_eq!(v.seed.0, "acct");
            assert_eq!(v.lamports, 11);
            assert_eq!(v.space, 22);
            assert_eq!(v.owner.0, [2u8; 32]);
        },
        _ => panic!("wrong variant"),
    }
    // trailing bytes fail the decode
    d.push(0);
    assert!(SystemInstruction::unpack(&d).is_err());
    assert!(SystemInstruction::unpack(&[13u8, 0, 0, 0]).is_err());
    assert!(SystemInstruction::unpack(&[2u8]).is_err());
}

#[test]
fn system_transfer_decodes_into_event() {
    let mut d = vec![2u8, 0, 0, 0];
    d.extend_from_slice(&987u64.to_le_bytes());
    let t = ConfirmedTransaction {
        signatures: vec![],
        accounts: vec![vec![0u8; 32], vec![11u8; 32], vec![12u8; 32]],
        instructions: vec![CompiledInstruction { program_id_index: 0, accounts: vec![1, 2], data: d }],
        inner_instructions: vec![],
        log_messages: vec![],
        pre_token_balances: vec![],
        failed: false,
    };
    let forest = get_structured_instructions(&t).unwrap();
    let node = &forest.nodes[forest.roots[0]];
    match solstream::system_program_events::parse_instruction(node).unwrap().unwrap() {
        SystemProgramEventKind::Transfer(ev) => {
            assert_eq!(ev.lamports, 987);
            assert_eq!(ev.funding_account, Pubkey([11u8; 32]).to_string());
            assert_eq!(ev.recipient_account, Pubkey([12u8; 32]).to_string());
        },
        _ => panic!("wrong event"),
    }
}

#[test]
fn pumpfun_instruction_discriminators() {
    let mut buy = vec![102u8, 6, 61, 18, 1, 218, 235, 234];
    buy.extend_from_slice(&5u64.to_le_bytes());
    buy.extend_from_slice(&6u64.to_le_bytes());
    match PumpfunInstruction::unpack(&buy).unwrap() {
        PumpfunInstruction::Buy(b) => {
            assert_eq!(b.amount, 5);
            assert_eq!(b.max_sol_cost, 6);
        },
        _ => panic!("wrong variant"),
    }
    let unknown = vec![0u8; 8];
    match PumpfunInstruction::unpack(&unknown).unwrap() {
        PumpfunInstruction::Unknown => {},
        _ => panic!("unknown discriminators pass through"),
    }
    assert!(PumpfunInstruction::unpack(&[1u8, 2]).is_err());
}

#[test]
fn pumpfun_create_instruction_strings() {
    let mut d = vec![24u8, 30, 200, 40, 5, 28, 7, 119];
    for text in ["sol coin", "SOL", "https://x"] {
        d.extend_from_slice(&(text.len() as u32).to_le_bytes());
        d.extend_from_slice(text.as_bytes());
    }
    match PumpfunInstruction::unpack(&d).unwrap() {
        PumpfunInstruction::Create(c) => {
            assert_eq!(c.name, "sol coin");
            assert_eq!(c.symbol, "SOL");
            assert_eq!(c.uri, "https://x");
        },
        _ => panic!("wrong variant"),
    }
}

#[test]
fn pumpfun_trade_log_layout() {
    let mut d = vec![189u8, 219, 127, 211, 78, 230, 97, 238];
    d.extend_from_slice(&[1u8; 32]);
    d.extend_from_slice(&100u64.to_le_bytes());
    d.extend_from_slice(&200u64.to_le_bytes());
    d.push(1);
    d.extend_from_slice(&[2u8; 32]);
    d.extend_from_slice(&(-5i64).to_le_bytes());
    d.extend_from_slice(&1u64.to_le_bytes());
    d.extend_from_slice(&2u64.to_le_bytes());
    d.extend_from_slice(&3u64.to_le_bytes());
    d.extend_from_slice(&4u64.to_le_bytes());
    match PumpfunLog::unpack(&d).unwrap() {
        PumpfunLog::Trade(t) => {
            assert_eq!(t.mint.0, [1u8; 32]);
            assert_eq!(t.sol_amount, 100);
            assert_eq!(t.token_amount, 200);
            assert!(t.is_buy);
            assert_eq!(t.user.0, [2u8; 32]);
            assert_eq!(t.timestamp, -5);
            assert_eq!(t.real_token_reserves, 4);
        },
        _ => panic!("wrong variant"),
    }
    assert!(PumpfunLog::unpack(&[0u8; 8]).is_err());
}

#[test]
fn amm_status_words_and_permissions() {
    assert_eq!(AmmStatus::from_u64(6).into_u64(), 6);
    assert!(AmmStatus::valid_status(7));
    assert!(!AmmStatus::valid_status(0));
    assert!(!AmmStatus::valid_status(8));
    let swap_only = AmmStatus::from_u64(6);
    assert!(swap_only.swap_permission());
    assert!(!swap_only.orderbook_permission());
    assert!(swap_only.deposit_permission());
    let withdraw_only = AmmStatus::from_u64(3);
    assert!(!withdraw_only.swap_permission());
    assert!(withdraw_only.withdraw_permission());
}

#[test]
fn fees_pack_and_unpack_round_trip() {
    let mut fees = Fees {
        min_separate_numerator: 0,
        min_separate_denominator: 0,
        trade_fee_numerator: 0,
        trade_fee_denominator: 0,
        pnl_numerator: 0,
        pnl_denominator: 0,
        swap_fee_numerator: 0,
        swap_fee_denominator: 0,
    };
    assert!(fees.validate().is_err());
    fees.initialize().unwrap();
    assert!(fees.validate().is_ok());
    assert_eq!(fees.trade_fee_numerator, 25);
    assert_eq!(fees.trade_fee_denominator, 10000);
    let mut buffer = vec![0u8; 64];
    fees.pack_into_slice(&mut buffer);
    let back = Fees::unpack_from_slice(&buffer).unwrap();
    assert_eq!(back, fees);
    assert_eq!(&buffer[0..8], &5u64.to_le_bytes());
}

#[test]
fn authority_type_names() {
    let kinds = [
        AuthorityType::Null,
        AuthorityType::MintTokens,
        AuthorityType::FreezeAccount,
        AuthorityType::AccountOwner,
        AuthorityType::CloseAccount,
    ];
    for kind in kinds.iter() {
        assert_eq!(AuthorityType::from_str_name(kind.as_str_name()), Some(*kind));
    }
    assert_eq!(AuthorityType::AccountOwner.as_str_name(), "AccountOwner");
    assert_eq!(AuthorityType::from_str_name("MintTokens"), Some(AuthorityType::MintTokens));
    assert_eq!(AuthorityType::from_str_name("MINT_TOKENS"), None);
    assert_eq!(AuthorityType::Null.to_i32(), 0);
    assert_eq!(AuthorityType::CloseAccount.to_i32(), 4);
}

#[test]
fn stream_name_round_trips() {
    for m in [UseMethod::Null, UseMethod::Burn, UseMethod::Multiple, UseMethod::Single] {
        assert_eq!(UseMethod::from_str_name(m.as_str_name()), Some(m));
    }
    for t in [Toggle::Null, Toggle::Keep, Toggle::Clear, Toggle::Apply] {
        assert_eq!(Toggle::from_str_name(t.as_str_name()), Some(t));
    }
    assert_eq!(EventType::from_str_name(EventType::Transfer.as_str_name()), Some(EventType::Transfer));
    assert_eq!(UseMethod::from_str_name("burn"), None);
}

#[test]
fn toggles_report_their_choice() {
    let keep = UsesToggle::Keep;
    assert!(keep.is_none());
    assert!(!keep.is_some());
    let clear = CollectionDetailsToggle::Clear;
    assert!(clear.is_some() && clear.is_clear() && !clear.is_set());
    assert_eq!(clear.to_option(), None);
    let set = CollectionDetailsToggle::Apply(CollectionDetails { size: 4 });
    assert!(set.is_set());
    assert_eq!(set.to_option(), Some(CollectionDetails { size: 4 }));
    let mut bytes = vec![8u8];
    bytes.extend_from_slice(&77u64.to_le_bytes());
    bytes.push(0);
    bytes.extend_from_slice(&[0u8; 8]);
    let record = UseAuthorityRecord::from_bytes(&bytes).unwrap();
    assert_eq!(record.allowed_uses, 77);
    assert!(record.bump_empty());
    // the kind byte and the exact size are both demanded
    let mut wrong_kind = bytes.clone();
    wrong_kind[0] = 4;
    assert!(UseAuthorityRecord::from_bytes(&wrong_kind).is_err());
    bytes.push(0);
    assert!(UseAuthorityRecord::from_bytes(&bytes).is_err());
    // a record of another kind is never bump-empty
    let other = UseAuthorityRecord { key: 4, allowed_uses: 0, bump: 0 };
    assert!(!other.bump_empty());
}
