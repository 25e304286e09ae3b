use inter_dao::instructions::{
    execute_proposal, execute_proposal_instruction, initialize_proposal_instruction,
};
use inter_dao::invoke::{build, check, copy_of, declare, AccountInfo, AccountMeta, Instruction};
use inter_dao::schema::dao::{Dao, DaoRegime};
use inter_dao::schema::proposal::{
    ConsensusMechanism, ConsensusQuorum, InvokedAccount, Proposal,
};
use inter_dao::schema::proposal_instruction::ProposalInstruction;
use inter_dao::{ErrorCode, Pubkey};

fn key(byte: u8) -> Pubkey {
    Pubkey([byte; 32])
}

fn dao(regime: DaoRegime) -> Dao {
    Dao {
        master: key(1),
        authority: key(2),
        mint: key(3),
        regime,
        supply: 1000,
        nonce: 7,
        metadata: [4; 32],
        is_nft: false,
        is_public: true,
    }
}

/// A master that signs through the dispatch, a signer that may be written to,
/// and an account that is only read.
fn declared() -> Vec<InvokedAccount> {
    vec![
        InvokedAccount { pubkey: key(1), is_signer: true, is_writable: false, is_master: true },
        InvokedAccount { pubkey: key(21), is_signer: true, is_writable: true, is_master: false },
        InvokedAccount { pubkey: key(22), is_signer: false, is_writable: false, is_master: false },
    ]
}

fn live() -> Vec<AccountInfo> {
    vec![
        AccountInfo { key: key(1), is_signer: false, is_writable: false },
        AccountInfo { key: key(21), is_signer: true, is_writable: true },
        AccountInfo { key: key(22), is_signer: false, is_writable: false },
    ]
}

/// A proposal that ended at 100 with 600 of 1000 votes in favour.
fn consented() -> Proposal {
    Proposal {
        index: 0,
        creator: key(5),
        dao: key(9),
        invoked_program: key(11),
        data_len: 4,
        data: vec![9, 8, 7, 6],
        accounts_len: 3,
        accounts: declared(),
        regime: DaoRegime::Democratic,
        consensus_mechanism: ConsensusMechanism::StakedTokenCounter,
        consensus_quorum: ConsensusQuorum::Half,
        executed: false,
        voting_for_power: 600,
        voting_against_power: 0,
        supply: 1000,
        start_date: 0,
        end_date: 100,
        metadata: [0; 32],
        total_instruction: 0,
        total_executed: 0,
    }
}

fn expected_call() -> Instruction {
    Instruction {
        program_id: key(11),
        accounts: vec![
            AccountMeta { pubkey: key(1), is_signer: true, is_writable: false },
            AccountMeta { pubkey: key(21), is_signer: true, is_writable: true },
            AccountMeta { pubkey: key(22), is_signer: false, is_writable: false },
        ],
        data: vec![9, 8, 7, 6],
    }
}

#[test]
fn lists_become_declared_accounts() {
    let made = declare(
        &vec![key(1), key(21), key(22)],
        &vec![true, true, false],
        &vec![false, true, false],
        &vec![true, false, false],
    );
    assert_eq!(made, Ok(declared()));
    assert_eq!(declare(&vec![], &vec![], &vec![], &vec![]), Ok(vec![]));
    assert_eq!(
        declare(&vec![key(1)], &vec![], &vec![true], &vec![true]),
        Err(ErrorCode::InvalidDataLength)
    );
    assert_eq!(
        declare(&vec![], &vec![], &vec![], &vec![true]),
        Err(ErrorCode::InvalidDataLength)
    );
}

#[test]
fn call_is_built_with_the_flags_of_the_dispatch() {
    assert_eq!(build(&key(11), &declared(), &vec![9, 8, 7, 6]), expected_call());
    assert_eq!(
        build(&key(11), &vec![], &vec![]),
        Instruction { program_id: key(11), accounts: vec![], data: vec![] }
    );
    // writable or not, signer or not, as declared
    for (is_signer, is_writable) in [(false, false), (false, true), (true, false), (true, true)] {
        for is_master in [false, true] {
            let account = InvokedAccount { pubkey: key(30), is_signer, is_writable, is_master };
            assert_eq!(
                build(&key(11), &vec![account], &vec![1]).accounts,
                vec![AccountMeta { pubkey: key(30), is_signer, is_writable }]
            );
        }
    }
    assert_eq!(copy_of(&vec![1, 2, 3]), vec![1, 2, 3]);
}

#[test]
fn live_accounts_are_held_against_the_declared_ones() {
    assert_eq!(check(&key(11), &declared(), &key(11), &live()), Ok(()));
    assert_eq!(check(&key(11), &vec![], &key(11), &vec![]), Ok(()));
    assert_eq!(
        check(&key(11), &declared(), &key(12), &live()),
        Err(ErrorCode::InconsistentProposal)
    );
    let mut short = live();
    short.pop();
    assert_eq!(check(&key(11), &declared(), &key(11), &short), Err(ErrorCode::InvalidDataLength));
    // the number of accounts is looked at before the program
    assert_eq!(check(&key(11), &declared(), &key(12), &short), Err(ErrorCode::InvalidDataLength));
    let mut long = live();
    long.push(live()[0]);
    assert_eq!(check(&key(11), &declared(), &key(11), &long), Err(ErrorCode::InvalidDataLength));
}

#[test]
fn master_comes_in_unsigned_and_goes_out_signed() {
    let master = vec![declared()[0]];
    let unsigned = vec![AccountInfo { key: key(1), is_signer: false, is_writable: false }];
    let signed = vec![AccountInfo { key: key(1), is_signer: true, is_writable: false }];
    assert_eq!(check(&key(11), &master, &key(11), &unsigned), Ok(()));
    assert_eq!(check(&key(11), &master, &key(11), &signed), Err(ErrorCode::InconsistentProposal));
    assert!(build(&key(11), &master, &vec![]).accounts[0].is_signer);
    // a master that is not declared a signer signs nowhere
    let idle = vec![InvokedAccount { is_signer: false, ..declared()[0] }];
    assert_eq!(check(&key(11), &idle, &key(11), &unsigned), Ok(()));
    assert!(!build(&key(11), &idle, &vec![]).accounts[0].is_signer);
}

#[test]
fn any_single_tampered_account_is_refused() {
    let d = dao(DaoRegime::Autonomous);
    let mut p = consented();
    for position in 0..3 {
        let honest = live()[position];
        let forgeries = [
            AccountInfo { key: key(99), ..honest },
            AccountInfo { is_signer: !honest.is_signer, ..honest },
            AccountInfo { is_writable: !honest.is_writable, ..honest },
            AccountInfo { key: key(99), is_signer: !honest.is_signer, ..honest },
        ];
        for forged in forgeries {
            let mut tampered = live();
            tampered[position] = forged;
            assert_eq!(
                execute_proposal::exec(&d, &p, key(5), key(11), &tampered, Some(101)),
                Err(ErrorCode::InconsistentProposal)
            );
            assert_eq!(p, consented());
        }
    }
    // two accounts that changed places
    let mut swapped = live();
    swapped.swap(1, 2);
    assert_eq!(
        execute_proposal::exec(&d, &p, key(5), key(11), &swapped, Some(101)),
        Err(ErrorCode::InconsistentProposal)
    );
    // the honest accounts still pass, and the proposal can still be executed
    assert_eq!(
        execute_proposal::exec(&d, &p, key(5), key(11), &live(), Some(101)),
        Ok(expected_call())
    );
    assert_eq!(execute_proposal::commit(&mut p), Ok(()));
}

#[test]
fn proposal_is_executed_once() {
    let d = dao(DaoRegime::Democratic);
    let mut p = consented();
    let call = execute_proposal::exec(&d, &p, key(2), key(11), &live(), Some(101));
    assert_eq!(call, Ok(expected_call()));
    // nothing is written down before the dispatch has gone through
    assert_eq!(p, consented());
    assert_eq!(
        execute_proposal::exec(&d, &p, key(2), key(11), &live(), Some(101)),
        Ok(expected_call())
    );
    assert_eq!(execute_proposal::commit(&mut p), Ok(()));
    assert_eq!(p, Proposal { executed: true, ..consented() });
    for clock in [Some(101), Some(0), Some(i64::MAX), None] {
        assert_eq!(
            execute_proposal::exec(&d, &p, key(2), key(11), &live(), clock),
            Err(ErrorCode::ExecutedProposal)
        );
        assert_eq!(
            execute_proposal::exec(&d, &p, key(2), key(12), &vec![], clock),
            Err(ErrorCode::ExecutedProposal)
        );
        assert_eq!(
            execute_proposal::exec(&d, &p, key(5), key(11), &live(), clock),
            Err(ErrorCode::NoPermission)
        );
    }
    assert_eq!(execute_proposal::commit(&mut p), Err(ErrorCode::ExecutedProposal));
    assert_eq!(p, Proposal { executed: true, ..consented() });
}

#[test]
fn execution_waits_for_permission_consent_and_the_end() {
    let p = consented();
    let run = |d: &Dao, p: &Proposal, caller: Pubkey, clock: Option<i64>| {
        execute_proposal::exec(d, p, caller, key(11), &live(), clock).map(|_| ())
    };
    assert_eq!(run(&dao(DaoRegime::Dictatorial), &p, key(5), Some(101)), Err(ErrorCode::NoPermission));
    assert_eq!(run(&dao(DaoRegime::Democratic), &p, key(5), Some(101)), Err(ErrorCode::NoPermission));
    assert_eq!(run(&dao(DaoRegime::Autonomous), &p, key(5), Some(101)), Ok(()));
    assert_eq!(run(&dao(DaoRegime::Dictatorial), &p, key(2), Some(101)), Ok(()));
    let d = dao(DaoRegime::Autonomous);
    assert_eq!(run(&d, &p, key(5), Some(100)), Err(ErrorCode::NotConsentedProposal));
    assert_eq!(run(&d, &p, key(5), Some(-1)), Err(ErrorCode::NotConsentedProposal));
    assert_eq!(run(&d, &p, key(5), None), Err(ErrorCode::InvalidCurrentDate));
    let exactly_half = Proposal { voting_for_power: 500, ..consented() };
    assert_eq!(run(&d, &exactly_half, key(5), Some(101)), Err(ErrorCode::NotConsentedProposal));
    // without consent the clock is not even read
    assert_eq!(run(&d, &exactly_half, key(5), None), Err(ErrorCode::NotConsentedProposal));
    let outvoted = Proposal { voting_against_power: 100, ..consented() };
    assert_eq!(run(&d, &outvoted, key(5), Some(101)), Err(ErrorCode::NotConsentedProposal));
}

fn record(
    d: &Dao,
    p: &mut Proposal,
    caller: Pubkey,
    instruction_key: Pubkey,
    accounts: usize,
    clock: Option<i64>,
) -> Result<ProposalInstruction, ErrorCode> {
    let all = declared();
    initialize_proposal_instruction::exec(
        d,
        p,
        key(10),
        instruction_key,
        caller,
        key(11),
        4,
        vec![9, 8, 7, 6],
        (0..accounts).map(|i| all[i % 3].pubkey).collect(),
        (0..accounts).map(|i| all[i % 3].is_signer).collect(),
        (0..accounts).map(|i| all[i % 3].is_writable).collect(),
        (0..accounts).map(|i| all[i % 3].is_master).collect(),
        clock,
    )
    .map(|recorded| recorded.0)
}

/// A proposal that starts at 50 and ends at 100.
fn scheduled() -> Proposal {
    Proposal {
        start_date: 50,
        voting_for_power: 0,
        data_len: 0,
        data: vec![],
        accounts_len: 0,
        accounts: vec![],
        ..consented()
    }
}

#[test]
fn instructions_are_recorded_in_order_until_the_vote_starts() {
    let d = dao(DaoRegime::Democratic);
    let mut p = scheduled();
    let (first, event) = initialize_proposal_instruction::exec(
        &d,
        &mut p,
        key(10),
        key(40),
        key(6),
        key(11),
        4,
        vec![9, 8, 7, 6],
        vec![key(1), key(21), key(22)],
        vec![true, true, false],
        vec![false, true, false],
        vec![true, false, false],
        Some(49),
    )
    .unwrap();
    assert_eq!(
        first,
        ProposalInstruction {
            proposal: key(10),
            index: 0,
            tx_index: 4,
            executed: false,
            data_len: 4,
            data: vec![9, 8, 7, 6],
            accounts_len: 3,
            accounts: declared(),
            invoked_program: key(11),
        }
    );
    assert_eq!(
        event,
        initialize_proposal_instruction::InitializeProposalInstructionEvent {
            proposal: key(10),
            proposal_instruction: key(40),
            dao: key(9),
            caller: key(5),
            invoked_program: key(11),
            data: vec![9, 8, 7, 6],
            accounts: declared(),
        }
    );
    assert_eq!(p, Proposal { total_instruction: 1, ..scheduled() });
    assert_eq!(record(&d, &mut p, key(6), key(41), 0, Some(0)).unwrap().index, 1);
    assert_eq!(record(&d, &mut p, key(6), key(42), 255, Some(i64::MIN)).unwrap().index, 2);
    assert_eq!(p.total_instruction, 3);
    // too late, too many accounts, no clock
    assert_eq!(record(&d, &mut p, key(6), key(43), 1, Some(50)), Err(ErrorCode::StartedProposal));
    assert_eq!(record(&d, &mut p, key(6), key(43), 1, Some(101)), Err(ErrorCode::StartedProposal));
    assert_eq!(record(&d, &mut p, key(6), key(43), 256, Some(49)), Err(ErrorCode::Overflow));
    assert_eq!(record(&d, &mut p, key(6), key(43), 1, None), Err(ErrorCode::InvalidCurrentDate));
    assert_eq!(p.total_instruction, 3);
}

#[test]
fn instructions_are_recorded_by_whoever_may_propose() {
    let mut p = scheduled();
    let d = dao(DaoRegime::Dictatorial);
    assert_eq!(record(&d, &mut p, key(6), key(40), 1, Some(0)), Err(ErrorCode::NoPermission));
    assert_eq!(p, scheduled());
    assert!(record(&d, &mut p, key(2), key(40), 1, Some(0)).is_ok());
    let refused = initialize_proposal_instruction::exec(
        &d,
        &mut p,
        key(10),
        key(40),
        key(2),
        key(11),
        0,
        vec![],
        vec![key(1)],
        vec![true, false],
        vec![true],
        vec![true],
        None,
    );
    assert_eq!(refused.unwrap_err(), ErrorCode::InvalidDataLength);
    p.total_instruction = 255;
    assert_eq!(record(&d, &mut p, key(2), key(40), 1, Some(0)), Err(ErrorCode::Overflow));
    assert_eq!(p.total_instruction, 255);
}

fn step(
    d: &Dao,
    p: &mut Proposal,
    instruction: &mut ProposalInstruction,
) -> Result<(), ErrorCode> {
    let call =
        execute_proposal_instruction::exec(d, p, instruction, key(2), key(11), &live(), Some(101))?;
    assert_eq!(call, expected_call());
    let event = execute_proposal_instruction::commit(p, instruction, key(10), key(2))?;
    assert_eq!(
        event,
        execute_proposal_instruction::ExecuteProposalInstructionEvent {
            proposal: key(10),
            caller: key(2),
        }
    );
    Ok(())
}

#[test]
fn three_instructions_execute_in_order() {
    let d = dao(DaoRegime::Democratic);
    let mut p = scheduled();
    let mut first = record(&d, &mut p, key(6), key(40), 3, Some(0)).unwrap();
    let mut second = record(&d, &mut p, key(6), key(41), 3, Some(0)).unwrap();
    let mut third = record(&d, &mut p, key(6), key(42), 3, Some(0)).unwrap();
    p.voting_for_power = 600;
    let before = (p.clone(), third.clone());

    // the third before the second, and before the first
    assert_eq!(step(&d, &mut p, &mut third), Err(ErrorCode::InvalidProposalIdx));
    assert_eq!(step(&d, &mut p, &mut second), Err(ErrorCode::InvalidProposalIdx));
    assert_eq!(
        execute_proposal_instruction::commit(&mut p, &mut third, key(10), key(2)),
        Err(ErrorCode::InvalidProposalIdx)
    );
    assert_eq!((p.clone(), third.clone()), before);

    assert_eq!(step(&d, &mut p, &mut first), Ok(()));
    assert!(first.executed);
    assert_eq!(p.total_executed, 1);
    assert!(!p.executed);
    assert_eq!(step(&d, &mut p, &mut third), Err(ErrorCode::InvalidProposalIdx));
    assert_eq!(step(&d, &mut p, &mut first), Err(ErrorCode::ExecutedProposal));

    assert_eq!(step(&d, &mut p, &mut second), Ok(()));
    assert!(second.executed);
    assert_eq!(p.total_executed, 2);
    assert!(!p.executed);

    assert_eq!(step(&d, &mut p, &mut third), Ok(()));
    assert!(third.executed);
    assert_eq!(p.total_executed, 3);
    assert!(p.executed);

    for instruction in [&mut first, &mut second, &mut third] {
        assert_eq!(step(&d, &mut p, instruction), Err(ErrorCode::ExecutedProposal));
        assert_eq!(
            execute_proposal_instruction::commit(&mut p, instruction, key(10), key(2)),
            Err(ErrorCode::ExecutedProposal)
        );
    }
    assert_eq!(p.total_executed, 3);
}

#[test]
fn instruction_is_held_to_the_same_guards_as_a_proposal() {
    let d = dao(DaoRegime::Democratic);
    let mut p = scheduled();
    let instruction = record(&d, &mut p, key(6), key(40), 3, Some(0)).unwrap();
    let run = |p: &Proposal, caller: Pubkey, program: Pubkey, accounts: &Vec<AccountInfo>, clock| {
        execute_proposal_instruction::exec(&d, p, &instruction, caller, program, accounts, clock)
            .map(|_| ())
    };
    assert_eq!(run(&p, key(2), key(11), &live(), Some(101)), Err(ErrorCode::NotConsentedProposal));
    p.voting_for_power = 501;
    assert_eq!(run(&p, key(2), key(11), &live(), Some(101)), Ok(()));
    assert_eq!(run(&p, key(6), key(11), &live(), Some(101)), Err(ErrorCode::NoPermission));
    assert_eq!(run(&p, key(2), key(11), &live(), Some(100)), Err(ErrorCode::NotConsentedProposal));
    assert_eq!(run(&p, key(2), key(11), &live(), None), Err(ErrorCode::InvalidCurrentDate));
    assert_eq!(run(&p, key(2), key(12), &live(), Some(101)), Err(ErrorCode::InconsistentProposal));
    assert_eq!(run(&p, key(2), key(11), &vec![], Some(101)), Err(ErrorCode::InvalidDataLength));
    let mut tampered = live();
    tampered[0].is_signer = true;
    assert_eq!(run(&p, key(2), key(11), &tampered, Some(101)), Err(ErrorCode::InconsistentProposal));
    p.executed = true;
    assert_eq!(run(&p, key(2), key(11), &live(), Some(101)), Err(ErrorCode::ExecutedProposal));
    assert!(!instruction.is_executed());
}

#[test]
fn full_counter_of_executions_writes_nothing_down() {
    let mut p = Proposal { total_instruction: 255, total_executed: 255, ..consented() };
    let mut instruction = ProposalInstruction {
        proposal: key(10),
        index: 255,
        tx_index: 0,
        executed: false,
        data_len: 0,
        data: vec![],
        accounts_len: 0,
        accounts: vec![],
        invoked_program: key(11),
    };
    assert_eq!(
        execute_proposal_instruction::commit(&mut p, &mut instruction, key(10), key(2)),
        Err(ErrorCode::Overflow)
    );
    assert!(!instruction.executed);
    assert_eq!(p.total_executed, 255);
}
