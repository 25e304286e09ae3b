use inter_dao::charges::Charges;
use inter_dao::instructions::{close_nft_voting, get_nft_metadata, vote_nft_against};
use inter_dao::nft::Metadata;
use inter_dao::schema::dao::{Dao, DaoRegime};
use inter_dao::schema::proposal::{ConsensusMechanism, ConsensusQuorum, Proposal};
use inter_dao::schema::receipt::{Receipt, ReceiptAction};
use inter_dao::{ErrorCode, Pubkey};

fn key(byte: u8) -> Pubkey {
    Pubkey([byte; 32])
}

fn dao() -> Dao {
    Dao {
        master: key(1),
        authority: key(2),
        mint: key(3),
        regime: DaoRegime::Autonomous,
        supply: 10,
        nonce: 0,
        metadata: [4; 32],
        is_nft: true,
        is_public: true,
    }
}

fn proposal(mechanism: ConsensusMechanism) -> Proposal {
    Proposal {
        index: 0,
        creator: key(1),
        dao: key(9),
        invoked_program: key(11),
        data_len: 0,
        data: vec![],
        accounts_len: 0,
        accounts: vec![],
        regime: DaoRegime::Autonomous,
        consensus_mechanism: mechanism,
        consensus_quorum: ConsensusQuorum::Half,
        executed: false,
        voting_for_power: 0,
        voting_against_power: 0,
        supply: 10,
        start_date: 0,
        end_date: 100,
        metadata: [0; 32],
        total_instruction: 0,
        total_executed: 0,
    }
}

fn token() -> Metadata {
    Metadata { mint: key(30), collection: key(3) }
}

/// The stored bytes of a metadata account: the account's kind, the update
/// authority, the token, empty name, symbol and address, no fee, no creators,
/// two flags, no edition nonce, no token standard, then the collection and
/// zeros up to the account's size.
fn stored(kind: u8, mint: u8, collection: Option<u8>, size: usize) -> Vec<u8> {
    let mut data = vec![kind];
    data.extend([7; 32]);
    data.extend([mint; 32]);
    data.extend([0; 4 + 4 + 4 + 2 + 1 + 1 + 1 + 1 + 1]);
    if let Some(collection) = collection {
        data.push(1);
        data.push(1);
        data.extend([collection; 32]);
    }
    data.resize(size, 0);
    data
}

#[test]
fn metadata_is_read_from_the_stored_bytes() {
    assert_eq!(
        Metadata::from_account_data(&stored(4, 30, Some(3), 679)),
        Some(Metadata { mint: key(30), collection: key(3) })
    );
    assert_eq!(
        Metadata::from_account_data(&stored(4, 31, Some(8), 679)),
        Some(Metadata { mint: key(31), collection: key(8) })
    );
    // a token of no collection
    assert_eq!(Metadata::from_account_data(&stored(4, 30, None, 679)), None);
    // another kind of account, another size, no bytes
    assert_eq!(Metadata::from_account_data(&stored(1, 30, Some(3), 679)), None);
    assert_eq!(Metadata::from_account_data(&stored(4, 30, Some(3), 678)), None);
    assert_eq!(Metadata::from_account_data(&stored(4, 30, Some(3), 680)), None);
    assert_eq!(Metadata::from_account_data(&vec![]), None);
    assert_eq!(Metadata::from_account_data(&vec![4]), None);
}

#[test]
fn metadata_needs_a_token_and_a_collection() {
    assert_eq!(Metadata::from_parts(None), None);
    assert_eq!(Metadata::from_parts(Some((key(30), None))), None);
    assert_eq!(
        Metadata::from_parts(Some((key(30), Some(key(3))))),
        Some(Metadata { mint: key(30), collection: key(3) })
    );
}

#[test]
fn token_belongs_when_its_metadata_names_it_and_the_collection() {
    let d = dao();
    assert!(d.is_valid_mint_nft(key(30), &token()));
    assert!(!d.is_valid_mint_nft(key(31), &token()));
    assert!(!d.is_valid_mint_nft(key(30), &Metadata { mint: key(30), collection: key(4) }));
    assert!(!d.is_valid_mint_nft(key(3), &Metadata { mint: key(3), collection: key(30) }));
    assert_eq!(get_nft_metadata::exec(&d, key(30), &token()), Ok(()));
    assert_eq!(
        get_nft_metadata::exec(&d, key(31), &token()),
        Err(ErrorCode::InvalidNftCollection)
    );
    let read = Metadata::from_account_data(&stored(4, 30, Some(3), 679)).unwrap();
    assert_eq!(get_nft_metadata::exec(&d, key(30), &read), Ok(()));
}

fn vote(
    p: &mut Proposal,
    mint_nft: Pubkey,
    clock: Option<i64>,
) -> Result<(Receipt, vote_nft_against::VoteAgainstEvent, Charges), ErrorCode> {
    vote_nft_against::exec(
        &dao(),
        p,
        key(8),
        key(9),
        key(10),
        key(6),
        mint_nft,
        &token(),
        5,
        0,
        12,
        clock,
        clock,
        clock,
    )
}

#[test]
fn token_votes_against_as_one_token_to_the_end() {
    let mut p = proposal(ConsensusMechanism::LockedTokenCounter);
    let (receipt, event, charges) = vote(&mut p, key(30), Some(40)).unwrap();
    assert_eq!(
        receipt,
        Receipt {
            index: 5,
            authority: key(8),
            proposal: key(10),
            mint_nft: key(30),
            amount: 1,
            power: 60,
            locked_date: 40,
            unlocked_date: 100,
            action: ReceiptAction::VoteAgainst,
        }
    );
    assert_eq!(
        event,
        vote_nft_against::VoteAgainstEvent {
            authority: key(8),
            dao: key(9),
            proposal: key(10),
            receipt: key(6),
            amount: 1,
        }
    );
    assert_eq!(charges, Charges { tax: None, revenue: Some(12) });
    assert_eq!(
        p,
        Proposal { voting_against_power: 60, ..proposal(ConsensusMechanism::LockedTokenCounter) }
    );
    let mut p = proposal(ConsensusMechanism::StakedTokenCounter);
    assert_eq!(vote(&mut p, key(30), Some(40)).unwrap().0.power, 1);
    assert_eq!(p.voting_against_power, 1);
}

#[test]
fn token_of_another_collection_does_not_vote() {
    let mut p = proposal(ConsensusMechanism::StakedTokenCounter);
    assert_eq!(vote(&mut p, key(31), Some(40)).unwrap_err(), ErrorCode::InvalidNftCollection);
    // the token is looked at first
    assert_eq!(vote(&mut p, key(31), None).unwrap_err(), ErrorCode::InvalidNftCollection);
    assert_eq!(vote(&mut p, key(30), None).unwrap_err(), ErrorCode::InvalidCurrentDate);
    assert_eq!(vote(&mut p, key(30), Some(-1)).unwrap_err(), ErrorCode::NotStartedProposal);
    assert_eq!(vote(&mut p, key(30), Some(101)).unwrap_err(), ErrorCode::EndedProposal);
    p.executed = true;
    assert_eq!(vote(&mut p, key(30), Some(40)).unwrap_err(), ErrorCode::ExecutedProposal);
    p.executed = false;
    assert_eq!(p, proposal(ConsensusMechanism::StakedTokenCounter));
}

#[test]
fn token_comes_back_when_the_vote_has_ended() {
    let mut p = proposal(ConsensusMechanism::LockedTokenCounter);
    let (mut receipt, _, _) = vote(&mut p, key(30), Some(40)).unwrap();
    let before = receipt;
    let close = |receipt: &mut Receipt, mint: Pubkey, bump: Option<u8>, clock: Option<i64>| {
        close_nft_voting::exec(&dao(), &p, receipt, key(6), mint, &token(), bump, clock)
    };
    assert_eq!(
        close(&mut receipt, key(31), Some(1), Some(101)),
        Err(ErrorCode::InvalidNftCollection)
    );
    assert_eq!(close(&mut receipt, key(30), Some(1), None), Err(ErrorCode::InvalidCurrentDate));
    assert_eq!(close(&mut receipt, key(30), Some(1), Some(100)), Err(ErrorCode::NotEndedProposal));
    assert_eq!(close(&mut receipt, key(30), None, Some(101)), Err(ErrorCode::NoBump));
    assert_eq!(receipt, before);
    let event = close(&mut receipt, key(30), Some(1), Some(101)).unwrap();
    assert_eq!(
        event,
        close_nft_voting::CloseEvent { authority: key(8), receipt: key(6), mint: key(30), amount: 1 }
    );
    // the receipt keeps the power it voted with
    assert_eq!(receipt, Receipt { amount: 0, ..before });
    assert_eq!(close(&mut receipt, key(30), Some(1), Some(101)).unwrap().amount, 0);
}
