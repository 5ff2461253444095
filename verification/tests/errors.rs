use ticket::close::CloseContest;
use ticket::create_contest::CreateContest;
use ticket::register_contest::transfer;
use ticket::register_contest::RegisterContest;
use ticket::state::record_space;
use ticket::Contest;
use ticket::ContestAccount;
use ticket::ErrorCode;
use ticket::Identity;

fn ident(tag: u8) -> Identity {
    Identity { bytes: [tag; 32] }
}

fn open_contest(owner: Identity, ticket_price: u64, max_tickets: u8) -> Contest {
    Contest {
        owner,
        name: "raffle".to_string(),
        description: "a raffle".to_string(),
        ticket_price,
        max_tickets,
        total_tickets_sold: 0,
        winner: None,
        participant: Vec::new(),
        bump: 254,
    }
}

#[test]
fn create_fails_on_a_duplicate_record() {
    let owner = ident(1);
    let mut creator = CreateContest { signer: owner, signer_lamports: 1_000 };
    let r = creator.create_contest(
        "raffle".to_string(),
        "a raffle".to_string(),
        100,
        1,
        254,
        true,
        25,
    );
    assert_eq!(r, Err(ErrorCode::DuplicateRecord));
    assert_eq!(creator.signer_lamports, 1_000);
}

#[test]
fn create_fails_when_the_creator_cannot_fund_the_reserve() {
    let owner = ident(1);
    let mut creator = CreateContest { signer: owner, signer_lamports: 24 };
    let r = creator.create_contest(
        "raffle".to_string(),
        "a raffle".to_string(),
        100,
        1,
        254,
        false,
        25,
    );
    assert_eq!(r, Err(ErrorCode::TransferFailure));
    assert_eq!(creator.signer_lamports, 24);
}

#[test]
fn registration_fails_when_the_buyer_cannot_pay_the_price() {
    let owner = ident(1);
    let buyer = ident(2);
    let contest = open_contest(owner, 100, 2);
    let mut accounts = RegisterContest {
        contest: ContestAccount { data: contest.clone(), lamports: 40 },
        signer: buyer,
        signer_lamports: 99,
    };
    let r = accounts.register_contest(7);
    assert_eq!(r, Err(ErrorCode::TransferFailure));
    assert_eq!(accounts.contest.data, contest);
    assert_eq!(accounts.contest.lamports, 40);
    assert_eq!(accounts.signer_lamports, 99);
}

#[test]
fn transfer_moves_the_amount_or_nothing() {
    let mut from: u64 = 100;
    let mut to: u64 = 5;
    assert_eq!(transfer(&mut from, &mut to, 60), Ok(()));
    assert_eq!((from, to), (40, 65));

    assert_eq!(transfer(&mut from, &mut to, 41), Err(ErrorCode::TransferFailure));
    assert_eq!((from, to), (40, 65));

    let mut brim: u64 = u64::MAX - 10;
    assert_eq!(transfer(&mut from, &mut brim, 11), Err(ErrorCode::TransferFailure));
    assert_eq!((from, brim), (40, u64::MAX - 10));
    assert_eq!(transfer(&mut from, &mut brim, 10), Ok(()));
    assert_eq!((from, brim), (30, u64::MAX));
}

#[test]
fn error_messages_name_the_failure() {
    assert_eq!(ErrorCode::TicketLimitReached.message(), "Ticket limit reached");
    assert_eq!(ErrorCode::TransferFailure.message(), "Transfer failure");
    assert_eq!(ErrorCode::DuplicateRecord.message(), "Duplicate record");
}

#[test]
fn record_space_grows_with_the_ticket_cap() {
    assert_eq!(record_space(1), 200);
    assert_eq!(record_space(10), 488);
    assert_eq!(record_space(255), 168 + 32 * 255);
}

#[test]
fn entry_points_forward_to_the_operations() {
    let owner = ident(1);
    let buyer = ident(2);
    let mut creator = CreateContest { signer: owner, signer_lamports: 1_000 };
    let acc = ticket::create_contest(
        &mut creator,
        "raffle".to_string(),
        "a raffle".to_string(),
        100,
        1,
        254,
        false,
        25,
    )
    .unwrap();
    assert_eq!(acc.data.owner, owner);
    assert_eq!(acc.data.name, "raffle");
    assert_eq!(acc.data.description, "a raffle");
    assert_eq!(acc.data.bump, 254);
    assert_eq!(acc.lamports, 25);

    let mut accounts = RegisterContest { contest: acc, signer: buyer, signer_lamports: 500 };
    assert_eq!(ticket::register_contest(&mut accounts, 25), Ok(()));
    assert_eq!(accounts.contest.data.winner, Some(buyer));
    assert_eq!(accounts.contest.lamports, 25);
    assert_eq!(accounts.signer_lamports, 500);

    let mut closer = CloseContest {
        contest: Some(accounts.contest),
        signer: owner,
        signer_lamports: 0,
    };
    assert_eq!(closer.close_contest(), Ok(()));
    assert_eq!(closer.signer_lamports, 25);
}
