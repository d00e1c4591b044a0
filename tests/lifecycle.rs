use solana_program::pubkey::Pubkey;
use stud_intro::address::expect_address;
use stud_intro::error::ReviewError;
use stud_intro::processor::{
    add_comment, add_stud, initialize_token_mint, process_instruction, update_stud, AccountView,
    Outcome, COMMENT_REWARD, RECORD_REWARD,
};
use stud_intro::state::{Decoded, StudAccountState, StudComment, StudCommentCounter};

const PROGRAM: [u8; 32] = [7u8; 32];
const OWNER: [u8; 32] = [1u8; 32];
const COMMENTER: [u8; 32] = [2u8; 32];

fn pid() -> Pubkey {
    Pubkey::new_from_array(PROGRAM)
}

fn pda(seeds: &[&[u8]]) -> ([u8; 32], u8) {
    let (k, b) = Pubkey::find_program_address(seeds, &pid());
    (k.to_bytes(), b)
}

fn acct(key: [u8; 32], is_signer: bool, owner: [u8; 32], data: Vec<u8>) -> AccountView {
    AccountView { key, is_signer, owner, data }
}

fn plain(key: [u8; 32]) -> AccountView {
    acct(key, false, [0u8; 32], Vec::new())
}

fn record_key(owner: &[u8; 32]) -> [u8; 32] {
    pda(&[owner]).0
}

fn counter_key(record: &[u8; 32]) -> [u8; 32] {
    pda(&[record, b"comment"]).0
}

fn comment_key(record: &[u8; 32], n: u64) -> [u8; 32] {
    pda(&[record, &n.to_be_bytes()]).0
}

fn mint_key() -> [u8; 32] {
    pda(&[b"token_mint"]).0
}

fn auth_key() -> [u8; 32] {
    pda(&[b"token_auth"]).0
}

fn ata(wallet: &[u8; 32]) -> [u8; 32] {
    spl_associated_token_account::get_associated_token_address(
        &Pubkey::new_from_array(*wallet),
        &Pubkey::new_from_array(mint_key()),
    )
    .to_bytes()
}

fn token_program() -> [u8; 32] {
    spl_token::ID.to_bytes()
}

fn add_accounts(owner: [u8; 32], record_data: Vec<u8>) -> Vec<AccountView> {
    let rec = record_key(&owner);
    vec![
        acct(owner, true, [0u8; 32], Vec::new()),
        acct(rec, false, [0u8; 32], record_data),
        plain(counter_key(&rec)),
        plain(mint_key()),
        plain(auth_key()),
        plain(ata(&owner)),
        plain([0u8; 32]),
        plain(token_program()),
    ]
}

fn update_accounts(owner: [u8; 32], record_data: Vec<u8>) -> Vec<AccountView> {
    vec![
        acct(owner, true, [0u8; 32], Vec::new()),
        acct(record_key(&owner), false, PROGRAM, record_data),
    ]
}

fn comment_accounts(author: [u8; 32], record: [u8; 32], counter_data: Vec<u8>, n: u64) -> Vec<AccountView> {
    vec![
        acct(author, true, [0u8; 32], Vec::new()),
        plain(record),
        acct(counter_key(&record), false, PROGRAM, counter_data),
        plain(comment_key(&record, n)),
        plain(mint_key()),
        plain(auth_key()),
        plain(ata(&author)),
        plain([0u8; 32]),
        plain(token_program()),
    ]
}

fn text_payload(tag: u8, fields: &[&[u8]]) -> Vec<u8> {
    let mut out = vec![tag];
    for f in fields {
        out.extend_from_slice(&(f.len() as u32).to_le_bytes());
        out.extend_from_slice(f);
    }
    out
}

fn stored_record(owner: [u8; 32], name: &[u8], message: &[u8]) -> Vec<u8> {
    let plan = add_stud(&PROGRAM, &add_accounts(owner, Vec::new()), name.to_vec(), message.to_vec()).unwrap();
    plan.record_data
}

#[test]
fn add_record_then_read_back() {
    let plan = add_stud(&PROGRAM, &add_accounts(OWNER, Vec::new()), b"Ada".to_vec(), b"hi".to_vec()).unwrap();
    let rec = record_key(&OWNER);
    assert_eq!(plan.record.address, rec);
    assert_eq!(plan.record.payer, OWNER);
    assert_eq!(plan.record.owner, PROGRAM);
    assert_eq!(plan.record.space, 62);
    assert_eq!(plan.record_data.len(), 62);
    assert_eq!(plan.record.seeds, vec![OWNER.to_vec()]);
    assert_eq!(plan.record.bump, pda(&[&OWNER]).1);
    let mut cell = vec![0u8; plan.record.space as usize];
    cell[..plan.record_data.len()].copy_from_slice(&plan.record_data);
    match StudAccountState::decode(&cell) {
        Ok(Decoded::Record(s)) => {
            assert!(s.initialized);
            assert_eq!(s.reviewer, OWNER);
            assert_eq!(s.name, b"Ada".to_vec());
            assert_eq!(s.message, b"hi".to_vec());
            assert_eq!(s.discriminator, b"introduction".to_vec());
        }
        other => panic!("unexpected {:?}", other),
    }
    assert_eq!(plan.counter.address, counter_key(&rec));
    assert_eq!(plan.counter.space, 20);
    assert_eq!(plan.counter.seeds, vec![rec.to_vec(), b"comment".to_vec()]);
    match StudCommentCounter::decode(&plan.counter_data) {
        Ok(Decoded::Record(c)) => assert_eq!(c.counter, 0),
        other => panic!("unexpected {:?}", other),
    }
    assert_eq!(plan.reward.amount, RECORD_REWARD);
    assert_eq!(plan.reward.amount, 10_000_000_000);
    assert_eq!(plan.reward.mint, mint_key());
    assert_eq!(plan.reward.authority, auth_key());
    assert_eq!(plan.reward.authority_bump, pda(&[b"token_auth"]).1);
    assert_eq!(plan.reward.destination, ata(&OWNER));
    assert_eq!(plan.reward.token_program, token_program());
}

#[test]
fn add_record_twice_is_refused() {
    let data = stored_record(OWNER, b"Ada", b"hi");
    let again = add_stud(&PROGRAM, &add_accounts(OWNER, data.clone()), b"Bob".to_vec(), b"yo".to_vec());
    assert!(matches!(again, Err(ReviewError::AlreadyInitialized)));
    match StudAccountState::decode(&data) {
        Ok(Decoded::Record(s)) => assert_eq!(s.name, b"Ada".to_vec()),
        other => panic!("unexpected {:?}", other),
    }
}

#[test]
fn add_record_refuses_existing_counter() {
    let mut accounts = add_accounts(OWNER, Vec::new());
    accounts[2].data = StudCommentCounter { discriminator: b"counter".to_vec(), initialized: true, counter: 3 }.encode();
    let r = add_stud(&PROGRAM, &accounts, b"Ada".to_vec(), b"hi".to_vec());
    assert!(matches!(r, Err(ReviewError::AlreadyInitialized)));
}

#[test]
fn update_before_add_is_uninitialized() {
    let r = update_stud(&PROGRAM, &update_accounts(OWNER, vec![0u8; 1000]), b"Ada".to_vec(), b"hi".to_vec());
    assert!(matches!(r, Err(ReviewError::UninitializedAccount)));
}

#[test]
fn oversized_text_is_refused() {
    let name = vec![b'a'; 500];
    let message = vec![b'b'; 460];
    let r = add_stud(&PROGRAM, &add_accounts(OWNER, Vec::new()), name.clone(), message.clone());
    assert!(matches!(r, Err(ReviewError::DataLimitExceeded)));
    let data = stored_record(OWNER, b"Ada", b"hi");
    let u = update_stud(&PROGRAM, &update_accounts(OWNER, data), name, message);
    assert!(matches!(u, Err(ReviewError::DataLimitExceeded)));
}

#[test]
fn largest_record_fits() {
    let name = vec![b'a'; 500];
    let message = vec![b'b'; 443];
    let plan = add_stud(&PROGRAM, &add_accounts(OWNER, Vec::new()), name.clone(), message.clone()).unwrap();
    assert_eq!(plan.record.space, 1000);
    let one_more = add_stud(&PROGRAM, &add_accounts(OWNER, Vec::new()), name, vec![b'b'; 444]);
    assert!(matches!(one_more, Err(ReviewError::DataLimitExceeded)));
}

#[test]
fn update_rewrites_in_place() {
    let mut cell = stored_record(OWNER, b"Ada", b"hello there");
    cell.extend_from_slice(&[5u8; 10]);
    let w = update_stud(&PROGRAM, &update_accounts(OWNER, cell.clone()), b"Ada L".to_vec(), b"hi".to_vec()).unwrap();
    assert_eq!(w.address, record_key(&OWNER));
    match StudAccountState::decode(&w.data) {
        Ok(Decoded::Record(s)) => {
            assert_eq!(s.reviewer, OWNER);
            assert_eq!(s.name, b"Ada L".to_vec());
            assert_eq!(s.message, b"hi".to_vec());
        }
        other => panic!("unexpected {:?}", other),
    }
    let too_big = update_stud(&PROGRAM, &update_accounts(OWNER, stored_record(OWNER, b"A", b"b")), b"Ada".to_vec(), b"hi".to_vec());
    assert!(matches!(too_big, Err(ReviewError::DataLimitExceeded)));
}

#[test]
fn update_checks_owner_signature_and_address() {
    let data = stored_record(OWNER, b"Ada", b"hi");
    let mut foreign = update_accounts(OWNER, data.clone());
    foreign[1].owner = [0u8; 32];
    assert!(matches!(update_stud(&PROGRAM, &foreign, b"x".to_vec(), b"y".to_vec()), Err(ReviewError::IllegalOwner)));
    let mut unsigned = update_accounts(OWNER, data.clone());
    unsigned[0].is_signer = false;
    assert!(matches!(update_stud(&PROGRAM, &unsigned, b"x".to_vec(), b"y".to_vec()), Err(ReviewError::MissingSignature)));
    let short = vec![acct(OWNER, true, [0u8; 32], Vec::new())];
    assert!(matches!(update_stud(&PROGRAM, &short, b"x".to_vec(), b"y".to_vec()), Err(ReviewError::NotEnoughAccountKeys)));
    let mut garbage = update_accounts(OWNER, vec![9u8; 3]);
    garbage[1].owner = PROGRAM;
    assert!(matches!(update_stud(&PROGRAM, &garbage, b"x".to_vec(), b"y".to_vec()), Err(ReviewError::MalformedPayload)));
}

#[test]
fn update_at_wrong_address_is_invalid() {
    let data = stored_record(OWNER, b"Ada", b"hi");
    let mut accounts = update_accounts(OWNER, data);
    accounts[1].key = record_key(&COMMENTER);
    let r = update_stud(&PROGRAM, &accounts, b"Ada".to_vec(), b"hi".to_vec());
    assert!(matches!(r, Err(ReviewError::InvalidAddress)));
    let huge = update_stud(&PROGRAM, &accounts, vec![b'a'; 2000], Vec::new());
    assert!(matches!(huge, Err(ReviewError::InvalidAddress)));
}

#[test]
fn add_record_checks() {
    let mut unsigned = add_accounts(OWNER, Vec::new());
    unsigned[0].is_signer = false;
    assert!(matches!(add_stud(&PROGRAM, &unsigned, b"a".to_vec(), b"b".to_vec()), Err(ReviewError::MissingSignature)));
    let mut wrong = add_accounts(OWNER, Vec::new());
    wrong[1].key = record_key(&COMMENTER);
    assert!(matches!(add_stud(&PROGRAM, &wrong, b"a".to_vec(), b"b".to_vec()), Err(ReviewError::InvalidAddress)));
    let mut wrong_counter = add_accounts(OWNER, Vec::new());
    wrong_counter[2].key = [3u8; 32];
    assert!(matches!(add_stud(&PROGRAM, &wrong_counter, b"a".to_vec(), b"b".to_vec()), Err(ReviewError::InvalidAddress)));
    let few = add_accounts(OWNER, Vec::new())[..7].to_vec();
    assert!(matches!(add_stud(&PROGRAM, &few, b"a".to_vec(), b"b".to_vec()), Err(ReviewError::NotEnoughAccountKeys)));
}

#[test]
fn reward_accounts_are_checked() {
    let mut wrong_ata = add_accounts(OWNER, Vec::new());
    wrong_ata[5].key = OWNER;
    assert!(matches!(add_stud(&PROGRAM, &wrong_ata, b"a".to_vec(), b"b".to_vec()), Err(ReviewError::InvalidAddress)));
    let mut wrong_mint = add_accounts(OWNER, Vec::new());
    wrong_mint[3].key = auth_key();
    assert!(matches!(add_stud(&PROGRAM, &wrong_mint, b"a".to_vec(), b"b".to_vec()), Err(ReviewError::InvalidAddress)));
    let mut wrong_auth = add_accounts(OWNER, Vec::new());
    wrong_auth[4].key = mint_key();
    assert!(matches!(add_stud(&PROGRAM, &wrong_auth, b"a".to_vec(), b"b".to_vec()), Err(ReviewError::InvalidAddress)));
    let mut wrong_program = add_accounts(OWNER, Vec::new());
    wrong_program[7].key = [0u8; 32];
    assert!(matches!(add_stud(&PROGRAM, &wrong_program, b"a".to_vec(), b"b".to_vec()), Err(ReviewError::InvalidAddress)));
}

#[test]
fn scenario_record_then_comment() {
    let plan = add_stud(&PROGRAM, &add_accounts(OWNER, Vec::new()), b"Ada".to_vec(), b"hi".to_vec()).unwrap();
    match StudAccountState::decode(&plan.record_data) {
        Ok(Decoded::Record(s)) => assert!(s.initialized),
        other => panic!("unexpected {:?}", other),
    }
    let rec = record_key(&OWNER);
    let c = add_comment(&PROGRAM, &comment_accounts(COMMENTER, rec, plan.counter_data.clone(), 0), b"nice".to_vec()).unwrap();
    match StudCommentCounter::decode(&c.counter.data) {
        Ok(Decoded::Record(k)) => assert_eq!(k.counter, 1),
        other => panic!("unexpected {:?}", other),
    }
    match StudComment::decode(&c.comment_data) {
        Ok(Decoded::Record(m)) => {
            assert_eq!(m.count, 1);
            assert_eq!(m.commenter, COMMENTER);
            assert_eq!(m.introduction, rec);
            assert_eq!(m.comment, b"nice".to_vec());
        }
        other => panic!("unexpected {:?}", other),
    }
    assert_eq!(c.comment.address, comment_key(&rec, 0));
    assert_eq!(c.comment.seeds, vec![rec.to_vec(), 0u64.to_be_bytes().to_vec()]);
    assert_eq!(c.comment.space, 92);
    assert_eq!(c.comment.space as usize, c.comment_data.len());
    assert_eq!(c.counter.address, counter_key(&rec));
    assert_eq!(c.reward.amount, COMMENT_REWARD);
    assert_eq!(c.reward.amount, 5_000_000_000);
    assert_eq!(c.reward.destination, ata(&COMMENTER));
}

#[test]
fn comments_in_sequence() {
    let plan = add_stud(&PROGRAM, &add_accounts(OWNER, Vec::new()), b"Ada".to_vec(), b"hi".to_vec()).unwrap();
    let rec = record_key(&OWNER);
    let mut counter = plan.counter_data.clone();
    let mut addresses = Vec::new();
    for n in 0..3u64 {
        let c = add_comment(&PROGRAM, &comment_accounts(COMMENTER, rec, counter.clone(), n), format!("c{}", n).into_bytes()).unwrap();
        match StudComment::decode(&c.comment_data) {
            Ok(Decoded::Record(m)) => assert_eq!(m.count, n + 1),
            other => panic!("unexpected {:?}", other),
        }
        addresses.push(c.comment.address);
        counter[..c.counter.data.len()].copy_from_slice(&c.counter.data);
    }
    match StudCommentCounter::decode(&counter) {
        Ok(Decoded::Record(k)) => assert_eq!(k.counter, 3),
        other => panic!("unexpected {:?}", other),
    }
    assert_ne!(addresses[0], addresses[1]);
    assert_ne!(addresses[1], addresses[2]);
    assert_ne!(addresses[0], addresses[2]);
}

#[test]
fn comment_checks() {
    let rec = record_key(&OWNER);
    let fresh = StudCommentCounter { discriminator: b"counter".to_vec(), initialized: true, counter: 0 }.encode();
    let stale = add_comment(&PROGRAM, &comment_accounts(COMMENTER, rec, fresh.clone(), 1), b"x".to_vec());
    assert!(matches!(stale, Err(ReviewError::InvalidAddress)));
    let empty = add_comment(&PROGRAM, &comment_accounts(COMMENTER, rec, vec![0u8; 20], 0), b"x".to_vec());
    assert!(matches!(empty, Err(ReviewError::UninitializedAccount)));
    let bad = add_comment(&PROGRAM, &comment_accounts(COMMENTER, rec, vec![1u8; 5], 0), b"x".to_vec());
    assert!(matches!(bad, Err(ReviewError::MalformedPayload)));
    let mut unsigned = comment_accounts(COMMENTER, rec, fresh.clone(), 0);
    unsigned[0].is_signer = false;
    assert!(matches!(add_comment(&PROGRAM, &unsigned, b"x".to_vec()), Err(ReviewError::MissingSignature)));
    let mut foreign = comment_accounts(COMMENTER, rec, fresh.clone(), 0);
    foreign[2].owner = [0u8; 32];
    assert!(matches!(add_comment(&PROGRAM, &foreign, b"x".to_vec()), Err(ReviewError::IllegalOwner)));
    let mut wrong_counter = comment_accounts(COMMENTER, rec, fresh.clone(), 0);
    wrong_counter[2].key = [4u8; 32];
    assert!(matches!(add_comment(&PROGRAM, &wrong_counter, b"x".to_vec()), Err(ReviewError::InvalidAddress)));
    let full = StudCommentCounter { discriminator: b"counter".to_vec(), initialized: true, counter: u64::MAX }.encode();
    let r = add_comment(&PROGRAM, &comment_accounts(COMMENTER, rec, full, 0), b"x".to_vec());
    assert!(matches!(r, Err(ReviewError::DataLimitExceeded)));
    let mut wrong_ata = comment_accounts(COMMENTER, rec, fresh, 0);
    wrong_ata[6].key = ata(&OWNER);
    assert!(matches!(add_comment(&PROGRAM, &wrong_ata, b"x".to_vec()), Err(ReviewError::InvalidAddress)));
}

#[test]
fn dispatch_unknown_tag_is_unsupported() {
    let buf = text_payload(3, &[b"Ada", b"hi"]);
    let r = process_instruction(&PROGRAM, &add_accounts(OWNER, Vec::new()), &buf);
    assert!(matches!(r, Err(ReviewError::UnsupportedOperation)));
}

#[test]
fn dispatch_runs_each_operation() {
    let add = process_instruction(&PROGRAM, &add_accounts(OWNER, Vec::new()), &text_payload(0, &[b"Ada", b"hi"]));
    let plan = match add {
        Ok(Outcome::Added(p)) => p,
        other => panic!("unexpected {:?}", other),
    };
    let upd = process_instruction(&PROGRAM, &update_accounts(OWNER, plan.record_data.clone()), &text_payload(1, &[b"Al", b"yo"]));
    assert!(matches!(upd, Ok(Outcome::Updated(_))));
    let rec = record_key(&OWNER);
    let com = process_instruction(&PROGRAM, &comment_accounts(COMMENTER, rec, plan.counter_data, 0), &text_payload(2, &[b"nice"]));
    assert!(matches!(com, Ok(Outcome::Commented(_))));
    let bad = process_instruction(&PROGRAM, &add_accounts(OWNER, Vec::new()), &[0u8, 1]);
    assert!(matches!(bad, Err(ReviewError::MalformedPayload)));
}

#[test]
fn derivation_is_deterministic() {
    let seeds = vec![OWNER.to_vec()];
    let (key, bump) = pda(&[&OWNER]);
    assert_eq!(expect_address(&seeds, &PROGRAM, &key), Some(bump));
    assert_eq!(expect_address(&seeds, &PROGRAM, &key), Some(bump));
    assert_eq!(expect_address(&vec![COMMENTER.to_vec()], &PROGRAM, &key), None);
    assert_ne!(record_key(&OWNER), record_key(&COMMENTER));
    assert_ne!(comment_key(&key, 0), comment_key(&key, 1));
}

#[test]
fn mint_setup() {
    let accounts = vec![
        acct(OWNER, true, [0u8; 32], Vec::new()),
        plain(mint_key()),
        plain(auth_key()),
        plain([0u8; 32]),
        plain(token_program()),
        plain([6u8; 32]),
    ];
    let plan = initialize_token_mint(&PROGRAM, &accounts).unwrap();
    assert_eq!(plan.mint.address, mint_key());
    assert_eq!(plan.mint.space, 82);
    assert_eq!(plan.mint.owner, token_program());
    assert_eq!(plan.mint.bump, pda(&[b"token_mint"]).1);
    assert_eq!(plan.authority, auth_key());
    assert_eq!(plan.decimals, 9);
    let mut wrong = accounts.clone();
    wrong[2].key = mint_key();
    assert!(matches!(initialize_token_mint(&PROGRAM, &wrong), Err(ReviewError::InvalidAddress)));
    assert!(matches!(initialize_token_mint(&PROGRAM, &accounts[..5]), Err(ReviewError::NotEnoughAccountKeys)));
}
