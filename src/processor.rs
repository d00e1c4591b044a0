//! The record lifecycle, the comment collection and the reward step. Each
//! command is checked against the accounts it was given and, when every check
//! passes, turned into a plan: the cells to create, the bytes to write and the
//! reward to mint. The host carries a plan out as one all-or-nothing unit; a
//! refused command yields no plan and so touches nothing.
use vstd::prelude::*;

use crate::address::{
    associated_token_address, authority_seed_list, authority_seeds, bump_of, check_token_program,
    comment_seed_list, comment_seeds, counter_seed_list, counter_seeds, derives_to, expect_address,
    get_associated_token_address, is_token_program, mint_seed_list, mint_seeds, record_seed_list,
    record_seeds, same_key,
};
use crate::error::ReviewError;
use crate::instruction::{parse_instruction, InstructionModel, StudInstruction};
use crate::state::{
    account_bytes, comment_bytes, comment_tag, counter_bytes, counter_tag, introduction_tag,
    parse_account, parse_counter, AccountStateModel, CommentModel, CounterModel, Decoded,
    StudAccountState, StudComment, StudCommentCounter, MAX_RECORD_SIZE,
};

verus! {

/// Reward for creating a primary record: 10 tokens of 9 decimals.
pub const RECORD_REWARD: u64 = 10_000_000_000;

/// Reward for adding a comment: 5 tokens of 9 decimals.
pub const COMMENT_REWARD: u64 = 5_000_000_000;

/// Space of a token mint account.
pub const MINT_SPACE: u64 = 82;

/// Decimals of the reward mint.
pub const MINT_DECIMALS: u8 = 9;

/// An account as the host hands it to a command.
#[derive(Debug, Clone)]
pub struct AccountView {
    pub key: [u8; 32],
    pub is_signer: bool,
    /// The program that owns the cell.
    pub owner: [u8; 32],
    pub data: Vec<u8>,
}

/// A cell for the host to allocate with `space` bytes (zero-filled), funded by
/// `payer` and owned by `owner`; this program signs for it with `seeds` and `bump`.
#[derive(Debug, Clone)]
pub struct CellCreation {
    pub payer: [u8; 32],
    pub address: [u8; 32],
    pub space: u64,
    pub owner: [u8; 32],
    pub seeds: Vec<Vec<u8>>,
    pub bump: u8,
}

/// Bytes to write at the start of an existing cell; the rest of the cell keeps
/// its bytes.
#[derive(Debug, Clone)]
pub struct CellWrite {
    pub address: [u8; 32],
    pub data: Vec<u8>,
}

/// A request to the token program to mint `amount` into `destination`, signed
/// by the mint authority's derived address.
#[derive(Debug, Clone, Copy)]
pub struct RewardMint {
    pub token_program: [u8; 32],
    pub mint: [u8; 32],
    pub destination: [u8; 32],
    pub authority: [u8; 32],
    pub authority_bump: u8,
    pub amount: u64,
}

/// Creating a primary record: its cell, its counter's cell, and the reward.
/// The record's bytes go into the new record cell, the counter's into the new
/// counter cell.
#[derive(Debug, Clone)]
pub struct AddStudPlan {
    pub record: CellCreation,
    pub record_data: Vec<u8>,
    pub counter: CellCreation,
    pub counter_data: Vec<u8>,
    pub reward: RewardMint,
}

/// Adding a comment: its cell and bytes, the counter's new bytes, and the reward.
#[derive(Debug, Clone)]
pub struct CommentPlan {
    pub comment: CellCreation,
    pub comment_data: Vec<u8>,
    pub counter: CellWrite,
    pub reward: RewardMint,
}

/// Setting up the reward mint: its cell (owned by the token program) and the
/// mint's initialization with `authority` and `decimals`.
#[derive(Debug, Clone)]
pub struct MintSetupPlan {
    pub token_program: [u8; 32],
    pub mint: CellCreation,
    pub authority: [u8; 32],
    pub decimals: u8,
}

/// The plan of a dispatched command.
#[derive(Debug, Clone)]
pub enum Outcome {
    Added(AddStudPlan),
    Updated(CellWrite),
    Commented(CommentPlan),
}

/// The cell's bytes after `bytes` were written at its start.
pub open spec fn overwrite(cell: Seq<u8>, bytes: Seq<u8>) -> Seq<u8> {
    if bytes.len() <= cell.len() {
        bytes + cell.subrange(bytes.len() as int, cell.len() as int)
    } else {
        bytes
    }
}

/// Encoded size of a primary record holding `name` and `message`.
pub open spec fn record_size(name: Seq<u8>, message: Seq<u8>) -> nat {
    (4 + 12) + 1 + 32 + (4 + name.len()) + (4 + message.len())
}

/// Encoded size of a comment holding `text`.
pub open spec fn comment_size(text: Seq<u8>) -> nat {
    (4 + 7) + 1 + 32 + 32 + (4 + text.len()) + 8
}

/// The cell holds an initialized primary record.
pub open spec fn holds_record(d: Seq<u8>) -> bool {
    parse_account(d) matches Some(m) && m.initialized
}

/// The cell holds an initialized counter.
pub open spec fn holds_counter(d: Seq<u8>) -> bool {
    parse_counter(d) matches Some(m) && m.initialized
}

/// The primary record that a successful add writes.
pub open spec fn new_record(owner: Seq<u8>, name: Seq<u8>, message: Seq<u8>) -> AccountStateModel {
    AccountStateModel {
        discriminator: introduction_tag(),
        initialized: true,
        reviewer: owner,
        name,
        message,
    }
}

/// A counter that stands at `n`.
pub open spec fn counter_at(n: u64) -> CounterModel {
    CounterModel { discriminator: counter_tag(), initialized: true, counter: n }
}

/// The error of the reward step, if any: the mint, its authority and the token
/// program must be the expected ones, and the destination must be the actor's
/// associated token account for the mint.
pub open spec fn reward_error(
    program_id: Seq<u8>,
    actor: Seq<u8>,
    mint: Seq<u8>,
    authority: Seq<u8>,
    destination: Seq<u8>,
    token_program: Seq<u8>,
) -> Option<ReviewError> {
    if derives_to(mint_seeds(), program_id, mint) && derives_to(authority_seeds(), program_id, authority)
        && destination == associated_token_address(actor, mint) && is_token_program(token_program) {
        None
    } else {
        Some(ReviewError::InvalidAddress)
    }
}

/// The reward request minted into the actor's account after a successful write.
pub open spec fn reward_is(
    m: RewardMint,
    program_id: Seq<u8>,
    mint: [u8; 32],
    authority: [u8; 32],
    destination: [u8; 32],
    token_program: [u8; 32],
    amount: u64,
) -> bool {
    &&& m.token_program == token_program
    &&& m.mint == mint
    &&& m.destination == destination
    &&& m.authority == authority
    &&& m.authority_bump == bump_of(authority_seeds(), program_id)
    &&& m.amount == amount
}

/// The error of adding a record, if any, in the order the checks are made.
/// Accounts: initializer, record, counter, mint, mint authority, reward
/// account, system program, token program.
pub open spec fn add_stud_error(
    program_id: Seq<u8>,
    accounts: Seq<AccountView>,
    name: Seq<u8>,
    message: Seq<u8>,
) -> Option<ReviewError> {
    if accounts.len() < 8 {
        Some(ReviewError::NotEnoughAccountKeys)
    } else if !accounts[0].is_signer {
        Some(ReviewError::MissingSignature)
    } else if !derives_to(record_seeds(accounts[0].key@), program_id, accounts[1].key@) {
        Some(ReviewError::InvalidAddress)
    } else if record_size(name, message) > 1000 {
        Some(ReviewError::DataLimitExceeded)
    } else if holds_record(accounts[1].data@) {
        Some(ReviewError::AlreadyInitialized)
    } else if !derives_to(counter_seeds(accounts[1].key@), program_id, accounts[2].key@) {
        Some(ReviewError::InvalidAddress)
    } else if holds_counter(accounts[2].data@) {
        Some(ReviewError::AlreadyInitialized)
    } else {
        reward_error(
            program_id,
            accounts[0].key@,
            accounts[3].key@,
            accounts[4].key@,
            accounts[5].key@,
            accounts[7].key@,
        )
    }
}

/// The plan of a successful add.
pub open spec fn add_stud_plan_is(
    p: AddStudPlan,
    program_id: [u8; 32],
    accounts: Seq<AccountView>,
    name: Seq<u8>,
    message: Seq<u8>,
) -> bool {
    let owner = accounts[0].key;
    let record = accounts[1].key;
    &&& p.record.payer == owner
    &&& p.record.address == record
    &&& p.record.space == record_size(name, message)
    &&& p.record.owner == program_id
    &&& p.record.seeds.deep_view() == record_seeds(owner@)
    &&& p.record.bump == bump_of(record_seeds(owner@), program_id@)
    &&& p.record_data@ == account_bytes(new_record(owner@, name, message))
    &&& p.counter.payer == owner
    &&& p.counter.address == accounts[2].key
    &&& p.counter.space == 20
    &&& p.counter.owner == program_id
    &&& p.counter.seeds.deep_view() == counter_seeds(record@)
    &&& p.counter.bump == bump_of(counter_seeds(record@), program_id@)
    &&& p.counter_data@ == counter_bytes(counter_at(0))
    &&& reward_is(
        p.reward,
        program_id@,
        accounts[3].key,
        accounts[4].key,
        accounts[5].key,
        accounts[7].key,
        RECORD_REWARD,
    )
}

/// The record after an update: new text, everything else kept.
pub open spec fn updated_record(m: AccountStateModel, name: Seq<u8>, message: Seq<u8>) -> AccountStateModel {
    AccountStateModel { name, message, ..m }
}

/// The error of updating a record, if any, in the order the checks are made.
/// Accounts: initializer, record.
pub open spec fn update_stud_error(
    program_id: Seq<u8>,
    accounts: Seq<AccountView>,
    name: Seq<u8>,
    message: Seq<u8>,
) -> Option<ReviewError> {
    if accounts.len() < 2 {
        Some(ReviewError::NotEnoughAccountKeys)
    } else if accounts[1].owner@ != program_id {
        Some(ReviewError::IllegalOwner)
    } else if !accounts[0].is_signer {
        Some(ReviewError::MissingSignature)
    } else if !derives_to(record_seeds(accounts[0].key@), program_id, accounts[1].key@) {
        Some(ReviewError::InvalidAddress)
    } else if record_size(name, message) > 1000 {
        Some(ReviewError::DataLimitExceeded)
    } else {
        match parse_account(accounts[1].data@) {
            None => Some(ReviewError::MalformedPayload),
            Some(m) => if !m.initialized {
                Some(ReviewError::UninitializedAccount)
            } else if account_bytes(updated_record(m, name, message)).len()
                > accounts[1].data@.len() {
                Some(ReviewError::DataLimitExceeded)
            } else {
                None
            },
        }
    }
}

/// The write of a successful update.
pub open spec fn update_write_is(
    w: CellWrite,
    accounts: Seq<AccountView>,
    name: Seq<u8>,
    message: Seq<u8>,
) -> bool {
    &&& w.address == accounts[1].key
    &&& w.data@ == account_bytes(updated_record(parse_account(accounts[1].data@).unwrap(), name, message))
}

/// The error of adding a comment, if any, in the order the checks are made.
/// Accounts: commenter, record, counter, comment, mint, mint authority, reward
/// account, system program, token program.
pub open spec fn add_comment_error(
    program_id: Seq<u8>,
    accounts: Seq<AccountView>,
    message: Seq<u8>,
) -> Option<ReviewError> {
    if accounts.len() < 9 {
        Some(ReviewError::NotEnoughAccountKeys)
    } else if !accounts[0].is_signer {
        Some(ReviewError::MissingSignature)
    } else if accounts[2].owner@ != program_id {
        Some(ReviewError::IllegalOwner)
    } else if !derives_to(counter_seeds(accounts[1].key@), program_id, accounts[2].key@) {
        Some(ReviewError::InvalidAddress)
    } else {
        match parse_counter(accounts[2].data@) {
            None => Some(ReviewError::MalformedPayload),
            Some(c) => if !c.initialized {
                Some(ReviewError::UninitializedAccount)
            } else if c.counter == u64::MAX {
                Some(ReviewError::DataLimitExceeded)
            } else if !derives_to(
                comment_seeds(accounts[1].key@, c.counter),
                program_id,
                accounts[3].key@,
            ) {
                Some(ReviewError::InvalidAddress)
            } else {
                reward_error(
                    program_id,
                    accounts[0].key@,
                    accounts[4].key@,
                    accounts[5].key@,
                    accounts[6].key@,
                    accounts[8].key@,
                )
            },
        }
    }
}

/// The plan of a successful comment: the comment made while the counter stood
/// at `n` is derived from `n` and numbered `n + 1`, and the counter moves to `n + 1`.
pub open spec fn add_comment_plan_is(
    p: CommentPlan,
    program_id: [u8; 32],
    accounts: Seq<AccountView>,
    message: Seq<u8>,
) -> bool {
    let n = parse_counter(accounts[2].data@).unwrap().counter;
    let author = accounts[0].key;
    let record = accounts[1].key;
    &&& p.comment.payer == author
    &&& p.comment.address == accounts[3].key
    &&& p.comment.space == comment_size(message)
    &&& p.comment.owner == program_id
    &&& p.comment.seeds.deep_view() == comment_seeds(record@, n)
    &&& p.comment.bump == bump_of(comment_seeds(record@, n), program_id@)
    &&& p.comment_data@ == comment_bytes(
        CommentModel {
            discriminator: comment_tag(),
            initialized: true,
            introduction: record@,
            commenter: author@,
            comment: message,
            count: (n + 1) as u64,
        },
    )
    &&& p.counter.address == accounts[2].key
    &&& p.counter.data@ == counter_bytes(counter_at((n + 1) as u64))
    &&& reward_is(
        p.reward,
        program_id@,
        accounts[4].key,
        accounts[5].key,
        accounts[6].key,
        accounts[8].key,
        COMMENT_REWARD,
    )
}

/// The error of setting up the mint, if any. Accounts: initializer, mint,
/// mint authority, system program, token program, rent sysvar.
pub open spec fn mint_setup_error(program_id: Seq<u8>, accounts: Seq<AccountView>) -> Option<ReviewError> {
    if accounts.len() < 6 {
        Some(ReviewError::NotEnoughAccountKeys)
    } else if !derives_to(mint_seeds(), program_id, accounts[1].key@) || !is_token_program(
        accounts[4].key@,
    ) || !derives_to(authority_seeds(), program_id, accounts[2].key@) {
        Some(ReviewError::InvalidAddress)
    } else {
        None
    }
}

/// Checks the accounts of the reward step and builds the mint request.
fn check_reward(
    program_id: &[u8; 32],
    actor: &[u8; 32],
    mint: &[u8; 32],
    authority: &[u8; 32],
    destination: &[u8; 32],
    token_program: &[u8; 32],
    amount: u64,
) -> (r: Result<RewardMint, ReviewError>)
    ensures
        match reward_error(program_id@, actor@, mint@, authority@, destination@, token_program@) {
            Some(e) => r == Err::<RewardMint, ReviewError>(e),
            None => r matches Ok(m) && reward_is(
                m,
                program_id@,
                *mint,
                *authority,
                *destination,
                *token_program,
                amount,
            ),
        },
{
    let ms = mint_seed_list();
    if expect_address(&ms, program_id, mint).is_none() {
        return Err(ReviewError::InvalidAddress);
    }
    let auths = authority_seed_list();
    let bump = match expect_address(&auths, program_id, authority) {
        Some(b) => b,
        None => return Err(ReviewError::InvalidAddress),
    };
    let expected = get_associated_token_address(actor, mint);
    if !same_key(destination, &expected) {
        return Err(ReviewError::InvalidAddress);
    }
    if !check_token_program(token_program) {
        return Err(ReviewError::InvalidAddress);
    }
    Ok(
        RewardMint {
            token_program: *token_program,
            mint: *mint,
            destination: *destination,
            authority: *authority,
            authority_bump: bump,
            amount,
        },
    )
}

/// Creates the caller's primary record and its comment counter, and rewards
/// the caller.
pub fn add_stud(program_id: &[u8; 32], accounts: &[AccountView], name: Vec<u8>, message: Vec<u8>) -> (r:
    Result<AddStudPlan, ReviewError>)
    ensures
        match add_stud_error(program_id@, accounts@, name@, message@) {
            Some(e) => r == Err::<AddStudPlan, ReviewError>(e),
            None => r matches Ok(p) && add_stud_plan_is(p, *program_id, accounts@, name@, message@),
        },
{
    if accounts.len() < 8 {
        return Err(ReviewError::NotEnoughAccountKeys);
    }
    let initializer = &accounts[0];
    let pda_account = &accounts[1];
    let pda_counter = &accounts[2];
    if !initializer.is_signer {
        return Err(ReviewError::MissingSignature);
    }
    let record_seeds_v = record_seed_list(&initializer.key);
    let bump = match expect_address(&record_seeds_v, program_id, &pda_account.key) {
        Some(b) => b,
        None => return Err(ReviewError::InvalidAddress),
    };
    if name.len() > MAX_RECORD_SIZE || message.len() > MAX_RECORD_SIZE {
        return Err(ReviewError::DataLimitExceeded);
    }
    let size = StudAccountState::get_account_size(&name, &message);
    if size > MAX_RECORD_SIZE {
        return Err(ReviewError::DataLimitExceeded);
    }
    match StudAccountState::decode(pda_account.data.as_slice()) {
        Ok(Decoded::Record(_)) => return Err(ReviewError::AlreadyInitialized),
        _ => {},
    }
    let counter_seeds_v = counter_seed_list(&pda_account.key);
    let counter_bump = match expect_address(&counter_seeds_v, program_id, &pda_counter.key) {
        Some(b) => b,
        None => return Err(ReviewError::InvalidAddress),
    };
    match StudCommentCounter::decode(pda_counter.data.as_slice()) {
        Ok(Decoded::Record(_)) => return Err(ReviewError::AlreadyInitialized),
        _ => {},
    }
    let reward = check_reward(
        program_id,
        &initializer.key,
        &accounts[3].key,
        &accounts[4].key,
        &accounts[5].key,
        &accounts[7].key,
        RECORD_REWARD,
    )?;
    let record = StudAccountState {
        discriminator: StudAccountState::discriminator_bytes(),
        initialized: true,
        reviewer: initializer.key,
        name,
        message,
    };
    let record_data = record.encode();
    let counter = StudCommentCounter {
        discriminator: StudCommentCounter::discriminator_bytes(),
        initialized: true,
        counter: 0,
    };
    let counter_data = counter.encode();
    Ok(
        AddStudPlan {
            record: CellCreation {
                payer: initializer.key,
                address: pda_account.key,
                space: size as u64,
                owner: *program_id,
                seeds: record_seeds_v,
                bump,
            },
            record_data,
            counter: CellCreation {
                payer: initializer.key,
                address: pda_counter.key,
                space: StudCommentCounter::SIZE as u64,
                owner: *program_id,
                seeds: counter_seeds_v,
                bump: counter_bump,
            },
            counter_data,
            reward,
        },
    )
}

/// Replaces the name and message of the caller's primary record, in place.
pub fn update_stud(program_id: &[u8; 32], accounts: &[AccountView], name: Vec<u8>, message: Vec<u8>) -> (r:
    Result<CellWrite, ReviewError>)
    ensures
        match update_stud_error(program_id@, accounts@, name@, message@) {
            Some(e) => r == Err::<CellWrite, ReviewError>(e),
            None => r matches Ok(w) && update_write_is(w, accounts@, name@, message@),
        },
{
    if accounts.len() < 2 {
        return Err(ReviewError::NotEnoughAccountKeys);
    }
    let initializer = &accounts[0];
    let pda_account = &accounts[1];
    if !same_key(&pda_account.owner, program_id) {
        return Err(ReviewError::IllegalOwner);
    }
    if !initializer.is_signer {
        return Err(ReviewError::MissingSignature);
    }
    let seeds = record_seed_list(&initializer.key);
    if expect_address(&seeds, program_id, &pda_account.key).is_none() {
        return Err(ReviewError::InvalidAddress);
    }
    if name.len() > MAX_RECORD_SIZE || message.len() > MAX_RECORD_SIZE {
        return Err(ReviewError::DataLimitExceeded);
    }
    let size = StudAccountState::get_account_size(&name, &message);
    if size > MAX_RECORD_SIZE {
        return Err(ReviewError::DataLimitExceeded);
    }
    let current = match StudAccountState::decode(pda_account.data.as_slice()) {
        Err(e) => return Err(e),
        Ok(Decoded::Empty) => return Err(ReviewError::UninitializedAccount),
        Ok(Decoded::Record(s)) => s,
    };
    let updated = StudAccountState { name, message, ..current };
    let data = updated.encode();
    if data.len() > pda_account.data.len() {
        return Err(ReviewError::DataLimitExceeded);
    }
    Ok(CellWrite { address: pda_account.key, data })
}

/// Adds a comment to a primary record: the comment's cell is derived from the
/// counter's current value, the comment is numbered one past it, and the
/// counter moves up by one. The counter cell must be owned by this program and
/// sit at the address derived from the record. The host must serialize commands that write the
/// same counter cell; under that, no two comments share a counter value.
pub fn add_comment(program_id: &[u8; 32], accounts: &[AccountView], message: Vec<u8>) -> (r: Result<
    CommentPlan,
    ReviewError,
>)
    requires
        message@.len() <= u32::MAX,
    ensures
        match add_comment_error(program_id@, accounts@, message@) {
            Some(e) => r == Err::<CommentPlan, ReviewError>(e),
            None => r matches Ok(p) && add_comment_plan_is(p, *program_id, accounts@, message@),
        },
{
    if accounts.len() < 9 {
        return Err(ReviewError::NotEnoughAccountKeys);
    }
    let commenter = &accounts[0];
    let pda_review = &accounts[1];
    let pda_counter = &accounts[2];
    let pda_comment = &accounts[3];
    if !commenter.is_signer {
        return Err(ReviewError::MissingSignature);
    }
    if !same_key(&pda_counter.owner, program_id) {
        return Err(ReviewError::IllegalOwner);
    }
    let counter_seeds_v = counter_seed_list(&pda_review.key);
    if expect_address(&counter_seeds_v, program_id, &pda_counter.key).is_none() {
        return Err(ReviewError::InvalidAddress);
    }
    let current = match StudCommentCounter::decode(pda_counter.data.as_slice()) {
        Err(e) => return Err(e),
        Ok(Decoded::Empty) => return Err(ReviewError::UninitializedAccount),
        Ok(Decoded::Record(c)) => c.counter,
    };
    if current == u64::MAX {
        return Err(ReviewError::DataLimitExceeded);
    }
    let comment_seeds_v = comment_seed_list(&pda_review.key, current);
    let bump = match expect_address(&comment_seeds_v, program_id, &pda_comment.key) {
        Some(b) => b,
        None => return Err(ReviewError::InvalidAddress),
    };
    let reward = check_reward(
        program_id,
        &commenter.key,
        &accounts[4].key,
        &accounts[5].key,
        &accounts[6].key,
        &accounts[8].key,
        COMMENT_REWARD,
    )?;
    let size: u64 = (4 + 7) + 1 + 32 + 32 + (4 + message.len() as u64) + 8;
    let comment = StudComment {
        discriminator: StudComment::discriminator_bytes(),
        initialized: true,
        introduction: pda_review.key,
        commenter: commenter.key,
        comment: message,
        count: current + 1,
    };
    let comment_data = comment.encode();
    let counter = StudCommentCounter {
        discriminator: StudCommentCounter::discriminator_bytes(),
        initialized: true,
        counter: current + 1,
    };
    let counter_data = counter.encode();
    Ok(
        CommentPlan {
            comment: CellCreation {
                payer: commenter.key,
                address: pda_comment.key,
                space: size,
                owner: *program_id,
                seeds: comment_seeds_v,
                bump,
            },
            comment_data,
            counter: CellWrite { address: pda_counter.key, data: counter_data },
            reward,
        },
    )
}

/// Sets up the reward mint at its derived address, with the derived authority.
pub fn initialize_token_mint(program_id: &[u8; 32], accounts: &[AccountView]) -> (r: Result<
    MintSetupPlan,
    ReviewError,
>)
    ensures
        match mint_setup_error(program_id@, accounts@) {
            Some(e) => r == Err::<MintSetupPlan, ReviewError>(e),
            None => r matches Ok(p) && {
                &&& p.token_program == accounts@[4].key
                &&& p.mint.payer == accounts@[0].key
                &&& p.mint.address == accounts@[1].key
                &&& p.mint.space == MINT_SPACE
                &&& p.mint.owner == accounts@[4].key
                &&& p.mint.seeds.deep_view() == mint_seeds()
                &&& p.mint.bump == bump_of(mint_seeds(), program_id@)
                &&& p.authority == accounts@[2].key
                &&& p.decimals == MINT_DECIMALS
            },
        },
{
    if accounts.len() < 6 {
        return Err(ReviewError::NotEnoughAccountKeys);
    }
    let initializer = &accounts[0];
    let token_mint = &accounts[1];
    let mint_auth = &accounts[2];
    let token_program = &accounts[4];
    let ms = mint_seed_list();
    let mint_bump = match expect_address(&ms, program_id, &token_mint.key) {
        Some(b) => b,
        None => return Err(ReviewError::InvalidAddress),
    };
    if !check_token_program(&token_program.key) {
        return Err(ReviewError::InvalidAddress);
    }
    let auths = authority_seed_list();
    if expect_address(&auths, program_id, &mint_auth.key).is_none() {
        return Err(ReviewError::InvalidAddress);
    }
    Ok(
        MintSetupPlan {
            token_program: token_program.key,
            mint: CellCreation {
                payer: initializer.key,
                address: token_mint.key,
                space: MINT_SPACE,
                owner: token_program.key,
                seeds: ms,
                bump: mint_bump,
            },
            authority: mint_auth.key,
            decimals: MINT_DECIMALS,
        },
    )
}

/// What dispatching a command buffer yields: the decoding error, or the
/// operation's own error, or its plan.
pub open spec fn process_outcome_is(
    r: Result<Outcome, ReviewError>,
    program_id: [u8; 32],
    accounts: Seq<AccountView>,
    input: Seq<u8>,
) -> bool {
    match parse_instruction(input) {
        Err(e) => r == Err::<Outcome, ReviewError>(e),
        Ok(InstructionModel::AddStudent { name, message }) => match add_stud_error(
            program_id@,
            accounts,
            name,
            message,
        ) {
            Some(e) => r == Err::<Outcome, ReviewError>(e),
            None => r matches Ok(Outcome::Added(p)) && add_stud_plan_is(
                p,
                program_id,
                accounts,
                name,
                message,
            ),
        },
        Ok(InstructionModel::UpdateStudent { name, message }) => match update_stud_error(
            program_id@,
            accounts,
            name,
            message,
        ) {
            Some(e) => r == Err::<Outcome, ReviewError>(e),
            None => r matches Ok(Outcome::Updated(w)) && update_write_is(w, accounts, name, message),
        },
        Ok(InstructionModel::AddComment { message }) => match add_comment_error(
            program_id@,
            accounts,
            message,
        ) {
            Some(e) => r == Err::<Outcome, ReviewError>(e),
            None => r matches Ok(Outcome::Commented(p)) && add_comment_plan_is(
                p,
                program_id,
                accounts,
                message,
            ),
        },
    }
}

/// Decodes a command buffer and runs the operation it names.
pub fn process_instruction(program_id: &[u8; 32], accounts: &[AccountView], instruction_data: &[u8]) -> (r:
    Result<Outcome, ReviewError>)
    ensures
        process_outcome_is(r, *program_id, accounts@, instruction_data@),
{
    let instruction = StudInstruction::unpack(instruction_data)?;
    proof {
        crate::instruction::lemma_parsed_texts_fit(instruction_data@);
    }
    match instruction {
        StudInstruction::AddStudent { name, message } => match add_stud(
            program_id,
            accounts,
            name,
            message,
        ) {
            Ok(p) => Ok(Outcome::Added(p)),
            Err(e) => Err(e),
        },
        StudInstruction::UpdateStudent { name, message } => match update_stud(
            program_id,
            accounts,
            name,
            message,
        ) {
            Ok(w) => Ok(Outcome::Updated(w)),
            Err(e) => Err(e),
        },
        StudInstruction::AddComment { message } => match add_comment(program_id, accounts, message) {
            Ok(p) => Ok(Outcome::Commented(p)),
            Err(e) => Err(e),
        },
    }
}

} // verus!
