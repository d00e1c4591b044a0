//! What holds across calls: reading back what was written, refusing a second
//! creation, refusing oversized or misaddressed updates, and the numbering of
//! comments made one after another.
use vstd::prelude::*;

use crate::address::{derives_to, lemma_comment_seeds_distinct, record_seeds};
use crate::codec::u32_from_le;
use crate::error::ReviewError;
use crate::processor::{
    add_comment_error, add_comment_plan_is, add_stud_error, add_stud_plan_is, counter_at,
    holds_record, new_record, overwrite, record_size, update_stud_error, AccountView, CommentPlan,
    AddStudPlan,
};
use crate::state::{
    comment_bytes, comment_tag, introduction_tag, lemma_account_round_trip, lemma_comment_reads_back,
    lemma_counter_round_trip, parse_account, parse_comment, parse_counter, CommentModel,
};

verus! {

/// A freshly allocated cell: `n` zero bytes.
pub open spec fn zeroed(n: nat) -> Seq<u8> {
    Seq::new(n, |i: int| 0u8)
}

/// After a successful add, the new record cell (allocated with the planned
/// space, then written with the planned bytes) reads back as an initialized
/// record of the caller holding exactly the submitted name and message.
pub proof fn lemma_add_then_read(
    program_id: [u8; 32],
    accounts: Seq<AccountView>,
    name: Seq<u8>,
    message: Seq<u8>,
    p: AddStudPlan,
)
    requires
        add_stud_error(program_id@, accounts, name, message) is None,
        add_stud_plan_is(p, program_id, accounts, name, message),
    ensures
        parse_account(overwrite(zeroed(p.record.space as nat), p.record_data@)) == Some(
            new_record(accounts[0].key@, name, message),
        ),
        holds_record(overwrite(zeroed(p.record.space as nat), p.record_data@)),
{
    let m = new_record(accounts[0].key@, name, message);
    let cell = overwrite(zeroed(p.record.space as nat), p.record_data@);
    assert(introduction_tag().len() == 12);
    lemma_account_round_trip(m, Seq::empty());
    assert(p.record_data@ + Seq::<u8>::empty() =~= p.record_data@);
    assert(cell =~= p.record_data@ + Seq::<u8>::empty());
}

/// Once an add has created an actor's record, a second add by the same actor
/// for the same record cell is refused as already initialized (provided it
/// passes the earlier signature, address and size checks); being refused, it
/// yields no plan and leaves the first record as it was.
pub proof fn lemma_add_twice_refused(
    program_id: [u8; 32],
    accounts: Seq<AccountView>,
    name: Seq<u8>,
    message: Seq<u8>,
    p: AddStudPlan,
    again: Seq<AccountView>,
    name2: Seq<u8>,
    message2: Seq<u8>,
)
    requires
        add_stud_error(program_id@, accounts, name, message) is None,
        add_stud_plan_is(p, program_id, accounts, name, message),
        again.len() >= 8,
        again[0].key == accounts[0].key,
        again[0].is_signer,
        again[1].key == accounts[1].key,
        again[1].data@ == overwrite(zeroed(p.record.space as nat), p.record_data@),
        record_size(name2, message2) <= 1000,
    ensures
        add_stud_error(program_id@, again, name2, message2) == Some(ReviewError::AlreadyInitialized),
{
    lemma_add_then_read(program_id, accounts, name, message, p);
}

/// An update of a record cell that does not hold an initialized record (such
/// as a freshly allocated, zero-filled cell) fails as uninitialized, once the
/// owner, signature, address and size checks pass.
pub proof fn lemma_update_uninitialized(
    program_id: [u8; 32],
    accounts: Seq<AccountView>,
    name: Seq<u8>,
    message: Seq<u8>,
)
    requires
        accounts.len() >= 2,
        accounts[1].owner == program_id,
        accounts[0].is_signer,
        derives_to(record_seeds(accounts[0].key@), program_id@, accounts[1].key@),
        record_size(name, message) <= 1000,
        parse_account(accounts[1].data@) matches Some(m) && !m.initialized,
    ensures
        update_stud_error(program_id@, accounts, name, message) == Some(
            ReviewError::UninitializedAccount,
        ),
{
}

/// A zero-filled cell large enough for an empty record reads as a record whose
/// flag is unset.
pub proof fn lemma_zeroed_cell_uninitialized(n: nat)
    requires
        n >= 45,
    ensures
        parse_account(zeroed(n)) matches Some(m) && !m.initialized,
{
    assert(u32_from_le(0u8, 0u8, 0u8, 0u8) == 0) by (bit_vector);
    let d = zeroed(n);
    let r1 = d.subrange(4, d.len() as int);
    assert(r1[0] == 0u8);
    let r2 = r1.subrange(1, r1.len() as int);
    let r3 = r2.subrange(32, r2.len() as int);
    assert(r3[0] == 0 && r3[1] == 0 && r3[2] == 0 && r3[3] == 0);
    let r4 = r3.subrange(4, r3.len() as int);
    assert(r4[0] == 0 && r4[1] == 0 && r4[2] == 0 && r4[3] == 0);
}

/// An add or update whose name and message together exceed 959 bytes (so that
/// their lengths plus 41 exceed 1000) is refused for its size, once the checks
/// before the size check pass; being refused, it creates and changes nothing.
pub proof fn lemma_oversized_refused(
    program_id: [u8; 32],
    accounts: Seq<AccountView>,
    name: Seq<u8>,
    message: Seq<u8>,
)
    requires
        name.len() + message.len() + 41 > 1000,
    ensures
        accounts.len() >= 8 && accounts[0].is_signer && derives_to(
            record_seeds(accounts[0].key@),
            program_id@,
            accounts[1].key@,
        ) ==> add_stud_error(program_id@, accounts, name, message) == Some(
            ReviewError::DataLimitExceeded,
        ),
        accounts.len() >= 2 && accounts[1].owner == program_id && accounts[0].is_signer
            && derives_to(record_seeds(accounts[0].key@), program_id@, accounts[1].key@)
            ==> update_stud_error(program_id@, accounts, name, message) == Some(
            ReviewError::DataLimitExceeded,
        ),
{
}

/// An update whose record cell is not at the address derived from the
/// initializer is refused as misaddressed, whatever its name and message,
/// once the owner and signature checks pass.
pub proof fn lemma_update_wrong_address(
    program_id: [u8; 32],
    accounts: Seq<AccountView>,
    name: Seq<u8>,
    message: Seq<u8>,
)
    requires
        accounts.len() >= 2,
        accounts[1].owner == program_id,
        accounts[0].is_signer,
        !derives_to(record_seeds(accounts[0].key@), program_id@, accounts[1].key@),
    ensures
        update_stud_error(program_id@, accounts, name, message) == Some(ReviewError::InvalidAddress),
{
}

/// One successful comment within a run on the record `record`.
#[verifier::opaque]
pub open spec fn comment_step(
    program_id: [u8; 32],
    accounts: Seq<AccountView>,
    message: Seq<u8>,
    plan: CommentPlan,
    record: [u8; 32],
) -> bool {
    &&& add_comment_error(program_id@, accounts, message) is None
    &&& add_comment_plan_is(plan, program_id, accounts, message)
    &&& message.len() <= u32::MAX
    &&& accounts[1].key == record
}

/// A run of successful comments on one record, each seeing the counter cell
/// as the one before left it, starting from a counter at zero.
pub open spec fn comment_run(
    program_id: [u8; 32],
    calls: Seq<Seq<AccountView>>,
    messages: Seq<Seq<u8>>,
    plans: Seq<CommentPlan>,
) -> bool {
    &&& calls.len() == messages.len()
    &&& calls.len() == plans.len()
    &&& calls.len() > 0 ==> parse_counter(calls[0][2].data@) == Some(counter_at(0))
    &&& forall|i: int|
        #![trigger calls[i]]
        0 <= i < calls.len() ==> comment_step(
            program_id,
            calls[i],
            messages[i],
            plans[i],
            calls[0][1].key,
        )
    &&& forall|i: int|
        #![trigger calls[i + 1]]
        0 <= i && i + 1 < calls.len() ==> calls[i + 1][2].data@ == overwrite(
            calls[i][2].data@,
            plans[i].counter.data@,
        )
}

/// Within a run, the counter cell after `k` comments reads as a counter at `k`.
proof fn lemma_run_counter(
    program_id: [u8; 32],
    calls: Seq<Seq<AccountView>>,
    messages: Seq<Seq<u8>>,
    plans: Seq<CommentPlan>,
    k: int,
)
    requires
        comment_run(program_id, calls, messages, plans),
        0 <= k < calls.len(),
    ensures
        k < u64::MAX,
        parse_counter(calls[k][2].data@) == Some(counter_at(k as u64)),
        parse_counter(overwrite(calls[k][2].data@, plans[k].counter.data@)) == Some(
            counter_at((k + 1) as u64),
        ),
    decreases k,
{
    if k > 0 {
        lemma_run_counter(program_id, calls, messages, plans, k - 1);
        assert(calls[(k - 1) + 1] == calls[k]);
    }
    let _ = calls[k];
    reveal(comment_step);
    let cell = calls[k][2].data@;
    let bytes = plans[k].counter.data@;
    let next = counter_at((k + 1) as u64);
    assert(bytes.len() == 20);
    if bytes.len() <= cell.len() {
        let rest = cell.subrange(bytes.len() as int, cell.len() as int);
        lemma_counter_round_trip(next, rest);
    } else {
        lemma_counter_round_trip(next, Seq::empty());
        assert(bytes + Seq::<u8>::empty() =~= bytes);
    }
}

/// The comment bytes of one step, made while the counter stood at `n`.
proof fn lemma_step_comment(
    program_id: [u8; 32],
    accounts: Seq<AccountView>,
    message: Seq<u8>,
    plan: CommentPlan,
    record: [u8; 32],
    n: u64,
)
    requires
        comment_step(program_id, accounts, message, plan, record),
        parse_counter(accounts[2].data@) == Some(counter_at(n)),
    ensures
        n < u64::MAX,
        parse_comment(plan.comment_data@) == Some(
            CommentModel {
                discriminator: comment_tag(),
                initialized: true,
                introduction: record@,
                commenter: accounts[0].key@,
                comment: message,
                count: (n + 1) as u64,
            },
        ),
{
    reveal(comment_step);
    let m = CommentModel {
        discriminator: comment_tag(),
        initialized: true,
        introduction: record@,
        commenter: accounts[0].key@,
        comment: message,
        count: (n + 1) as u64,
    };
    assert(plan.comment_data@ == comment_bytes(m));
    lemma_comment_reads_back(m);
}

/// Within a run, the comment made at step `i` reads back numbered `i + 1`, on
/// the run's record.
proof fn lemma_run_comment(
    program_id: [u8; 32],
    calls: Seq<Seq<AccountView>>,
    messages: Seq<Seq<u8>>,
    plans: Seq<CommentPlan>,
    i: int,
)
    requires
        comment_run(program_id, calls, messages, plans),
        0 <= i < calls.len(),
    ensures
        parse_comment(plans[i].comment_data@) matches Some(c) && c.count == i + 1
            && c.introduction == calls[0][1].key@,
{
    lemma_run_counter(program_id, calls, messages, plans, i);
    let _ = calls[i];
    lemma_step_comment(program_id, calls[i], messages[i], plans[i], calls[0][1].key, i as u64);
}

/// Within a run, comments made at different steps have different seeds.
proof fn lemma_run_seeds(
    program_id: [u8; 32],
    calls: Seq<Seq<AccountView>>,
    messages: Seq<Seq<u8>>,
    plans: Seq<CommentPlan>,
    i: int,
    j: int,
)
    requires
        comment_run(program_id, calls, messages, plans),
        0 <= i < j < calls.len(),
    ensures
        plans[i].comment.seeds.deep_view() != plans[j].comment.seeds.deep_view(),
{
    lemma_run_counter(program_id, calls, messages, plans, i);
    lemma_run_counter(program_id, calls, messages, plans, j);
    let _ = calls[i];
    let _ = calls[j];
    reveal(comment_step);
    lemma_comment_seeds_distinct(calls[0][1].key@, i as u64, j as u64);
}

/// After `N` successful comments on one record, starting from a fresh counter,
/// the counter stands at `N`; the comments are numbered `1 ..= N` in the order
/// they were made; and they were derived from pairwise different seeds, so
/// their addresses differ unless the runtime's derivation collides.
pub proof fn lemma_comment_sequence(
    program_id: [u8; 32],
    calls: Seq<Seq<AccountView>>,
    messages: Seq<Seq<u8>>,
    plans: Seq<CommentPlan>,
)
    requires
        comment_run(program_id, calls, messages, plans),
    ensures
        calls.len() > 0 ==> parse_counter(
            overwrite(calls.last()[2].data@, plans.last().counter.data@),
        ) == Some(counter_at(calls.len() as u64)),
        forall|i: int|
            0 <= i < plans.len() ==> ((#[trigger] parse_comment(plans[i].comment_data@)) matches Some(
                c,
            ) && c.count == i + 1 && c.introduction == calls[0][1].key@),
        forall|i: int, j: int|
            0 <= i < j < plans.len() ==> (#[trigger] plans[i].comment.seeds.deep_view()) != (
            #[trigger] plans[j].comment.seeds.deep_view()),
{
    if calls.len() > 0 {
        lemma_run_counter(program_id, calls, messages, plans, calls.len() - 1);
    }
    assert forall|i: int| 0 <= i < plans.len() implies ((#[trigger] parse_comment(
        plans[i].comment_data@,
    )) matches Some(c) && c.count == i + 1 && c.introduction == calls[0][1].key@) by {
        lemma_run_comment(program_id, calls, messages, plans, i);
    }
    assert forall|i: int, j: int| 0 <= i < j < plans.len() implies (
    #[trigger] plans[i].comment.seeds.deep_view()) != (
    #[trigger] plans[j].comment.seeds.deep_view()) by {
        lemma_run_seeds(program_id, calls, messages, plans, i, j);
    }
}

} // verus!
