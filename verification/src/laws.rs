//! The library's cross-function guarantees, stated and proved once.
//!
//! Each lemma here speaks over the handlers' public contract
//! predicates, so what it states holds of every call that those
//! contracts describe.

use crate::addr::{auth_seeds, comment_seeds, mint_seeds, pda_of};
use crate::codec::{
    lemma_comment_round_trip, lemma_counter_round_trip, lemma_decoded_counter_encodable,
    lemma_decoded_review_encodable, lemma_review_round_trip, spec_decode_comment,
    spec_decode_counter, spec_decode_review,
};
use crate::effects::{AccountInput, AddCommentEffects, CreateReviewEffects, UpdateReviewEffects};
use crate::error::ReviewError;
use crate::processor::{
    TOKEN_BASE_UNITS, add_comment_effects_ok,
    add_comment_error, create_review_effects_ok, create_review_error, created_comment,
    created_counter, created_review, initialize_mint_error, update_review_effects_ok,
    update_review_error,
};
use crate::state::{CounterView, ReviewView};
use vstd::prelude::*;

verus! {

/// A created review reads back exactly as written: decoding the bytes
/// a successful create-review writes yields the author, rating, title
/// and description that were passed, with the initialized flag set.
pub proof fn lemma_created_review_decodes(
    e: CreateReviewEffects,
    pid: Seq<u8>,
    a: Seq<AccountInput>,
    title: Seq<u8>,
    rating: u8,
    desc: Seq<u8>,
)
    requires
        create_review_error(pid, a, title, rating, desc) is None,
        create_review_effects_ok(e, pid, a, title, rating, desc),
        a[0].key@.len() == 32,
    ensures
        spec_decode_review(e.review_data@) == Some(created_review(a[0].key@, rating, title, desc)),
        created_review(a[0].key@, rating, title, desc).is_initialized,
{
    lemma_review_round_trip(created_review(a[0].key@, rating, title, desc));
}

/// The counter created alongside a review reads back as count 0 with
/// the initialized flag set.
pub proof fn lemma_created_counter_decodes(
    e: CreateReviewEffects,
    pid: Seq<u8>,
    a: Seq<AccountInput>,
    title: Seq<u8>,
    rating: u8,
    desc: Seq<u8>,
)
    requires
        create_review_effects_ok(e, pid, a, title, rating, desc),
    ensures
        spec_decode_counter(e.counter_data@) == Some(created_counter()),
        created_counter().counter == 0,
        created_counter().is_initialized,
{
    lemma_counter_round_trip(created_counter());
}

/// Creating the same (author, title) review twice fails: a second
/// create-review call whose target account now holds the bytes the
/// first call wrote is rejected as already initialized, whatever the
/// second call's rating and description.
pub proof fn lemma_second_create_rejected(
    e: CreateReviewEffects,
    pid: Seq<u8>,
    a: Seq<AccountInput>,
    a2: Seq<AccountInput>,
    title: Seq<u8>,
    rating: u8,
    desc: Seq<u8>,
    rating2: u8,
    desc2: Seq<u8>,
)
    requires
        create_review_error(pid, a, title, rating, desc) is None,
        create_review_effects_ok(e, pid, a, title, rating, desc),
        a[0].key@.len() == 32,
        a2.len() == a.len(),
        forall|i: int|
            0 <= i < a.len() ==> (#[trigger] a2[i].key@) == a[i].key@ && a2[i].is_signer
                == a[i].is_signer && a2[i].owner@ == a[i].owner@,
        a2[1].data@ == e.review_data@,
        1 <= rating2 <= 5,
        52 + title.len() + desc2.len() <= 1000,
    ensures
        create_review_error(pid, a2, title, rating2, desc2) == Some(
            ReviewError::AlreadyInitialized,
        ),
{
    lemma_review_round_trip(created_review(a[0].key@, rating, title, desc));
    assert(a2[0].key@ == a[0].key@);
    assert(a2[1].key@ == a[1].key@);
    assert(a2[2].key@ == a[2].key@);
    assert(a2[3].key@ == a[3].key@);
    assert(a2[4].key@ == a[4].key@);
    assert(a2[5].key@ == a[5].key@);
    assert(a2[7].key@ == a[7].key@);
}

/// One add-comment step lands the comment at the counter's current
/// sequence index and leaves the counter exactly one higher: the
/// written comment bytes decode to the commenter, review reference,
/// text and index that the step fixed, and the written counter bytes
/// decode to the old count plus one.
pub proof fn lemma_comment_step(
    e: AddCommentEffects,
    pid: Seq<u8>,
    a: Seq<AccountInput>,
    comment: Seq<u8>,
)
    requires
        add_comment_error(pid, a, comment) is None,
        add_comment_effects_ok(e, pid, a, comment),
        a[0].key@.len() == 32,
        a[1].key@.len() == 32,
        comment.len() <= u32::MAX,
    ensures
        spec_decode_counter(a[2].data@) matches Some(c) && {
            &&& spec_decode_comment(e.comment_data@) == Some(
                created_comment(a[1].key@, a[0].key@, comment, c.counter),
            )
            &&& spec_decode_counter(e.counter_data@) == Some(
                CounterView {
                    discriminator: c.discriminator,
                    is_initialized: c.is_initialized,
                    counter: (c.counter + 1) as u64,
                },
            )
            &&& e.comment_account.address@ == pda_of(comment_seeds(a[1].key@, c.counter), pid).0
        },
{
    let c = spec_decode_counter(a[2].data@)->Some_0;
    lemma_decoded_counter_encodable(a[2].data@);
    lemma_comment_round_trip(created_comment(a[1].key@, a[0].key@, comment, c.counter));
    lemma_counter_round_trip(
        CounterView {
            discriminator: c.discriminator,
            is_initialized: c.is_initialized,
            counter: (c.counter + 1) as u64,
        },
    );
}

/// One counter transition of a successful add-comment, as bytes: the
/// counter read from `before` is below the machine bound, `after`
/// decodes to the same record with the count one higher, and the
/// comment was placed at the address derived from the old count.
pub open spec fn comment_step(
    pid: Seq<u8>,
    review_key: Seq<u8>,
    before: Seq<u8>,
    after: Seq<u8>,
    addr: Seq<u8>,
) -> bool {
    match spec_decode_counter(before) {
        None => false,
        Some(c) => {
            &&& c.counter < u64::MAX
            &&& spec_decode_counter(after) == Some(
                CounterView {
                    discriminator: c.discriminator,
                    is_initialized: c.is_initialized,
                    counter: (c.counter + 1) as u64,
                },
            )
            &&& addr == pda_of(comment_seeds(review_key, c.counter), pid).0
        },
    }
}

/// A successful add-comment call is one `comment_step` from the
/// counter bytes it read to the counter bytes it wrote.
pub proof fn lemma_add_comment_is_step(
    e: AddCommentEffects,
    pid: Seq<u8>,
    a: Seq<AccountInput>,
    comment: Seq<u8>,
)
    requires
        add_comment_error(pid, a, comment) is None,
        add_comment_effects_ok(e, pid, a, comment),
    ensures
        comment_step(pid, a[1].key@, a[2].data@, e.counter_data@, e.comment_account.address@),
{
    let c = spec_decode_counter(a[2].data@)->Some_0;
    lemma_decoded_counter_encodable(a[2].data@);
    lemma_counter_round_trip(
        CounterView {
            discriminator: c.discriminator,
            is_initialized: c.is_initialized,
            counter: (c.counter + 1) as u64,
        },
    );
}

/// The counter after `k` steps of a comment run decodes to exactly
/// `k`, with the tag and flag the create-review wrote untouched.
proof fn lemma_counter_value_at(
    pid: Seq<u8>,
    review_key: Seq<u8>,
    datas: Seq<Seq<u8>>,
    addrs: Seq<Seq<u8>>,
    n: int,
    k: int,
)
    requires
        0 <= k <= n,
        n + 1 == datas.len(),
        addrs.len() == n,
        n < u64::MAX,
        spec_decode_counter(datas[0]) == Some(created_counter()),
        forall|j: int|
            0 <= j < n ==> #[trigger] comment_step(pid, review_key, datas[j], datas[j + 1], addrs[j]),
    ensures
        spec_decode_counter(datas[k]) == Some(
            CounterView {
                discriminator: created_counter().discriminator,
                is_initialized: true,
                counter: k as u64,
            },
        ),
    decreases k,
{
    if k == 0 {
        assert(spec_decode_counter(datas[0]) == Some(created_counter()));
    } else {
        lemma_counter_value_at(pid, review_key, datas, addrs, n, k - 1);
        assert(comment_step(pid, review_key, datas[k - 1], datas[k], addrs[k - 1]));
    }
}

/// Adding `n` comments in sequence to one review, starting from the
/// counter its creation wrote, places the comments at the dense,
/// gapless sequence indices `0 .. n-1` and leaves the counter at `n`.
pub proof fn lemma_comment_sequence(
    pid: Seq<u8>,
    review_key: Seq<u8>,
    datas: Seq<Seq<u8>>,
    addrs: Seq<Seq<u8>>,
    n: int,
)
    requires
        0 <= n < u64::MAX,
        n + 1 == datas.len(),
        addrs.len() == n,
        spec_decode_counter(datas[0]) == Some(created_counter()),
        forall|j: int|
            0 <= j < n ==> #[trigger] comment_step(pid, review_key, datas[j], datas[j + 1], addrs[j]),
    ensures
        spec_decode_counter(datas[n]) matches Some(c) && c.counter == n,
        forall|k: int|
            0 <= k < n ==> #[trigger] addrs[k] == pda_of(
                comment_seeds(review_key, k as u64),
                pid,
            ).0,
{
    lemma_counter_value_at(pid, review_key, datas, addrs, n, n);
    assert forall|k: int| 0 <= k < n implies #[trigger] addrs[k] == pda_of(
        comment_seeds(review_key, k as u64),
        pid,
    ).0 by {
        lemma_counter_value_at(pid, review_key, datas, addrs, n, k);
        assert(comment_step(pid, review_key, datas[k], datas[k + 1], addrs[k]));
    }
}

/// An update keeps the record's identity: the bytes a successful
/// update writes decode to the stored record with only the rating and
/// description replaced — same discriminator, same author, same title,
/// still initialized — and the operation addresses no other account.
pub proof fn lemma_update_preserves(
    e: UpdateReviewEffects,
    pid: Seq<u8>,
    a: Seq<AccountInput>,
    rating: u8,
    desc: Seq<u8>,
)
    requires
        update_review_error(pid, a, rating, desc) is None,
        update_review_effects_ok(e, pid, a, rating, desc),
    ensures
        spec_decode_review(a[1].data@) matches Some(v) && {
            &&& spec_decode_review(e.review_data@) == Some(
                ReviewView {
                    discriminator: v.discriminator,
                    is_initialized: v.is_initialized,
                    review: v.review,
                    rating,
                    title: v.title,
                    description: desc,
                },
            )
            &&& spec_decode_review(e.review_data@)->Some_0.title == v.title
            &&& spec_decode_review(e.review_data@)->Some_0.review == v.review
            &&& spec_decode_review(e.review_data@)->Some_0.is_initialized
        },
{
    let v = spec_decode_review(a[1].data@)->Some_0;
    lemma_decoded_review_encodable(a[1].data@);
    lemma_review_round_trip(
        ReviewView {
            discriminator: v.discriminator,
            is_initialized: v.is_initialized,
            review: v.review,
            rating,
            title: v.title,
            description: desc,
        },
    );
}

/// A second initialize-mint call finds storage already backing the
/// derived mint address and is rejected; at most one mint singleton
/// ever exists per program identity.
pub proof fn lemma_second_initialize_rejected(
    pid: Seq<u8>,
    a: Seq<AccountInput>,
    a2: Seq<AccountInput>,
)
    requires
        initialize_mint_error(pid, a) is None,
        a2.len() == a.len(),
        forall|i: int|
            0 <= i < a.len() ==> (#[trigger] a2[i].key@) == a[i].key@ && a2[i].is_signer
                == a[i].is_signer,
        a2[1].data@.len() > 0,
    ensures
        initialize_mint_error(pid, a2) == Some(ReviewError::AlreadyInitialized),
{
    assert(a2[0].key@ == a[0].key@);
    assert(a2[1].key@ == a[1].key@);
    assert(a2[2].key@ == a[2].key@);
    assert(a2[3].key@ == a[3].key@);
    assert(a2[4].key@ == a[4].key@);
    assert(a2[5].key@ == a[5].key@);
}

/// Reward amounts and authority: creating a review mints exactly ten
/// whole tokens and adding a comment exactly five, both to the
/// caller's reward-token account, and both under the one mint
/// authority derivation of the program.
pub proof fn lemma_reward_amounts(
    e: CreateReviewEffects,
    e2: AddCommentEffects,
    pid: Seq<u8>,
    a: Seq<AccountInput>,
    a2: Seq<AccountInput>,
    title: Seq<u8>,
    rating: u8,
    desc: Seq<u8>,
    comment: Seq<u8>,
)
    requires
        create_review_effects_ok(e, pid, a, title, rating, desc),
        add_comment_effects_ok(e2, pid, a2, comment),
    ensures
        e.reward.amount == 10 * TOKEN_BASE_UNITS,
        e2.reward.amount == 5 * TOKEN_BASE_UNITS,
        e.reward.authority@ == pda_of(auth_seeds(), pid).0,
        e2.reward.authority@ == e.reward.authority@,
        e2.reward.authority_bump == e.reward.authority_bump,
        e2.reward.mint@ == e.reward.mint@,
        e.reward.mint@ == pda_of(mint_seeds(), pid).0,
        e.reward.destination@ == a[5].key@,
        e2.reward.destination@ == a2[6].key@,
{
}

} // verus!
