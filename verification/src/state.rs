use crate::addr::Address;
use vstd::prelude::*;

verus! {

/// Byte tag that opens every persisted review record ("review" in ASCII).
pub open spec fn spec_review_tag() -> Seq<u8> {
    seq![114u8, 101u8, 118u8, 105u8, 101u8, 119u8]
}

/// Byte tag that opens every persisted counter record ("counter" in ASCII).
pub open spec fn spec_counter_tag() -> Seq<u8> {
    seq![99u8, 111u8, 117u8, 110u8, 116u8, 101u8, 114u8]
}

/// Byte tag that opens every persisted comment record ("comment" in ASCII).
pub open spec fn spec_comment_tag() -> Seq<u8> {
    seq![99u8, 111u8, 109u8, 109u8, 101u8, 110u8, 116u8]
}

/// The review record tag as bytes.
pub fn review_tag() -> (r: Vec<u8>)
    ensures
        r@ == spec_review_tag(),
{
    vec![114u8, 101u8, 118u8, 105u8, 101u8, 119u8]
}

/// The counter record tag as bytes.
pub fn counter_tag() -> (r: Vec<u8>)
    ensures
        r@ == spec_counter_tag(),
{
    vec![99u8, 111u8, 117u8, 110u8, 116u8, 101u8, 114u8]
}

/// The comment record tag as bytes.
pub fn comment_tag() -> (r: Vec<u8>)
    ensures
        r@ == spec_comment_tag(),
{
    vec![99u8, 111u8, 109u8, 109u8, 101u8, 110u8, 116u8]
}

/// A persisted review: one per (author, title) pair.  The `review` field
/// holds the author identity that signed the creation.
#[derive(Debug)]
pub struct MovieAccountState {
    pub discriminator: Vec<u8>,
    pub is_initialized: bool,
    pub review: Address,
    pub rating: u8,
    pub title: Vec<u8>,
    pub description: Vec<u8>,
}

/// Mathematical image of a review record.
pub struct ReviewView {
    pub discriminator: Seq<u8>,
    pub is_initialized: bool,
    pub review: Seq<u8>,
    pub rating: u8,
    pub title: Seq<u8>,
    pub description: Seq<u8>,
}

impl View for MovieAccountState {
    type V = ReviewView;

    open spec fn view(&self) -> ReviewView {
        ReviewView {
            discriminator: self.discriminator@,
            is_initialized: self.is_initialized,
            review: self.review@,
            rating: self.rating,
            title: self.title@,
            description: self.description@,
        }
    }
}

/// A persisted per-review comment counter: created together with its
/// review, incremented by exactly one per accepted comment.
#[derive(Debug)]
pub struct MovieCommentCounter {
    pub discriminator: Vec<u8>,
    pub is_initialized: bool,
    pub counter: u64,
}

/// Mathematical image of a counter record.
pub struct CounterView {
    pub discriminator: Seq<u8>,
    pub is_initialized: bool,
    pub counter: u64,
}

impl View for MovieCommentCounter {
    type V = CounterView;

    open spec fn view(&self) -> CounterView {
        CounterView {
            discriminator: self.discriminator@,
            is_initialized: self.is_initialized,
            counter: self.counter,
        }
    }
}

/// A persisted comment: one per (review, sequence index), never mutated
/// after creation.  `count` records the sequence index the comment was
/// created at.
#[derive(Debug)]
pub struct MovieComment {
    pub discriminator: Vec<u8>,
    pub is_initialized: bool,
    pub review: Address,
    pub commenter: Address,
    pub comment: Vec<u8>,
    pub count: u64,
}

/// Mathematical image of a comment record.
pub struct CommentView {
    pub discriminator: Seq<u8>,
    pub is_initialized: bool,
    pub review: Seq<u8>,
    pub commenter: Seq<u8>,
    pub comment: Seq<u8>,
    pub count: u64,
}

impl View for MovieComment {
    type V = CommentView;

    open spec fn view(&self) -> CommentView {
        CommentView {
            discriminator: self.discriminator@,
            is_initialized: self.is_initialized,
            review: self.review@,
            commenter: self.commenter@,
            comment: self.comment@,
            count: self.count,
        }
    }
}

/// Exact serialized size of a review record: 4 + 6 tag bytes, the
/// initialized flag, the 32-byte author identity, the rating, and each
/// text as a 4-byte length prefix plus its bytes.
pub open spec fn spec_review_size(title_len: int, description_len: int) -> int {
    52 + title_len + description_len
}

/// Exact serialized size of a counter record: 4 + 7 tag bytes, the
/// initialized flag and the 8-byte counter.
pub open spec fn spec_counter_size() -> int {
    20
}

/// Exact serialized size of a comment record: 4 + 7 tag bytes, the
/// initialized flag, two 32-byte identities, the length-prefixed text
/// and the 8-byte sequence index.
pub open spec fn spec_comment_size(comment_len: int) -> int {
    88 + comment_len
}

/// Serialized size of a counter record, as a machine integer.
pub const COUNTER_RECORD_SIZE: usize = 20;

impl MovieAccountState {
    /// Whether the record's initialized flag is set.
    pub fn is_initialized(&self) -> (r: bool)
        ensures
            r == self.is_initialized,
    {
        self.is_initialized
    }

    /// Exact serialized size of a review with the given texts.
    pub fn get_account_size(title: &Vec<u8>, description: &Vec<u8>) -> (r: usize)
        requires
            52 + title@.len() + description@.len() <= usize::MAX,
        ensures
            r == spec_review_size(title@.len() as int, description@.len() as int),
    {
        52 + title.len() + description.len()
    }
}

impl MovieCommentCounter {
    /// Whether the record's initialized flag is set.
    pub fn is_initialized(&self) -> (r: bool)
        ensures
            r == self.is_initialized,
    {
        self.is_initialized
    }
}

impl MovieComment {
    /// Whether the record's initialized flag is set.
    pub fn is_initialized(&self) -> (r: bool)
        ensures
            r == self.is_initialized,
    {
        self.is_initialized
    }

    /// Exact serialized size of a comment with the given text.
    pub fn get_account_size(comment: &Vec<u8>) -> (r: usize)
        requires
            88 + comment@.len() <= usize::MAX,
        ensures
            r == spec_comment_size(comment@.len() as int),
    {
        88 + comment.len()
    }
}

} // verus!
