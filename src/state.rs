//! The three record kinds kept in storage cells, their byte layouts, and the
//! sizes that cells are allocated with.
use vstd::prelude::*;

use crate::codec::{
    enc_flag, enc_text, le_u64, lemma_parse_flag, lemma_parse_key, lemma_parse_text,
    lemma_parse_u64, parse_flag, parse_key, parse_text, parse_u64, push_flag, push_text,
    push_u64_le, read_flag, read_key, read_text, read_u64_le, append_bytes,
};
use crate::error::ReviewError;

verus! {

/// Largest encoded size of a primary record.
pub const MAX_RECORD_SIZE: usize = 1000;

/// Tag of a primary record: the ASCII bytes of "introduction".
pub open spec fn introduction_tag() -> Seq<u8> {
    seq![105u8, 110u8, 116u8, 114u8, 111u8, 100u8, 117u8, 99u8, 116u8, 105u8, 111u8, 110u8]
}

/// Tag of a comment counter: the ASCII bytes of "counter".
pub open spec fn counter_tag() -> Seq<u8> {
    seq![99u8, 111u8, 117u8, 110u8, 116u8, 101u8, 114u8]
}

/// Tag of a comment: the ASCII bytes of "comment". The same bytes seed the
/// counter's address.
pub open spec fn comment_tag() -> Seq<u8> {
    seq![99u8, 111u8, 109u8, 109u8, 101u8, 110u8, 116u8]
}

/// A cell's contents, read either as an initialized record or as an empty
/// (never initialized) cell.
#[derive(Debug)]
pub enum Decoded<T> {
    Empty,
    Record(T),
}

/// One actor's primary record.
#[derive(Debug, Clone)]
pub struct StudAccountState {
    pub discriminator: Vec<u8>,
    pub initialized: bool,
    pub reviewer: [u8; 32],
    pub name: Vec<u8>,
    pub message: Vec<u8>,
}

pub ghost struct AccountStateModel {
    pub discriminator: Seq<u8>,
    pub initialized: bool,
    pub reviewer: Seq<u8>,
    pub name: Seq<u8>,
    pub message: Seq<u8>,
}

impl View for StudAccountState {
    type V = AccountStateModel;

    open spec fn view(&self) -> AccountStateModel {
        AccountStateModel {
            discriminator: self.discriminator@,
            initialized: self.initialized,
            reviewer: self.reviewer@,
            name: self.name@,
            message: self.message@,
        }
    }
}

/// The number of comments made on one primary record.
#[derive(Debug, Clone)]
pub struct StudCommentCounter {
    pub discriminator: Vec<u8>,
    pub initialized: bool,
    pub counter: u64,
}

pub ghost struct CounterModel {
    pub discriminator: Seq<u8>,
    pub initialized: bool,
    pub counter: u64,
}

impl View for StudCommentCounter {
    type V = CounterModel;

    open spec fn view(&self) -> CounterModel {
        CounterModel {
            discriminator: self.discriminator@,
            initialized: self.initialized,
            counter: self.counter,
        }
    }
}

/// One comment on a primary record.
#[derive(Debug, Clone)]
pub struct StudComment {
    pub discriminator: Vec<u8>,
    pub initialized: bool,
    /// Address of the primary record commented on.
    pub introduction: [u8; 32],
    /// Identity of the author.
    pub commenter: [u8; 32],
    pub comment: Vec<u8>,
    /// Position of the comment, counting from 1.
    pub count: u64,
}

pub ghost struct CommentModel {
    pub discriminator: Seq<u8>,
    pub initialized: bool,
    pub introduction: Seq<u8>,
    pub commenter: Seq<u8>,
    pub comment: Seq<u8>,
    pub count: u64,
}

impl View for StudComment {
    type V = CommentModel;

    open spec fn view(&self) -> CommentModel {
        CommentModel {
            discriminator: self.discriminator@,
            initialized: self.initialized,
            introduction: self.introduction@,
            commenter: self.commenter@,
            comment: self.comment@,
            count: self.count,
        }
    }
}

/// Stored layout of a primary record.
pub open spec fn account_bytes(m: AccountStateModel) -> Seq<u8> {
    enc_text(m.discriminator) + enc_flag(m.initialized) + m.reviewer + enc_text(m.name) + enc_text(
        m.message,
    )
}

/// Stored layout of a comment counter.
pub open spec fn counter_bytes(m: CounterModel) -> Seq<u8> {
    enc_text(m.discriminator) + enc_flag(m.initialized) + le_u64(m.counter)
}

/// Stored layout of a comment.
pub open spec fn comment_bytes(m: CommentModel) -> Seq<u8> {
    enc_text(m.discriminator) + enc_flag(m.initialized) + m.introduction + m.commenter + enc_text(
        m.comment,
    ) + le_u64(m.count)
}

/// Reads a primary record off the front of a cell; bytes after it are ignored.
pub open spec fn parse_account(d: Seq<u8>) -> Option<AccountStateModel> {
    match parse_text(d) {
        None => None,
        Some((disc, r1)) => match parse_flag(r1) {
            None => None,
            Some((init, r2)) => match parse_key(r2) {
                None => None,
                Some((key, r3)) => match parse_text(r3) {
                    None => None,
                    Some((name, r4)) => match parse_text(r4) {
                        None => None,
                        Some((message, _)) => Some(
                            AccountStateModel {
                                discriminator: disc,
                                initialized: init,
                                reviewer: key,
                                name,
                                message,
                            },
                        ),
                    },
                },
            },
        },
    }
}

/// Reads a comment counter off the front of a cell.
pub open spec fn parse_counter(d: Seq<u8>) -> Option<CounterModel> {
    match parse_text(d) {
        None => None,
        Some((disc, r1)) => match parse_flag(r1) {
            None => None,
            Some((init, r2)) => match parse_u64(r2) {
                None => None,
                Some((n, _)) => Some(
                    CounterModel { discriminator: disc, initialized: init, counter: n },
                ),
            },
        },
    }
}

/// Reads a comment off the front of a cell.
pub open spec fn parse_comment(d: Seq<u8>) -> Option<CommentModel> {
    match parse_text(d) {
        None => None,
        Some((disc, r1)) => match parse_flag(r1) {
            None => None,
            Some((init, r2)) => match parse_key(r2) {
                None => None,
                Some((intro, r3)) => match parse_key(r3) {
                    None => None,
                    Some((author, r4)) => match parse_text(r4) {
                        None => None,
                        Some((text, r5)) => match parse_u64(r5) {
                            None => None,
                            Some((n, _)) => Some(
                                CommentModel {
                                    discriminator: disc,
                                    initialized: init,
                                    introduction: intro,
                                    commenter: author,
                                    comment: text,
                                    count: n,
                                },
                            ),
                        },
                    },
                },
            },
        },
    }
}

/// A primary record whose text fields fit their four-byte length prefixes.
pub open spec fn account_encodable(m: AccountStateModel) -> bool {
    &&& m.discriminator.len() <= u32::MAX
    &&& m.reviewer.len() == 32
    &&& m.name.len() <= u32::MAX
    &&& m.message.len() <= u32::MAX
}

pub open spec fn comment_encodable(m: CommentModel) -> bool {
    &&& m.discriminator.len() <= u32::MAX
    &&& m.introduction.len() == 32
    &&& m.commenter.len() == 32
    &&& m.comment.len() <= u32::MAX
}

/// Decoding what was encoded gives the record back, whatever follows it in the cell.
pub proof fn lemma_account_round_trip(m: AccountStateModel, rest: Seq<u8>)
    requires
        account_encodable(m),
    ensures
        parse_account(account_bytes(m) + rest) == Some(m),
{
    let r4 = enc_text(m.message) + rest;
    let r3 = enc_text(m.name) + r4;
    let r2 = m.reviewer + r3;
    let r1 = enc_flag(m.initialized) + r2;
    assert(account_bytes(m) + rest =~= enc_text(m.discriminator) + r1);
    lemma_parse_text(m.discriminator, r1);
    lemma_parse_flag(m.initialized, r2);
    lemma_parse_key(m.reviewer, r3);
    lemma_parse_text(m.name, r4);
    lemma_parse_text(m.message, rest);
}

pub proof fn lemma_counter_round_trip(m: CounterModel, rest: Seq<u8>)
    requires
        m.discriminator.len() <= u32::MAX,
    ensures
        parse_counter(counter_bytes(m) + rest) == Some(m),
{
    let r2 = le_u64(m.counter) + rest;
    let r1 = enc_flag(m.initialized) + r2;
    assert(counter_bytes(m) + rest =~= enc_text(m.discriminator) + r1);
    lemma_parse_text(m.discriminator, r1);
    lemma_parse_flag(m.initialized, r2);
    lemma_parse_u64(m.counter, rest);
}

pub proof fn lemma_comment_round_trip(m: CommentModel, rest: Seq<u8>)
    requires
        comment_encodable(m),
    ensures
        parse_comment(comment_bytes(m) + rest) == Some(m),
{
    let r5 = le_u64(m.count) + rest;
    let r4 = enc_text(m.comment) + r5;
    let r3 = m.commenter + r4;
    let r2 = m.introduction + r3;
    let r1 = enc_flag(m.initialized) + r2;
    assert(comment_bytes(m) + rest =~= enc_text(m.discriminator) + r1);
    lemma_parse_text(m.discriminator, r1);
    lemma_parse_flag(m.initialized, r2);
    lemma_parse_key(m.introduction, r3);
    lemma_parse_key(m.commenter, r4);
    lemma_parse_text(m.comment, r5);
    lemma_parse_u64(m.count, rest);
}

/// A comment reads back as written.
pub proof fn lemma_comment_reads_back(m: CommentModel)
    requires
        comment_encodable(m),
    ensures
        parse_comment(comment_bytes(m)) == Some(m),
{
    lemma_comment_round_trip(m, Seq::empty());
    assert(comment_bytes(m) + Seq::<u8>::empty() =~= comment_bytes(m));
}

impl StudAccountState {
    /// The tag bytes stored at the front of every primary record.
    pub fn discriminator_bytes() -> (r: Vec<u8>)
        ensures
            r@ == introduction_tag(),
    {
        let r: Vec<u8> = vec![105u8, 110u8, 116u8, 114u8, 111u8, 100u8, 117u8, 99u8, 116u8, 105u8, 111u8, 110u8];
        assert(r@ =~= introduction_tag());
        r
    }

    /// Encoded size of a primary record holding `name` and `message`.
    pub fn get_account_size(name: &Vec<u8>, message: &Vec<u8>) -> (r: usize)
        requires
            name@.len() + message@.len() + 57 <= usize::MAX,
        ensures
            r == (4 + 12) + 1 + 32 + (4 + name@.len()) + (4 + message@.len()),
    {
        (4 + 12) + 1 + 32 + (4 + name.len()) + (4 + message.len())
    }

    pub fn is_initialized(&self) -> (r: bool)
        ensures
            r == self.initialized,
    {
        self.initialized
    }

    /// The stored bytes of this record.
    pub fn encode(&self) -> (r: Vec<u8>)
        requires
            account_encodable(self@),
        ensures
            r@ == account_bytes(self@),
    {
        let mut out: Vec<u8> = Vec::new();
        push_text(&mut out, self.discriminator.as_slice());
        push_flag(&mut out, self.initialized);
        append_bytes(&mut out, self.reviewer.as_slice());
        push_text(&mut out, self.name.as_slice());
        push_text(&mut out, self.message.as_slice());
        assert(out@ =~= account_bytes(self@));
        out
    }

    /// Reads the record at the front of a cell. A cell whose flag is unset
    /// reads as empty; bytes that do not follow the layout are refused.
    pub fn decode(data: &[u8]) -> (r: Result<Decoded<StudAccountState>, ReviewError>)
        ensures
            match parse_account(data@) {
                None => r == Err::<Decoded<StudAccountState>, ReviewError>(
                    ReviewError::MalformedPayload,
                ),
                Some(m) => if m.initialized {
                    r matches Ok(Decoded::Record(s)) && s@ == m
                } else {
                    r matches Ok(Decoded::Empty)
                },
            },
    {
        let total: usize = data.len();
        assert(data@.subrange(0, total as int) =~= data@);
        let (disc, tag_end) = match read_text(data, 0) {
            Some(x) => x,
            None => return Err(ReviewError::MalformedPayload),
        };
        let init = match read_flag(data, tag_end) {
            Some(f) => f,
            None => return Err(ReviewError::MalformedPayload),
        };
        let key = match read_key(data, tag_end + 1) {
            Some(k) => k,
            None => return Err(ReviewError::MalformedPayload),
        };
        let (name, name_end) = match read_text(data, tag_end + 33) {
            Some(x) => x,
            None => return Err(ReviewError::MalformedPayload),
        };
        let (message, _message_end) = match read_text(data, name_end) {
            Some(x) => x,
            None => return Err(ReviewError::MalformedPayload),
        };
        if !init {
            return Ok(Decoded::Empty);
        }
        let s = StudAccountState { discriminator: disc, initialized: init, reviewer: key, name, message };
        Ok(Decoded::Record(s))
    }
}

impl StudCommentCounter {
    /// Encoded size of a counter: (4 + 7) + 1 + 8 bytes.
    pub const SIZE: usize = 20;

    pub fn discriminator_bytes() -> (r: Vec<u8>)
        ensures
            r@ == counter_tag(),
    {
        let r: Vec<u8> = vec![99u8, 111u8, 117u8, 110u8, 116u8, 101u8, 114u8];
        assert(r@ =~= counter_tag());
        r
    }

    pub fn is_initialized(&self) -> (r: bool)
        ensures
            r == self.initialized,
    {
        self.initialized
    }

    pub fn encode(&self) -> (r: Vec<u8>)
        requires
            self.discriminator@.len() <= u32::MAX,
        ensures
            r@ == counter_bytes(self@),
    {
        let mut out: Vec<u8> = Vec::new();
        push_text(&mut out, self.discriminator.as_slice());
        push_flag(&mut out, self.initialized);
        push_u64_le(&mut out, self.counter);
        assert(out@ =~= counter_bytes(self@));
        out
    }

    /// Reads the counter at the front of a cell, as `StudAccountState::decode` does.
    pub fn decode(data: &[u8]) -> (r: Result<Decoded<StudCommentCounter>, ReviewError>)
        ensures
            match parse_counter(data@) {
                None => r == Err::<Decoded<StudCommentCounter>, ReviewError>(
                    ReviewError::MalformedPayload,
                ),
                Some(m) => if m.initialized {
                    r matches Ok(Decoded::Record(s)) && s@ == m
                } else {
                    r matches Ok(Decoded::Empty)
                },
            },
    {
        let total: usize = data.len();
        assert(data@.subrange(0, total as int) =~= data@);
        let (disc, tag_end) = match read_text(data, 0) {
            Some(x) => x,
            None => return Err(ReviewError::MalformedPayload),
        };
        let init = match read_flag(data, tag_end) {
            Some(f) => f,
            None => return Err(ReviewError::MalformedPayload),
        };
        let n = match read_u64_le(data, tag_end + 1) {
            Some(n) => n,
            None => return Err(ReviewError::MalformedPayload),
        };
        if !init {
            return Ok(Decoded::Empty);
        }
        Ok(Decoded::Record(StudCommentCounter { discriminator: disc, initialized: init, counter: n }))
    }
}

impl StudComment {
    pub fn discriminator_bytes() -> (r: Vec<u8>)
        ensures
            r@ == comment_tag(),
    {
        let r: Vec<u8> = vec![99u8, 111u8, 109u8, 109u8, 101u8, 110u8, 116u8];
        assert(r@ =~= comment_tag());
        r
    }

    /// Encoded size of a comment holding `comment`.
    pub fn get_account_size(comment: &Vec<u8>) -> (r: usize)
        requires
            comment@.len() + 88 <= usize::MAX,
        ensures
            r == (4 + 7) + 1 + 32 + 32 + (4 + comment@.len()) + 8,
    {
        (4 + 7) + 1 + 32 + 32 + (4 + comment.len()) + 8
    }

    pub fn is_initialized(&self) -> (r: bool)
        ensures
            r == self.initialized,
    {
        self.initialized
    }

    pub fn encode(&self) -> (r: Vec<u8>)
        requires
            comment_encodable(self@),
        ensures
            r@ == comment_bytes(self@),
    {
        let mut out: Vec<u8> = Vec::new();
        push_text(&mut out, self.discriminator.as_slice());
        push_flag(&mut out, self.initialized);
        append_bytes(&mut out, self.introduction.as_slice());
        append_bytes(&mut out, self.commenter.as_slice());
        push_text(&mut out, self.comment.as_slice());
        push_u64_le(&mut out, self.count);
        assert(out@ =~= comment_bytes(self@));
        out
    }

    /// Reads the comment at the front of a cell, as `StudAccountState::decode` does.
    pub fn decode(data: &[u8]) -> (r: Result<Decoded<StudComment>, ReviewError>)
        ensures
            match parse_comment(data@) {
                None => r == Err::<Decoded<StudComment>, ReviewError>(
                    ReviewError::MalformedPayload,
                ),
                Some(m) => if m.initialized {
                    r matches Ok(Decoded::Record(s)) && s@ == m
                } else {
                    r matches Ok(Decoded::Empty)
                },
            },
    {
        let total: usize = data.len();
        assert(data@.subrange(0, total as int) =~= data@);
        let (disc, tag_end) = match read_text(data, 0) {
            Some(x) => x,
            None => return Err(ReviewError::MalformedPayload),
        };
        let init = match read_flag(data, tag_end) {
            Some(f) => f,
            None => return Err(ReviewError::MalformedPayload),
        };
        let intro = match read_key(data, tag_end + 1) {
            Some(k) => k,
            None => return Err(ReviewError::MalformedPayload),
        };
        let author = match read_key(data, tag_end + 33) {
            Some(k) => k,
            None => return Err(ReviewError::MalformedPayload),
        };
        let (text, text_end) = match read_text(data, tag_end + 65) {
            Some(x) => x,
            None => return Err(ReviewError::MalformedPayload),
        };
        let n = match read_u64_le(data, text_end) {
            Some(n) => n,
            None => return Err(ReviewError::MalformedPayload),
        };
        if !init {
            return Ok(Decoded::Empty);
        }
        Ok(
            Decoded::Record(
                StudComment {
                    discriminator: disc,
                    initialized: init,
                    introduction: intro,
                    commenter: author,
                    comment: text,
                    count: n,
                },
            ),
        )
    }
}

} // verus!
