//! The Record Initializer: validation and write-once creation of records.
//!
//! A caller hands in untrusted field values together with a freshly
//! allocated, zeroed storage slot of exactly the budgeted capacity.
//! [`send_tweet`] checks the topic's and then the content's character count
//! against the declared limits, fail-fast and with no partial write, and on
//! success populates the slot's record. Records are immutable afterwards:
//! no operation in this crate modifies an initialized record.

use vstd::prelude::*;
use vstd::string::StrSliceExecFns;
use vstd::utf8::char_is_scalar;
use vstd::utf8::encode_scalar;
use vstd::utf8::encode_utf8;
use crate::layout::DISCRIMINATOR_LENGTH;
use crate::layout::MAX_BYTES_PER_CHAR;
use crate::layout::MAX_CONTENT_CHARS;
use crate::layout::MAX_CONTENT_LENGTH;
use crate::layout::MAX_TOPIC_CHARS;
use crate::layout::MAX_TOPIC_LENGTH;
use crate::layout::PUBLIC_KEY_LENGTH;
use crate::layout::STRING_LENGTH_PREFIX;
use crate::layout::TIMESTAMP_LENGTH;
use crate::layout::RecordLayout;

verus! {

/// A single immutable post record.
pub struct Tweet {
    /// Identity token of the authenticated author, fixed at creation.
    pub author: [u8; 32],
    /// Seconds since the epoch, captured from the caller's clock at creation.
    pub timestamp: i64,
    /// Topic text, at most [`MAX_TOPIC_CHARS`] characters.
    pub topic: String,
    /// Content text, at most [`MAX_CONTENT_CHARS`] characters.
    pub content: String,
}

impl Tweet {
    /// Byte capacity every record slot reserves: the worst case of the
    /// layout in [`crate::layout`].
    pub const LEN: usize = DISCRIMINATOR_LENGTH + PUBLIC_KEY_LENGTH + TIMESTAMP_LENGTH
        + STRING_LENGTH_PREFIX + MAX_TOPIC_LENGTH
        + STRING_LENGTH_PREFIX + MAX_CONTENT_LENGTH;
}

/// The validation errors a creation attempt can fail with. Both are caller
/// errors, recoverable by correcting the offending field.
#[derive(Clone, Copy, Debug, PartialEq, Eq, Structural)]
pub enum ErrorCode {
    /// The topic exceeds [`MAX_TOPIC_CHARS`] characters.
    TopicTooLong,
    /// The content exceeds [`MAX_CONTENT_CHARS`] characters.
    ContentTooLong,
}

impl ErrorCode {
    /// The fixed user-facing message for this error.
    pub fn message(&self) -> (msg: &'static str)
        ensures
            *self == ErrorCode::TopicTooLong ==> msg@ == "The provided topic should be 50 characters long maximum."@,
            *self == ErrorCode::ContentTooLong ==> msg@ == "The provided content should be 280 characters long maximum."@,
    {
        match self {
            ErrorCode::TopicTooLong => "The provided topic should be 50 characters long maximum.",
            ErrorCode::ContentTooLong => "The provided content should be 280 characters long maximum.",
        }
    }
}

/// The topic passes validation: at most [`MAX_TOPIC_CHARS`] characters.
pub open spec fn topic_within_limit(topic: Seq<char>) -> bool {
    topic.len() <= MAX_TOPIC_CHARS
}

/// The content passes validation: at most [`MAX_CONTENT_CHARS`] characters.
pub open spec fn content_within_limit(content: Seq<char>) -> bool {
    content.len() <= MAX_CONTENT_CHARS
}

/// A pre-allocated, fixed-capacity storage region that holds one record.
pub struct Slot {
    /// The byte capacity reserved for the record, fixed at allocation.
    pub capacity: usize,
    /// The record held in this slot; zeroed until initialization succeeds.
    pub record: Tweet,
}

impl Slot {
    /// The slot is still in its freshly-allocated state: exactly the
    /// budgeted capacity, and every record field zeroed.
    pub open spec fn is_blank(self) -> bool {
        &&& self.capacity == Tweet::LEN
        &&& self.record.author@ == Seq::<u8>::new(32, |i: int| 0u8)
        &&& self.record.timestamp == 0
        &&& self.record.topic@ == Seq::<char>::empty()
        &&& self.record.content@ == Seq::<char>::empty()
    }

    /// Allocates a fresh zeroed slot of exactly the budgeted capacity.
    pub fn allocate() -> (slot: Slot)
        ensures
            slot.is_blank(),
    {
        let author: [u8; 32] = [0u8; 32];
        let slot = Slot {
            capacity: Tweet::LEN,
            record: Tweet {
                author,
                timestamp: 0,
                topic: String::new(),
                content: String::new(),
            },
        };
        proof {
            assert(slot.record.author@ =~= Seq::<u8>::new(32, |i: int| 0u8));
        }
        slot
    }
}

/// Validates the field values and, on success, writes the new record into
/// the slot.
///
/// The topic's character count is checked first, then the content's;
/// the first violation wins and nothing is written. On success the slot
/// holds exactly the given values — the round trip is the identity.
pub fn send_tweet(
    slot: &mut Slot,
    author: [u8; 32],
    timestamp: i64,
    topic: String,
    content: String,
) -> (result: Result<(), ErrorCode>)
    requires
        old(slot).is_blank(),
    ensures
        !topic_within_limit(topic@) ==> {
            &&& result == Err::<(), ErrorCode>(ErrorCode::TopicTooLong)
            &&& *final(slot) == *old(slot)
        },
        topic_within_limit(topic@) && !content_within_limit(content@) ==> {
            &&& result == Err::<(), ErrorCode>(ErrorCode::ContentTooLong)
            &&& *final(slot) == *old(slot)
        },
        topic_within_limit(topic@) && content_within_limit(content@) ==> {
            &&& result == Ok::<(), ErrorCode>(())
            &&& final(slot).record.author@ == author@
            &&& final(slot).record.timestamp == timestamp
            &&& final(slot).record.topic@ == topic@
            &&& final(slot).record.content@ == content@
            &&& final(slot).capacity == old(slot).capacity
        },
{
    if topic.as_str().unicode_len() > MAX_TOPIC_CHARS {
        return Err(ErrorCode::TopicTooLong);
    }
    if content.as_str().unicode_len() > MAX_CONTENT_CHARS {
        return Err(ErrorCode::ContentTooLong);
    }

    slot.record.author = author;
    slot.record.timestamp = timestamp;
    slot.record.topic = topic;
    slot.record.content = content;
    Ok(())
}

/// Exact byte length of a record as the store serializes it: the fixed
/// header fields, then each text field as a length prefix and its UTF-8
/// bytes.
pub open spec fn serialized_length(record: Tweet) -> int {
    DISCRIMINATOR_LENGTH + PUBLIC_KEY_LENGTH + TIMESTAMP_LENGTH
        + STRING_LENGTH_PREFIX + encode_utf8(record.topic@).len()
        + STRING_LENGTH_PREFIX + encode_utf8(record.content@).len()
}

/// A character sequence encodes to at most [`MAX_BYTES_PER_CHAR`] bytes per
/// character: the budget's worst-case assumption is sound.
pub proof fn lemma_utf8_length_bound(text: Seq<char>)
    ensures
        encode_utf8(text).len() <= MAX_BYTES_PER_CHAR * text.len(),
    decreases text.len(),
{
    if text.len() > 0 {
        char_is_scalar(text[0]);
        assert(encode_scalar(text[0] as u32).len() <= 4);
        lemma_utf8_length_bound(text.drop_first());
    }
}

/// A record whose fields pass validation always fits: each text field's
/// UTF-8 bytes fit that field's reservation, and the whole serialized
/// record fits the slot capacity — storage can never overflow after a
/// successful validation.
pub proof fn lemma_validated_record_fits(record: Tweet)
    requires
        topic_within_limit(record.topic@),
        content_within_limit(record.content@),
    ensures
        encode_utf8(record.topic@).len() <= MAX_TOPIC_LENGTH,
        encode_utf8(record.content@).len() <= MAX_CONTENT_LENGTH,
        serialized_length(record) <= Tweet::LEN,
{
    lemma_utf8_length_bound(record.topic@);
    lemma_utf8_length_bound(record.content@);
}

/// The hand-kept slot constant agrees with the Layout Calculator's formula
/// for the standard layout, and both equal 1376 bytes.
pub proof fn lemma_len_matches_layout()
    ensures
        Tweet::LEN == RecordLayout::spec_standard().spec_capacity(),
        Tweet::LEN == 1376,
{
}

} // verus!
