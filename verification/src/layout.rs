//! The Layout Calculator: the byte capacity a record's storage slot reserves.
//!
//! A slot's capacity is fixed when the slot is allocated and can never grow,
//! so it is sized for the worst case: every character of a text field may
//! occupy up to four bytes in UTF-8, and each text field carries a length
//! prefix. The figures live in one place, [`RecordLayout`], so the budget is
//! auditable at a glance.

use vstd::prelude::*;

verus! {

/// Bytes reserved for the record-type tag that the store writes ahead of
/// every record.
pub const DISCRIMINATOR_LENGTH: usize = 8;

/// Bytes of the fixed-size author identity token.
pub const PUBLIC_KEY_LENGTH: usize = 32;

/// Bytes of the signed 64-bit creation timestamp.
pub const TIMESTAMP_LENGTH: usize = 8;

/// Bytes of the length prefix stored ahead of each text field.
pub const STRING_LENGTH_PREFIX: usize = 4;

/// Maximum number of characters a topic may hold.
pub const MAX_TOPIC_CHARS: usize = 50;

/// Maximum number of characters a content text may hold.
pub const MAX_CONTENT_CHARS: usize = 280;

/// Worst-case bytes one character may occupy in UTF-8.
pub const MAX_BYTES_PER_CHAR: usize = 4;

/// Bytes reserved for a topic: its character limit at four bytes each.
pub const MAX_TOPIC_LENGTH: usize = 50 * 4;

/// Bytes reserved for a content text: its character limit at four bytes each.
pub const MAX_CONTENT_LENGTH: usize = 280 * 4;

/// The declared sizes and limits a record's slot is budgeted from.
///
/// Header fields are fixed-size; the two text fields are variable-length and
/// budgeted from their character limits at the worst-case encoding width.
pub struct RecordLayout {
    /// Bytes of the record-type tag.
    pub discriminator_length: usize,
    /// Bytes of the author identity token.
    pub public_key_length: usize,
    /// Bytes of the creation timestamp.
    pub timestamp_length: usize,
    /// Bytes of the length prefix ahead of each text field.
    pub string_length_prefix: usize,
    /// Character limit for the topic.
    pub max_topic_chars: usize,
    /// Character limit for the content.
    pub max_content_chars: usize,
}

impl RecordLayout {
    /// The capacity formula: tag, author and timestamp, then one
    /// length-prefixed worst-case text reservation per text field.
    pub open spec fn spec_capacity(self) -> int {
        self.discriminator_length + self.public_key_length + self.timestamp_length
            + self.string_length_prefix + self.max_topic_chars * MAX_BYTES_PER_CHAR
            + self.string_length_prefix + self.max_content_chars * MAX_BYTES_PER_CHAR
    }

    /// The layout this record store is built with.
    pub open spec fn spec_standard() -> RecordLayout {
        RecordLayout {
            discriminator_length: DISCRIMINATOR_LENGTH,
            public_key_length: PUBLIC_KEY_LENGTH,
            timestamp_length: TIMESTAMP_LENGTH,
            string_length_prefix: STRING_LENGTH_PREFIX,
            max_topic_chars: MAX_TOPIC_CHARS,
            max_content_chars: MAX_CONTENT_CHARS,
        }
    }

    /// Returns the layout this record store is built with.
    pub fn standard() -> (layout: RecordLayout)
        ensures
            layout == RecordLayout::spec_standard(),
    {
        RecordLayout {
            discriminator_length: DISCRIMINATOR_LENGTH,
            public_key_length: PUBLIC_KEY_LENGTH,
            timestamp_length: TIMESTAMP_LENGTH,
            string_length_prefix: STRING_LENGTH_PREFIX,
            max_topic_chars: MAX_TOPIC_CHARS,
            max_content_chars: MAX_CONTENT_CHARS,
        }
    }

    /// The Layout Calculator: the exact byte capacity a slot must reserve
    /// for one record under this layout.
    pub fn required_capacity(&self) -> (capacity: usize)
        requires
            self.spec_capacity() <= usize::MAX,
        ensures
            capacity == self.spec_capacity(),
    {
        self.discriminator_length + self.public_key_length + self.timestamp_length
            + self.string_length_prefix + self.max_topic_chars * MAX_BYTES_PER_CHAR
            + self.string_length_prefix + self.max_content_chars * MAX_BYTES_PER_CHAR
    }
}

/// Under the standard layout the capacity is exactly
/// `8 + 32 + 8 + (4 + 200) + (4 + 1120)` bytes, and this figure must never
/// change for these limits.
pub proof fn lemma_standard_capacity()
    ensures
        RecordLayout::spec_standard().spec_capacity() == 1376,
{
}

} // verus!
