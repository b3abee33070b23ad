use solana_twitter::layout::RecordLayout;
use solana_twitter::layout::DISCRIMINATOR_LENGTH;
use solana_twitter::layout::MAX_CONTENT_CHARS;
use solana_twitter::layout::MAX_TOPIC_CHARS;
use solana_twitter::layout::PUBLIC_KEY_LENGTH;
use solana_twitter::layout::STRING_LENGTH_PREFIX;
use solana_twitter::layout::TIMESTAMP_LENGTH;
use solana_twitter::record::Tweet;

#[test]
fn capacity_is_the_exact_constant() {
    let layout = RecordLayout::standard();
    assert_eq!(layout.required_capacity(), 8 + 32 + 8 + (4 + 200) + (4 + 1120));
    assert_eq!(layout.required_capacity(), 1376);
    assert_eq!(Tweet::LEN, 1376);
}

#[test]
fn standard_layout_holds_the_declared_sizes() {
    let layout = RecordLayout::standard();
    assert_eq!(layout.discriminator_length, DISCRIMINATOR_LENGTH);
    assert_eq!(layout.public_key_length, PUBLIC_KEY_LENGTH);
    assert_eq!(layout.timestamp_length, TIMESTAMP_LENGTH);
    assert_eq!(layout.string_length_prefix, STRING_LENGTH_PREFIX);
    assert_eq!(layout.max_topic_chars, MAX_TOPIC_CHARS);
    assert_eq!(layout.max_content_chars, MAX_CONTENT_CHARS);
}

#[test]
fn capacity_follows_the_formula_for_other_limits() {
    let layout = RecordLayout {
        discriminator_length: 1,
        public_key_length: 2,
        timestamp_length: 3,
        string_length_prefix: 4,
        max_topic_chars: 5,
        max_content_chars: 6,
    };
    assert_eq!(layout.required_capacity(), 1 + 2 + 3 + 4 + 5 * 4 + 4 + 6 * 4);
}
