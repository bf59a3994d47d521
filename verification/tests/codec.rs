use hex_serde_util::{decode, encode, Case, DecodeError, Format, Prefix};

const LOWER: Format = Format { case: Case::Lower, prefix: Prefix::Absent };
const UPPER: Format = Format { case: Case::Upper, prefix: Prefix::Absent };
const PREFIX_LOWER: Format = Format { case: Case::Lower, prefix: Prefix::Required };
const PREFIX_UPPER: Format = Format { case: Case::Upper, prefix: Prefix::Required };

const FORMATS: [Format; 4] = [LOWER, UPPER, PREFIX_LOWER, PREFIX_UPPER];

#[test]
fn encode_twenty_six_under_each_policy() {
    assert_eq!(encode(26, LOWER), "1a");
    assert_eq!(encode(26, UPPER), "1A");
    assert_eq!(encode(26, PREFIX_LOWER), "0x1a");
    assert_eq!(encode(26, PREFIX_UPPER), "0x1A");
}

#[test]
fn decode_twenty_six_under_each_policy() {
    assert_eq!(decode("1a", LOWER, 255), Ok(26));
    assert_eq!(decode("1A", UPPER, 255), Ok(26));
    assert_eq!(decode("0x1a", PREFIX_LOWER, 255), Ok(26));
    assert_eq!(decode("0x1A", PREFIX_UPPER, 255), Ok(26));
}

#[test]
fn encode_zero_is_one_digit() {
    assert_eq!(encode(0, LOWER), "0");
    assert_eq!(encode(0, UPPER), "0");
    assert_eq!(encode(0, PREFIX_LOWER), "0x0");
    assert_eq!(encode(0, PREFIX_UPPER), "0x0");
}

#[test]
fn encode_has_no_leading_zero() {
    assert_eq!(encode(1, LOWER), "1");
    assert_eq!(encode(15, LOWER), "f");
    assert_eq!(encode(16, LOWER), "10");
    assert_eq!(encode(255, UPPER), "FF");
    assert_eq!(encode(256, PREFIX_UPPER), "0x100");
    assert_eq!(encode(0xdead_beef, PREFIX_LOWER), "0xdeadbeef");
}

#[test]
fn encode_largest_value() {
    assert_eq!(encode(u64::MAX, LOWER), "ffffffffffffffff");
    assert_eq!(encode(u64::MAX, PREFIX_UPPER), "0xFFFFFFFFFFFFFFFF");
    assert_eq!(encode(0x0123_4567_89ab_cdef, LOWER), "123456789abcdef");
    assert_eq!(encode(0x0123_4567_89ab_cdef, UPPER), "123456789ABCDEF");
}

#[test]
fn encode_keeps_to_its_case() {
    let mut value: u64 = 0;
    while value < 5000 {
        for format in FORMATS {
            let text: String = encode(value, format);
            let digits: &str = match format.prefix {
                Prefix::Required => {
                    assert!(text.starts_with("0x"));
                    &text[2..]
                }
                Prefix::Absent => &text,
            };
            assert!(!digits.is_empty());
            for c in digits.chars() {
                match format.case {
                    Case::Lower => assert!(matches!(c, '0'..='9' | 'a'..='f')),
                    Case::Upper => assert!(matches!(c, '0'..='9' | 'A'..='F')),
                }
            }
        }
        value += 7;
    }
}

#[test]
fn decode_inverts_encode() {
    let values: [u64; 9] = [0, 1, 9, 10, 15, 16, 255, 0xabcdef, u64::MAX];
    for value in values {
        for format in FORMATS {
            assert_eq!(decode(&encode(value, format), format, u64::MAX), Ok(value));
        }
    }
    let mut small: u64 = 0;
    while small <= 255 {
        for format in FORMATS {
            assert_eq!(decode(&encode(small, format), format, 255), Ok(small));
        }
        small += 1;
    }
}

#[test]
fn decode_ignores_digit_case() {
    assert_eq!(decode("1A", LOWER, 255), decode("1a", LOWER, 255));
    assert_eq!(decode("1A", LOWER, 255), Ok(26));
    assert_eq!(decode("1a", UPPER, 255), Ok(26));
    assert_eq!(decode("0x1A", PREFIX_LOWER, 255), Ok(26));
    assert_eq!(decode("0x1a", PREFIX_UPPER, 255), Ok(26));
    assert_eq!(decode("aBcDeF", LOWER, u64::MAX), Ok(0xabcdef));
    assert_eq!(decode("0xDeadBeef", PREFIX_UPPER, u64::MAX), Ok(0xdead_beef));
}

#[test]
fn decode_accepts_leading_zeros() {
    assert_eq!(decode("0", LOWER, 255), Ok(0));
    assert_eq!(decode("0000", LOWER, 255), Ok(0));
    assert_eq!(decode("001a", LOWER, 255), Ok(26));
    assert_eq!(decode("0x00000000000000000000000000ff", PREFIX_LOWER, 255), Ok(255));
}

#[test]
fn decode_refuses_prefix_where_none_is_allowed() {
    assert_eq!(decode("0x1a", LOWER, 255), Err(DecodeError::UnexpectedPrefix));
    assert_eq!(decode("0x1A", UPPER, 255), Err(DecodeError::UnexpectedPrefix));
    assert_eq!(decode("0x", LOWER, 255), Err(DecodeError::UnexpectedPrefix));
    assert_eq!(decode("0xzz", UPPER, 255), Err(DecodeError::UnexpectedPrefix));
}

#[test]
fn decode_refuses_text_without_required_prefix() {
    assert_eq!(decode("1a", PREFIX_LOWER, 255), Err(DecodeError::MissingPrefix));
    assert_eq!(decode("1A", PREFIX_UPPER, 255), Err(DecodeError::MissingPrefix));
    assert_eq!(decode("", PREFIX_LOWER, 255), Err(DecodeError::MissingPrefix));
    assert_eq!(decode("0", PREFIX_LOWER, 255), Err(DecodeError::MissingPrefix));
    assert_eq!(decode("x1a", PREFIX_LOWER, 255), Err(DecodeError::MissingPrefix));
}

#[test]
fn decode_takes_only_the_exact_prefix() {
    assert_eq!(decode("0X1a", PREFIX_LOWER, 255), Err(DecodeError::MissingPrefix));
    assert_eq!(decode("0X1a", LOWER, 255), Err(DecodeError::InvalidDigit));
    assert_eq!(decode(" 0x1a", PREFIX_LOWER, 255), Err(DecodeError::MissingPrefix));
    assert_eq!(decode("0x0x1a", PREFIX_LOWER, 255), Err(DecodeError::InvalidDigit));
}

#[test]
fn decode_refuses_empty_digits() {
    assert_eq!(decode("", LOWER, 255), Err(DecodeError::Empty));
    assert_eq!(decode("", UPPER, 255), Err(DecodeError::Empty));
    assert_eq!(decode("0x", PREFIX_LOWER, 255), Err(DecodeError::Empty));
    assert_eq!(decode("0x", PREFIX_UPPER, 255), Err(DecodeError::Empty));
}

#[test]
fn decode_refuses_what_is_no_hex_digit() {
    assert_eq!(decode("1g", LOWER, 255), Err(DecodeError::InvalidDigit));
    assert_eq!(decode("g", LOWER, 255), Err(DecodeError::InvalidDigit));
    assert_eq!(decode("+1a", LOWER, 255), Err(DecodeError::InvalidDigit));
    assert_eq!(decode("-1a", LOWER, 255), Err(DecodeError::InvalidDigit));
    assert_eq!(decode("1a ", LOWER, 255), Err(DecodeError::InvalidDigit));
    assert_eq!(decode("1_a", LOWER, 255), Err(DecodeError::InvalidDigit));
    assert_eq!(decode("0x1a.", PREFIX_LOWER, 255), Err(DecodeError::InvalidDigit));
    assert_eq!(decode("0x+1", PREFIX_LOWER, 255), Err(DecodeError::InvalidDigit));
    assert_eq!(decode("\u{ff11}a", LOWER, 255), Err(DecodeError::InvalidDigit));
    assert_eq!(decode("1\u{e9}", UPPER, 255), Err(DecodeError::InvalidDigit));
    assert_eq!(decode("/", LOWER, 255), Err(DecodeError::InvalidDigit));
    assert_eq!(decode(":", LOWER, 255), Err(DecodeError::InvalidDigit));
    assert_eq!(decode("@", LOWER, 255), Err(DecodeError::InvalidDigit));
    assert_eq!(decode("G", LOWER, 255), Err(DecodeError::InvalidDigit));
    assert_eq!(decode("`", LOWER, 255), Err(DecodeError::InvalidDigit));
}

#[test]
fn decode_reports_an_invalid_digit_before_an_overflow() {
    assert_eq!(decode("fffg", LOWER, 255), Err(DecodeError::InvalidDigit));
    assert_eq!(decode("gfff", LOWER, 255), Err(DecodeError::InvalidDigit));
    assert_eq!(decode("0xaaaaaaaaz", PREFIX_LOWER, 255), Err(DecodeError::InvalidDigit));
}

#[test]
fn decode_refuses_what_does_not_fit() {
    assert_eq!(decode("0xaaaaaaaa", PREFIX_LOWER, 255), Err(DecodeError::Overflow));
    assert_eq!(decode("100", LOWER, 255), Err(DecodeError::Overflow));
    assert_eq!(decode("ff", LOWER, 255), Ok(255));
    assert_eq!(decode("ffff", UPPER, 0xffff), Ok(0xffff));
    assert_eq!(decode("10000", UPPER, 0xffff), Err(DecodeError::Overflow));
    assert_eq!(decode("ffffffffffffffff", LOWER, u64::MAX), Ok(u64::MAX));
    assert_eq!(decode("10000000000000000", LOWER, u64::MAX), Err(DecodeError::Overflow));
    assert_eq!(decode("0x1ffffffffffffffff", PREFIX_UPPER, u64::MAX), Err(DecodeError::Overflow));
    assert_eq!(decode("b", LOWER, 10), Err(DecodeError::Overflow));
    assert_eq!(decode("a", LOWER, 10), Ok(10));
    assert_eq!(decode("1", LOWER, 0), Err(DecodeError::Overflow));
    assert_eq!(decode("0", LOWER, 0), Ok(0));
}

#[test]
fn prefix_rule_is_strict_for_every_value() {
    let values: [u64; 6] = [0, 1, 26, 255, 0xabc, u64::MAX];
    for value in values {
        for written in FORMATS {
            for read in FORMATS {
                let result = decode(&encode(value, written), read, u64::MAX);
                match (written.prefix, read.prefix) {
                    (Prefix::Required, Prefix::Absent) => {
                        assert_eq!(result, Err(DecodeError::UnexpectedPrefix))
                    }
                    (Prefix::Absent, Prefix::Required) => {
                        assert_eq!(result, Err(DecodeError::MissingPrefix))
                    }
                    _ => assert_eq!(result, Ok(value)),
                }
            }
        }
    }
}

#[test]
fn error_messages() {
    assert_eq!(DecodeError::MissingPrefix.message(), "hex string without 0x prefix");
    assert_eq!(
        DecodeError::UnexpectedPrefix.message(),
        "hex string with unexpected 0x prefix"
    );
    assert_eq!(DecodeError::InvalidDigit.message(), "invalid digit found in hex string");
    assert_eq!(DecodeError::Empty.message(), "cannot parse integer from empty hex string");
    assert_eq!(DecodeError::Overflow.message(), "number too large to fit in target type");
}
