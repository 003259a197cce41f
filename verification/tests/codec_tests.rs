use payment_gateway::types::codec::{read_text, read_word, write_text, write_word};
use payment_gateway::types::invoice::{read_amount, read_token, write_amount, write_token};
use payment_gateway::types::{
    Amount, BalanceSource, CodecError, Invoice, PaymentMethod, Serializable,
};

fn native_invoice() -> Invoice {
    Invoice {
        key: "inv1".to_string(),
        to: "0xAAA".to_string(),
        amount: Amount::from_u64(100),
        method: PaymentMethod { token_address: None },
        created_at: 7,
    }
}

fn token_invoice() -> Invoice {
    Invoice {
        key: "inv2".to_string(),
        to: "0xBBB".to_string(),
        amount: Amount::from_limbs([1, 2, 3, 4]),
        method: PaymentMethod { token_address: Some("0xTOKEN".to_string()) },
        created_at: 1_700_000_000,
    }
}

fn native_bytes() -> Vec<u8> {
    let mut bytes = vec![4, 0, 0, 0, 0, 0, 0, 0];
    bytes.extend_from_slice(b"inv1");
    bytes.extend_from_slice(&[5, 0, 0, 0, 0, 0, 0, 0]);
    bytes.extend_from_slice(b"0xAAA");
    bytes.extend_from_slice(&[100, 0, 0, 0, 0, 0, 0, 0]);
    bytes.extend_from_slice(&[0; 24]);
    bytes.push(0);
    bytes.extend_from_slice(&[7, 0, 0, 0, 0, 0, 0, 0]);
    bytes
}

#[test]
fn word_is_written_least_significant_byte_first() {
    let mut out = vec![9];
    write_word(&mut out, 0x0102_0304_0506_0708);
    assert_eq!(out, vec![9, 8, 7, 6, 5, 4, 3, 2, 1]);
}

#[test]
fn word_is_read_back_from_its_place() {
    let bytes = vec![9, 8, 7, 6, 5, 4, 3, 2, 1, 0xff];
    assert_eq!(read_word(&bytes, 1), Some((0x0102_0304_0506_0708, 9)));
    assert_eq!(read_word(&bytes, 2), Some((0xff01_0203_0405_0607, 10)));
}

#[test]
fn word_needs_eight_bytes() {
    let bytes = vec![1, 2, 3, 4, 5, 6, 7, 8];
    assert_eq!(read_word(&bytes, 0), Some((0x0807_0605_0403_0201, 8)));
    assert_eq!(read_word(&bytes, 1), None);
    assert_eq!(read_word(&bytes, 8), None);
    assert_eq!(read_word(&bytes, 9), None);
    assert_eq!(read_word(&bytes, usize::MAX), None);
    assert_eq!(read_word(&Vec::new(), 0), None);
}

#[test]
fn text_is_framed_by_its_length_in_bytes() {
    let mut out = Vec::new();
    write_text(&mut out, "aé");
    assert_eq!(out, vec![3, 0, 0, 0, 0, 0, 0, 0, b'a', 0xc3, 0xa9]);
    let mut empty = vec![1];
    write_text(&mut empty, "");
    assert_eq!(empty, vec![1, 0, 0, 0, 0, 0, 0, 0, 0]);
}

#[test]
fn text_is_read_back_from_its_place() {
    let bytes = vec![0xee, 3, 0, 0, 0, 0, 0, 0, 0, b'a', 0xc3, 0xa9, 0xee];
    assert_eq!(read_text(&bytes, 1), Some(("aé".to_string(), 12)));
    let empty = vec![0, 0, 0, 0, 0, 0, 0, 0];
    assert_eq!(read_text(&empty, 0), Some((String::new(), 8)));
}

#[test]
fn text_that_runs_past_the_end_is_refused() {
    let bytes = vec![4, 0, 0, 0, 0, 0, 0, 0, b'a', b'b', b'c'];
    assert_eq!(read_text(&bytes, 0), None);
    let huge = vec![0xff, 0xff, 0xff, 0xff, 0xff, 0xff, 0xff, 0xff, b'a'];
    assert_eq!(read_text(&huge, 0), None);
    assert_eq!(read_text(&vec![1, 0, 0], 0), None);
}

#[test]
fn text_that_is_not_utf8_is_refused() {
    let bytes = vec![2, 0, 0, 0, 0, 0, 0, 0, 0xc3, 0x28];
    assert_eq!(read_text(&bytes, 0), None);
    // A length that cuts a character in two.
    let cut = vec![2, 0, 0, 0, 0, 0, 0, 0, b'a', 0xc3, 0xa9];
    assert_eq!(read_text(&cut, 0), None);
}

#[test]
fn amount_is_four_words_from_the_lowest() {
    let mut out = Vec::new();
    write_amount(&mut out, &Amount::from_limbs([1, 2, 3, 4]));
    let mut expected = vec![1, 0, 0, 0, 0, 0, 0, 0];
    expected.extend_from_slice(&[2, 0, 0, 0, 0, 0, 0, 0]);
    expected.extend_from_slice(&[3, 0, 0, 0, 0, 0, 0, 0]);
    expected.extend_from_slice(&[4, 0, 0, 0, 0, 0, 0, 0]);
    assert_eq!(out, expected);
    assert_eq!(read_amount(&expected, 0), Some((Amount::from_limbs([1, 2, 3, 4]), 32)));
    assert_eq!(read_amount(&expected, 1), None);
    expected.pop();
    assert_eq!(read_amount(&expected, 0), None);
}

#[test]
fn token_is_tagged() {
    let mut none = Vec::new();
    write_token(&mut none, &None);
    assert_eq!(none, vec![0]);
    let mut some = Vec::new();
    write_token(&mut some, &Some("ab".to_string()));
    assert_eq!(some, vec![1, 2, 0, 0, 0, 0, 0, 0, 0, b'a', b'b']);
    assert_eq!(read_token(&none, 0), Some((None, 1)));
    assert_eq!(read_token(&some, 0), Some((Some("ab".to_string()), 11)));
}

#[test]
fn token_with_unknown_tag_is_refused() {
    assert_eq!(read_token(&vec![2], 0), None);
    assert_eq!(read_token(&vec![0xff, 0, 0], 0), None);
    assert_eq!(read_token(&Vec::new(), 0), None);
    assert_eq!(read_token(&vec![0], 1), None);
    assert_eq!(read_token(&vec![1], 0), None);
    assert_eq!(read_token(&vec![1, 1, 0, 0, 0, 0, 0, 0, 0], 0), None);
}

#[test]
fn invoice_bytes_are_exact() {
    assert_eq!(native_invoice().to_bin(), Ok(native_bytes()));
    assert_eq!(native_bytes().len(), 66);
}

#[test]
fn invoice_with_token_bytes_are_exact() {
    let mut bytes = vec![4, 0, 0, 0, 0, 0, 0, 0];
    bytes.extend_from_slice(b"inv2");
    bytes.extend_from_slice(&[5, 0, 0, 0, 0, 0, 0, 0]);
    bytes.extend_from_slice(b"0xBBB");
    bytes.extend_from_slice(&[1, 0, 0, 0, 0, 0, 0, 0]);
    bytes.extend_from_slice(&[2, 0, 0, 0, 0, 0, 0, 0]);
    bytes.extend_from_slice(&[3, 0, 0, 0, 0, 0, 0, 0]);
    bytes.extend_from_slice(&[4, 0, 0, 0, 0, 0, 0, 0]);
    bytes.push(1);
    bytes.extend_from_slice(&[7, 0, 0, 0, 0, 0, 0, 0]);
    bytes.extend_from_slice(b"0xTOKEN");
    bytes.extend_from_slice(&1_700_000_000u64.to_le_bytes());
    assert_eq!(token_invoice().to_bin(), Ok(bytes));
}

#[test]
fn invoice_round_trip() {
    for invoice in [native_invoice(), token_invoice()] {
        let bytes = invoice.to_bin().unwrap();
        assert_eq!(Invoice::from_bin(bytes), Ok(invoice));
    }
}

#[test]
fn invoice_round_trip_with_wide_texts_and_amounts() {
    let invoice = Invoice {
        key: "räkning-№1-請求書".to_string(),
        to: String::new(),
        amount: Amount::from_limbs([u64::MAX, 0, u64::MAX, 1 << 63]),
        method: PaymentMethod { token_address: Some(String::new()) },
        created_at: u64::MAX,
    };
    let bytes = invoice.to_bin().unwrap();
    assert_eq!(Invoice::from_bin(bytes), Ok(invoice));
}

#[test]
fn invoice_is_decoded_from_exact_bytes() {
    assert_eq!(Invoice::from_bin(native_bytes()), Ok(native_invoice()));
}

#[test]
fn invoice_without_amount_has_no_encoding() {
    let mut invoice = native_invoice();
    invoice.amount = Amount::zero();
    assert!(!invoice.is_well_formed());
    assert_eq!(invoice.to_bin(), Err(CodecError::Unencodable));
    assert!(native_invoice().is_well_formed());
}

#[test]
fn bytes_with_zero_amount_are_corrupt() {
    let mut bytes = native_bytes();
    bytes[25] = 0;
    assert_eq!(Invoice::from_bin(bytes), Err(CodecError::Corrupt));
}

#[test]
fn truncated_bytes_are_corrupt() {
    let full = native_bytes();
    for len in 0..full.len() {
        assert_eq!(Invoice::from_bin(full[..len].to_vec()), Err(CodecError::Corrupt));
    }
}

#[test]
fn trailing_bytes_are_corrupt() {
    let mut bytes = native_bytes();
    bytes.push(0);
    assert_eq!(Invoice::from_bin(bytes), Err(CodecError::Corrupt));
}

#[test]
fn bad_token_tag_is_corrupt() {
    let mut bytes = native_bytes();
    bytes[57] = 2;
    assert_eq!(Invoice::from_bin(bytes), Err(CodecError::Corrupt));
}

#[test]
fn bad_utf8_in_recipient_is_corrupt() {
    let mut bytes = native_bytes();
    bytes[20] = 0xff;
    assert_eq!(Invoice::from_bin(bytes), Err(CodecError::Corrupt));
}

#[test]
fn balance_source_follows_token_address() {
    assert_eq!(native_invoice().balance_source(), BalanceSource::Native);
    assert_eq!(
        token_invoice().balance_source(),
        BalanceSource::Token { contract: "0xTOKEN".to_string() }
    );
}

#[test]
fn clone_keeps_every_field() {
    let invoice = token_invoice();
    assert_eq!(invoice.clone(), invoice);
    assert_eq!(invoice.method.clone(), invoice.method);
}
