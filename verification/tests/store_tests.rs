use payment_gateway::common::{unix_time_millis, unix_time_seconds, ClockReading, DatabaseError};
use payment_gateway::db::{
    complete_delete, complete_get, complete_get_all, complete_get_last, complete_set,
    decode_entries, decode_entry, decode_value, delete, encode_value, get, get_all, get_last,
};
use payment_gateway::engine::{read_entries, read_entry, read_value, removed, written};
use payment_gateway::text::text_of_bytes;
use payment_gateway::types::{Amount, Invoice, PaymentMethod, Serializable};

fn open_tree() -> sled::Tree {
    let db = sled::Config::new().temporary(true).open().unwrap();
    db.open_tree("invoices").unwrap()
}

fn invoice(key: &str, amount: u64) -> Invoice {
    Invoice {
        key: key.to_string(),
        to: "0xAAA".to_string(),
        amount: Amount::from_u64(amount),
        method: PaymentMethod { token_address: None },
        created_at: 1,
    }
}

fn engine_failure() -> sled::Error {
    sled::Error::Unsupported("closed".to_string())
}

#[test]
fn set_then_get_gives_the_value() {
    let tree = open_tree();
    assert_eq!(payment_gateway::db::set(&tree, "inv1", invoice("inv1", 100)), Ok(()));
    assert_eq!(get::<Invoice>(&tree, "inv1"), Ok(invoice("inv1", 100)));
}

#[test]
fn set_twice_then_get_gives_the_value() {
    let tree = open_tree();
    assert_eq!(payment_gateway::db::set(&tree, "k", invoice("k", 5)), Ok(()));
    assert_eq!(payment_gateway::db::set(&tree, "k", invoice("k", 5)), Ok(()));
    assert_eq!(get::<Invoice>(&tree, "k"), Ok(invoice("k", 5)));
    assert_eq!(get_all::<Invoice>(&tree), Ok(vec![("k".to_string(), invoice("k", 5))]));
}

#[test]
fn set_overwrites_the_value() {
    let tree = open_tree();
    assert_eq!(payment_gateway::db::set(&tree, "k", invoice("k", 5)), Ok(()));
    assert_eq!(payment_gateway::db::set(&tree, "k", invoice("k", 6)), Ok(()));
    assert_eq!(get::<Invoice>(&tree, "k"), Ok(invoice("k", 6)));
}

#[test]
fn set_writes_the_encoding() {
    let tree = open_tree();
    assert_eq!(payment_gateway::db::set(&tree, "k", invoice("k", 5)), Ok(()));
    let stored = tree.get("k").unwrap().unwrap().to_vec();
    assert_eq!(Ok(stored), invoice("k", 5).to_bin());
}

#[test]
fn set_refuses_a_value_without_encoding() {
    let tree = open_tree();
    assert_eq!(payment_gateway::db::set(&tree, "k", invoice("k", 0)), Err(DatabaseError::Serialize));
    assert_eq!(tree.get("k").unwrap(), None);
    assert_eq!(encode_value(&invoice("k", 0)), Err(DatabaseError::Serialize));
    assert_eq!(encode_value(&invoice("k", 1)), Ok(invoice("k", 1).to_bin().unwrap()));
}

#[test]
fn get_of_a_missing_key_is_not_found() {
    let tree = open_tree();
    assert_eq!(get::<Invoice>(&tree, "nothing"), Err(DatabaseError::NotFound));
}

#[test]
fn get_of_corrupt_bytes_is_deserialize() {
    let tree = open_tree();
    tree.insert("bad", vec![1u8, 2, 3]).unwrap();
    assert_eq!(get::<Invoice>(&tree, "bad"), Err(DatabaseError::Deserialize));
}

#[test]
fn delete_removes_the_entry() {
    let tree = open_tree();
    payment_gateway::db::set(&tree, "a", invoice("a", 1)).unwrap();
    payment_gateway::db::set(&tree, "b", invoice("b", 2)).unwrap();
    assert_eq!(delete(&tree, "a"), Ok(()));
    assert_eq!(get::<Invoice>(&tree, "a"), Err(DatabaseError::NotFound));
    assert_eq!(get::<Invoice>(&tree, "b"), Ok(invoice("b", 2)));
}

#[test]
fn delete_of_a_missing_key_is_not_found() {
    let tree = open_tree();
    assert_eq!(delete(&tree, "a"), Err(DatabaseError::NotFound));
    payment_gateway::db::set(&tree, "a", invoice("a", 1)).unwrap();
    assert_eq!(delete(&tree, "a"), Ok(()));
    assert_eq!(delete(&tree, "a"), Err(DatabaseError::NotFound));
}

#[test]
fn get_all_of_an_empty_tree_is_empty() {
    let tree = open_tree();
    assert_eq!(get_all::<Invoice>(&tree), Ok(Vec::new()));
}

#[test]
fn get_all_gives_every_entry_in_the_engine_order() {
    let tree = open_tree();
    payment_gateway::db::set(&tree, "b", invoice("b", 2)).unwrap();
    payment_gateway::db::set(&tree, "c", invoice("c", 3)).unwrap();
    payment_gateway::db::set(&tree, "a", invoice("a", 1)).unwrap();
    assert_eq!(
        get_all::<Invoice>(&tree),
        Ok(vec![
            ("a".to_string(), invoice("a", 1)),
            ("b".to_string(), invoice("b", 2)),
            ("c".to_string(), invoice("c", 3)),
        ])
    );
}

#[test]
fn get_all_fails_as_a_whole_on_one_corrupt_entry() {
    let tree = open_tree();
    payment_gateway::db::set(&tree, "a", invoice("a", 1)).unwrap();
    tree.insert("b", vec![0u8]).unwrap();
    payment_gateway::db::set(&tree, "c", invoice("c", 3)).unwrap();
    assert_eq!(get_all::<Invoice>(&tree), Err(DatabaseError::Deserialize));
}

#[test]
fn get_all_fails_on_a_key_that_is_not_utf8() {
    let tree = open_tree();
    tree.insert(vec![0xffu8, 0xfe], invoice("x", 1).to_bin().unwrap()).unwrap();
    assert_eq!(get_all::<Invoice>(&tree), Err(DatabaseError::Deserialize));
    assert_eq!(get_last::<Invoice>(&tree), Err(DatabaseError::Deserialize));
}

#[test]
fn get_last_gives_the_entry_with_the_greatest_key() {
    let tree = open_tree();
    payment_gateway::db::set(&tree, "b", invoice("b", 2)).unwrap();
    payment_gateway::db::set(&tree, "z", invoice("z", 26)).unwrap();
    payment_gateway::db::set(&tree, "a", invoice("a", 1)).unwrap();
    assert_eq!(get_last::<Invoice>(&tree), Ok(("z".to_string(), invoice("z", 26))));
}

#[test]
fn get_last_of_an_empty_tree_is_not_found() {
    let tree = open_tree();
    assert_eq!(get_last::<Invoice>(&tree), Err(DatabaseError::NotFound));
}

#[test]
fn get_last_of_corrupt_bytes_is_deserialize() {
    let tree = open_tree();
    payment_gateway::db::set(&tree, "a", invoice("a", 1)).unwrap();
    tree.insert("b", vec![9u8, 9]).unwrap();
    assert_eq!(get_last::<Invoice>(&tree), Err(DatabaseError::Deserialize));
}

#[test]
fn keys_are_read_as_utf8() {
    let tree = open_tree();
    payment_gateway::db::set(&tree, "clé-№1", invoice("clé-№1", 1)).unwrap();
    assert_eq!(
        get_all::<Invoice>(&tree),
        Ok(vec![("clé-№1".to_string(), invoice("clé-№1", 1))])
    );
    assert_eq!(tree.first().unwrap().unwrap().0.to_vec(), "clé-№1".as_bytes().to_vec());
}

#[test]
fn text_of_bytes_decodes_or_refuses() {
    assert_eq!(text_of_bytes(b"inv1".to_vec()), Some("inv1".to_string()));
    assert_eq!(text_of_bytes(vec![0xc3, 0xa9]), Some("é".to_string()));
    assert_eq!(text_of_bytes(Vec::new()), Some(String::new()));
    assert_eq!(text_of_bytes(vec![0xff]), None);
    assert_eq!(text_of_bytes(vec![0xc3]), None);
    assert_eq!(text_of_bytes(vec![0xed, 0xa0, 0x80]), None);
}

#[test]
fn read_value_interprets_each_answer() {
    assert_eq!(read_value(Ok(Some(vec![1, 2]))), Ok(vec![1, 2]));
    assert_eq!(read_value(Ok(None)), Err(DatabaseError::NotFound));
    assert_eq!(read_value(Err(engine_failure())), Err(DatabaseError::Get));
}

#[test]
fn read_entry_interprets_each_answer() {
    assert_eq!(read_entry(Ok(Some((vec![1], vec![2])))), Ok((vec![1], vec![2])));
    assert_eq!(read_entry(Ok(None)), Err(DatabaseError::NotFound));
    assert_eq!(read_entry(Err(engine_failure())), Err(DatabaseError::Get));
}

#[test]
fn read_entries_interprets_each_answer() {
    assert_eq!(read_entries(Ok(vec![(vec![1], vec![2])])), Ok(vec![(vec![1], vec![2])]));
    assert_eq!(read_entries(Ok(Vec::new())), Ok(Vec::new()));
    assert_eq!(read_entries(Err(engine_failure())), Err(DatabaseError::Get));
}

#[test]
fn written_interprets_each_answer() {
    assert_eq!(written(Ok(None)), Ok(()));
    assert_eq!(written(Ok(Some(vec![1]))), Ok(()));
    assert_eq!(written(Err(engine_failure())), Err(DatabaseError::NoSet));
}

#[test]
fn removed_interprets_each_answer() {
    assert_eq!(removed(Ok(Some(vec![1]))), Ok(()));
    assert_eq!(removed(Ok(None)), Err(DatabaseError::NotFound));
    assert_eq!(removed(Err(engine_failure())), Err(DatabaseError::NoDelete));
}

#[test]
fn complete_get_covers_each_answer() {
    let bytes = invoice("a", 1).to_bin().unwrap();
    assert_eq!(complete_get::<Invoice>(Ok(Some(bytes))), Ok(invoice("a", 1)));
    assert_eq!(complete_get::<Invoice>(Ok(Some(vec![7]))), Err(DatabaseError::Deserialize));
    assert_eq!(complete_get::<Invoice>(Ok(None)), Err(DatabaseError::NotFound));
    assert_eq!(complete_get::<Invoice>(Err(engine_failure())), Err(DatabaseError::Get));
}

#[test]
fn complete_get_last_covers_each_answer() {
    let bytes = invoice("a", 1).to_bin().unwrap();
    assert_eq!(
        complete_get_last::<Invoice>(Ok(Some((b"a".to_vec(), bytes.clone())))),
        Ok(("a".to_string(), invoice("a", 1)))
    );
    assert_eq!(
        complete_get_last::<Invoice>(Ok(Some((vec![0xff], bytes)))),
        Err(DatabaseError::Deserialize)
    );
    assert_eq!(
        complete_get_last::<Invoice>(Ok(Some((b"a".to_vec(), vec![1])))),
        Err(DatabaseError::Deserialize)
    );
    assert_eq!(complete_get_last::<Invoice>(Ok(None)), Err(DatabaseError::NotFound));
    assert_eq!(complete_get_last::<Invoice>(Err(engine_failure())), Err(DatabaseError::Get));
}

#[test]
fn complete_get_all_covers_each_answer() {
    let a = invoice("a", 1).to_bin().unwrap();
    let b = invoice("b", 2).to_bin().unwrap();
    assert_eq!(
        complete_get_all::<Invoice>(Ok(vec![(b"b".to_vec(), b.clone()), (b"a".to_vec(), a.clone())])),
        Ok(vec![("b".to_string(), invoice("b", 2)), ("a".to_string(), invoice("a", 1))])
    );
    assert_eq!(complete_get_all::<Invoice>(Ok(Vec::new())), Ok(Vec::new()));
    assert_eq!(
        complete_get_all::<Invoice>(Ok(vec![(b"a".to_vec(), a), (b"b".to_vec(), vec![])])),
        Err(DatabaseError::Deserialize)
    );
    assert_eq!(complete_get_all::<Invoice>(Err(engine_failure())), Err(DatabaseError::Get));
}

#[test]
fn complete_set_covers_each_answer() {
    assert_eq!(complete_set(Ok(None)), Ok(()));
    assert_eq!(complete_set(Ok(Some(vec![1]))), Ok(()));
    assert_eq!(complete_set(Err(engine_failure())), Err(DatabaseError::Communicate));
}

#[test]
fn complete_delete_covers_each_answer() {
    assert_eq!(complete_delete(Ok(Some(vec![1]))), Ok(()));
    assert_eq!(complete_delete(Ok(None)), Err(DatabaseError::NotFound));
    assert_eq!(complete_delete(Err(engine_failure())), Err(DatabaseError::NoDelete));
}

#[test]
fn decode_helpers_map_failures_to_deserialize() {
    let bytes = invoice("a", 1).to_bin().unwrap();
    assert_eq!(decode_value::<Invoice>(bytes.clone()), Ok(invoice("a", 1)));
    assert_eq!(decode_value::<Invoice>(Vec::new()), Err(DatabaseError::Deserialize));
    assert_eq!(
        decode_entry::<Invoice>(b"k".to_vec(), bytes.clone()),
        Ok(("k".to_string(), invoice("a", 1)))
    );
    assert_eq!(decode_entry::<Invoice>(vec![0x80], bytes.clone()), Err(DatabaseError::Deserialize));
    assert_eq!(
        decode_entries::<Invoice>(vec![(b"k".to_vec(), bytes.clone()), (vec![0x80], bytes)]),
        Err(DatabaseError::Deserialize)
    );
}

#[test]
fn database_error_messages() {
    assert_eq!(DatabaseError::NotFound.message(), "No matches found");
    assert_eq!(DatabaseError::Get.message(), "Could not get from database");
    assert_eq!(DatabaseError::NoSet.message(), "Could not set to database");
    assert_eq!(DatabaseError::Communicate.message(), "Could not communicate with database");
    assert_eq!(DatabaseError::Deserialize.message(), "Could not deserialize binary data");
    assert_eq!(DatabaseError::Serialize.message(), "Could not serialize binary data");
    assert_eq!(DatabaseError::NoDelete.message(), "Could not delete from database");
}

#[test]
fn unix_time_from_a_clock_reading() {
    let at = ClockReading { seconds: 1_700_000_000, nanoseconds: 123_456_789 };
    assert_eq!(unix_time_millis(Some(at)), 1_700_000_000_123);
    assert_eq!(unix_time_seconds(Some(at)), 1_700_000_000);
    assert_eq!(unix_time_millis(None), 0);
    assert_eq!(unix_time_seconds(None), 0);
    let edge = ClockReading { seconds: u64::MAX, nanoseconds: 999_999_999 };
    assert_eq!(unix_time_millis(Some(edge)), u64::MAX as u128 * 1000 + 999);
    assert_eq!(unix_time_seconds(Some(edge)), u64::MAX);
    let start = ClockReading { seconds: 0, nanoseconds: 999_999 };
    assert_eq!(unix_time_millis(Some(start)), 0);
}
