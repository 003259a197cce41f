use payment_gateway::common::dbs::errors::{DeleteError, GetError, SetError};
use payment_gateway::common::dbs::interface;
use payment_gateway::common::DatabaseError;
use payment_gateway::types::{Amount, Invoice, PaymentMethod, Serializable};

fn fresh_tree() -> sled::Tree {
    let db = sled::Config::new().temporary(true).open().unwrap();
    db.open_tree("typed").unwrap()
}

fn bill(key: &str, amount: u64) -> Invoice {
    Invoice {
        key: key.to_string(),
        to: "0xCCC".to_string(),
        amount: Amount::from_u64(amount),
        method: PaymentMethod { token_address: Some("0xTOKEN".to_string()) },
        created_at: 2,
    }
}

fn failure() -> sled::Error {
    sled::Error::ReportableBug("broken".to_string())
}

#[test]
fn errors_are_narrowed_by_kind() {
    assert_eq!(GetError::from_database(DatabaseError::NotFound), GetError::NotFound);
    assert_eq!(GetError::from_database(DatabaseError::Deserialize), GetError::Deserialize);
    for e in [
        DatabaseError::Get,
        DatabaseError::NoSet,
        DatabaseError::Communicate,
        DatabaseError::Serialize,
        DatabaseError::NoDelete,
    ] {
        assert_eq!(GetError::from_database(e), GetError::Database);
    }
    assert_eq!(SetError::from_database(DatabaseError::Serialize), SetError::Serialize);
    for e in [
        DatabaseError::NotFound,
        DatabaseError::Get,
        DatabaseError::NoSet,
        DatabaseError::Communicate,
        DatabaseError::Deserialize,
        DatabaseError::NoDelete,
    ] {
        assert_eq!(SetError::from_database(e), SetError::Database);
    }
    assert_eq!(DeleteError::from_database(DatabaseError::NotFound), DeleteError::NotFound);
    for e in [
        DatabaseError::Get,
        DatabaseError::NoSet,
        DatabaseError::Communicate,
        DatabaseError::Deserialize,
        DatabaseError::Serialize,
        DatabaseError::NoDelete,
    ] {
        assert_eq!(DeleteError::from_database(e), DeleteError::NoDelete);
    }
}

#[test]
fn interface_set_get_delete() {
    let tree = fresh_tree();
    assert_eq!(interface::get::<Invoice>(&tree, "a"), Err(GetError::NotFound));
    assert_eq!(payment_gateway::common::dbs::interface::set(&tree, "a", bill("a", 3)), Ok(()));
    assert_eq!(payment_gateway::common::dbs::interface::set(&tree, "a", bill("a", 3)), Ok(()));
    assert_eq!(interface::get::<Invoice>(&tree, "a"), Ok(bill("a", 3)));
    assert_eq!(interface::delete(&tree, "a"), Ok(()));
    assert_eq!(interface::delete(&tree, "a"), Err(DeleteError::NotFound));
    assert_eq!(interface::get::<Invoice>(&tree, "a"), Err(GetError::NotFound));
}

#[test]
fn interface_set_refuses_a_value_without_encoding() {
    let tree = fresh_tree();
    assert_eq!(payment_gateway::common::dbs::interface::set(&tree, "a", bill("a", 0)), Err(SetError::Serialize));
    assert_eq!(tree.len(), 0);
}

#[test]
fn interface_get_all_in_order_and_all_or_nothing() {
    let tree = fresh_tree();
    assert_eq!(interface::get_all::<Invoice>(&tree), Ok(Vec::new()));
    payment_gateway::common::dbs::interface::set(&tree, "b", bill("b", 2)).unwrap();
    payment_gateway::common::dbs::interface::set(&tree, "a", bill("a", 1)).unwrap();
    assert_eq!(
        interface::get_all::<Invoice>(&tree),
        Ok(vec![("a".to_string(), bill("a", 1)), ("b".to_string(), bill("b", 2))])
    );
    tree.insert("c", vec![5u8]).unwrap();
    assert_eq!(interface::get_all::<Invoice>(&tree), Err(GetError::Deserialize));
    assert_eq!(interface::get::<Invoice>(&tree, "c"), Err(GetError::Deserialize));
}

#[test]
fn interface_completions_cover_each_answer() {
    let bytes = bill("a", 1).to_bin().unwrap();
    assert_eq!(interface::complete_get::<Invoice>(Ok(Some(bytes.clone()))), Ok(bill("a", 1)));
    assert_eq!(interface::complete_get::<Invoice>(Ok(Some(vec![]))), Err(GetError::Deserialize));
    assert_eq!(interface::complete_get::<Invoice>(Ok(None)), Err(GetError::NotFound));
    assert_eq!(interface::complete_get::<Invoice>(Err(failure())), Err(GetError::Database));
    assert_eq!(
        interface::complete_get_all::<Invoice>(Ok(vec![(b"a".to_vec(), bytes.clone())])),
        Ok(vec![("a".to_string(), bill("a", 1))])
    );
    assert_eq!(
        interface::complete_get_all::<Invoice>(Ok(vec![(vec![0xff], bytes)])),
        Err(GetError::Deserialize)
    );
    assert_eq!(interface::complete_get_all::<Invoice>(Err(failure())), Err(GetError::Database));
    assert_eq!(interface::complete_set(Ok(None)), Ok(()));
    assert_eq!(interface::complete_set(Err(failure())), Err(SetError::Database));
    assert_eq!(interface::complete_delete(Ok(Some(vec![]))), Ok(()));
    assert_eq!(interface::complete_delete(Ok(None)), Err(DeleteError::NotFound));
    assert_eq!(interface::complete_delete(Err(failure())), Err(DeleteError::NoDelete));
}
