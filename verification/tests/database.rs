use input_flow::database::{MockBlock, MockDatabase};

#[test]
fn lib_test() {}

#[test]
fn add_and_remove_blocks() {
    let mut db = MockDatabase::new();
    let id = db.add_block().unwrap();
    assert_eq!((id >> 76) & 0xf, 4);
    assert_eq!((id >> 62) & 0x3, 2);
    let block = db.block(id).unwrap();
    assert_eq!(block.id(), id);
    assert_eq!(block.spans_text(), "");
    assert!(block.children().is_empty());
    let other = db.add_block().unwrap();
    assert_ne!(id, other);
    assert!(db.remove_block(id));
    assert!(!db.remove_block(id));
    assert!(db.block(id).is_none());
    assert!(db.block(other).is_some());
}

#[test]
fn insert_block_refuses_taken_ids() {
    let mut db = MockDatabase::new();
    assert!(db.insert_block(5));
    assert!(!db.insert_block(5));
    assert_eq!(db.block(5).unwrap().id(), 5);
}

#[test]
fn block_children_and_text() {
    let mut block = MockBlock::new(1);
    block.set_spans_text("hello".to_string());
    assert_eq!(block.spans_text(), "hello");
    assert!(block.add_child(2));
    assert!(block.add_child(3));
    assert!(!block.add_child(2));
    assert_eq!(block.children(), &vec![2, 3]);
    assert!(block.remove_child(2));
    assert!(!block.remove_child(2));
    assert_eq!(block.children(), &vec![3]);
    assert_eq!(block.id(), 1);
    assert_eq!(block.spans_text(), "hello");
}

#[test]
fn databases_and_blocks_clone() {
    let mut db = MockDatabase::new();
    assert!(db.insert_block(9));
    let copy = db.clone();
    assert!(db.remove_block(9));
    assert_eq!(copy.block(9).unwrap().id(), 9);
    let mut block = MockBlock::new(3);
    block.add_child(4);
    let other = block.clone();
    assert_eq!(other.children(), &vec![4]);
}
