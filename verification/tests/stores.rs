use opus_pvm::bi_store::BiStore;
use opus_pvm::checking_store::CheckingStore;

#[test]
fn regular_use() {
    let mut s: BiStore<i64, i64> = Default::default();
    println!("{:?}", &s);
    assert!(s.insert(1, 1));
    println!("{:?}", &s);
    assert!(s.insert(1, 2));
    println!("{:?}", &s);
    assert!(!s.insert(1, 2));
    println!("{:?}", &s);
    let mut i = s.rev_iter(2);
    assert_eq!(i.next(), Some(&1));
    assert_eq!(i.next(), None);
}

#[test]
fn basic_use() {
    let mut s: CheckingStore<i64, String> = CheckingStore::new();
    assert_eq!(s.outstanding(), 0);
    {
        s.insert(1, String::from("test"));
        assert!(s.contains_key(1));
        s.insert(2, String::from("double test"));
        assert_eq!(s.outstanding(), 0);
        {
            let mut first = s.checkout(1).unwrap();
            assert_eq!(s.outstanding(), 1);
            s.insert(3, String::from("even more test"));
            assert_eq!(*first.value(), "test");
            let mut v = first.value().clone();
            v.push_str("-even more");
            first.replace(v);
            assert_eq!(*first.value(), "test-even more");
            s.checkin(first);
        }
        assert_eq!(s.outstanding(), 0);
        let first = s.checkout(1).unwrap();
        assert_eq!(s.outstanding(), 1);
        assert_eq!(*first.value(), "test-even more");
        s.insert(2, String::from("insert test"));
        assert!(s.remove(2));
        assert!(!s.contains_key(2));
        s.checkin(first);
    }
    assert_eq!(s.outstanding(), 0);
}

#[test]
fn remove_indempotent() {
    let mut s: CheckingStore<i64, String> = CheckingStore::new();
    s.insert(1, String::from("test"));
    let _a = s.checkout(1).unwrap();
    assert!(s.remove(1));
    for _ in 0..100 {
        assert!(!s.remove(1));
    }
}

#[test]
fn double_insert() {
    let mut s: CheckingStore<i64, String> = CheckingStore::new();
    s.insert(1, String::from("test"));
    s.insert(1, String::from("test"));
}

#[test]
fn bi_store_remove_and_empty() {
    let mut s: BiStore<i64, i64> = BiStore::new();
    assert!(s.insert(1, 2));
    assert!(s.insert(3, 2));
    assert!(!s.is_empty(1));
    assert!(s.remove(1, 2));
    assert!(!s.remove(1, 2));
    assert!(s.is_empty(1));
    let mut i = s.rev_iter(2);
    assert_eq!(i.next(), Some(&3));
    assert_eq!(i.next(), None);
}

#[test]
fn checkin_after_remove_drops_value() {
    let mut s: CheckingStore<i64, String> = CheckingStore::new();
    s.insert(7, String::from("x"));
    let g = s.checkout(7).unwrap();
    assert_eq!(g.key(), 7);
    assert!(s.remove(7));
    assert!(!s.contains_key(7));
    assert_eq!(s.outstanding(), 1);
    s.checkin(g);
    assert_eq!(s.outstanding(), 0);
    assert!(!s.contains_key(7));
    assert!(s.checkout(7).is_none());
}

#[test]
fn checkout_checkin_keeps_value() {
    let mut s: CheckingStore<i64, String> = CheckingStore::new();
    s.insert(1, String::from("v"));
    let g = s.checkout(1).unwrap();
    s.checkin(g);
    let g = s.checkout(1).unwrap();
    assert_eq!(*g.value(), "v");
    s.checkin(g);
    assert_eq!(s.outstanding(), 0);
}
