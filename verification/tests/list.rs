use persistent_collections::list::List;

fn _list(slice: &[i32]) -> List<i32> {
    List::from_slice(slice)
}

#[test]
fn can_equate() {
    let mut a1: List<i32> = List::empty();
    let mut a2: List<i32> = List::empty();
    let mut b: List<i32> = List::empty();

    for i in 0..10 {
        a1 = a1.prepend(i);
        a2 = a2.prepend(i);
        b = b.prepend(0);
    }

    assert_eq!(a1, a1);
    assert_eq!(a1, a2);
    assert_ne!(a1, b);
    assert_ne!(a1, List::empty());
}

#[test]
fn can_get_head_and_tail() {
    let five = _list(&[1, 2, 3, 4, 5]);
    let five_tail = _list(&[2, 3, 4, 5]);

    let head = five.head().unwrap();
    assert_eq!(head, 1);
    let tail = five.tail().unwrap();
    assert_eq!(tail, five_tail);
}

#[test]
fn can_insert() {
    let missing_3 = _list(&[1, 2, 4, 5]);
    let all = missing_3.insert(3, 2).unwrap();
    let none = missing_3.insert(0, 99);

    assert_eq!(all, _list(&[1, 2, 3, 4, 5]));
    assert_eq!(none, None);
}

#[test]
fn can_reverse() {
    let five = _list(&[1, 2, 3, 4, 5]);
    let reversed = _list(&[5, 4, 3, 2, 1]);

    assert_eq!(five.reverse(), reversed);
}

#[test]
fn equality_distinguishes_prefix_lengths() {
    let short = _list(&[1, 2]);
    let long = _list(&[1, 2, 3]);

    assert_ne!(short, long);
    assert_ne!(long, short);
    assert_eq!(long, _list(&[1, 2, 3]));
}

#[test]
fn uncons_prepend_roundtrip() {
    let l = _list(&[7, 8, 9]);

    let (head, tail) = l.uncons().unwrap();
    assert_eq!(head, 7);
    assert_eq!(tail, _list(&[8, 9]));
    assert_eq!(tail.prepend(head), l);
}

#[test]
fn insert_identity_laws() {
    let l = _list(&[1, 2, 3]);

    assert_eq!(l.insert(0, 0).unwrap(), l.prepend(0));
    assert_eq!(l.insert(4, 3).unwrap(), l.concat(&_list(&[4])));
    assert_eq!(l.insert(9, 4), None);
}

#[test]
fn reverse_involution() {
    let l = _list(&[1, 2, 3, 4]);
    assert_eq!(l.reverse().reverse(), l);

    let empty: List<i32> = List::empty();
    assert_eq!(empty.reverse().reverse(), empty);
}

#[test]
fn concat_laws() {
    let a = _list(&[1, 2]);
    let b = _list(&[3]);
    let c = _list(&[4, 5]);
    let empty: List<i32> = List::empty();

    assert_eq!(a.concat(&empty), a);
    assert_eq!(empty.concat(&a), a);
    assert_eq!(a.concat(&b).concat(&c), a.concat(&b.concat(&c)));
    assert_eq!(a.concat(&b), _list(&[1, 2, 3]));
}

#[test]
fn empty_list_absences() {
    let empty: List<i32> = List::empty();

    assert_eq!(empty.head(), None);
    assert!(empty.tail().is_none());
    assert!(empty.uncons().is_none());
    assert_eq!(empty.insert(1, 1), None);
    assert!(empty.is_empty());
    assert!(!empty.prepend(1).is_empty());
}

#[test]
fn list_rendering() {
    let empty: List<i32> = List::empty();
    assert_eq!(empty.into_string(), "_");

    let l = _list(&[1, 2]);
    assert_eq!(l.into_string(), "1, 2, _");

    let single = List::node(7, List::empty());
    assert_eq!(single.into_string(), "7, _");
}

#[test]
fn list_originals_unchanged() {
    let original = _list(&[1, 2, 3]);
    let copy = _list(&[1, 2, 3]);

    let _ = original.prepend(0);
    let _ = original.insert(9, 1);
    let _ = original.concat(&copy);
    let _ = original.reverse();
    let _ = original.tail();
    let _ = original.uncons();
    let _ = original.into_string();

    assert_eq!(original, copy);
    assert_eq!(original.head(), Some(1));
    assert_eq!(original.into_string(), "1, 2, 3, _");
}
