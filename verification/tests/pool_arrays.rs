use gdnative_core::string::GodotString;
use gdnative_core::string_array::StringArray;
use gdnative_core::typed_array::TypedArray;

fn ints(values: &[i32]) -> TypedArray<i32> {
    let mut a = TypedArray::new();
    for v in values {
        a.push(*v);
    }
    a
}

fn contents(a: &TypedArray<i32>) -> Vec<i32> {
    a.read().as_slice().to_vec()
}

#[test]
fn typed_array_push_get_set() {
    let mut a: TypedArray<i32> = TypedArray::new();
    assert!(a.is_empty());
    a.push(10);
    a.push_ref(&20);
    assert_eq!(a.len(), 2);
    assert_eq!(a.get(1), 20);
    a.set(0, 11);
    a.set(5, 99);
    a.set(-1, 99);
    assert_eq!(contents(&a), vec![11, 20]);
    a.set_ref(1, &21);
    assert_eq!(a.get(1), 21);
}

#[test]
fn typed_array_insert_then_remove_restores() {
    let mut a = ints(&[1, 2, 3]);
    assert!(a.insert(1, 9));
    assert_eq!(contents(&a), vec![1, 9, 2, 3]);
    a.remove(1);
    assert_eq!(contents(&a), vec![1, 2, 3]);
    assert!(a.insert(3, 4));
    assert_eq!(contents(&a), vec![1, 2, 3, 4]);
    assert!(!a.insert(5, 7));
    assert!(!a.insert(-1, 7));
    assert!(a.insert_ref(0, &0));
    assert_eq!(contents(&a), vec![0, 1, 2, 3, 4]);
    a.remove(10);
    a.remove(-2);
    assert_eq!(a.len(), 5);
}

#[test]
fn typed_array_invert_twice() {
    let mut a = ints(&[1, 2, 3, 4]);
    a.invert();
    assert_eq!(contents(&a), vec![4, 3, 2, 1]);
    a.invert();
    assert_eq!(contents(&a), vec![1, 2, 3, 4]);
    let mut e: TypedArray<i32> = TypedArray::new();
    e.invert();
    assert!(e.is_empty());
}

#[test]
fn typed_array_resize() {
    let mut a = ints(&[5, 6]);
    a.resize(4);
    assert_eq!(contents(&a), vec![5, 6, 0, 0]);
    a.resize(2);
    assert_eq!(contents(&a), vec![5, 6]);
    a.resize(-3);
    assert_eq!(contents(&a), vec![5, 6]);
    a.resize(0);
    assert!(a.is_empty());
}

#[test]
fn typed_array_append_copies_and_refs() {
    let mut a = ints(&[1]);
    let b = ints(&[2, 3]);
    a.append(&b);
    assert_eq!(contents(&a), vec![1, 2, 3]);
    let mut c = a.new_ref();
    c.push(4);
    assert_eq!(a.len(), 3);
    assert_eq!(c.len(), 4);
    {
        let mut w = a.write();
        w.data[0] = 100;
        assert_eq!(w.len(), 3);
    }
    assert_eq!(a.get(0), 100);
    assert_eq!(a.read().len(), 3);
    let raw = a.sys().clone();
    let back = TypedArray::from_sys(raw);
    assert_eq!(contents(&back), vec![100, 2, 3]);
    a.sys_mut().push(7);
    assert_eq!(a.len(), 4);
}

#[test]
fn byte_array_default_fill() {
    let mut a: TypedArray<u8> = TypedArray::new();
    a.push(255);
    a.resize(3);
    assert_eq!(a.read().as_slice(), &[255u8, 0, 0][..]);
}

#[test]
fn string_array_operations() {
    let mut a = StringArray::new();
    a.push(&GodotString::from_str("a"));
    a.push(&GodotString::from_str("c"));
    // `insert` reports `true` when the offset is refused
    assert!(!a.insert(1, &GodotString::from_str("b")));
    assert!(a.insert(9, &GodotString::from_str("x")));
    assert_eq!(a.len(), 3);
    assert_eq!(a.get(1).to_sys(), "b");
    a.invert();
    assert_eq!(a.get(0).to_sys(), "c");
    a.remove(0);
    assert_eq!(a.len(), 2);
    a.set(0, &GodotString::from_str("z"));
    assert_eq!(a.get(0).to_sys(), "z");
    a.resize(3);
    assert_eq!(a.get(2).to_sys(), "");
    let mut b = StringArray::new();
    b.push(&GodotString::from_str("q"));
    a.push_string_array(&b);
    assert_eq!(a.len(), 4);
    assert_eq!(a.read().len(), 4);
    assert_eq!(a.new_ref().len(), 4);
    let copy = StringArray::from_sys(a.sys().iter().map(|s| s.new_ref()).collect());
    assert_eq!(copy.len(), 4);
    assert_eq!(a.write().len(), 4);
}
