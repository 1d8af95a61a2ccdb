use gdnative_core::rid::{RawRid, Rid};
use gdnative_core::string::{GodotString, StringName};
use std::cmp::Ordering;

#[test]
fn godot_string_round_trips() {
    let s = GodotString::from_str("héllo");
    assert_eq!(s.len(), 5);
    assert!(!s.is_empty());
    assert!(GodotString::new().is_empty());
    let utf8 = s.to_utf8();
    assert_eq!(utf8.len(), 6);
    assert_eq!(utf8.as_bytes(), "héllo".as_bytes());
    assert_eq!(utf8.as_str(), "héllo");
    assert_eq!(utf8.to_string(), String::from("héllo"));
    let back = GodotString::from_sys(s.to_sys());
    assert_eq!(back.to_sys(), "héllo");
    assert_eq!(s.sys().as_str(), "héllo");
    assert_eq!(s.new_ref().forget(), String::from("héllo"));
}

#[test]
fn string_name_keeps_text() {
    let name = StringName::from_godot_string(&GodotString::from_str("_ready"));
    assert_eq!(name.get_name().to_sys(), "_ready");
    StringName::from_str("_process");
}

#[test]
fn rid_validity_and_order() {
    let null = Rid::new();
    assert!(!null.is_valid());
    let a = Rid::from_sys(RawRid { handle: 16 });
    let b = Rid::from_sys(RawRid { handle: 32 });
    assert!(a.is_valid());
    assert!(a.operator_less(&b));
    assert!(!b.operator_less(&a));
    assert_eq!(a.partial_cmp(&b), Some(Ordering::Less));
    assert_eq!(b.partial_cmp(&a), Some(Ordering::Greater));
    assert_eq!(a.partial_cmp(&a), Some(Ordering::Greater));
    assert_eq!(*a.sys(), RawRid { handle: 16 });
    let mut c = a;
    c.mut_sys().handle = 0;
    assert!(!c.is_valid());
    assert_eq!(Rid::from_sys(*b.sys()), b);
}
