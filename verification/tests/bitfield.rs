use userland::bitfield::{Field, FieldValue};
use userland::vm_descriptor::{ap, ap_ro_el1_el0, ap_rw_el1_el0, cow, flag, lib, uxn};

#[test]
fn field_tests_for_set_bits() {
    let f = Field::new(0xff, 4);
    assert!(f.is_set(0x0ff0));
    assert!(!f.is_set(0x1000));
    assert!(!f.is_set(0x000f));
}

#[test]
fn field_values_combine_and_match() {
    let f = Field::new(0xff, 4);
    let v = f.val(0x23);
    assert_eq!(v.value, 0x230);
    assert_eq!(v.mask, 0xff0);
    assert!(v.matches_all(0x1234));
    assert!(!v.matches_all(0x5678));
    assert_eq!(f.val(0x123).value, 0x230);
    let both = Field::new(0xf, 0).val(0x5).combine(Field::new(0xf, 4).val(0x6));
    assert_eq!(both.value, 0x65);
    assert_eq!(both.mask, 0xff);
    assert_eq!(FieldValue::new(3, 6, 1).value, 0x40);
}

#[test]
fn descriptor_fields() {
    assert_eq!((ap().mask, ap().shift), (3, 6));
    assert_eq!((ap_rw_el1_el0().mask, ap_rw_el1_el0().value), (0xc0, 0x40));
    assert_eq!((ap_ro_el1_el0().mask, ap_ro_el1_el0().value), (0xc0, 0xc0));
    assert_eq!(uxn().shift, 54);
    assert_eq!(cow().shift, 55);
    assert_eq!(lib().shift, 56);
    assert_eq!(flag(cow(), true).value, 1 << 55);
    assert_eq!(flag(cow(), false).value, 0);
    assert_eq!(flag(lib(), true).mask, 1 << 56);
}
