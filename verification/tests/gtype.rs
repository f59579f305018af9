use lib::gtype::{instance_gtype, type_info_sizes, GTypeClass, GTypeInstance, TypeSizes};

#[test]
fn instance_type_is_its_class_type() {
    let inst = GTypeInstance { g_class: GTypeClass { g_type: 0x5555_0000_1234 } };
    assert_eq!(instance_gtype(&inst), 0x5555_0000_1234);
}

#[test]
fn sizes_that_fit_are_kept() {
    let s = type_info_sizes(&TypeSizes { class_size: 272, instance_size: 32 });
    assert_eq!(s.class_size, 272);
    assert_eq!(s.instance_size, 32);
}

#[test]
fn sizes_keep_their_low_16_bits() {
    let s = type_info_sizes(&TypeSizes { class_size: 0x1_0088, instance_size: 0xffff_ffff });
    assert_eq!(s.class_size, 0x88);
    assert_eq!(s.instance_size, 0xffff);
}
