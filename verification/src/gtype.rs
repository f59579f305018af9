//! The GType values the extension reads, held as plain values.
use vstd::prelude::*;

verus! {

/// A pointer-sized integer that identifies a GObject type (`gsize` in GLib).
pub type GType = usize;

/// GLib's boolean: a C `int` where 0 is false and anything else is true.
pub type GBoolean = i32;

/// The first field of every GObject class structure.
pub struct GTypeClass {
    pub g_type: GType,
}

/// The first field of every GObject instance structure.
///
/// In memory it points at the instance's class; the library holds the class
/// itself, which is all that it reads through that pointer.
pub struct GTypeInstance {
    pub g_class: GTypeClass,
}

/// The type of an instance, read through its class (`G_TYPE_FROM_INSTANCE`).
pub fn instance_gtype(instance: &GTypeInstance) -> (t: GType)
    ensures
        t == instance.g_class.g_type,
{
    instance.g_class.g_type
}

/// Whether a GLib boolean holds: every non-zero value counts as true.
pub open spec fn gboolean_holds(b: GBoolean) -> bool {
    b != 0
}

/// The class and instance sizes that `g_type_query` reports of a type.
pub struct TypeSizes {
    pub class_size: u32,
    pub instance_size: u32,
}

/// The class and instance sizes as a `GTypeInfo` holds them: in 16 bits.
pub struct TypeInfoSizes {
    pub class_size: u16,
    pub instance_size: u16,
}

/// The sizes under which an extension type is registered.  The extension adds
/// no fields to its parent, so it takes the parent's sizes, converted to the
/// 16-bit fields of `GTypeInfo` as C's integer conversion does (keeping the
/// low 16 bits).
pub fn type_info_sizes(parent: &TypeSizes) -> (r: TypeInfoSizes)
    ensures
        r.class_size == parent.class_size as u16,
        r.instance_size == parent.instance_size as u16,
        r.class_size == parent.class_size % 0x10000,
        r.instance_size == parent.instance_size % 0x10000,
{
    let parent_class: u32 = parent.class_size;
    let parent_instance: u32 = parent.instance_size;
    let class_size: u16 = parent_class as u16;
    let instance_size: u16 = parent_instance as u16;
    assert(class_size == parent_class % 0x10000) by (bit_vector)
        requires
            class_size == parent_class as u16,
    ;
    assert(instance_size == parent_instance % 0x10000) by (bit_vector)
        requires
            instance_size == parent_instance as u16,
    ;
    TypeInfoSizes { class_size, instance_size }
}

} // verus!
