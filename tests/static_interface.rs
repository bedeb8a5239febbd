use idiom_patterns::type_erasure::simple_static_vtable::{tag_for, StaticMyTraitInterface};
use idiom_patterns::type_erasure::static_interface::{MyStaticData, MyTrait};
use idiom_patterns::type_erasure::static_reference_to_zst;

struct MockType;

static MOCK_DATA: MyStaticData = MyStaticData { msg: "hello from MockType" };

impl MyTrait for MockType {
    fn get_static_dependency_data() -> &'static MyStaticData {
        &MOCK_DATA
    }
}

struct AnotherType;

static ANOTHER_DATA: MyStaticData = MyStaticData { msg: "another type" };

impl MyTrait for AnotherType {
    fn get_static_dependency_data() -> &'static MyStaticData {
        &ANOTHER_DATA
    }
}

#[test]
fn tag_returns_expected_static_data() {
    println!(
        "size of StaticMyTraitInterface: {}",
        core::mem::size_of::<StaticMyTraitInterface>()
    );
    let tag = StaticMyTraitInterface::of::<MockType>();
    let data = tag.get_data();
    assert_eq!(data.msg, "hello from MockType");
}

#[test]
fn tag_identity_is_unique_per_type() {
    let tag1 = StaticMyTraitInterface::of::<MockType>();
    let tag2 = StaticMyTraitInterface::of::<AnotherType>();

    assert_ne!(std::ptr::from_ref(&tag1).addr(), std::ptr::from_ref(&tag2).addr());
    assert_eq!(tag1.get_data().msg, "hello from MockType");
    assert_eq!(tag2.get_data().msg, "another type");
}

#[test]
fn static_tag_returns_expected_static_data() {
    let tag = tag_for::<MockType>();
    let data = tag.get_data();
    assert_eq!(data.msg, "hello from MockType");
}

#[test]
fn static_vtables_are_distinct_per_concrete_type() {
    let t1 = tag_for::<MockType>();
    let t2 = tag_for::<AnotherType>();

    assert!(!std::ptr::eq(t1.get_data(), t2.get_data()));

    assert_eq!(t1.get_data().msg, "hello from MockType");
    assert_eq!(t2.get_data().msg, "another type");
}

#[test]
fn static_interface_tag_returns_expected_static_data() {
    println!("size of Tag: {}", core::mem::size_of::<static_reference_to_zst::Tag>());
    let tag = static_reference_to_zst::tag_for::<MockType>();
    let data = tag.get_static_dependency_data();
    assert_eq!(data.msg, "hello from MockType");
}

#[test]
fn distinct_types_have_distinct_vtables() {
    let t1 = static_reference_to_zst::tag_for::<MockType>();
    let t2 = static_reference_to_zst::tag_for::<AnotherType>();

    assert!(!std::ptr::eq(t1.get_static_dependency_data(), t2.get_static_dependency_data()));

    assert_eq!(t1.get_static_dependency_data().msg, "hello from MockType");
    assert_eq!(t2.get_static_dependency_data().msg, "another type");
}
