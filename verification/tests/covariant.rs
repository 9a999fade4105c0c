use std::mem::{align_of, size_of};
use std::rc::Rc;
use variance::DzCovariant;

struct Reader<T> {
    id: u64,
    _tag: DzCovariant<T>,
}

fn same_scope<'a>(m: &'a DzCovariant<&'a str>) -> &'a DzCovariant<&'a str> {
    m
}

fn shorter_by_value<'a>(m: DzCovariant<&'static str>, _scope: &'a str) -> DzCovariant<&'a str> {
    m
}

fn shorter_reader<'a>(r: Reader<&'static str>, _scope: &'a str) -> Reader<&'a str> {
    r
}

fn shorten_to<'a>(m: DzCovariant<&'static str>, _scope: &'a str) -> DzCovariant<&'a str> {
    m.shorten()
}

fn shorten_ref_to<'r, 'a>(
    m: &'r DzCovariant<&'static str>,
    _scope: &'a str,
) -> &'r DzCovariant<&'a str>
where
    'a: 'r,
{
    m.shorten_ref()
}

fn needs_send_sync<M: Send + Sync>(_m: &M) {}

#[test]
fn covariant_new_accepts_any_parameter() {
    let _unit = DzCovariant::<()>::new();
    let _number = DzCovariant::<u64>::new();
    let _text = DzCovariant::<&'static str>::new();
    let _owned = DzCovariant::<String>::new();
    let _list = DzCovariant::<Vec<Box<i32>>>::new();
    let _nested = DzCovariant::<DzCovariant<u8>>::new();
}

#[test]
fn covariant_occupies_no_storage() {
    assert_eq!(size_of::<DzCovariant<()>>(), 0);
    assert_eq!(size_of::<DzCovariant<u64>>(), 0);
    assert_eq!(size_of::<DzCovariant<&'static str>>(), 0);
    assert_eq!(size_of::<DzCovariant<String>>(), 0);
    assert_eq!(size_of::<DzCovariant<[u8; 4096]>>(), 0);
    assert_eq!(align_of::<DzCovariant<u64>>(), 1);
    assert_eq!(align_of::<DzCovariant<[u128; 4]>>(), 1);
}

#[test]
fn covariant_adds_nothing_to_the_enclosing_structure() {
    assert_eq!(size_of::<Reader<String>>(), size_of::<u64>());
    assert_eq!(align_of::<Reader<String>>(), align_of::<u64>());
    let reader = Reader { id: 7, _tag: DzCovariant::<String>::new() };
    assert_eq!(reader.id, 7);
}

#[test]
fn covariant_reference_over_static_serves_a_shorter_scope() {
    let marker = DzCovariant::<&'static str>::new();
    let marker = same_scope(&marker);
    let _held = &marker;
}

#[test]
fn covariant_value_over_static_serves_a_shorter_scope() {
    let text = String::from("local");
    let marker = shorter_by_value(DzCovariant::new(), text.as_str());
    let _held = &marker;
}

#[test]
fn covariant_field_makes_the_enclosing_structure_covariant() {
    let text = String::from("local");
    let reader = Reader { id: 3, _tag: DzCovariant::<&'static str>::new() };
    let reader = shorter_reader(reader, text.as_str());
    assert_eq!(reader.id, 3);
}

#[test]
fn covariant_shorten_hands_over_a_marker_for_the_shorter_scope() {
    let text = String::from("local");
    let marker = shorten_to(DzCovariant::new(), text.as_str());
    assert_eq!(size_of::<DzCovariant<&str>>(), 0);
    let _held = &marker;
}

#[test]
fn covariant_shorten_ref_hands_back_the_same_reference() {
    let text = String::from("local");
    let marker = DzCovariant::<&'static str>::new();
    let shortened = shorten_ref_to(&marker, text.as_str());
    assert!(std::ptr::eq(shortened, &marker));
}

#[test]
fn covariant_is_send_and_sync_whatever_the_parameter() {
    let marker = DzCovariant::<Rc<u8>>::new();
    needs_send_sync(&marker);
}
