use speech_sdk::common::PropertyCollection;
use speech_sdk::error::Error;
use speech_sdk::native::NativeCall;
use speech_sdk::native::Resource;
use speech_sdk::native::ResourceKind;

#[test]
fn from_handle_owns_the_property_bag() {
    let mut properties = PropertyCollection::from_handle(11);
    assert_eq!(properties.get_handle(), 11);
    assert_eq!(properties.label(), "PropertyCollection");
    assert_eq!(
        properties.release(),
        Some(Resource { kind: ResourceKind::PropertyBag, handle: 11 })
    );
    assert_eq!(properties.release(), None);
    assert_eq!(properties.get_handle(), 0);
}

#[test]
fn set_property_prepares_the_native_call() {
    let properties = PropertyCollection::from_handle(11);
    assert_eq!(
        properties.set_property_by_string_call("key", "välue"),
        Ok(NativeCall::PropertySetString {
            bag: 11,
            name: vec![b'k', b'e', b'y', 0],
            value: vec![b'v', 0xC3, 0xA4, b'l', b'u', b'e', 0],
        })
    );
}

#[test]
fn set_property_with_embedded_zero_prepares_no_call() {
    let properties = PropertyCollection::from_handle(11);
    assert_eq!(
        properties.set_property_by_string_call("na\0me", "value"),
        Err(Error::InvalidArgument)
    );
    assert_eq!(
        properties.set_property_by_string_call("name", "val\0ue"),
        Err(Error::InvalidArgument)
    );
    assert_eq!(properties.get_property_by_string_call("\0"), Err(Error::InvalidArgument));
}

#[test]
fn a_released_bag_takes_no_call() {
    let mut properties = PropertyCollection::from_handle(11);
    properties.release();
    assert_eq!(
        properties.set_property_by_string_call("name", "value"),
        Err(Error::AlreadyReleased)
    );
    assert_eq!(properties.get_property_by_string_call("name"), Err(Error::AlreadyReleased));
    assert_eq!(
        properties.set_property_by_string_call("na\0me", "value"),
        Err(Error::InvalidArgument)
    );
}

#[test]
fn set_property_ends_with_the_status() {
    let properties = PropertyCollection::from_handle(11);
    assert_eq!(properties.set_property_by_string(0), Ok(()));
    assert_eq!(
        properties.set_property_by_string(0x005),
        Err(Error::NativeError {
            code: 5,
            context: "PropertyCollection::set_property_by_string error"
        })
    );
}

#[test]
fn get_property_prepares_the_native_call() {
    let properties = PropertyCollection::from_handle(3);
    assert_eq!(
        properties.get_property_by_string_call("key"),
        Ok(NativeCall::PropertyGetString { bag: 3, name: vec![b'k', b'e', b'y', 0] })
    );
}

#[test]
fn get_property_reads_the_answered_buffer() {
    let properties = PropertyCollection::from_handle(3);
    assert_eq!(properties.get_property_by_string(&[b'o', b'k', 0]), Ok("ok".to_string()));
    assert_eq!(properties.get_property_by_string(&[b'o', b'k']), Err(Error::SizeConversionError));
    assert_eq!(properties.get_property_by_string(&[0x80, 0]), Err(Error::EncodingError));
}

fn round_trip(value: &str) -> String {
    let properties = PropertyCollection::from_handle(3);
    let stored = match properties.set_property_by_string_call("name", value) {
        Ok(NativeCall::PropertySetString { bag: 3, value: stored, .. }) => stored,
        other => panic!("unexpected {:?}", other),
    };
    properties.get_property_by_string(&stored).unwrap()
}

#[test]
fn set_then_get_round_trips_ascii() {
    assert_eq!(round_trip("en-US"), "en-US");
    assert_eq!(round_trip(""), "");
}

#[test]
fn set_then_get_round_trips_non_ascii() {
    assert_eq!(round_trip("Grüße, 世界 🌍"), "Grüße, 世界 🌍");
}
