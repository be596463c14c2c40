use bike_bt::bus::find_interface;
use bike_bt::bus::find_property;
use bike_bt::bus::read_flag;
use bike_bt::bus::read_level;
use bike_bt::bus::read_text;
use bike_bt::bus::Interface;
use bike_bt::bus::Property;
use bike_bt::bus::PropertyValue;
use bike_bt::bus::INTERFACES_ADDED;
use bike_bt::bus::INTERFACES_REMOVED;
use bike_bt::bus::PROPERTIES_CHANGED;
use bike_bt::bus::ROOT_PATH;

fn bag() -> Vec<Property> {
    vec![
        Property { name: "Name".to_string(), value: PropertyValue::Text("Bike".to_string()) },
        Property { name: "RSSI".to_string(), value: PropertyValue::Int16(-61) },
        Property { name: "Paired".to_string(), value: PropertyValue::Bool(true) },
        Property { name: "Icon".to_string(), value: PropertyValue::Other },
        Property { name: "RSSI".to_string(), value: PropertyValue::Int16(-20) },
    ]
}

#[test]
fn signal_names_are_those_of_the_bus() {
    assert_eq!(PROPERTIES_CHANGED, "PropertiesChanged");
    assert_eq!(INTERFACES_ADDED, "InterfacesAdded");
    assert_eq!(INTERFACES_REMOVED, "InterfacesRemoved");
    assert_eq!(ROOT_PATH, "/");
}

#[test]
fn property_is_found_by_its_name() {
    let properties = bag();
    assert_eq!(find_property(&properties, "RSSI"), Some(&PropertyValue::Int16(-61)));
    assert_eq!(find_property(&properties, "Icon"), Some(&PropertyValue::Other));
    assert_eq!(find_property(&properties, "Rssi"), None);
    assert_eq!(find_property(&properties, ""), None);
    assert_eq!(find_property(&Vec::new(), "Name"), None);
}

#[test]
fn property_is_read_by_its_type() {
    let properties = bag();
    assert_eq!(read_text(&properties, "Name"), Some("Bike".to_string()));
    assert_eq!(read_text(&properties, "RSSI"), None);
    assert_eq!(read_level(&properties, "RSSI"), Some(-61));
    assert_eq!(read_level(&properties, "Paired"), None);
    assert_eq!(read_flag(&properties, "Paired"), Some(true));
    assert_eq!(read_flag(&properties, "Connected"), None);
    assert_eq!(read_flag(&properties, "Icon"), None);
}

#[test]
fn interface_is_found_by_its_name() {
    let interfaces = vec![
        Interface { name: "org.bluez.Device1".to_string(), properties: bag() },
        Interface { name: "org.bluez.Battery1".to_string(), properties: Vec::new() },
        Interface { name: "org.bluez.Device1".to_string(), properties: Vec::new() },
    ];
    assert_eq!(find_interface(&interfaces, "org.bluez.Device1"), Some(&interfaces[0]));
    assert_eq!(find_interface(&interfaces, "org.bluez.Battery1"), Some(&interfaces[1]));
    assert_eq!(find_interface(&interfaces, "org.bluez.Adapter1"), None);
}
