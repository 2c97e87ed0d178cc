use rustroast::cache::{DeviceCache, DeviceRegistry};
use rustroast::json::Json;

fn doc(text: &str) -> Json {
    Json::parse(text.as_bytes()).unwrap()
}

#[test]
fn an_empty_cache_holds_nothing() {
    let cache = DeviceCache::new();
    assert_eq!(cache.len(), 0);
    assert!(cache.get("dev1").is_none());
    assert!(cache.get_all().is_empty());
}

#[test]
fn the_latest_value_is_read_back() {
    let mut cache = DeviceCache::new();
    cache.insert("dev1", doc("{\"beanTemp\":100.0}"), 1000);
    let (value, at) = cache.get("dev1").unwrap();
    assert_eq!(value.text(), "{\"beanTemp\":100.0}");
    assert_eq!(at, 1000);
    assert!(cache.get("dev2").is_none());
}

#[test]
fn the_last_arrival_wins() {
    let mut cache = DeviceCache::new();
    cache.insert("dev1", doc("{\"n\":1}"), 2000);
    cache.insert("dev1", doc("{\"n\":2}"), 1000);
    let (value, at) = cache.get("dev1").unwrap();
    assert_eq!(value.text(), "{\"n\":2}");
    assert_eq!(at, 1000);
    assert_eq!(cache.len(), 1);
}

#[test]
fn devices_do_not_disturb_each_other() {
    let mut cache = DeviceCache::new();
    cache.insert("dev1", doc("1"), 10);
    cache.insert("dev2", doc("2"), 20);
    cache.insert("dev1", doc("3"), 30);
    assert_eq!(cache.len(), 2);
    assert_eq!(cache.get("dev2").unwrap().0.text(), "2");
    assert_eq!(cache.get("dev2").unwrap().1, 20);
    let all = cache.get_all();
    assert_eq!(all.len(), 2);
    assert_eq!(all[0].device_id, "dev1");
    assert_eq!(all[0].value.text(), "3");
    assert_eq!(all[0].observed_at, 30);
    assert_eq!(all[1].device_id, "dev2");
    assert_eq!(all[1].value.text(), "2");
    assert_eq!(all[1].observed_at, 20);
}

#[test]
fn reads_are_copies() {
    let mut cache = DeviceCache::new();
    cache.insert("dev1", doc("1"), 10);
    let first = cache.get("dev1").unwrap();
    cache.insert("dev1", doc("2"), 20);
    assert_eq!(first.0.text(), "1");
    assert_eq!(first.1, 10);
}

#[test]
fn a_status_fills_the_registry() {
    let mut registry = DeviceRegistry::new();
    registry.record_status(
        "dev1",
        500,
        doc("{\"id\":\"ESP-1\",\"ip\":\"10.0.0.2\",\"version\":\"1.2\",\"rssi\":-40}"),
    );
    let info = registry.get("dev1").unwrap();
    assert_eq!(info.device_id, "dev1");
    assert_eq!(info.last_seen, 500);
    assert_eq!(info.id, Some("ESP-1".to_string()));
    assert_eq!(info.ip, Some("10.0.0.2".to_string()));
    assert_eq!(info.version, Some("1.2".to_string()));
    assert_eq!(info.rssi, Some(-40));
    assert_eq!(
        info.status_raw.unwrap().text(),
        doc("{\"id\":\"ESP-1\",\"ip\":\"10.0.0.2\",\"version\":\"1.2\",\"rssi\":-40}").text()
    );
    assert!(registry.get("dev2").is_none());
    assert_eq!(registry.len(), 1);
}

#[test]
fn a_later_status_never_clears_a_field() {
    let mut registry = DeviceRegistry::new();
    registry.record_status("dev1", 500, doc("{\"id\":\"ESP-1\",\"ip\":\"10.0.0.2\",\"rssi\":-40}"));
    registry.record_status("dev1", 600, doc("{\"ip\":\"10.0.0.9\",\"version\":\"2.0\"}"));
    let info = registry.get("dev1").unwrap();
    assert_eq!(info.last_seen, 600);
    assert_eq!(info.id, Some("ESP-1".to_string()));
    assert_eq!(info.ip, Some("10.0.0.9".to_string()));
    assert_eq!(info.version, Some("2.0".to_string()));
    assert_eq!(info.rssi, Some(-40));
    assert_eq!(info.status_raw.unwrap().text(), "{\"ip\":\"10.0.0.9\",\"version\":\"2.0\"}");
    assert_eq!(registry.len(), 1);
}

#[test]
fn a_field_of_the_wrong_type_gives_no_value() {
    let mut registry = DeviceRegistry::new();
    registry.record_status("dev1", 1, doc("{\"id\":7,\"rssi\":\"strong\",\"ip\":null}"));
    let info = registry.get("dev1").unwrap();
    assert_eq!(info.id, None);
    assert_eq!(info.ip, None);
    assert_eq!(info.rssi, None);
    registry.record_status("dev1", 2, doc("[1,2]"));
    let info = registry.get("dev1").unwrap();
    assert_eq!(info.last_seen, 2);
    assert_eq!(info.status_raw.unwrap().text(), "[1,2]");
}

#[test]
fn the_registry_lists_devices_in_order() {
    let mut registry = DeviceRegistry::new();
    registry.record_status("b", 1, doc("{}"));
    registry.record_status("a", 2, doc("{}"));
    registry.record_status("b", 3, doc("{}"));
    let all = registry.get_all();
    assert_eq!(all.len(), 2);
    assert_eq!(all[0].device_id, "b");
    assert_eq!(all[0].last_seen, 3);
    assert_eq!(all[1].device_id, "a");
    assert_eq!(all[1].last_seen, 2);
}
