use smtpapi::filter::filters_json;
use smtpapi::json::{integers_json, string_lists_json, string_map_json, strings_json};
use smtpapi::{Filter, Header, StringMap};

#[test]
fn two_recipients_are_listed_in_the_order_added() {
    let mut header = Header::new();
    header.add_to("a@x.com");
    header.add_to("b@x.com");
    assert_eq!("{\"to\":[\"a@x.com\",\"b@x.com\"]}", header.to_string());
}

#[test]
fn recipients_of_several_calls_are_concatenated_in_call_order() {
    let mut header = Header::new();
    header
        .add_tos(vec!["a@x.com", "b@x.com"])
        .add_to("c@x.com")
        .add_tos(Vec::<&str>::new())
        .add_tos(vec!["d@x.com".to_string()]);
    assert_eq!(
        "{\"to\":[\"a@x.com\",\"b@x.com\",\"c@x.com\",\"d@x.com\"]}",
        header.to_string()
    );
    assert_eq!(header.to(), &vec!["a@x.com", "b@x.com", "c@x.com", "d@x.com"]);
}

#[test]
fn set_tos_discards_the_recipients_added_before() {
    let mut header = Header::new();
    header.add_to("a@x.com").add_tos(vec!["b@x.com"]).set_tos(vec!["z@x.com"]);
    assert_eq!("{\"to\":[\"z@x.com\"]}", header.to_string());

    header.set_tos(Vec::<String>::new());
    assert_eq!(header.to().len(), 0);
    assert_eq!("{}", header.to_string());
}

#[test]
fn substitution_values_keep_the_call_order_of_their_tag() {
    let mut header = Header::new();
    header
        .add_substitution("a", "1")
        .add_substitution("b", "x")
        .add_substitution("a", "2")
        .add_substitution("a", "3");
    assert_eq!("{\"sub\":{\"a\":[\"1\",\"2\",\"3\"],\"b\":[\"x\"]}}", header.to_string());
    assert_eq!(header.sub().get("a"), Some(&vec!["1".to_string(), "2".to_string(), "3".to_string()]));
    assert_eq!(header.sub().get("b"), Some(&vec!["x".to_string()]));
    assert_eq!(header.sub().get("c"), None);
}

#[test]
fn add_substitutions_appends_to_the_values_of_a_tag() {
    let mut header = Header::new();
    header.add_substitution("-tag-", "one");
    header.add_substitutions("-tag-", vec!["two", "three"]);
    assert_eq!("{\"sub\":{\"-tag-\":[\"one\",\"two\",\"three\"]}}", header.to_string());
}

#[test]
fn add_substitutions_without_values_starts_an_empty_tag() {
    let mut header = Header::new();
    header.add_substitutions("-tag-", Vec::new());
    assert_eq!(true, header.sub().contains_key("-tag-"));
    assert_eq!("{\"sub\":{\"-tag-\":[]}}", header.to_string());
}

#[test]
fn set_substitutions_with_an_empty_map_leaves_no_sub_key() {
    let mut header = Header::new();
    header.add_substitution("-tag-", "one");
    header.set_substitutions(StringMap::new());
    assert_eq!(header.sub().len(), 0);
    assert_eq!("{}", header.to_string());
}

#[test]
fn object_keys_are_written_in_ascending_order() {
    let mut header = Header::new();
    header.add_section("b", "1").add_section("c", "2").add_section("a", "3");
    assert_eq!("{\"section\":{\"a\":\"3\",\"b\":\"1\",\"c\":\"2\"}}", header.to_string());
}

#[test]
fn two_settings_of_one_filter_name_are_both_present() {
    let mut header = Header::new();
    header.add_filter("f", "k1", "v1");
    header.add_filter("f", "k2", "v2");
    assert_eq!(header.filters().len(), 1);
    assert_eq!("{\"filters\":{\"f\":{\"settings\":{\"k1\":\"v1\",\"k2\":\"v2\"}}}}", header.to_string());
}

#[test]
fn a_repeated_setting_of_a_filter_is_overwritten() {
    let mut header = Header::new();
    header.add_filter("f", "k", "1").add_filter("f", "k", "2");
    assert_eq!("{\"filters\":{\"f\":{\"settings\":{\"k\":\"2\"}}}}", header.to_string());
}

#[test]
fn clicktrack_filter_scenario() {
    let mut header = Header::new();
    header.add_filter("clicktrack", "enabled", "1");
    assert_eq!(
        "{\"filters\":{\"clicktrack\":{\"settings\":{\"enabled\":\"1\"}}}}",
        header.to_string()
    );
}

#[test]
fn set_filter_replaces_the_settings_of_a_filter() {
    let mut header = Header::new();
    header.add_filter("f", "old", "1");
    let mut filter = Filter::new();
    filter.add_setting("new", "2");
    header.set_filter("f", filter);
    assert_eq!("{\"filters\":{\"f\":{\"settings\":{\"new\":\"2\"}}}}", header.to_string());
}

#[test]
fn a_filter_without_settings_is_an_empty_object() {
    let mut header = Header::new();
    header.set_filter("f", Filter::new());
    assert_eq!("{\"filters\":{\"f\":{}}}", header.to_string());
}

#[test]
fn asm_group_id_is_replaced() {
    let mut header = Header::new();
    header.set_asm_group_id(12);
    header.set_asm_group_id(123);
    assert_eq!(header.asm_group_id(), Some(123));
    assert_eq!("{\"asm_group_id\":123}", header.to_string());
}

#[test]
fn numbers_at_the_limits_are_written_in_full() {
    let mut header = Header::new();
    header.set_asm_group_id(i32::MIN).set_send_at(i64::MAX);
    assert_eq!(
        "{\"asm_group_id\":-2147483648,\"send_at\":9223372036854775807}",
        header.to_string()
    );
    header.set_asm_group_id(i32::MAX).set_send_each_at(vec![i64::MIN, 0, -1]);
    assert_eq!(
        "{\"asm_group_id\":2147483647,\"send_each_at\":[-9223372036854775808,0,-1]}",
        header.to_string()
    );
}

#[test]
fn ip_pool_is_replaced() {
    let mut header = Header::new();
    header.set_ip_pool("first").set_ip_pool("second");
    assert_eq!(header.ip_pool(), Some(&"second".to_string()));
    assert_eq!("{\"ip_pool\":\"second\"}", header.to_string());
}

#[test]
fn strings_are_quoted_and_escaped() {
    let mut header = Header::new();
    header.set_ip_pool("a\"b\\c\nd\te");
    assert_eq!("{\"ip_pool\":\"a\\\"b\\\\c\\nd\\te\"}", header.to_string());
    assert_ne!("a\"b\\c\nd\te", header.to_string());
}

#[test]
fn keys_are_quoted_and_escaped() {
    let mut header = Header::new();
    header.add_unique_arg("a\"b", "c");
    assert_eq!("{\"unique_args\":{\"a\\\"b\":\"c\"}}", header.to_string());
}

#[test]
fn all_fields_appear_under_their_keys() {
    let mut header = Header::new();
    header
        .add_to("a@x.com")
        .add_substitution("-n-", "v")
        .add_section("-s-", "t")
        .add_category("c")
        .add_unique_arg("k", "v")
        .add_filter("f", "e", "1")
        .set_asm_group_id(7)
        .set_send_at(100)
        .set_ip_pool("p");
    assert_eq!(
        "{\"asm_group_id\":7,\"category\":[\"c\"],\"filters\":{\"f\":{\"settings\":{\"e\":\"1\"}}},\"ip_pool\":\"p\",\"section\":{\"-s-\":\"t\"},\"send_at\":100,\"sub\":{\"-n-\":[\"v\"]},\"to\":[\"a@x.com\"],\"unique_args\":{\"k\":\"v\"}}",
        header.to_string()
    );
    header.set_send_each_at(vec![1, 2]);
    assert_eq!(
        "{\"asm_group_id\":7,\"category\":[\"c\"],\"filters\":{\"f\":{\"settings\":{\"e\":\"1\"}}},\"ip_pool\":\"p\",\"section\":{\"-s-\":\"t\"},\"send_each_at\":[1,2],\"sub\":{\"-n-\":[\"v\"]},\"to\":[\"a@x.com\"],\"unique_args\":{\"k\":\"v\"}}",
        header.to_string()
    );
}

#[test]
fn to_json_and_to_string_agree() {
    let mut header = Header::new();
    header.add_category("c").set_asm_group_id(1);
    assert_eq!(header.to_json().to_string(), header.to_string());

    let mut filter = Filter::new();
    filter.add_setting("a", "b");
    assert_eq!(filter.to_json().to_string(), filter.to_string());
}

#[test]
fn arrays_of_strings_and_numbers() {
    assert_eq!("[]", strings_json(&Vec::new()).to_string());
    assert_eq!(
        "[\"a\",\"b\"]",
        strings_json(&vec!["a".to_string(), "b".to_string()]).to_string()
    );
    assert_eq!("[]", integers_json(&Vec::new()).to_string());
    assert_eq!("[3,-4,5]", integers_json(&vec![3, -4, 5]).to_string());
}

#[test]
fn objects_of_string_maps() {
    let mut texts: StringMap<String> = StringMap::new();
    assert_eq!("{}", string_map_json(&texts).to_string());
    texts.insert("b".to_string(), "2".to_string());
    texts.insert("a".to_string(), "1".to_string());
    assert_eq!("{\"a\":\"1\",\"b\":\"2\"}", string_map_json(&texts).to_string());

    let mut lists: StringMap<Vec<String>> = StringMap::new();
    assert_eq!("{}", string_lists_json(&lists).to_string());
    lists.insert("k".to_string(), vec!["x".to_string(), "y".to_string()]);
    lists.insert("e".to_string(), Vec::new());
    assert_eq!("{\"e\":[],\"k\":[\"x\",\"y\"]}", string_lists_json(&lists).to_string());

    let mut filters: StringMap<Filter> = StringMap::new();
    assert_eq!("{}", filters_json(&filters).to_string());
    let mut filter = Filter::new();
    filter.add_setting("enabled", "1");
    filters.insert("on".to_string(), filter);
    filters.insert("bare".to_string(), Filter::new());
    assert_eq!(
        "{\"bare\":{},\"on\":{\"settings\":{\"enabled\":\"1\"}}}",
        filters_json(&filters).to_string()
    );
}
