use smtpapi::Header;

#[test]
fn set_send_at_then_set_send_each_at_leaves_no_send_at() {
    let mut header = Header::new();
    header.set_send_at(10).set_send_each_at(vec![1, 2]);
    assert_eq!(header.send_at(), None);
    assert_eq!(header.send_each_at(), Some(&vec![1, 2]));
    assert_eq!("{\"send_each_at\":[1,2]}", header.to_string());
}

#[test]
fn set_send_at_then_add_send_each_at_leaves_neither() {
    let mut header = Header::new();
    header.set_send_at(10).add_send_each_at(11);
    assert_eq!(header.send_at(), None);
    assert_eq!(header.send_each_at(), None);
    assert_eq!("{}", header.to_string());
}

#[test]
fn set_send_each_at_then_set_send_at_leaves_no_send_each_at() {
    let mut header = Header::new();
    header.set_send_each_at(vec![1, 2]).add_send_each_at(3).set_send_at(10);
    assert_eq!(header.send_at(), Some(10));
    assert_eq!(header.send_each_at(), None);
    assert_eq!("{\"send_at\":10}", header.to_string());
}

#[test]
fn add_send_each_at_on_a_new_header_does_nothing() {
    let mut header = Header::new();
    header.add_send_each_at(5);
    assert_eq!(header.send_at(), None);
    assert_eq!(header.send_each_at(), None);
    assert_eq!("{}", header.to_string());
}

#[test]
fn add_send_each_at_appends_to_times_that_are_there() {
    let mut header = Header::new();
    header.set_send_each_at(Vec::new());
    assert_eq!(header.send_each_at(), Some(&Vec::new()));
    assert_eq!("{}", header.to_string());
    header.add_send_each_at(7).add_send_each_at(5).add_send_each_at(6);
    assert_eq!(header.send_each_at(), Some(&vec![7, 5, 6]));
    assert_eq!("{\"send_each_at\":[7,5,6]}", header.to_string());
}

#[test]
fn an_empty_list_of_times_is_left_out() {
    let mut header = Header::new();
    header.set_send_each_at(vec![]);
    assert_eq!("{}", header.to_json().to_string());
    assert_eq!("{}", header.to_string());

    header.add_to("a@x.com").set_send_each_at(vec![1]).set_send_each_at(Vec::new());
    assert_eq!(header.send_at(), None);
    assert_eq!("{\"to\":[\"a@x.com\"]}", header.to_string());
}

#[test]
fn set_send_each_at_replaces_the_times() {
    let mut header = Header::new();
    header.set_send_each_at(vec![1, 2, 3]).set_send_each_at(vec![4]);
    assert_eq!("{\"send_each_at\":[4]}", header.to_string());
}

#[test]
fn at_most_one_way_to_schedule_after_each_call() {
    let mut header = Header::new();
    assert!(!(header.send_at().is_some() && header.send_each_at().is_some()));
    header.set_send_at(1);
    assert!(!(header.send_at().is_some() && header.send_each_at().is_some()));
    header.set_send_each_at(vec![2]);
    assert!(!(header.send_at().is_some() && header.send_each_at().is_some()));
    header.add_send_each_at(3);
    assert!(!(header.send_at().is_some() && header.send_each_at().is_some()));
    header.set_send_at(4);
    assert!(!(header.send_at().is_some() && header.send_each_at().is_some()));
    header.add_to("a@x.com").add_category("c");
    assert!(!(header.send_at().is_some() && header.send_each_at().is_some()));
    assert_eq!("{\"category\":[\"c\"],\"send_at\":4,\"to\":[\"a@x.com\"]}", header.to_string());
}
