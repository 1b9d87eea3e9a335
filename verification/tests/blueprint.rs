use turnkey_rs::{say_hello, ServiceContext};

#[test]
fn it_works() {
    let context = ServiceContext { call_id: None };
    let result = say_hello(None, context.clone()).unwrap();
    assert_eq!(result, "Hello World!");
    let result = say_hello(Some("Alice".to_string()), context).unwrap();
    assert_eq!(result, "Hello, Alice!");
}

#[test]
fn greets_empty_and_unicode_names() {
    let context = ServiceContext { call_id: Some(7) };
    assert_eq!(say_hello(Some(String::new()), context).unwrap(), "Hello, !");
    assert_eq!(say_hello(Some("Zoë".to_string()), context).unwrap(), "Hello, Zoë!");
}
