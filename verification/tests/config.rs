use seify::config::Config;
use seify::Error;

#[test]
fn config_deserialize_empty() {
    let c: Config = "".parse().unwrap();
    assert_eq!(c.len(), 0);
}

#[test]
fn config_deserialize_single() {
    let c: Config = "foo=bar".parse().unwrap();
    assert_eq!(c.get("foo").unwrap(), "bar");
    assert_eq!(c.len(), 1);
}

#[test]
fn config_deserialize_more() {
    let c: Config = "foo=bar,fo=ba".parse().unwrap();
    assert_eq!(c.get("foo").unwrap(), "bar");
    assert_eq!(c.get("fo").unwrap(), "ba");
    assert_eq!(c.len(), 2);
}

#[test]
fn config_deserialize_whitespace() {
    let c: Config = "   foo  = bar  ,     fo=ba    ".parse().unwrap();
    assert_eq!(c.get("foo").unwrap(), "bar");
    assert_eq!(c.get("fo").unwrap(), "ba");
    assert_eq!(c.len(), 2);
}

#[test]
fn config_deserialize_nonascii() {
    let c: Config = "   f-oo  = b_ar".parse().unwrap();
    assert_eq!(c.get("f-oo").unwrap(), "b_ar");
    assert_eq!(c.len(), 1);
}

#[test]
fn config_deserialize_dquoted() {
    let c: Config = "foo=bar,fo=\"ba ,\"".parse().unwrap();
    assert_eq!(c.get("foo").unwrap(), "bar");
    assert_eq!(c.get("fo").unwrap(), "ba ,");
    assert_eq!(c.len(), 2);
}

#[test]
fn config_deserialize_squoted() {
    let c: Config = "foo=bar,fo='ba ,\"', hello   ='a s d f '".parse().unwrap();
    assert_eq!(c.get("foo").unwrap(), "bar");
    assert_eq!(c.get("fo").unwrap(), "ba ,\"");
    assert_eq!(c.get("hello").unwrap(), "a s d f ");
    assert_eq!(c.len(), 3);
}

#[test]
fn config_config_get() {
    let c: Config = "foo=123,bar=lol".parse().unwrap();
    assert_eq!(c.len(), 2);
    assert_eq!(c.get_u32("foo").unwrap(), 123);
    assert_eq!(c.get("foo").unwrap(), "123");
    assert_eq!(c.get("fooo"), Err(Error::NotFound));
    assert_eq!(c.get("bar").unwrap(), "lol");
    assert_eq!(c.get_u32("bar"), Err(Error::ValueError));
}

#[test]
fn config_set_replaces_and_returns_old_value() {
    let mut c = Config::new();
    assert_eq!(c.set("k".to_owned(), "1".to_owned()), None);
    assert_eq!(c.set("k".to_owned(), "2".to_owned()), Some("1".to_owned()));
    assert_eq!(c.get("k").unwrap(), "2");
    assert_eq!(c.len(), 1);
}
