use seify::Args;
use seify::Error;

#[test]
fn args_deserialize_empty() {
    let c: Args = "".parse().unwrap();
    assert_eq!(c.map().len(), 0);
}

#[test]
fn args_deserialize_single() {
    let c: Args = "foo=bar".parse().unwrap();
    assert_eq!(c.get("foo").unwrap(), "bar");
    assert_eq!(c.map().len(), 1);
}

#[test]
fn args_deserialize_more() {
    let c: Args = "foo=bar,fo=ba".parse().unwrap();
    assert_eq!(c.get("foo").unwrap(), "bar");
    assert_eq!(c.get("fo").unwrap(), "ba");
    assert_eq!(c.map().len(), 2);
}

#[test]
fn args_deserialize_whitespace() {
    let c: Args = "   foo  = bar  ,     fo=ba    ".parse().unwrap();
    assert_eq!(c.get("foo").unwrap(), "bar");
    assert_eq!(c.get("fo").unwrap(), "ba");
    assert_eq!(c.map().len(), 2);
}

#[test]
fn args_deserialize_nonascii() {
    let c: Args = "   f-oo  = b_ar".parse().unwrap();
    assert_eq!(c.get("f-oo").unwrap(), "b_ar");
    assert_eq!(c.map().len(), 1);
}

#[test]
fn args_deserialize_dquoted() {
    let c: Args = "foo=bar,fo=\"ba ,\"".parse().unwrap();
    assert_eq!(c.get("foo").unwrap(), "bar");
    assert_eq!(c.get("fo").unwrap(), "ba ,");
    assert_eq!(c.map().len(), 2);
}

#[test]
fn args_deserialize_squoted() {
    let c: Args = "foo=bar,fo='ba ,\"', hello   ='a s d f '".parse().unwrap();
    assert_eq!(c.get("foo").unwrap(), "bar");
    assert_eq!(c.get("fo").unwrap(), "ba ,\"");
    assert_eq!(c.get("hello").unwrap(), "a s d f ");
    assert_eq!(c.map().len(), 3);
}

#[test]
fn args_config_get() {
    let c: Args = "foo=123,bar=lol".parse().unwrap();
    assert_eq!(c.map().len(), 2);
    assert_eq!(c.get_u32("foo").unwrap(), 123);
    assert_eq!(c.get("foo").unwrap(), "123");
    assert_eq!(c.get("fooo"), Err(Error::NotFound));
    assert_eq!(c.get("bar").unwrap(), "lol");
    assert_eq!(c.get_u32("bar"), Err(Error::ValueError));
}

#[test]
fn args_set_replaces_and_returns_old_value() {
    let mut c = Args::new();
    assert_eq!(c.set("k".to_owned(), "1".to_owned()), None);
    assert_eq!(c.set("k".to_owned(), "2".to_owned()), Some("1".to_owned()));
    assert_eq!(c.get("k").unwrap(), "2");
    assert_eq!(c.map().len(), 1);
}

#[test]
fn args_duplicate_key_last_wins() {
    let c: Args = "a=1,a=2".parse().unwrap();
    assert_eq!(c.get("a").unwrap(), "2");
    assert_eq!(c.map().len(), 1);
}

#[test]
fn args_unclosed_quote_falls_back_to_bare() {
    let c: Args = "a='bc".parse().unwrap();
    assert_eq!(c.get("a").unwrap(), "'bc");
}

#[test]
fn args_empty_quotes_give_empty_value() {
    let c: Args = "a=''".parse().unwrap();
    assert_eq!(c.get("a").unwrap(), "");
}

#[test]
fn args_trailing_garbage_is_ignored() {
    let c: Args = "a=b zzz".parse().unwrap();
    assert_eq!(c.get("a").unwrap(), "b");
    assert_eq!(c.map().len(), 1);
}

#[test]
fn args_missing_value_yields_no_pair() {
    let c: Args = "a=".parse().unwrap();
    assert_eq!(c.map().len(), 0);
}

#[test]
fn args_iter_lists_entries() {
    let c: Args = "a=1,b=2".parse().unwrap();
    let entries = c.iter();
    assert_eq!(entries.len(), 2);
    assert!(entries.contains(&("a".to_owned(), "1".to_owned())));
    assert!(entries.contains(&("b".to_owned(), "2".to_owned())));
}

#[test]
fn args_get_u32_accepts_plus_and_bounds() {
    let c: Args = "a=+123,b=4294967295,c=4294967296,d=12x,e=''".parse().unwrap();
    assert_eq!(c.get_u32("a").unwrap(), 123);
    assert_eq!(c.get_u32("b").unwrap(), u32::MAX);
    assert_eq!(c.get_u32("c"), Err(Error::ValueError));
    assert_eq!(c.get_u32("d"), Err(Error::ValueError));
    assert_eq!(c.get_u32("e"), Err(Error::ValueError));
    assert_eq!(c.get_u32("zzz"), Err(Error::NotFound));
}
