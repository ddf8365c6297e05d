use famcache::query::CacheQuery;

#[test]
fn test_from_str() {
    let query = CacheQuery::from_str("asd-asdasd-asdads OK 10").unwrap();
    assert_eq!(query.id, "asd-asdasd-asdads");
    assert_eq!(query.value, Some("10".to_string()));
    assert_eq!(query.is_error, false);

    let query = CacheQuery::from_str("asda-asdasd-asdads OK").unwrap();
    assert_eq!(query.id, "asda-asdasd-asdads");
    assert_eq!(query.value, None);
    assert_eq!(query.is_error, false);

    let query = CacheQuery::from_str("asdas-asdasdd-asdd ERROR").unwrap();
    assert_eq!(query.id, "asdas-asdasdd-asdd");
    assert_eq!(query.value, None);
    assert_eq!(query.is_error, true);
}

#[test]
fn test_new() {
    let query = CacheQuery::new("asd-asdasd-asdads", Some("10"), false);
    assert_eq!(query.id, "asd-asdasd-asdads");
    assert_eq!(query.value, Some("10".to_string()));
    assert_eq!(query.is_error, false);

    let query = CacheQuery::new("asda-asdasd-asdads", None, false);
    assert_eq!(query.id, "asda-asdasd-asdads");
    assert_eq!(query.value, None);
    assert_eq!(query.is_error, false);

    let query = CacheQuery::new("asdas-asdasdd-asdd", None, true);
    assert_eq!(query.id, "asdas-asdasdd-asdd");
    assert_eq!(query.value, None);
    assert_eq!(query.is_error, true);
}

#[test]
fn test_from_str_malformed() {
    assert!(CacheQuery::from_str("").is_err());
    assert!(CacheQuery::from_str("onlyid").is_err());
    assert!(CacheQuery::from_str("onlyid\n").is_err());
}

#[test]
fn test_from_str_details() {
    // A trailing newline does not change the parse.
    let query = CacheQuery::from_str("abc OK 10\n").unwrap();
    assert_eq!(query.id, "abc");
    assert_eq!(query.value, Some("10".to_string()));

    // Any status other than ERROR is accepted as success.
    let query = CacheQuery::from_str("abc WHATEVER").unwrap();
    assert_eq!(query.is_error, false);

    // A value is read only when there are exactly three tokens.
    let query = CacheQuery::from_str("abc OK 1 2").unwrap();
    assert_eq!(query.value, None);
}
