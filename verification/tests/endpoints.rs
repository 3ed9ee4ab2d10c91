use oanda_connector::Endpoints;

#[test]
fn test_endpoint_formatting() {
    assert_eq!(Endpoints::pricing("123-456"), "/v3/accounts/123-456/pricing");

    assert_eq!(Endpoints::candles("EUR_USD"), "/v3/instruments/EUR_USD/candles");
}

#[test]
fn account_paths() {
    assert_eq!(Endpoints::account("001-1"), "/v3/accounts/001-1");
    assert_eq!(Endpoints::instruments("001-1"), "/v3/accounts/001-1/instruments");
    assert_eq!(Endpoints::orders("001-1"), "/v3/accounts/001-1/orders");
    assert_eq!(Endpoints::trades("001-1"), "/v3/accounts/001-1/trades");
    assert_eq!(Endpoints::positions("001-1"), "/v3/accounts/001-1/positions");
}

#[test]
fn empty_identifier_leaves_the_frame() {
    assert_eq!(Endpoints::pricing(""), "/v3/accounts//pricing");
    assert_eq!(Endpoints::account(""), "/v3/accounts/");
}
