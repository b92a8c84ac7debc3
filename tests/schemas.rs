use ccx_binance::error::{LibError, RequestError};
use ccx_binance::market_data::{OrderBookLimit, SymbolPermission};
use ccx_binance::withdrawal::WithdrawalWithdrawStatus as W;

#[test]
fn order_book_limit_weights() {
    let expect = [
        (OrderBookLimit::N5, 1, "5"),
        (OrderBookLimit::N10, 1, "10"),
        (OrderBookLimit::N20, 1, "20"),
        (OrderBookLimit::N50, 1, "50"),
        (OrderBookLimit::N100, 1, "100"),
        (OrderBookLimit::N500, 5, "500"),
        (OrderBookLimit::N1000, 10, "1000"),
        (OrderBookLimit::N5000, 50, "5000"),
    ];
    for (l, w, s) in expect {
        assert_eq!(l.weight(), w);
        assert_eq!(l.as_str(), s);
    }
}

#[test]
fn withdrawal_status_classes() {
    let all = [
        W::Done, W::Cancel, W::Request, W::Manual, W::Bcode, W::Extpend, W::Fail, W::Invalid, W::Verify, W::Proces, W::Pend, W::Dmove,
        W::Splitpend, W::Locked,
    ];
    let finished: Vec<_> = all.iter().filter(|s| s.is_finished()).copied().collect();
    assert_eq!(finished, vec![W::Done, W::Cancel, W::Fail]);
    let pending: Vec<_> = all.iter().filter(|s| s.is_pending()).copied().collect();
    assert_eq!(pending, vec![W::Request, W::Manual, W::Bcode, W::Extpend, W::Verify, W::Proces, W::Pend, W::Splitpend]);
    let confirm: Vec<_> = all.iter().filter(|s| s.needs_confirmation()).copied().collect();
    assert_eq!(confirm, vec![W::Manual]);
    assert!(!W::Invalid.is_finished() && !W::Invalid.is_pending());
}

#[test]
fn error_constructors() {
    assert_eq!(
        RequestError::mandatory_field_omitted("symbol".to_string()),
        RequestError::MandatoryFieldOmitted("symbol".to_string())
    );
    assert_eq!(LibError::other("x".to_string()), LibError::Other("x".to_string()));
}

#[test]
fn symbol_permission_codes() {
    assert_eq!(SymbolPermission::Spot.code(), "SPOT");
    assert_eq!(SymbolPermission::Margin.code(), "MARGIN");
    assert_eq!(SymbolPermission::Leveraged.code(), "LEVERAGED");
    assert_eq!(SymbolPermission::TradeGroup(0).code(), "TRD_GRP_0000");
    assert_eq!(SymbolPermission::TradeGroup(2).code(), "TRD_GRP_0002");
    assert_eq!(SymbolPermission::TradeGroup(123).code(), "TRD_GRP_0123");
    assert_eq!(SymbolPermission::TradeGroup(65535).code(), "TRD_GRP_65535");
}

#[test]
fn symbol_permission_from_codes() {
    assert_eq!(SymbolPermission::from_code("SPOT"), Some(SymbolPermission::Spot));
    assert_eq!(SymbolPermission::from_code("MARGIN"), Some(SymbolPermission::Margin));
    assert_eq!(SymbolPermission::from_code("LEVERAGED"), Some(SymbolPermission::Leveraged));
    assert_eq!(SymbolPermission::from_code("TRD_GRP_0002"), Some(SymbolPermission::TradeGroup(2)));
    assert_eq!(SymbolPermission::from_code("TRD_GRP_TRD_GRP_7"), Some(SymbolPermission::TradeGroup(7)));
    assert_eq!(SymbolPermission::from_code("TRD_GRP_+5"), Some(SymbolPermission::TradeGroup(5)));
    assert_eq!(SymbolPermission::from_code("TRD_GRP_65536"), None);
    assert_eq!(SymbolPermission::from_code("TRD_GRP_"), None);
    assert_eq!(SymbolPermission::from_code("TRD_GRP_1a"), None);
    assert_eq!(SymbolPermission::from_code("spot"), None);
    assert_eq!(SymbolPermission::from_code(""), None);
    for p in [SymbolPermission::Spot, SymbolPermission::TradeGroup(9), SymbolPermission::TradeGroup(40000)] {
        assert_eq!(SymbolPermission::from_code(&p.code()), Some(p));
    }
}
