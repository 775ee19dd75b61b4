use tradecore::testdata::{
    ensure_data_exists_tardis_binance_snapshot25, ensure_data_exists_tardis_binance_snapshot5,
    ensure_data_exists_tardis_bitmex_trades, ensure_data_exists_tardis_deribit_book_l2,
    ensure_data_exists_tardis_huobi_quotes, get_test_data_file_path,
    get_test_data_large_checksums_filepath,
};

#[test]
fn file_paths_join_under_the_data_directory() {
    assert_eq!(get_test_data_file_path("/data", "quotes.csv"), "/data/quotes.csv");
    assert_eq!(
        get_test_data_large_checksums_filepath("/data"),
        "/data/large/checksums.json"
    );
}

#[test]
fn tardis_deribit_book_l2_location() {
    let (path, url) = ensure_data_exists_tardis_deribit_book_l2("/data");
    assert_eq!(
        path,
        "/data/large/tardis_deribit_incremental_book_L2_2020-04-01_BTC-PERPETUAL.csv.gz"
    );
    assert_eq!(
        url,
        "https://datasets.tardis.dev/v1/deribit/incremental_book_L2/2020/04/01/BTC-PERPETUAL.csv.gz"
    );
}

#[test]
fn tardis_binance_snapshot5_location() {
    let (path, url) = ensure_data_exists_tardis_binance_snapshot5("/data");
    assert_eq!(
        path,
        "/data/large/tardis_binance-futures_book_snapshot_5_2020-09-01_BTCUSDT.csv.gz"
    );
    assert_eq!(
        url,
        "https://datasets.tardis.dev/v1/binance-futures/book_snapshot_5/2020/09/01/BTCUSDT.csv.gz"
    );
}

#[test]
fn tardis_binance_snapshot25_location() {
    let (path, url) = ensure_data_exists_tardis_binance_snapshot25("/data");
    assert_eq!(
        path,
        "/data/large/tardis_binance-futures_book_snapshot_25_2020-09-01_BTCUSDT.csv.gz"
    );
    assert_eq!(
        url,
        "https://datasets.tardis.dev/v1/binance-futures/book_snapshot_25/2020/09/01/BTCUSDT.csv.gz"
    );
}

#[test]
fn tardis_huobi_quotes_location() {
    let (path, url) = ensure_data_exists_tardis_huobi_quotes("/data");
    assert_eq!(path, "/data/large/tardis_huobi-dm-swap_quotes_2020-05-01_BTC-USD.csv.gz");
    assert_eq!(
        url,
        "https://datasets.tardis.dev/v1/huobi-dm-swap/quotes/2020/05/01/BTC-USD.csv.gz"
    );
}

#[test]
fn tardis_bitmex_trades_location() {
    let (path, url) = ensure_data_exists_tardis_bitmex_trades("/data");
    assert_eq!(path, "/data/large/tardis_bitmex_trades_2020-03-01_XBTUSD.csv.gz");
    assert_eq!(url, "https://datasets.tardis.dev/v1/bitmex/trades/2020/03/01/XBTUSD.csv.gz");
}
