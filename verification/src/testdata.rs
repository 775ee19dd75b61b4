//! Locations of the recorded market-data files used by backtest runs: the
//! local path each file must sit at under the test-data directory, and the
//! URL it is fetched from when missing. The strings must be exact, so each
//! builder pins its results character for character; fetching and checksum
//! verification are I/O and stay with the caller.

use vstd::prelude::*;

verus! {

/// The full path of a file at `path` within the test-data directory.
pub fn get_test_data_file_path(data_dir: &str, path: &str) -> (r: String)
    ensures
        r@ == data_dir@ + "/"@ + path@,
{
    let mut s = String::from_str(data_dir);
    s.append("/");
    s.append(path);
    s
}

/// The path of the checksums file for the large test-data files.
pub fn get_test_data_large_checksums_filepath(data_dir: &str) -> (r: String)
    ensures
        r@ == data_dir@ + "/large/checksums.json"@,
{
    let mut s = String::from_str(data_dir);
    s.append("/large/checksums.json");
    s
}

fn large_file_path(data_dir: &str, filename: &str) -> (r: String)
    ensures
        r@ == data_dir@ + "/large/"@ + filename@,
{
    let mut s = String::from_str(data_dir);
    s.append("/large/");
    s.append(filename);
    s
}

/// The local path and source URL of the Tardis Deribit incremental book L2
/// data set.
pub fn ensure_data_exists_tardis_deribit_book_l2(data_dir: &str) -> (r: (String, String))
    ensures
        r.0@ == data_dir@ + "/large/"@
            + "tardis_deribit_incremental_book_L2_2020-04-01_BTC-PERPETUAL.csv.gz"@,
        r.1@ == "https://datasets.tardis.dev/v1/deribit/incremental_book_L2/2020/04/01/BTC-PERPETUAL.csv.gz"@,
{
    let filepath = large_file_path(
        data_dir,
        "tardis_deribit_incremental_book_L2_2020-04-01_BTC-PERPETUAL.csv.gz",
    );
    let url = String::from_str("https://datasets.tardis.dev/v1/deribit/incremental_book_L2/2020/04/01/BTC-PERPETUAL.csv.gz");
    (filepath, url)
}

/// The local path and source URL of the Tardis Binance Futures book
/// snapshot (depth 5) data set.
pub fn ensure_data_exists_tardis_binance_snapshot5(data_dir: &str) -> (r: (String, String))
    ensures
        r.0@ == data_dir@ + "/large/"@
            + "tardis_binance-futures_book_snapshot_5_2020-09-01_BTCUSDT.csv.gz"@,
        r.1@ == "https://datasets.tardis.dev/v1/binance-futures/book_snapshot_5/2020/09/01/BTCUSDT.csv.gz"@,
{
    let filepath = large_file_path(
        data_dir,
        "tardis_binance-futures_book_snapshot_5_2020-09-01_BTCUSDT.csv.gz",
    );
    let url = String::from_str("https://datasets.tardis.dev/v1/binance-futures/book_snapshot_5/2020/09/01/BTCUSDT.csv.gz");
    (filepath, url)
}

/// The local path and source URL of the Tardis Binance Futures book
/// snapshot (depth 25) data set.
pub fn ensure_data_exists_tardis_binance_snapshot25(data_dir: &str) -> (r: (String, String))
    ensures
        r.0@ == data_dir@ + "/large/"@
            + "tardis_binance-futures_book_snapshot_25_2020-09-01_BTCUSDT.csv.gz"@,
        r.1@ == "https://datasets.tardis.dev/v1/binance-futures/book_snapshot_25/2020/09/01/BTCUSDT.csv.gz"@,
{
    let filepath = large_file_path(
        data_dir,
        "tardis_binance-futures_book_snapshot_25_2020-09-01_BTCUSDT.csv.gz",
    );
    let url = String::from_str("https://datasets.tardis.dev/v1/binance-futures/book_snapshot_25/2020/09/01/BTCUSDT.csv.gz");
    (filepath, url)
}

/// The local path and source URL of the Tardis Huobi quotes data set.
pub fn ensure_data_exists_tardis_huobi_quotes(data_dir: &str) -> (r: (String, String))
    ensures
        r.0@ == data_dir@ + "/large/"@ + "tardis_huobi-dm-swap_quotes_2020-05-01_BTC-USD.csv.gz"@,
        r.1@ == "https://datasets.tardis.dev/v1/huobi-dm-swap/quotes/2020/05/01/BTC-USD.csv.gz"@,
{
    let filepath = large_file_path(data_dir, "tardis_huobi-dm-swap_quotes_2020-05-01_BTC-USD.csv.gz");
    let url = String::from_str("https://datasets.tardis.dev/v1/huobi-dm-swap/quotes/2020/05/01/BTC-USD.csv.gz");
    (filepath, url)
}

/// The local path and source URL of the Tardis BitMEX trades data set.
pub fn ensure_data_exists_tardis_bitmex_trades(data_dir: &str) -> (r: (String, String))
    ensures
        r.0@ == data_dir@ + "/large/"@ + "tardis_bitmex_trades_2020-03-01_XBTUSD.csv.gz"@,
        r.1@ == "https://datasets.tardis.dev/v1/bitmex/trades/2020/03/01/XBTUSD.csv.gz"@,
{
    let filepath = large_file_path(data_dir, "tardis_bitmex_trades_2020-03-01_XBTUSD.csv.gz");
    let url = String::from_str("https://datasets.tardis.dev/v1/bitmex/trades/2020/03/01/XBTUSD.csv.gz");
    (filepath, url)
}

} // verus!
