//! The collector's fetcher endpoint.

use lsm6dsrx::collector::{AccelFetcher, Cli};

#[test]
fn url_is_the_accel_endpoint() {
    let f = AccelFetcher::new("192.168.0.17");
    assert_eq!(f.url(), "http://192.168.0.17/accel");
}

#[test]
fn url_keeps_the_port() {
    let f = AccelFetcher::new("imu.local:8080");
    assert_eq!(f.url(), "http://imu.local:8080/accel");
}

#[test]
fn cli_holds_what_it_was_asked() {
    let cli = Cli { addr: String::from("10.0.0.2"), out: Some(String::from("runs")), verbose: true };
    assert_eq!(cli.addr, "10.0.0.2");
    assert_eq!(cli.out.as_deref(), Some("runs"));
    assert!(cli.verbose);
}
