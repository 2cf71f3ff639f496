use io_gmail::v1::connect::{transport_for, GmailTransport};

#[test]
fn schemes_pick_transport_and_default_port() {
    assert_eq!(transport_for("https", None), Some((GmailTransport::Tls, 443)));
    assert_eq!(transport_for("http", None), Some((GmailTransport::Tcp, 80)));
    assert_eq!(transport_for("https", Some(8443)), Some((GmailTransport::Tls, 8443)));
    assert_eq!(transport_for("ftp", Some(21)), None);
    assert_eq!(transport_for("HTTPS", None), None);
}
