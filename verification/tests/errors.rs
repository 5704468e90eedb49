use anauuno::error::{Error, UsbError};
use anauuno::tls::{TlsConfig, TlsRole, TlsVersion, VerifyMode};

#[test]
fn usb_errors_map_to_transport_errors() {
    assert_eq!(Error::from_usb(UsbError::Timeout), Error::IoTimeout);
    assert_eq!(Error::from_usb(UsbError::NoDevice), Error::IoDisconnected);
    assert_eq!(Error::from_usb(UsbError::Pipe), Error::IoPipe);
    assert_eq!(Error::from_usb(UsbError::Io), Error::IoOther);
    for other in [
        UsbError::InvalidParam,
        UsbError::Access,
        UsbError::NotFound,
        UsbError::Busy,
        UsbError::Overflow,
        UsbError::Interrupted,
        UsbError::NoMem,
        UsbError::NotSupported,
        UsbError::BadDescriptor,
        UsbError::Other,
    ] {
        assert_eq!(Error::from_usb(other), Error::IoOther);
    }
}

#[test]
fn only_timeouts_and_schema_errors_keep_the_session() {
    assert!(!Error::IoTimeout.is_fatal());
    assert!(!Error::SchemaError.is_fatal());
    assert!(Error::IoDisconnected.is_fatal());
    assert!(Error::IoPipe.is_fatal());
    assert!(Error::IoOther.is_fatal());
    assert!(Error::FramingError.is_fatal());
    assert!(Error::ProtocolViolation.is_fatal());
}

#[test]
fn transport_errors_are_told_from_the_others() {
    assert!(Error::IoTimeout.is_io());
    assert!(Error::IoDisconnected.is_io());
    assert!(Error::IoPipe.is_io());
    assert!(Error::IoOther.is_io());
    assert!(!Error::FramingError.is_io());
    assert!(!Error::ProtocolViolation.is_io());
    assert!(!Error::SchemaError.is_io());
}

#[test]
fn tls_setup_is_pinned() {
    let config = TlsConfig::new(vec![1, 2, 3], vec![4, 5]);
    assert_eq!(config.certificate_pem, vec![1, 2, 3]);
    assert_eq!(config.private_key_pem, vec![4, 5]);
    assert_eq!(config.verify, VerifyMode::NoVerification);
    assert_eq!(config.min_version, TlsVersion::Tls1_2);
    assert_eq!(config.max_version, TlsVersion::Tls1_2);
    assert_eq!(config.role, TlsRole::Connect);
}
