use rift::public_id::{AffiliateId, ParseIdError, TenantId, WebhookId, HEX_LEN};

const OID: [u8; 12] = [0x66, 0x5a, 0x1b, 0x2c, 0x3d, 0x4e, 0x5f, 0x6a, 0x7b, 0x8c, 0x9d, 0x0e];

fn parse_err(r: Result<AffiliateId, ParseIdError>) -> ParseIdError {
    match r {
        Err(e) => e,
        Ok(_) => panic!("expected a parse error"),
    }
}

#[test]
fn from_object_id_stores_hex() {
    let id: AffiliateId = AffiliateId::from_object_id(OID);
    assert_eq!(id.as_hex(), "665a1b2c3d4e5f6a7b8c9d0e");
    assert_eq!(id.as_hex().len(), HEX_LEN);
}

#[test]
fn display_includes_prefix() {
    let id: AffiliateId = AffiliateId::from_object_id(OID);
    assert_eq!(id.to_string(), "aff_665a1b2c3d4e5f6a7b8c9d0e");
}

#[test]
fn round_trip_to_object_id() {
    let id: WebhookId = WebhookId::from_object_id(OID);
    assert_eq!(id.to_object_id(), OID);
    assert_eq!(*id.as_object_id(), OID);
}

#[test]
fn parse_rejects_wrong_length() {
    let err = parse_err(AffiliateId::parse("aff_665a1b2c3d4e"));
    assert!(matches!(
        err,
        ParseIdError::InvalidLength {
            expected: 24,
            got: 12
        }
    ));
}

#[test]
fn parse_rejects_non_hex_body() {
    let err = parse_err(AffiliateId::parse("aff_zzzzzzzzzzzzzzzzzzzzzzzz"));
    assert!(matches!(err, ParseIdError::InvalidHex));
}

#[test]
fn parse_rejects_missing_separator() {
    let err = parse_err(AffiliateId::parse("aff665a1b2c3d4e5f6a7b8c9d0e"));
    assert!(matches!(err, ParseIdError::MissingSeparator));
}

#[test]
fn parse_reads_the_wire_form_back() {
    let id = TenantId::from_object_id(OID);
    match TenantId::parse(&id.to_string()) {
        Ok(back) => assert_eq!(back.to_object_id(), OID),
        Err(_) => panic!("wire form must parse"),
    }
}

#[test]
fn parse_rejects_wrong_prefix_and_uppercase() {
    match WebhookId::parse("aff_665a1b2c3d4e5f6a7b8c9d0e") {
        Err(ParseIdError::WrongPrefix { expected, got }) => {
            assert_eq!(expected, "wh");
            assert_eq!(got, "aff");
        }
        _ => panic!("expected wrong prefix"),
    }
    let err = parse_err(AffiliateId::parse("aff_665A1B2C3D4E5F6A7B8C9D0E"));
    assert!(matches!(err, ParseIdError::InvalidHex));
    assert!(err.message().contains("hex"));
}

#[test]
fn equality_and_from_str_within_same_type() {
    let a: TenantId = "tnt_650aff0001020304050607ff".parse().unwrap();
    let b = TenantId::parse("tnt_650aff0001020304050607ff").unwrap();
    let c = TenantId::parse("tnt_650aff0001020304050607fe").unwrap();
    let copy = a;
    assert!(a == b);
    assert!(a != c);
    assert!(copy == a.clone());
    assert_eq!(a.as_hex(), "650aff0001020304050607ff");
    assert!("aff_650aff0001020304050607ff".parse::<TenantId>().is_err());
}
