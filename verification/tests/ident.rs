use sd_core::{uuid_from_text, uuid_to_bytes};
use uuid::Uuid;

const OCTETS: [u8; 16] = [
    0xa1, 0xa2, 0xa3, 0xa4, 0xb1, 0xb2, 0xc1, 0xc2, 0xd1, 0xd2, 0xd3, 0xd4, 0xd5, 0xd6, 0xd7, 0xd8,
];

#[test]
fn uuid_to_bytes_gives_the_sixteen_octets_in_order() {
    let bytes = uuid_to_bytes(Uuid::from_bytes(OCTETS));
    assert_eq!(bytes, OCTETS.to_vec());
    assert_eq!(bytes.len(), 16);
}

#[test]
fn uuid_to_bytes_of_the_nil_identifier_is_all_zero() {
    assert_eq!(uuid_to_bytes(Uuid::nil()), vec![0u8; 16]);
}

#[test]
fn uuid_to_bytes_of_a_parsed_identifier() {
    let id = Uuid::parse_str("67e55044-10b1-426f-9247-bb680e5fe0c8").unwrap();
    assert_eq!(
        uuid_to_bytes(id),
        vec![
            0x67, 0xe5, 0x50, 0x44, 0x10, 0xb1, 0x42, 0x6f, 0x92, 0x47, 0xbb, 0x68, 0x0e, 0x5f,
            0xe0, 0xc8,
        ]
    );
}

#[test]
fn uuid_text_reads_back() {
    assert_eq!(
        uuid_from_text("a1a2a3a4-b1b2-c1c2-d1d2-d3d4d5d6d7d8"),
        Some(Uuid::from_bytes(OCTETS))
    );
    assert_eq!(uuid_from_text("00000000-0000-0000-0000-000000000000"), Some(Uuid::nil()));
    assert_eq!(
        uuid_from_text("67e55044-10b1-426f-9247-bb680e5fe0c8").map(uuid_to_bytes),
        Some(vec![
            0x67, 0xe5, 0x50, 0x44, 0x10, 0xb1, 0x42, 0x6f, 0x92, 0x47, 0xbb, 0x68, 0x0e, 0x5f,
            0xe0, 0xc8,
        ])
    );
}

#[test]
fn uuid_text_in_another_notation_is_not_read() {
    assert_eq!(uuid_from_text("A1A2A3A4-B1B2-C1C2-D1D2-D3D4D5D6D7D8"), None);
    assert_eq!(uuid_from_text("a1a2a3a4b1b2c1c2d1d2d3d4d5d6d7d8"), None);
    assert_eq!(uuid_from_text("{a1a2a3a4-b1b2-c1c2-d1d2-d3d4d5d6d7d8}"), None);
    assert_eq!(uuid_from_text("urn:uuid:a1a2a3a4-b1b2-c1c2-d1d2-d3d4d5d6d7d8"), None);
}

#[test]
fn text_that_names_no_identifier_is_not_read() {
    assert_eq!(uuid_from_text(""), None);
    assert_eq!(uuid_from_text("a1a2a3a4-b1b2-c1c2-d1d2-d3d4d5d6d7d"), None);
    assert_eq!(uuid_from_text("a1a2a3a4-b1b2-c1c2-d1d2-d3d4d5d6d7d8a"), None);
    assert_eq!(uuid_from_text("g1a2a3a4-b1b2-c1c2-d1d2-d3d4d5d6d7d8"), None);
    assert_eq!(uuid_from_text("a1a2a3a4_b1b2_c1c2_d1d2_d3d4d5d6d7d8"), None);
    assert_eq!(uuid_from_text(" a1a2a3a4-b1b2-c1c2-d1d2-d3d4d5d6d7d8"), None);
}
