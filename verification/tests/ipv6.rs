use natto64::abi::{nat64_embedded_v4_be, nat64_embedded_v4_bytes};
use natto64::ipv6::ipv6_from_be_words;

#[test]
fn normalizes_nat64_wkpf_prefix_words_correctly() {
    let raw0 = 0x9bff6400u32;
    let raw1 = 0x00000000u32;
    let raw2 = 0x00000000u32;
    let raw3 = 0x02151681u32;

    let dst = ipv6_from_be_words(
        u32::from_be(raw0),
        u32::from_be(raw1),
        u32::from_be(raw2),
        u32::from_be(raw3),
    );

    assert_eq!(
        dst,
        [
            0x00, 0x64, 0xff, 0x9b, 0, 0, 0, 0, 0, 0, 0, 0, 0x81, 0x16, 0x15, 0x02,
        ]
    );
}

#[test]
fn nat64_wkpf96_prefix_matches_after_normalization() {
    let dst = [
        0x00, 0x64, 0xff, 0x9b, 0, 0, 0, 0, 0, 0, 0, 0, 0x02, 0x15, 0x16, 0x81,
    ];

    let prefix = [0x00, 0x64, 0xff, 0x9b, 0, 0, 0, 0, 0, 0, 0, 0];
    assert_eq!(dst[..12], prefix);
}

#[test]
fn extracts_embedded_ipv4_from_nat64_destination() {
    let dst = [
        0x00, 0x64, 0xff, 0x9b, 0, 0, 0, 0, 0, 0, 0, 0, 0x02, 0x15, 0x16, 0x81,
    ];

    let v4 = nat64_embedded_v4_be(&dst);
    assert_eq!(v4, u32::from_be_bytes([2, 21, 22, 129]));
}

#[test]
fn parser_and_embedded_v4_extraction_regression() {
    // Destination words as the header loader hands them over: each group of
    // four wire bytes read as a big-endian integer, on any host.
    let raw_dst_words = [
        u32::from_be_bytes(0x0064_ff9bu32.to_be_bytes()),
        u32::from_be_bytes(0x0000_0000u32.to_be_bytes()),
        u32::from_be_bytes(0x0000_0000u32.to_be_bytes()),
        u32::from_be_bytes(0x0215_1663u32.to_be_bytes()),
    ];

    let dst = ipv6_from_be_words(
        raw_dst_words[0],
        raw_dst_words[1],
        raw_dst_words[2],
        raw_dst_words[3],
    );

    let prefix = [0x00, 0x64, 0xff, 0x9b, 0, 0, 0, 0, 0, 0, 0, 0];
    assert_eq!(dst[..12], prefix);
    assert_eq!(nat64_embedded_v4_bytes(&dst), [2, 21, 22, 99]);
    assert_eq!(
        nat64_embedded_v4_be(&dst),
        u32::from_be_bytes([2, 21, 22, 99])
    );
}
