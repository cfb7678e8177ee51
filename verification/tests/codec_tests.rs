use win11_tweaks::codec::decode_dword;
use win11_tweaks::codec::decode_string;
use win11_tweaks::codec::encode_dword;
use win11_tweaks::codec::encode_string;

#[test]
fn dword_encode_is_little_endian() {
    assert_eq!(encode_dword(42), vec![42, 0, 0, 0]);
    assert_eq!(encode_dword(0x12345678), vec![0x78, 0x56, 0x34, 0x12]);
    assert_eq!(encode_dword(0), vec![0, 0, 0, 0]);
    assert_eq!(encode_dword(u32::MAX), vec![0xFF, 0xFF, 0xFF, 0xFF]);
}

#[test]
fn dword_decode_reads_little_endian() {
    assert_eq!(decode_dword(&vec![42, 0, 0, 0]), 42);
    assert_eq!(decode_dword(&vec![0x78, 0x56, 0x34, 0x12]), 0x12345678);
}

#[test]
fn dword_round_trip() {
    for n in [0u32, 1, 42, 0x8000_0000, u32::MAX] {
        assert_eq!(decode_dword(&encode_dword(n)), n);
    }
}

#[test]
fn string_encode_appends_terminator() {
    assert_eq!(encode_string("ab"), vec![b'a', 0, b'b', 0, 0, 0]);
    assert_eq!(encode_string(""), vec![0, 0]);
}

#[test]
fn string_encode_supplementary_plane() {
    // U+1F600 encodes as the surrogate pair D83D DE00.
    assert_eq!(
        encode_string("\u{1F600}"),
        vec![0x3D, 0xD8, 0x00, 0xDE, 0x00, 0x00]
    );
}

#[test]
fn string_decode_strips_all_trailing_nuls() {
    assert_eq!(decode_string(&vec![b'a', 0, 0, 0, 0, 0]), "a");
    assert_eq!(decode_string(&vec![0, 0, 0, 0]), "");
    assert_eq!(decode_string(&vec![]), "");
}

#[test]
fn string_decode_drops_trailing_odd_byte() {
    assert_eq!(decode_string(&vec![b'a', 0, b'b']), "a");
}

#[test]
fn string_decode_replaces_unpaired_surrogate() {
    // A lone high surrogate D83D decodes to U+FFFD.
    assert_eq!(decode_string(&vec![0x3D, 0xD8]), "\u{FFFD}");
    // A lone low surrogate DE00 decodes to U+FFFD as well.
    assert_eq!(decode_string(&vec![0x00, 0xDE]), "\u{FFFD}");
}

#[test]
fn string_round_trip() {
    for s in ["", "a", "LaunchTo", "日本語のテキスト", "mixed 漢字 \u{1F600} text"] {
        assert_eq!(decode_string(&encode_string(s)), s);
    }
}
