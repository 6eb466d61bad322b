use deltarune_autosplit::versions::{data_game_version, md5_bytes, engine_version_from_digest, game_version_from_digest, hex, md5_hex_upper, runner_engine_version, verPs, EngineVersion, GameVersion, PtrSize};

fn unhex(s: &str) -> Vec<u8> {
    (0..s.len()).step_by(2).map(|i| u8::from_str_radix(&s[i..i + 2], 16).unwrap()).collect()
}

#[test]
fn hex_spelling() {
    assert_eq!(hex(&[0x00, 0xAB, 0x7F, 0xF0], false), b"00ab7ff0".to_vec());
    assert_eq!(hex(&[0x00, 0xAB, 0x7F, 0xF0], true), b"00AB7FF0".to_vec());
    assert_eq!(hex(&[], true), Vec::<u8>::new());
}

#[test]
fn md5_of_known_inputs() {
    assert_eq!(md5_hex_upper(b"abc"), b"900150983CD24FB0D6963F7D28E17F72".to_vec());
    assert_eq!(md5_hex_upper(b""), b"D41D8CD98F00B204E9800998ECF8427E".to_vec());
    assert_eq!(runner_engine_version(b""), None);
    assert_eq!(data_game_version(b"abc"), GameVersion::Invalid);
}

#[test]
fn engine_versions_by_digest() {
    let cases = [
        ("4d09627e1fa123d12ddf1a496c489f73", EngineVersion::GMS2_v2_2_0),
        ("dcfb86f7a80d9906bbbafa1b2c224848", EngineVersion::GMS2_2022_1),
        ("a9db8b7fb6333b5e267f574f46076b3f", EngineVersion::GMS2_2022_2),
        ("14af94e0435eb4cbe3bb5a03ab4218c4", EngineVersion::GM_LTS2022_0_3_99),
        ("7bf3cccc2e54481ced3a149e1a083684", EngineVersion::GM_LTS2022_0_3_104),
    ];
    for (h, v) in cases {
        assert_eq!(engine_version_from_digest(&unhex(h)), Some(v));
    }
    assert_eq!(engine_version_from_digest(&unhex("d41d8cd98f00b204e9800998ecf8427e")), None);
}

#[test]
fn game_versions_by_digest() {
    let cases = [
        ("a88a2db3a68c714ca2b1ff57ac08a032", GameVersion::SP),
        ("e05433fe679bc91e3809c1138e3a8ea1", GameVersion::SP),
        ("272a16964597ed6dc8d2393ed051d3ce", GameVersion::D109),
        ("758c8862f22f778fdeafe25fbcd1f4ec", GameVersion::D110),
        ("6bd6d1381c194c0f456b184cb48d132d", GameVersion::D115),
        ("7ad299a8b33fa449e20edfe0fededdb2", GameVersion::D119),
        ("40a8185886a8a1a2be996bc57de3d916", GameVersion::Ch4_v102),
        ("d0420c09a5debd6176ea24a1fe1ee3e3", GameVersion::Ch5_v244),
        ("908643b7593b000f5b6c61bb484d086a", GameVersion::Ch5_v247),
        ("21cdd09eeadbcc77535ab2bb3412259a", GameVersion::Ch5_v247),
        ("00000000000000000000000000000000", GameVersion::Invalid),
    ];
    for (h, v) in cases {
        assert_eq!(game_version_from_digest(&unhex(h)), v, "{}", h);
    }
}

#[test]
fn pointer_sizes() {
    assert_eq!(verPs(EngineVersion::GMS2_v2_2_0), PtrSize::Bit32);
    assert_eq!(verPs(EngineVersion::GMS2_2022_1), PtrSize::Bit32);
    assert_eq!(verPs(EngineVersion::GMS2_2022_2), PtrSize::Bit32);
    assert_eq!(verPs(EngineVersion::GM_LTS2022_0_3_99), PtrSize::Bit64);
    assert_eq!(verPs(EngineVersion::GM_LTS2022_0_3_104), PtrSize::Bit64);
}

#[test]
fn md5_digest_bytes() {
    let d = md5_bytes(b"abc");
    assert_eq!(d.len(), 16);
    assert_eq!(hex(&d, false), b"900150983cd24fb0d6963f7d28e17f72".to_vec());
    assert_eq!(md5_bytes(b""), unhex("d41d8cd98f00b204e9800998ecf8427e"));
}
