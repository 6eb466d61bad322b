//! Recognising the game. The GameMaker runner and the game's `data.win` are told apart
//! by the MD5 digests of their files; the engine version fixes the pointer size and the
//! memory layout, the game version names the release.

use vstd::prelude::*;
use crate::text::bytes_eq;
use vstd::string::StringSliceAdditionalSpecFns;

verus! {

/// The GameMaker runner that a release ships with.
#[allow(non_camel_case_types)]
#[derive(Clone, Copy, PartialEq, Eq, Structural, Debug)]
pub enum EngineVersion {
    /// GameMaker Studio 2 v2.2.0, 32-bit (SURVEY_PROGRAM).
    GMS2_v2_2_0,
    /// GameMaker Studio 2 Monthly 2022.1, 32-bit (Demo 1.09 and 1.10).
    GMS2_2022_1,
    /// GameMaker Studio 2 Monthly 2022.2, 32-bit (Demo 1.15).
    GMS2_2022_2,
    /// GameMaker LTS 2022.0.3.99, 64-bit (Demo 1.19 and Chapters 1-4 v1.02).
    GM_LTS2022_0_3_99,
    /// GameMaker LTS 2022.0.3.104, 64-bit (Chapters 1-5).
    GM_LTS2022_0_3_104,
}

/// The game release, told by its `data.win`.
#[allow(non_camel_case_types)]
#[derive(Clone, Copy, PartialEq, Eq, Structural, Debug)]
pub enum GameVersion {
    Invalid,
    SP,
    D109,
    D110,
    D115,
    D119,
    Ch4_v102,
    Ch5_v244,
    Ch5_v247,
}

/// The size of a pointer in the game process.
#[derive(Clone, Copy, PartialEq, Eq, Structural, Debug)]
pub enum PtrSize {
    Bit16,
    Bit32,
    Bit64,
}

/// The MD5 digest of a byte sequence, as the `md5` crate computes it.
pub uninterp spec fn md5_of(data: Seq<u8>) -> Seq<u8>;

/// Calls `md5::compute`. The contract names the digest `md5_of` of the input and says
/// that it has 16 bytes, as `md5::Digest` wraps a `[u8; 16]`.
#[verifier::external_body]
fn md5_digest(data: &[u8]) -> (r: Vec<u8>)
    ensures
        r@ == md5_of(data@),
        r@.len() == 16,
{
    md5::compute(data).0.to_vec()
}

/// The character of a hexadecimal digit, in lower or upper case.
pub open spec fn hex_digit(n: u8, upper: bool) -> u8 {
    if n < 10 {
        (48 + n) as u8
    } else if upper {
        (55 + n) as u8
    } else {
        (87 + n) as u8
    }
}

/// The hexadecimal spelling of a byte sequence, two digits per byte, high digit first.
pub open spec fn spec_hex(data: Seq<u8>, upper: bool) -> Seq<u8>
    decreases data.len(),
{
    if data.len() == 0 {
        Seq::<u8>::empty()
    } else {
        spec_hex(data.drop_last(), upper) + seq![
            hex_digit(data.last() / 16, upper),
            hex_digit(data.last() % 16, upper),
        ]
    }
}

/// The hexadecimal spelling of `data`, as ASCII bytes.
pub fn hex(data: &[u8], upper: bool) -> (r: Vec<u8>)
    ensures
        r@ == spec_hex(data@, upper),
        r@.len() == 2 * data@.len(),
{
    let mut r: Vec<u8> = Vec::new();
    let mut i: usize = 0;
    while i < data.len()
        invariant
            i <= data@.len(),
            r@ == spec_hex(data@.subrange(0, i as int), upper),
            r@.len() == 2 * i,
        decreases data@.len() - i,
    {
        let b = data[i];
        let hi = b / 16;
        let lo = b % 16;
        let dh: u8 = if hi < 10 { 48 + hi } else if upper { 55 + hi } else { 87 + hi };
        let dl: u8 = if lo < 10 { 48 + lo } else if upper { 55 + lo } else { 87 + lo };
        r.push(dh);
        r.push(dl);
        proof {
            let prefix = data@.subrange(0, i + 1);
            assert(prefix.drop_last() =~= data@.subrange(0, i as int));
            assert(prefix.last() == b);
        }
        i = i + 1;
    }
    assert(data@.subrange(0, data@.len() as int) =~= data@);
    r
}

/// The value paired with the first occurrence of `key` in `keys`.
pub open spec fn spec_lookup<V>(keys: Seq<Seq<u8>>, vals: Seq<V>, key: Seq<u8>) -> Option<V>
    decreases keys.len(),
{
    if keys.len() == 0 || vals.len() == 0 {
        None
    } else if keys[0] == key {
        Some(vals[0])
    } else {
        spec_lookup(keys.drop_first(), vals.drop_first(), key)
    }
}

proof fn lemma_lookup_first<V>(keys: Seq<Seq<u8>>, vals: Seq<V>, key: Seq<u8>, i: int)
    requires
        keys.len() == vals.len(),
        0 <= i < keys.len(),
        keys[i] == key,
        forall|j: int| 0 <= j < i ==> #[trigger] keys[j] != key,
    ensures
        spec_lookup(keys, vals, key) == Some(vals[i]),
    decreases i,
{
    if i > 0 {
        let k2 = keys.drop_first();
        assert forall|j: int| 0 <= j < i - 1 implies #[trigger] k2[j] != key by {
            assert(k2[j] == keys[j + 1]);
        }
        lemma_lookup_first(k2, vals.drop_first(), key, i - 1);
        assert(keys[0] != key);
    }
}

proof fn lemma_lookup_none<V>(keys: Seq<Seq<u8>>, vals: Seq<V>, key: Seq<u8>)
    requires
        keys.len() == vals.len(),
        forall|j: int| 0 <= j < keys.len() ==> #[trigger] keys[j] != key,
    ensures
        spec_lookup(keys, vals, key) is None,
    decreases keys.len(),
{
    if keys.len() > 0 {
        let k2 = keys.drop_first();
        assert forall|j: int| 0 <= j < k2.len() implies #[trigger] k2[j] != key by {
            assert(k2[j] == keys[j + 1]);
        }
        assert(keys[0] != key);
        lemma_lookup_none(k2, vals.drop_first(), key);
    }
}

/// The index of the first of `keys` that spells `h`.
fn find_key(keys: &[&str], h: &[u8]) -> (r: Option<usize>)
    ensures
        match r {
            Some(i) => i < keys@.len() && keys@[i as int].spec_bytes() == h@ && forall|j: int|
                0 <= j < i ==> #[trigger] keys@[j].spec_bytes() != h@,
            None => forall|j: int| 0 <= j < keys@.len() ==> #[trigger] keys@[j].spec_bytes() != h@,
        },
{
    let mut i: usize = 0;
    while i < keys.len()
        invariant
            i <= keys@.len(),
            forall|j: int| 0 <= j < i ==> #[trigger] keys@[j].spec_bytes() != h@,
        decreases keys@.len() - i,
    {
        if bytes_eq(keys[i].as_bytes(), h) {
            return Some(i);
        }
        i = i + 1;
    }
    None
}

/// The digests of the known runners, spelled in lower-case hexadecimal.
pub open spec fn engine_keys() -> Seq<Seq<u8>> {
    seq![
        "4d09627e1fa123d12ddf1a496c489f73".spec_bytes(),
        "dcfb86f7a80d9906bbbafa1b2c224848".spec_bytes(),
        "a9db8b7fb6333b5e267f574f46076b3f".spec_bytes(),
        "14af94e0435eb4cbe3bb5a03ab4218c4".spec_bytes(),
        "7bf3cccc2e54481ced3a149e1a083684".spec_bytes(),
    ]
}

/// The engine versions of the known runners, in the order of `engine_keys`.
pub open spec fn engine_values() -> Seq<EngineVersion> {
    seq![
        EngineVersion::GMS2_v2_2_0,
        EngineVersion::GMS2_2022_1,
        EngineVersion::GMS2_2022_2,
        EngineVersion::GM_LTS2022_0_3_99,
        EngineVersion::GM_LTS2022_0_3_104,
    ]
}

/// The digests of the known `data.win` files, spelled in lower-case hexadecimal.
pub open spec fn game_keys() -> Seq<Seq<u8>> {
    seq![
        "a88a2db3a68c714ca2b1ff57ac08a032".spec_bytes(),
        "047c11435b1c592ec731bff3b9c5b0cf".spec_bytes(),
        "22008370824a37baef8948127963c769".spec_bytes(),
        "e05433fe679bc91e3809c1138e3a8ea1".spec_bytes(),
        "616c5751ac9fc584af250f1b04474afd".spec_bytes(),
        "05689183497e58838e99b897f2e0e6ac".spec_bytes(),
        "267a8abe468d824222810201f00003be".spec_bytes(),
        "272a16964597ed6dc8d2393ed051d3ce".spec_bytes(),
        "5fbe01f2bc1c04f45d809ffd060ac386".spec_bytes(),
        "a37c77a4310d2d6a6c2af18294aaae7a".spec_bytes(),
        "cd77a63d7902990dbc704fe32b30700a".spec_bytes(),
        "758c8862f22f778fdeafe25fbcd1f4ec".spec_bytes(),
        "ed4568bab864166bfd6322ceeb3fb544".spec_bytes(),
        "6bd6d1381c194c0f456b184cb48d132d".spec_bytes(),
        "7ad299a8b33fa449e20edfe0fededdb2".spec_bytes(),
        "fd0857e6a3af3aa74e5e00f15aea5224".spec_bytes(),
        "b5ef0eec9554c491777d6c4e93e0df76".spec_bytes(),
        "40a8185886a8a1a2be996bc57de3d916".spec_bytes(),
        "ddedbbd10ff129b49c64dbefaa763c6a".spec_bytes(),
        "4a9c69b42e442b673395b3253f292f17".spec_bytes(),
        "42b66b41b6cea12fb54219e9d31e5dc8".spec_bytes(),
        "d0420c09a5debd6176ea24a1fe1ee3e3".spec_bytes(),
        "908643b7593b000f5b6c61bb484d086a".spec_bytes(),
        "80a63475ef69529b612f9dca75af4cc5".spec_bytes(),
        "3217f3bfe82c3e4aa8ee2e9e3a4f4e14".spec_bytes(),
        "21cdd09eeadbcc77535ab2bb3412259a".spec_bytes(),
    ]
}

/// The game versions of the known `data.win` files, in the order of `game_keys`.
pub open spec fn game_values() -> Seq<GameVersion> {
    seq![
        GameVersion::SP,
        GameVersion::SP,
        GameVersion::SP,
        GameVersion::SP,
        GameVersion::D109,
        GameVersion::D109,
        GameVersion::D109,
        GameVersion::D109,
        GameVersion::D110,
        GameVersion::D110,
        GameVersion::D110,
        GameVersion::D110,
        GameVersion::D115,
        GameVersion::D115,
        GameVersion::D119,
        GameVersion::D119,
        GameVersion::Ch4_v102,
        GameVersion::Ch4_v102,
        GameVersion::Ch5_v244,
        GameVersion::Ch5_v244,
        GameVersion::Ch5_v244,
        GameVersion::Ch5_v244,
        GameVersion::Ch5_v247,
        GameVersion::Ch5_v247,
        GameVersion::Ch5_v247,
        GameVersion::Ch5_v247,
    ]
}

/// The engine version whose runner has the digest spelled `hex`, if any.
pub open spec fn spec_engine_version(hex: Seq<u8>) -> Option<EngineVersion> {
    spec_lookup(engine_keys(), engine_values(), hex)
}

/// The game version whose `data.win` has the digest spelled `hex`; `Invalid` when
/// the digest is unknown.
pub open spec fn spec_game_version(hex: Seq<u8>) -> GameVersion {
    match spec_lookup(game_keys(), game_values(), hex) {
        Some(v) => v,
        None => GameVersion::Invalid,
    }
}

/// The engine version of a runner with the given MD5 digest; `None` for an
/// unrecognized runner.
pub fn engine_version_from_digest(digest: &[u8]) -> (r: Option<EngineVersion>)
    ensures
        r == spec_engine_version(spec_hex(digest@, false)),
{
    let h = hex(digest, false);
    let keys = [
        "4d09627e1fa123d12ddf1a496c489f73",
        "dcfb86f7a80d9906bbbafa1b2c224848",
        "a9db8b7fb6333b5e267f574f46076b3f",
        "14af94e0435eb4cbe3bb5a03ab4218c4",
        "7bf3cccc2e54481ced3a149e1a083684",
    ];
    let vals = [
        EngineVersion::GMS2_v2_2_0,
        EngineVersion::GMS2_2022_1,
        EngineVersion::GMS2_2022_2,
        EngineVersion::GM_LTS2022_0_3_99,
        EngineVersion::GM_LTS2022_0_3_104,
    ];
    assert(keys@.map_values(|k: &str| k.spec_bytes()) =~= engine_keys());
    assert(vals@ =~= engine_values());
    let ghost ks = keys@.map_values(|k: &str| k.spec_bytes());
    match find_key(&keys, h.as_slice()) {
        Some(i) => {
            proof {
                assert forall|j: int| 0 <= j < i implies #[trigger] ks[j] != h@ by {
                    assert(ks[j] == keys@[j].spec_bytes());
                }
                lemma_lookup_first(ks, vals@, h@, i as int);
            }
            Some(vals[i])
        },
        None => {
            proof {
                assert forall|j: int| 0 <= j < ks.len() implies #[trigger] ks[j] != h@ by {
                    assert(ks[j] == keys@[j].spec_bytes());
                }
                lemma_lookup_none(ks, vals@, h@);
            }
            None
        },
    }
}

/// The game version of a `data.win` with the given MD5 digest.
pub fn game_version_from_digest(digest: &[u8]) -> (r: GameVersion)
    ensures
        r == spec_game_version(spec_hex(digest@, false)),
{
    let h = hex(digest, false);
    let keys = [
        "a88a2db3a68c714ca2b1ff57ac08a032",
        "047c11435b1c592ec731bff3b9c5b0cf",
        "22008370824a37baef8948127963c769",
        "e05433fe679bc91e3809c1138e3a8ea1",
        "616c5751ac9fc584af250f1b04474afd",
        "05689183497e58838e99b897f2e0e6ac",
        "267a8abe468d824222810201f00003be",
        "272a16964597ed6dc8d2393ed051d3ce",
        "5fbe01f2bc1c04f45d809ffd060ac386",
        "a37c77a4310d2d6a6c2af18294aaae7a",
        "cd77a63d7902990dbc704fe32b30700a",
        "758c8862f22f778fdeafe25fbcd1f4ec",
        "ed4568bab864166bfd6322ceeb3fb544",
        "6bd6d1381c194c0f456b184cb48d132d",
        "7ad299a8b33fa449e20edfe0fededdb2",
        "fd0857e6a3af3aa74e5e00f15aea5224",
        "b5ef0eec9554c491777d6c4e93e0df76",
        "40a8185886a8a1a2be996bc57de3d916",
        "ddedbbd10ff129b49c64dbefaa763c6a",
        "4a9c69b42e442b673395b3253f292f17",
        "42b66b41b6cea12fb54219e9d31e5dc8",
        "d0420c09a5debd6176ea24a1fe1ee3e3",
        "908643b7593b000f5b6c61bb484d086a",
        "80a63475ef69529b612f9dca75af4cc5",
        "3217f3bfe82c3e4aa8ee2e9e3a4f4e14",
        "21cdd09eeadbcc77535ab2bb3412259a",
    ];
    let vals = [
        GameVersion::SP,
        GameVersion::SP,
        GameVersion::SP,
        GameVersion::SP,
        GameVersion::D109,
        GameVersion::D109,
        GameVersion::D109,
        GameVersion::D109,
        GameVersion::D110,
        GameVersion::D110,
        GameVersion::D110,
        GameVersion::D110,
        GameVersion::D115,
        GameVersion::D115,
        GameVersion::D119,
        GameVersion::D119,
        GameVersion::Ch4_v102,
        GameVersion::Ch4_v102,
        GameVersion::Ch5_v244,
        GameVersion::Ch5_v244,
        GameVersion::Ch5_v244,
        GameVersion::Ch5_v244,
        GameVersion::Ch5_v247,
        GameVersion::Ch5_v247,
        GameVersion::Ch5_v247,
        GameVersion::Ch5_v247,
    ];
    assert(keys@.map_values(|k: &str| k.spec_bytes()) =~= game_keys());
    assert(vals@ =~= game_values());
    let ghost ks = keys@.map_values(|k: &str| k.spec_bytes());
    match find_key(&keys, h.as_slice()) {
        Some(i) => {
            proof {
                assert forall|j: int| 0 <= j < i implies #[trigger] ks[j] != h@ by {
                    assert(ks[j] == keys@[j].spec_bytes());
                }
                lemma_lookup_first(ks, vals@, h@, i as int);
            }
            vals[i]
        },
        None => {
            proof {
                assert forall|j: int| 0 <= j < ks.len() implies #[trigger] ks[j] != h@ by {
                    assert(ks[j] == keys@[j].spec_bytes());
                }
                lemma_lookup_none(ks, vals@, h@);
            }
            GameVersion::Invalid
        },
    }
}

/// The engine version of the runner whose file holds `runner`; `None` when the runner
/// is not recognized.
pub fn runner_engine_version(runner: &[u8]) -> (r: Option<EngineVersion>)
    ensures
        r == spec_engine_version(spec_hex(md5_of(runner@), false)),
{
    let digest = md5_digest(runner);
    engine_version_from_digest(digest.as_slice())
}

/// The game version of the `data.win` whose file holds `data`.
pub fn data_game_version(data: &[u8]) -> (r: GameVersion)
    ensures
        r == spec_game_version(spec_hex(md5_of(data@), false)),
{
    let digest = md5_digest(data);
    game_version_from_digest(digest.as_slice())
}

/// The MD5 digest of `data`, sixteen bytes.
pub fn md5_bytes(data: &[u8]) -> (r: Vec<u8>)
    ensures
        r@ == md5_of(data@),
        r@.len() == 16,
{
    md5_digest(data)
}

/// The upper-case hexadecimal spelling of the MD5 digest of `data`, as shown to the user.
pub fn md5_hex_upper(data: &[u8]) -> (r: Vec<u8>)
    ensures
        r@ == spec_hex(md5_of(data@), true),
        r@.len() == 32,
{
    let digest = md5_digest(data);
    hex(digest.as_slice(), true)
}

/// The pointer size of an engine version: the three GameMaker Studio 2 runners are
/// 32-bit, the LTS runners 64-bit.
pub open spec fn spec_ver_ps(version: EngineVersion) -> PtrSize {
    match version {
        EngineVersion::GMS2_v2_2_0 | EngineVersion::GMS2_2022_1 | EngineVersion::GMS2_2022_2 => PtrSize::Bit32,
        _ => PtrSize::Bit64,
    }
}

/// The pointer size of an engine version, as `spec_ver_ps` says.
#[allow(non_snake_case)]
#[verifier::when_used_as_spec(spec_ver_ps)]
pub fn verPs(version: EngineVersion) -> (r: PtrSize)
    ensures
        r == spec_ver_ps(version),
{
    match version {
        EngineVersion::GMS2_v2_2_0 | EngineVersion::GMS2_2022_1 | EngineVersion::GMS2_2022_2 => PtrSize::Bit32,
        _ => PtrSize::Bit64,
    }
}

/// Two strings with different characters have different UTF-8 encodings.
proof fn lemma_distinct_bytes(a: &str, b: &str)
    requires
        a@ != b@,
    ensures
        a.spec_bytes() != b.spec_bytes(),
{
    broadcast use vstd::utf8::encode_utf8_decode_utf8;

    assert(vstd::utf8::decode_utf8(vstd::utf8::encode_utf8(a@)) == a@);
    assert(vstd::utf8::decode_utf8(vstd::utf8::encode_utf8(b@)) == b@);
}

proof fn game_digest_0()
    ensures
        spec_game_version("a88a2db3a68c714ca2b1ff57ac08a032".spec_bytes()) == GameVersion::SP,
{
    reveal_strlit("a88a2db3a68c714ca2b1ff57ac08a032");
    assert(game_keys()[0] == "a88a2db3a68c714ca2b1ff57ac08a032".spec_bytes() && game_values()[0] == GameVersion::SP);
    lemma_lookup_first(game_keys(), game_values(), "a88a2db3a68c714ca2b1ff57ac08a032".spec_bytes(), 0);
}

proof fn game_digest_1()
    ensures
        spec_game_version("047c11435b1c592ec731bff3b9c5b0cf".spec_bytes()) == GameVersion::SP,
{
    reveal_strlit("047c11435b1c592ec731bff3b9c5b0cf");
    reveal_strlit("a88a2db3a68c714ca2b1ff57ac08a032");
    assert("a88a2db3a68c714ca2b1ff57ac08a032"@[0] != "047c11435b1c592ec731bff3b9c5b0cf"@[0]);
    lemma_distinct_bytes("a88a2db3a68c714ca2b1ff57ac08a032", "047c11435b1c592ec731bff3b9c5b0cf");
    assert forall|j: int| 0 <= j < 1 implies #[trigger] game_keys()[j] != "047c11435b1c592ec731bff3b9c5b0cf".spec_bytes() by {
        if j == 0 {
            assert(game_keys()[0] == "a88a2db3a68c714ca2b1ff57ac08a032".spec_bytes());
        }
    }
    assert(game_keys()[1] == "047c11435b1c592ec731bff3b9c5b0cf".spec_bytes() && game_values()[1] == GameVersion::SP);
    lemma_lookup_first(game_keys(), game_values(), "047c11435b1c592ec731bff3b9c5b0cf".spec_bytes(), 1);
}

proof fn game_digest_2()
    ensures
        spec_game_version("22008370824a37baef8948127963c769".spec_bytes()) == GameVersion::SP,
{
    reveal_strlit("22008370824a37baef8948127963c769");
    reveal_strlit("a88a2db3a68c714ca2b1ff57ac08a032");
    assert("a88a2db3a68c714ca2b1ff57ac08a032"@[0] != "22008370824a37baef8948127963c769"@[0]);
    lemma_distinct_bytes("a88a2db3a68c714ca2b1ff57ac08a032", "22008370824a37baef8948127963c769");
    reveal_strlit("047c11435b1c592ec731bff3b9c5b0cf");
    assert("047c11435b1c592ec731bff3b9c5b0cf"@[0] != "22008370824a37baef8948127963c769"@[0]);
    lemma_distinct_bytes("047c11435b1c592ec731bff3b9c5b0cf", "22008370824a37baef8948127963c769");
    assert forall|j: int| 0 <= j < 2 implies #[trigger] game_keys()[j] != "22008370824a37baef8948127963c769".spec_bytes() by {
        if j == 0 {
            assert(game_keys()[0] == "a88a2db3a68c714ca2b1ff57ac08a032".spec_bytes());
        } else if j == 1 {
            assert(game_keys()[1] == "047c11435b1c592ec731bff3b9c5b0cf".spec_bytes());
        }
    }
    assert(game_keys()[2] == "22008370824a37baef8948127963c769".spec_bytes() && game_values()[2] == GameVersion::SP);
    lemma_lookup_first(game_keys(), game_values(), "22008370824a37baef8948127963c769".spec_bytes(), 2);
}

proof fn game_digest_3()
    ensures
        spec_game_version("e05433fe679bc91e3809c1138e3a8ea1".spec_bytes()) == GameVersion::SP,
{
    reveal_strlit("e05433fe679bc91e3809c1138e3a8ea1");
    reveal_strlit("a88a2db3a68c714ca2b1ff57ac08a032");
    assert("a88a2db3a68c714ca2b1ff57ac08a032"@[0] != "e05433fe679bc91e3809c1138e3a8ea1"@[0]);
    lemma_distinct_bytes("a88a2db3a68c714ca2b1ff57ac08a032", "e05433fe679bc91e3809c1138e3a8ea1");
    reveal_strlit("047c11435b1c592ec731bff3b9c5b0cf");
    assert("047c11435b1c592ec731bff3b9c5b0cf"@[0] != "e05433fe679bc91e3809c1138e3a8ea1"@[0]);
    lemma_distinct_bytes("047c11435b1c592ec731bff3b9c5b0cf", "e05433fe679bc91e3809c1138e3a8ea1");
    reveal_strlit("22008370824a37baef8948127963c769");
    assert("22008370824a37baef8948127963c769"@[0] != "e05433fe679bc91e3809c1138e3a8ea1"@[0]);
    lemma_distinct_bytes("22008370824a37baef8948127963c769", "e05433fe679bc91e3809c1138e3a8ea1");
    assert forall|j: int| 0 <= j < 3 implies #[trigger] game_keys()[j] != "e05433fe679bc91e3809c1138e3a8ea1".spec_bytes() by {
        if j == 0 {
            assert(game_keys()[0] == "a88a2db3a68c714ca2b1ff57ac08a032".spec_bytes());
        } else if j == 1 {
            assert(game_keys()[1] == "047c11435b1c592ec731bff3b9c5b0cf".spec_bytes());
        } else if j == 2 {
            assert(game_keys()[2] == "22008370824a37baef8948127963c769".spec_bytes());
        }
    }
    assert(game_keys()[3] == "e05433fe679bc91e3809c1138e3a8ea1".spec_bytes() && game_values()[3] == GameVersion::SP);
    lemma_lookup_first(game_keys(), game_values(), "e05433fe679bc91e3809c1138e3a8ea1".spec_bytes(), 3);
}

proof fn game_digest_4()
    ensures
        spec_game_version("616c5751ac9fc584af250f1b04474afd".spec_bytes()) == GameVersion::D109,
{
    reveal_strlit("616c5751ac9fc584af250f1b04474afd");
    reveal_strlit("a88a2db3a68c714ca2b1ff57ac08a032");
    assert("a88a2db3a68c714ca2b1ff57ac08a032"@[0] != "616c5751ac9fc584af250f1b04474afd"@[0]);
    lemma_distinct_bytes("a88a2db3a68c714ca2b1ff57ac08a032", "616c5751ac9fc584af250f1b04474afd");
    reveal_strlit("047c11435b1c592ec731bff3b9c5b0cf");
    assert("047c11435b1c592ec731bff3b9c5b0cf"@[0] != "616c5751ac9fc584af250f1b04474afd"@[0]);
    lemma_distinct_bytes("047c11435b1c592ec731bff3b9c5b0cf", "616c5751ac9fc584af250f1b04474afd");
    reveal_strlit("22008370824a37baef8948127963c769");
    assert("22008370824a37baef8948127963c769"@[0] != "616c5751ac9fc584af250f1b04474afd"@[0]);
    lemma_distinct_bytes("22008370824a37baef8948127963c769", "616c5751ac9fc584af250f1b04474afd");
    reveal_strlit("e05433fe679bc91e3809c1138e3a8ea1");
    assert("e05433fe679bc91e3809c1138e3a8ea1"@[0] != "616c5751ac9fc584af250f1b04474afd"@[0]);
    lemma_distinct_bytes("e05433fe679bc91e3809c1138e3a8ea1", "616c5751ac9fc584af250f1b04474afd");
    assert forall|j: int| 0 <= j < 4 implies #[trigger] game_keys()[j] != "616c5751ac9fc584af250f1b04474afd".spec_bytes() by {
        if j == 0 {
            assert(game_keys()[0] == "a88a2db3a68c714ca2b1ff57ac08a032".spec_bytes());
        } else if j == 1 {
            assert(game_keys()[1] == "047c11435b1c592ec731bff3b9c5b0cf".spec_bytes());
        } else if j == 2 {
            assert(game_keys()[2] == "22008370824a37baef8948127963c769".spec_bytes());
        } else if j == 3 {
            assert(game_keys()[3] == "e05433fe679bc91e3809c1138e3a8ea1".spec_bytes());
        }
    }
    assert(game_keys()[4] == "616c5751ac9fc584af250f1b04474afd".spec_bytes() && game_values()[4] == GameVersion::D109);
    lemma_lookup_first(game_keys(), game_values(), "616c5751ac9fc584af250f1b04474afd".spec_bytes(), 4);
}

proof fn game_digest_5()
    ensures
        spec_game_version("05689183497e58838e99b897f2e0e6ac".spec_bytes()) == GameVersion::D109,
{
    reveal_strlit("05689183497e58838e99b897f2e0e6ac");
    reveal_strlit("a88a2db3a68c714ca2b1ff57ac08a032");
    assert("a88a2db3a68c714ca2b1ff57ac08a032"@[0] != "05689183497e58838e99b897f2e0e6ac"@[0]);
    lemma_distinct_bytes("a88a2db3a68c714ca2b1ff57ac08a032", "05689183497e58838e99b897f2e0e6ac");
    reveal_strlit("047c11435b1c592ec731bff3b9c5b0cf");
    assert("047c11435b1c592ec731bff3b9c5b0cf"@[1] != "05689183497e58838e99b897f2e0e6ac"@[1]);
    lemma_distinct_bytes("047c11435b1c592ec731bff3b9c5b0cf", "05689183497e58838e99b897f2e0e6ac");
    reveal_strlit("22008370824a37baef8948127963c769");
    assert("22008370824a37baef8948127963c769"@[0] != "05689183497e58838e99b897f2e0e6ac"@[0]);
    lemma_distinct_bytes("22008370824a37baef8948127963c769", "05689183497e58838e99b897f2e0e6ac");
    reveal_strlit("e05433fe679bc91e3809c1138e3a8ea1");
    assert("e05433fe679bc91e3809c1138e3a8ea1"@[0] != "05689183497e58838e99b897f2e0e6ac"@[0]);
    lemma_distinct_bytes("e05433fe679bc91e3809c1138e3a8ea1", "05689183497e58838e99b897f2e0e6ac");
    reveal_strlit("616c5751ac9fc584af250f1b04474afd");
    assert("616c5751ac9fc584af250f1b04474afd"@[0] != "05689183497e58838e99b897f2e0e6ac"@[0]);
    lemma_distinct_bytes("616c5751ac9fc584af250f1b04474afd", "05689183497e58838e99b897f2e0e6ac");
    assert forall|j: int| 0 <= j < 5 implies #[trigger] game_keys()[j] != "05689183497e58838e99b897f2e0e6ac".spec_bytes() by {
        if j == 0 {
            assert(game_keys()[0] == "a88a2db3a68c714ca2b1ff57ac08a032".spec_bytes());
        } else if j == 1 {
            assert(game_keys()[1] == "047c11435b1c592ec731bff3b9c5b0cf".spec_bytes());
        } else if j == 2 {
            assert(game_keys()[2] == "22008370824a37baef8948127963c769".spec_bytes());
        } else if j == 3 {
            assert(game_keys()[3] == "e05433fe679bc91e3809c1138e3a8ea1".spec_bytes());
        } else if j == 4 {
            assert(game_keys()[4] == "616c5751ac9fc584af250f1b04474afd".spec_bytes());
        }
    }
    assert(game_keys()[5] == "05689183497e58838e99b897f2e0e6ac".spec_bytes() && game_values()[5] == GameVersion::D109);
    lemma_lookup_first(game_keys(), game_values(), "05689183497e58838e99b897f2e0e6ac".spec_bytes(), 5);
}

proof fn game_digest_6()
    ensures
        spec_game_version("267a8abe468d824222810201f00003be".spec_bytes()) == GameVersion::D109,
{
    reveal_strlit("267a8abe468d824222810201f00003be");
    reveal_strlit("a88a2db3a68c714ca2b1ff57ac08a032");
    assert("a88a2db3a68c714ca2b1ff57ac08a032"@[0] != "267a8abe468d824222810201f00003be"@[0]);
    lemma_distinct_bytes("a88a2db3a68c714ca2b1ff57ac08a032", "267a8abe468d824222810201f00003be");
    reveal_strlit("047c11435b1c592ec731bff3b9c5b0cf");
    assert("047c11435b1c592ec731bff3b9c5b0cf"@[0] != "267a8abe468d824222810201f00003be"@[0]);
    lemma_distinct_bytes("047c11435b1c592ec731bff3b9c5b0cf", "267a8abe468d824222810201f00003be");
    reveal_strlit("22008370824a37baef8948127963c769");
    assert("22008370824a37baef8948127963c769"@[1] != "267a8abe468d824222810201f00003be"@[1]);
    lemma_distinct_bytes("22008370824a37baef8948127963c769", "267a8abe468d824222810201f00003be");
    reveal_strlit("e05433fe679bc91e3809c1138e3a8ea1");
    assert("e05433fe679bc91e3809c1138e3a8ea1"@[0] != "267a8abe468d824222810201f00003be"@[0]);
    lemma_distinct_bytes("e05433fe679bc91e3809c1138e3a8ea1", "267a8abe468d824222810201f00003be");
    reveal_strlit("616c5751ac9fc584af250f1b04474afd");
    assert("616c5751ac9fc584af250f1b04474afd"@[0] != "267a8abe468d824222810201f00003be"@[0]);
    lemma_distinct_bytes("616c5751ac9fc584af250f1b04474afd", "267a8abe468d824222810201f00003be");
    reveal_strlit("05689183497e58838e99b897f2e0e6ac");
    assert("05689183497e58838e99b897f2e0e6ac"@[0] != "267a8abe468d824222810201f00003be"@[0]);
    lemma_distinct_bytes("05689183497e58838e99b897f2e0e6ac", "267a8abe468d824222810201f00003be");
    assert forall|j: int| 0 <= j < 6 implies #[trigger] game_keys()[j] != "267a8abe468d824222810201f00003be".spec_bytes() by {
        if j == 0 {
            assert(game_keys()[0] == "a88a2db3a68c714ca2b1ff57ac08a032".spec_bytes());
        } else if j == 1 {
            assert(game_keys()[1] == "047c11435b1c592ec731bff3b9c5b0cf".spec_bytes());
        } else if j == 2 {
            assert(game_keys()[2] == "22008370824a37baef8948127963c769".spec_bytes());
        } else if j == 3 {
            assert(game_keys()[3] == "e05433fe679bc91e3809c1138e3a8ea1".spec_bytes());
        } else if j == 4 {
            assert(game_keys()[4] == "616c5751ac9fc584af250f1b04474afd".spec_bytes());
        } else if j == 5 {
            assert(game_keys()[5] == "05689183497e58838e99b897f2e0e6ac".spec_bytes());
        }
    }
    assert(game_keys()[6] == "267a8abe468d824222810201f00003be".spec_bytes() && game_values()[6] == GameVersion::D109);
    lemma_lookup_first(game_keys(), game_values(), "267a8abe468d824222810201f00003be".spec_bytes(), 6);
}

proof fn game_digest_7()
    ensures
        spec_game_version("272a16964597ed6dc8d2393ed051d3ce".spec_bytes()) == GameVersion::D109,
{
    reveal_strlit("272a16964597ed6dc8d2393ed051d3ce");
    reveal_strlit("a88a2db3a68c714ca2b1ff57ac08a032");
    assert("a88a2db3a68c714ca2b1ff57ac08a032"@[0] != "272a16964597ed6dc8d2393ed051d3ce"@[0]);
    lemma_distinct_bytes("a88a2db3a68c714ca2b1ff57ac08a032", "272a16964597ed6dc8d2393ed051d3ce");
    reveal_strlit("047c11435b1c592ec731bff3b9c5b0cf");
    assert("047c11435b1c592ec731bff3b9c5b0cf"@[0] != "272a16964597ed6dc8d2393ed051d3ce"@[0]);
    lemma_distinct_bytes("047c11435b1c592ec731bff3b9c5b0cf", "272a16964597ed6dc8d2393ed051d3ce");
    reveal_strlit("22008370824a37baef8948127963c769");
    assert("22008370824a37baef8948127963c769"@[1] != "272a16964597ed6dc8d2393ed051d3ce"@[1]);
    lemma_distinct_bytes("22008370824a37baef8948127963c769", "272a16964597ed6dc8d2393ed051d3ce");
    reveal_strlit("e05433fe679bc91e3809c1138e3a8ea1");
    assert("e05433fe679bc91e3809c1138e3a8ea1"@[0] != "272a16964597ed6dc8d2393ed051d3ce"@[0]);
    lemma_distinct_bytes("e05433fe679bc91e3809c1138e3a8ea1", "272a16964597ed6dc8d2393ed051d3ce");
    reveal_strlit("616c5751ac9fc584af250f1b04474afd");
    assert("616c5751ac9fc584af250f1b04474afd"@[0] != "272a16964597ed6dc8d2393ed051d3ce"@[0]);
    lemma_distinct_bytes("616c5751ac9fc584af250f1b04474afd", "272a16964597ed6dc8d2393ed051d3ce");
    reveal_strlit("05689183497e58838e99b897f2e0e6ac");
    assert("05689183497e58838e99b897f2e0e6ac"@[0] != "272a16964597ed6dc8d2393ed051d3ce"@[0]);
    lemma_distinct_bytes("05689183497e58838e99b897f2e0e6ac", "272a16964597ed6dc8d2393ed051d3ce");
    reveal_strlit("267a8abe468d824222810201f00003be");
    assert("267a8abe468d824222810201f00003be"@[1] != "272a16964597ed6dc8d2393ed051d3ce"@[1]);
    lemma_distinct_bytes("267a8abe468d824222810201f00003be", "272a16964597ed6dc8d2393ed051d3ce");
    assert forall|j: int| 0 <= j < 7 implies #[trigger] game_keys()[j] != "272a16964597ed6dc8d2393ed051d3ce".spec_bytes() by {
        if j == 0 {
            assert(game_keys()[0] == "a88a2db3a68c714ca2b1ff57ac08a032".spec_bytes());
        } else if j == 1 {
            assert(game_keys()[1] == "047c11435b1c592ec731bff3b9c5b0cf".spec_bytes());
        } else if j == 2 {
            assert(game_keys()[2] == "22008370824a37baef8948127963c769".spec_bytes());
        } else if j == 3 {
            assert(game_keys()[3] == "e05433fe679bc91e3809c1138e3a8ea1".spec_bytes());
        } else if j == 4 {
            assert(game_keys()[4] == "616c5751ac9fc584af250f1b04474afd".spec_bytes());
        } else if j == 5 {
            assert(game_keys()[5] == "05689183497e58838e99b897f2e0e6ac".spec_bytes());
        } else if j == 6 {
            assert(game_keys()[6] == "267a8abe468d824222810201f00003be".spec_bytes());
        }
    }
    assert(game_keys()[7] == "272a16964597ed6dc8d2393ed051d3ce".spec_bytes() && game_values()[7] == GameVersion::D109);
    lemma_lookup_first(game_keys(), game_values(), "272a16964597ed6dc8d2393ed051d3ce".spec_bytes(), 7);
}

proof fn game_digest_8()
    ensures
        spec_game_version("5fbe01f2bc1c04f45d809ffd060ac386".spec_bytes()) == GameVersion::D110,
{
    reveal_strlit("5fbe01f2bc1c04f45d809ffd060ac386");
    reveal_strlit("a88a2db3a68c714ca2b1ff57ac08a032");
    assert("a88a2db3a68c714ca2b1ff57ac08a032"@[0] != "5fbe01f2bc1c04f45d809ffd060ac386"@[0]);
    lemma_distinct_bytes("a88a2db3a68c714ca2b1ff57ac08a032", "5fbe01f2bc1c04f45d809ffd060ac386");
    reveal_strlit("047c11435b1c592ec731bff3b9c5b0cf");
    assert("047c11435b1c592ec731bff3b9c5b0cf"@[0] != "5fbe01f2bc1c04f45d809ffd060ac386"@[0]);
    lemma_distinct_bytes("047c11435b1c592ec731bff3b9c5b0cf", "5fbe01f2bc1c04f45d809ffd060ac386");
    reveal_strlit("22008370824a37baef8948127963c769");
    assert("22008370824a37baef8948127963c769"@[0] != "5fbe01f2bc1c04f45d809ffd060ac386"@[0]);
    lemma_distinct_bytes("22008370824a37baef8948127963c769", "5fbe01f2bc1c04f45d809ffd060ac386");
    reveal_strlit("e05433fe679bc91e3809c1138e3a8ea1");
    assert("e05433fe679bc91e3809c1138e3a8ea1"@[0] != "5fbe01f2bc1c04f45d809ffd060ac386"@[0]);
    lemma_distinct_bytes("e05433fe679bc91e3809c1138e3a8ea1", "5fbe01f2bc1c04f45d809ffd060ac386");
    reveal_strlit("616c5751ac9fc584af250f1b04474afd");
    assert("616c5751ac9fc584af250f1b04474afd"@[0] != "5fbe01f2bc1c04f45d809ffd060ac386"@[0]);
    lemma_distinct_bytes("616c5751ac9fc584af250f1b04474afd", "5fbe01f2bc1c04f45d809ffd060ac386");
    reveal_strlit("05689183497e58838e99b897f2e0e6ac");
    assert("05689183497e58838e99b897f2e0e6ac"@[0] != "5fbe01f2bc1c04f45d809ffd060ac386"@[0]);
    lemma_distinct_bytes("05689183497e58838e99b897f2e0e6ac", "5fbe01f2bc1c04f45d809ffd060ac386");
    reveal_strlit("267a8abe468d824222810201f00003be");
    assert("267a8abe468d824222810201f00003be"@[0] != "5fbe01f2bc1c04f45d809ffd060ac386"@[0]);
    lemma_distinct_bytes("267a8abe468d824222810201f00003be", "5fbe01f2bc1c04f45d809ffd060ac386");
    reveal_strlit("272a16964597ed6dc8d2393ed051d3ce");
    assert("272a16964597ed6dc8d2393ed051d3ce"@[0] != "5fbe01f2bc1c04f45d809ffd060ac386"@[0]);
    lemma_distinct_bytes("272a16964597ed6dc8d2393ed051d3ce", "5fbe01f2bc1c04f45d809ffd060ac386");
    assert forall|j: int| 0 <= j < 8 implies #[trigger] game_keys()[j] != "5fbe01f2bc1c04f45d809ffd060ac386".spec_bytes() by {
        if j == 0 {
            assert(game_keys()[0] == "a88a2db3a68c714ca2b1ff57ac08a032".spec_bytes());
        } else if j == 1 {
            assert(game_keys()[1] == "047c11435b1c592ec731bff3b9c5b0cf".spec_bytes());
        } else if j == 2 {
            assert(game_keys()[2] == "22008370824a37baef8948127963c769".spec_bytes());
        } else if j == 3 {
            assert(game_keys()[3] == "e05433fe679bc91e3809c1138e3a8ea1".spec_bytes());
        } else if j == 4 {
            assert(game_keys()[4] == "616c5751ac9fc584af250f1b04474afd".spec_bytes());
        } else if j == 5 {
            assert(game_keys()[5] == "05689183497e58838e99b897f2e0e6ac".spec_bytes());
        } else if j == 6 {
            assert(game_keys()[6] == "267a8abe468d824222810201f00003be".spec_bytes());
        } else if j == 7 {
            assert(game_keys()[7] == "272a16964597ed6dc8d2393ed051d3ce".spec_bytes());
        }
    }
    assert(game_keys()[8] == "5fbe01f2bc1c04f45d809ffd060ac386".spec_bytes() && game_values()[8] == GameVersion::D110);
    lemma_lookup_first(game_keys(), game_values(), "5fbe01f2bc1c04f45d809ffd060ac386".spec_bytes(), 8);
}

proof fn game_digest_9()
    ensures
        spec_game_version("a37c77a4310d2d6a6c2af18294aaae7a".spec_bytes()) == GameVersion::D110,
{
    reveal_strlit("a37c77a4310d2d6a6c2af18294aaae7a");
    reveal_strlit("a88a2db3a68c714ca2b1ff57ac08a032");
    assert("a88a2db3a68c714ca2b1ff57ac08a032"@[1] != "a37c77a4310d2d6a6c2af18294aaae7a"@[1]);
    lemma_distinct_bytes("a88a2db3a68c714ca2b1ff57ac08a032", "a37c77a4310d2d6a6c2af18294aaae7a");
    reveal_strlit("047c11435b1c592ec731bff3b9c5b0cf");
    assert("047c11435b1c592ec731bff3b9c5b0cf"@[0] != "a37c77a4310d2d6a6c2af18294aaae7a"@[0]);
    lemma_distinct_bytes("047c11435b1c592ec731bff3b9c5b0cf", "a37c77a4310d2d6a6c2af18294aaae7a");
    reveal_strlit("22008370824a37baef8948127963c769");
    assert("22008370824a37baef8948127963c769"@[0] != "a37c77a4310d2d6a6c2af18294aaae7a"@[0]);
    lemma_distinct_bytes("22008370824a37baef8948127963c769", "a37c77a4310d2d6a6c2af18294aaae7a");
    reveal_strlit("e05433fe679bc91e3809c1138e3a8ea1");
    assert("e05433fe679bc91e3809c1138e3a8ea1"@[0] != "a37c77a4310d2d6a6c2af18294aaae7a"@[0]);
    lemma_distinct_bytes("e05433fe679bc91e3809c1138e3a8ea1", "a37c77a4310d2d6a6c2af18294aaae7a");
    reveal_strlit("616c5751ac9fc584af250f1b04474afd");
    assert("616c5751ac9fc584af250f1b04474afd"@[0] != "a37c77a4310d2d6a6c2af18294aaae7a"@[0]);
    lemma_distinct_bytes("616c5751ac9fc584af250f1b04474afd", "a37c77a4310d2d6a6c2af18294aaae7a");
    reveal_strlit("05689183497e58838e99b897f2e0e6ac");
    assert("05689183497e58838e99b897f2e0e6ac"@[0] != "a37c77a4310d2d6a6c2af18294aaae7a"@[0]);
    lemma_distinct_bytes("05689183497e58838e99b897f2e0e6ac", "a37c77a4310d2d6a6c2af18294aaae7a");
    reveal_strlit("267a8abe468d824222810201f00003be");
    assert("267a8abe468d824222810201f00003be"@[0] != "a37c77a4310d2d6a6c2af18294aaae7a"@[0]);
    lemma_distinct_bytes("267a8abe468d824222810201f00003be", "a37c77a4310d2d6a6c2af18294aaae7a");
    reveal_strlit("272a16964597ed6dc8d2393ed051d3ce");
    assert("272a16964597ed6dc8d2393ed051d3ce"@[0] != "a37c77a4310d2d6a6c2af18294aaae7a"@[0]);
    lemma_distinct_bytes("272a16964597ed6dc8d2393ed051d3ce", "a37c77a4310d2d6a6c2af18294aaae7a");
    reveal_strlit("5fbe01f2bc1c04f45d809ffd060ac386");
    assert("5fbe01f2bc1c04f45d809ffd060ac386"@[0] != "a37c77a4310d2d6a6c2af18294aaae7a"@[0]);
    lemma_distinct_bytes("5fbe01f2bc1c04f45d809ffd060ac386", "a37c77a4310d2d6a6c2af18294aaae7a");
    assert forall|j: int| 0 <= j < 9 implies #[trigger] game_keys()[j] != "a37c77a4310d2d6a6c2af18294aaae7a".spec_bytes() by {
        if j == 0 {
            assert(game_keys()[0] == "a88a2db3a68c714ca2b1ff57ac08a032".spec_bytes());
        } else if j == 1 {
            assert(game_keys()[1] == "047c11435b1c592ec731bff3b9c5b0cf".spec_bytes());
        } else if j == 2 {
            assert(game_keys()[2] == "22008370824a37baef8948127963c769".spec_bytes());
        } else if j == 3 {
            assert(game_keys()[3] == "e05433fe679bc91e3809c1138e3a8ea1".spec_bytes());
        } else if j == 4 {
            assert(game_keys()[4] == "616c5751ac9fc584af250f1b04474afd".spec_bytes());
        } else if j == 5 {
            assert(game_keys()[5] == "05689183497e58838e99b897f2e0e6ac".spec_bytes());
        } else if j == 6 {
            assert(game_keys()[6] == "267a8abe468d824222810201f00003be".spec_bytes());
        } else if j == 7 {
            assert(game_keys()[7] == "272a16964597ed6dc8d2393ed051d3ce".spec_bytes());
        } else if j == 8 {
            assert(game_keys()[8] == "5fbe01f2bc1c04f45d809ffd060ac386".spec_bytes());
        }
    }
    assert(game_keys()[9] == "a37c77a4310d2d6a6c2af18294aaae7a".spec_bytes() && game_values()[9] == GameVersion::D110);
    lemma_lookup_first(game_keys(), game_values(), "a37c77a4310d2d6a6c2af18294aaae7a".spec_bytes(), 9);
}

proof fn game_digest_10()
    ensures
        spec_game_version("cd77a63d7902990dbc704fe32b30700a".spec_bytes()) == GameVersion::D110,
{
    reveal_strlit("cd77a63d7902990dbc704fe32b30700a");
    reveal_strlit("a88a2db3a68c714ca2b1ff57ac08a032");
    assert("a88a2db3a68c714ca2b1ff57ac08a032"@[0] != "cd77a63d7902990dbc704fe32b30700a"@[0]);
    lemma_distinct_bytes("a88a2db3a68c714ca2b1ff57ac08a032", "cd77a63d7902990dbc704fe32b30700a");
    reveal_strlit("047c11435b1c592ec731bff3b9c5b0cf");
    assert("047c11435b1c592ec731bff3b9c5b0cf"@[0] != "cd77a63d7902990dbc704fe32b30700a"@[0]);
    lemma_distinct_bytes("047c11435b1c592ec731bff3b9c5b0cf", "cd77a63d7902990dbc704fe32b30700a");
    reveal_strlit("22008370824a37baef8948127963c769");
    assert("22008370824a37baef8948127963c769"@[0] != "cd77a63d7902990dbc704fe32b30700a"@[0]);
    lemma_distinct_bytes("22008370824a37baef8948127963c769", "cd77a63d7902990dbc704fe32b30700a");
    reveal_strlit("e05433fe679bc91e3809c1138e3a8ea1");
    assert("e05433fe679bc91e3809c1138e3a8ea1"@[0] != "cd77a63d7902990dbc704fe32b30700a"@[0]);
    lemma_distinct_bytes("e05433fe679bc91e3809c1138e3a8ea1", "cd77a63d7902990dbc704fe32b30700a");
    reveal_strlit("616c5751ac9fc584af250f1b04474afd");
    assert("616c5751ac9fc584af250f1b04474afd"@[0] != "cd77a63d7902990dbc704fe32b30700a"@[0]);
    lemma_distinct_bytes("616c5751ac9fc584af250f1b04474afd", "cd77a63d7902990dbc704fe32b30700a");
    reveal_strlit("05689183497e58838e99b897f2e0e6ac");
    assert("05689183497e58838e99b897f2e0e6ac"@[0] != "cd77a63d7902990dbc704fe32b30700a"@[0]);
    lemma_distinct_bytes("05689183497e58838e99b897f2e0e6ac", "cd77a63d7902990dbc704fe32b30700a");
    reveal_strlit("267a8abe468d824222810201f00003be");
    assert("267a8abe468d824222810201f00003be"@[0] != "cd77a63d7902990dbc704fe32b30700a"@[0]);
    lemma_distinct_bytes("267a8abe468d824222810201f00003be", "cd77a63d7902990dbc704fe32b30700a");
    reveal_strlit("272a16964597ed6dc8d2393ed051d3ce");
    assert("272a16964597ed6dc8d2393ed051d3ce"@[0] != "cd77a63d7902990dbc704fe32b30700a"@[0]);
    lemma_distinct_bytes("272a16964597ed6dc8d2393ed051d3ce", "cd77a63d7902990dbc704fe32b30700a");
    reveal_strlit("5fbe01f2bc1c04f45d809ffd060ac386");
    assert("5fbe01f2bc1c04f45d809ffd060ac386"@[0] != "cd77a63d7902990dbc704fe32b30700a"@[0]);
    lemma_distinct_bytes("5fbe01f2bc1c04f45d809ffd060ac386", "cd77a63d7902990dbc704fe32b30700a");
    reveal_strlit("a37c77a4310d2d6a6c2af18294aaae7a");
    assert("a37c77a4310d2d6a6c2af18294aaae7a"@[0] != "cd77a63d7902990dbc704fe32b30700a"@[0]);
    lemma_distinct_bytes("a37c77a4310d2d6a6c2af18294aaae7a", "cd77a63d7902990dbc704fe32b30700a");
    assert forall|j: int| 0 <= j < 10 implies #[trigger] game_keys()[j] != "cd77a63d7902990dbc704fe32b30700a".spec_bytes() by {
        if j == 0 {
            assert(game_keys()[0] == "a88a2db3a68c714ca2b1ff57ac08a032".spec_bytes());
        } else if j == 1 {
            assert(game_keys()[1] == "047c11435b1c592ec731bff3b9c5b0cf".spec_bytes());
        } else if j == 2 {
            assert(game_keys()[2] == "22008370824a37baef8948127963c769".spec_bytes());
        } else if j == 3 {
            assert(game_keys()[3] == "e05433fe679bc91e3809c1138e3a8ea1".spec_bytes());
        } else if j == 4 {
            assert(game_keys()[4] == "616c5751ac9fc584af250f1b04474afd".spec_bytes());
        } else if j == 5 {
            assert(game_keys()[5] == "05689183497e58838e99b897f2e0e6ac".spec_bytes());
        } else if j == 6 {
            assert(game_keys()[6] == "267a8abe468d824222810201f00003be".spec_bytes());
        } else if j == 7 {
            assert(game_keys()[7] == "272a16964597ed6dc8d2393ed051d3ce".spec_bytes());
        } else if j == 8 {
            assert(game_keys()[8] == "5fbe01f2bc1c04f45d809ffd060ac386".spec_bytes());
        } else if j == 9 {
            assert(game_keys()[9] == "a37c77a4310d2d6a6c2af18294aaae7a".spec_bytes());
        }
    }
    assert(game_keys()[10] == "cd77a63d7902990dbc704fe32b30700a".spec_bytes() && game_values()[10] == GameVersion::D110);
    lemma_lookup_first(game_keys(), game_values(), "cd77a63d7902990dbc704fe32b30700a".spec_bytes(), 10);
}

proof fn game_digest_11()
    ensures
        spec_game_version("758c8862f22f778fdeafe25fbcd1f4ec".spec_bytes()) == GameVersion::D110,
{
    reveal_strlit("758c8862f22f778fdeafe25fbcd1f4ec");
    reveal_strlit("a88a2db3a68c714ca2b1ff57ac08a032");
    assert("a88a2db3a68c714ca2b1ff57ac08a032"@[0] != "758c8862f22f778fdeafe25fbcd1f4ec"@[0]);
    lemma_distinct_bytes("a88a2db3a68c714ca2b1ff57ac08a032", "758c8862f22f778fdeafe25fbcd1f4ec");
    reveal_strlit("047c11435b1c592ec731bff3b9c5b0cf");
    assert("047c11435b1c592ec731bff3b9c5b0cf"@[0] != "758c8862f22f778fdeafe25fbcd1f4ec"@[0]);
    lemma_distinct_bytes("047c11435b1c592ec731bff3b9c5b0cf", "758c8862f22f778fdeafe25fbcd1f4ec");
    reveal_strlit("22008370824a37baef8948127963c769");
    assert("22008370824a37baef8948127963c769"@[0] != "758c8862f22f778fdeafe25fbcd1f4ec"@[0]);
    lemma_distinct_bytes("22008370824a37baef8948127963c769", "758c8862f22f778fdeafe25fbcd1f4ec");
    reveal_strlit("e05433fe679bc91e3809c1138e3a8ea1");
    assert("e05433fe679bc91e3809c1138e3a8ea1"@[0] != "758c8862f22f778fdeafe25fbcd1f4ec"@[0]);
    lemma_distinct_bytes("e05433fe679bc91e3809c1138e3a8ea1", "758c8862f22f778fdeafe25fbcd1f4ec");
    reveal_strlit("616c5751ac9fc584af250f1b04474afd");
    assert("616c5751ac9fc584af250f1b04474afd"@[0] != "758c8862f22f778fdeafe25fbcd1f4ec"@[0]);
    lemma_distinct_bytes("616c5751ac9fc584af250f1b04474afd", "758c8862f22f778fdeafe25fbcd1f4ec");
    reveal_strlit("05689183497e58838e99b897f2e0e6ac");
    assert("05689183497e58838e99b897f2e0e6ac"@[0] != "758c8862f22f778fdeafe25fbcd1f4ec"@[0]);
    lemma_distinct_bytes("05689183497e58838e99b897f2e0e6ac", "758c8862f22f778fdeafe25fbcd1f4ec");
    reveal_strlit("267a8abe468d824222810201f00003be");
    assert("267a8abe468d824222810201f00003be"@[0] != "758c8862f22f778fdeafe25fbcd1f4ec"@[0]);
    lemma_distinct_bytes("267a8abe468d824222810201f00003be", "758c8862f22f778fdeafe25fbcd1f4ec");
    reveal_strlit("272a16964597ed6dc8d2393ed051d3ce");
    assert("272a16964597ed6dc8d2393ed051d3ce"@[0] != "758c8862f22f778fdeafe25fbcd1f4ec"@[0]);
    lemma_distinct_bytes("272a16964597ed6dc8d2393ed051d3ce", "758c8862f22f778fdeafe25fbcd1f4ec");
    reveal_strlit("5fbe01f2bc1c04f45d809ffd060ac386");
    assert("5fbe01f2bc1c04f45d809ffd060ac386"@[0] != "758c8862f22f778fdeafe25fbcd1f4ec"@[0]);
    lemma_distinct_bytes("5fbe01f2bc1c04f45d809ffd060ac386", "758c8862f22f778fdeafe25fbcd1f4ec");
    reveal_strlit("a37c77a4310d2d6a6c2af18294aaae7a");
    assert("a37c77a4310d2d6a6c2af18294aaae7a"@[0] != "758c8862f22f778fdeafe25fbcd1f4ec"@[0]);
    lemma_distinct_bytes("a37c77a4310d2d6a6c2af18294aaae7a", "758c8862f22f778fdeafe25fbcd1f4ec");
    reveal_strlit("cd77a63d7902990dbc704fe32b30700a");
    assert("cd77a63d7902990dbc704fe32b30700a"@[0] != "758c8862f22f778fdeafe25fbcd1f4ec"@[0]);
    lemma_distinct_bytes("cd77a63d7902990dbc704fe32b30700a", "758c8862f22f778fdeafe25fbcd1f4ec");
    assert forall|j: int| 0 <= j < 11 implies #[trigger] game_keys()[j] != "758c8862f22f778fdeafe25fbcd1f4ec".spec_bytes() by {
        if j == 0 {
            assert(game_keys()[0] == "a88a2db3a68c714ca2b1ff57ac08a032".spec_bytes());
        } else if j == 1 {
            assert(game_keys()[1] == "047c11435b1c592ec731bff3b9c5b0cf".spec_bytes());
        } else if j == 2 {
            assert(game_keys()[2] == "22008370824a37baef8948127963c769".spec_bytes());
        } else if j == 3 {
            assert(game_keys()[3] == "e05433fe679bc91e3809c1138e3a8ea1".spec_bytes());
        } else if j == 4 {
            assert(game_keys()[4] == "616c5751ac9fc584af250f1b04474afd".spec_bytes());
        } else if j == 5 {
            assert(game_keys()[5] == "05689183497e58838e99b897f2e0e6ac".spec_bytes());
        } else if j == 6 {
            assert(game_keys()[6] == "267a8abe468d824222810201f00003be".spec_bytes());
        } else if j == 7 {
            assert(game_keys()[7] == "272a16964597ed6dc8d2393ed051d3ce".spec_bytes());
        } else if j == 8 {
            assert(game_keys()[8] == "5fbe01f2bc1c04f45d809ffd060ac386".spec_bytes());
        } else if j == 9 {
            assert(game_keys()[9] == "a37c77a4310d2d6a6c2af18294aaae7a".spec_bytes());
        } else if j == 10 {
            assert(game_keys()[10] == "cd77a63d7902990dbc704fe32b30700a".spec_bytes());
        }
    }
    assert(game_keys()[11] == "758c8862f22f778fdeafe25fbcd1f4ec".spec_bytes() && game_values()[11] == GameVersion::D110);
    lemma_lookup_first(game_keys(), game_values(), "758c8862f22f778fdeafe25fbcd1f4ec".spec_bytes(), 11);
}

proof fn game_digest_12()
    ensures
        spec_game_version("ed4568bab864166bfd6322ceeb3fb544".spec_bytes()) == GameVersion::D115,
{
    reveal_strlit("ed4568bab864166bfd6322ceeb3fb544");
    reveal_strlit("a88a2db3a68c714ca2b1ff57ac08a032");
    assert("a88a2db3a68c714ca2b1ff57ac08a032"@[0] != "ed4568bab864166bfd6322ceeb3fb544"@[0]);
    lemma_distinct_bytes("a88a2db3a68c714ca2b1ff57ac08a032", "ed4568bab864166bfd6322ceeb3fb544");
    reveal_strlit("047c11435b1c592ec731bff3b9c5b0cf");
    assert("047c11435b1c592ec731bff3b9c5b0cf"@[0] != "ed4568bab864166bfd6322ceeb3fb544"@[0]);
    lemma_distinct_bytes("047c11435b1c592ec731bff3b9c5b0cf", "ed4568bab864166bfd6322ceeb3fb544");
    reveal_strlit("22008370824a37baef8948127963c769");
    assert("22008370824a37baef8948127963c769"@[0] != "ed4568bab864166bfd6322ceeb3fb544"@[0]);
    lemma_distinct_bytes("22008370824a37baef8948127963c769", "ed4568bab864166bfd6322ceeb3fb544");
    reveal_strlit("e05433fe679bc91e3809c1138e3a8ea1");
    assert("e05433fe679bc91e3809c1138e3a8ea1"@[1] != "ed4568bab864166bfd6322ceeb3fb544"@[1]);
    lemma_distinct_bytes("e05433fe679bc91e3809c1138e3a8ea1", "ed4568bab864166bfd6322ceeb3fb544");
    reveal_strlit("616c5751ac9fc584af250f1b04474afd");
    assert("616c5751ac9fc584af250f1b04474afd"@[0] != "ed4568bab864166bfd6322ceeb3fb544"@[0]);
    lemma_distinct_bytes("616c5751ac9fc584af250f1b04474afd", "ed4568bab864166bfd6322ceeb3fb544");
    reveal_strlit("05689183497e58838e99b897f2e0e6ac");
    assert("05689183497e58838e99b897f2e0e6ac"@[0] != "ed4568bab864166bfd6322ceeb3fb544"@[0]);
    lemma_distinct_bytes("05689183497e58838e99b897f2e0e6ac", "ed4568bab864166bfd6322ceeb3fb544");
    reveal_strlit("267a8abe468d824222810201f00003be");
    assert("267a8abe468d824222810201f00003be"@[0] != "ed4568bab864166bfd6322ceeb3fb544"@[0]);
    lemma_distinct_bytes("267a8abe468d824222810201f00003be", "ed4568bab864166bfd6322ceeb3fb544");
    reveal_strlit("272a16964597ed6dc8d2393ed051d3ce");
    assert("272a16964597ed6dc8d2393ed051d3ce"@[0] != "ed4568bab864166bfd6322ceeb3fb544"@[0]);
    lemma_distinct_bytes("272a16964597ed6dc8d2393ed051d3ce", "ed4568bab864166bfd6322ceeb3fb544");
    reveal_strlit("5fbe01f2bc1c04f45d809ffd060ac386");
    assert("5fbe01f2bc1c04f45d809ffd060ac386"@[0] != "ed4568bab864166bfd6322ceeb3fb544"@[0]);
    lemma_distinct_bytes("5fbe01f2bc1c04f45d809ffd060ac386", "ed4568bab864166bfd6322ceeb3fb544");
    reveal_strlit("a37c77a4310d2d6a6c2af18294aaae7a");
    assert("a37c77a4310d2d6a6c2af18294aaae7a"@[0] != "ed4568bab864166bfd6322ceeb3fb544"@[0]);
    lemma_distinct_bytes("a37c77a4310d2d6a6c2af18294aaae7a", "ed4568bab864166bfd6322ceeb3fb544");
    reveal_strlit("cd77a63d7902990dbc704fe32b30700a");
    assert("cd77a63d7902990dbc704fe32b30700a"@[0] != "ed4568bab864166bfd6322ceeb3fb544"@[0]);
    lemma_distinct_bytes("cd77a63d7902990dbc704fe32b30700a", "ed4568bab864166bfd6322ceeb3fb544");
    reveal_strlit("758c8862f22f778fdeafe25fbcd1f4ec");
    assert("758c8862f22f778fdeafe25fbcd1f4ec"@[0] != "ed4568bab864166bfd6322ceeb3fb544"@[0]);
    lemma_distinct_bytes("758c8862f22f778fdeafe25fbcd1f4ec", "ed4568bab864166bfd6322ceeb3fb544");
    assert forall|j: int| 0 <= j < 12 implies #[trigger] game_keys()[j] != "ed4568bab864166bfd6322ceeb3fb544".spec_bytes() by {
        if j == 0 {
            assert(game_keys()[0] == "a88a2db3a68c714ca2b1ff57ac08a032".spec_bytes());
        } else if j == 1 {
            assert(game_keys()[1] == "047c11435b1c592ec731bff3b9c5b0cf".spec_bytes());
        } else if j == 2 {
            assert(game_keys()[2] == "22008370824a37baef8948127963c769".spec_bytes());
        } else if j == 3 {
            assert(game_keys()[3] == "e05433fe679bc91e3809c1138e3a8ea1".spec_bytes());
        } else if j == 4 {
            assert(game_keys()[4] == "616c5751ac9fc584af250f1b04474afd".spec_bytes());
        } else if j == 5 {
            assert(game_keys()[5] == "05689183497e58838e99b897f2e0e6ac".spec_bytes());
        } else if j == 6 {
            assert(game_keys()[6] == "267a8abe468d824222810201f00003be".spec_bytes());
        } else if j == 7 {
            assert(game_keys()[7] == "272a16964597ed6dc8d2393ed051d3ce".spec_bytes());
        } else if j == 8 {
            assert(game_keys()[8] == "5fbe01f2bc1c04f45d809ffd060ac386".spec_bytes());
        } else if j == 9 {
            assert(game_keys()[9] == "a37c77a4310d2d6a6c2af18294aaae7a".spec_bytes());
        } else if j == 10 {
            assert(game_keys()[10] == "cd77a63d7902990dbc704fe32b30700a".spec_bytes());
        } else if j == 11 {
            assert(game_keys()[11] == "758c8862f22f778fdeafe25fbcd1f4ec".spec_bytes());
        }
    }
    assert(game_keys()[12] == "ed4568bab864166bfd6322ceeb3fb544".spec_bytes() && game_values()[12] == GameVersion::D115);
    lemma_lookup_first(game_keys(), game_values(), "ed4568bab864166bfd6322ceeb3fb544".spec_bytes(), 12);
}

proof fn game_digest_13()
    ensures
        spec_game_version("6bd6d1381c194c0f456b184cb48d132d".spec_bytes()) == GameVersion::D115,
{
    reveal_strlit("6bd6d1381c194c0f456b184cb48d132d");
    reveal_strlit("a88a2db3a68c714ca2b1ff57ac08a032");
    assert("a88a2db3a68c714ca2b1ff57ac08a032"@[0] != "6bd6d1381c194c0f456b184cb48d132d"@[0]);
    lemma_distinct_bytes("a88a2db3a68c714ca2b1ff57ac08a032", "6bd6d1381c194c0f456b184cb48d132d");
    reveal_strlit("047c11435b1c592ec731bff3b9c5b0cf");
    assert("047c11435b1c592ec731bff3b9c5b0cf"@[0] != "6bd6d1381c194c0f456b184cb48d132d"@[0]);
    lemma_distinct_bytes("047c11435b1c592ec731bff3b9c5b0cf", "6bd6d1381c194c0f456b184cb48d132d");
    reveal_strlit("22008370824a37baef8948127963c769");
    assert("22008370824a37baef8948127963c769"@[0] != "6bd6d1381c194c0f456b184cb48d132d"@[0]);
    lemma_distinct_bytes("22008370824a37baef8948127963c769", "6bd6d1381c194c0f456b184cb48d132d");
    reveal_strlit("e05433fe679bc91e3809c1138e3a8ea1");
    assert("e05433fe679bc91e3809c1138e3a8ea1"@[0] != "6bd6d1381c194c0f456b184cb48d132d"@[0]);
    lemma_distinct_bytes("e05433fe679bc91e3809c1138e3a8ea1", "6bd6d1381c194c0f456b184cb48d132d");
    reveal_strlit("616c5751ac9fc584af250f1b04474afd");
    assert("616c5751ac9fc584af250f1b04474afd"@[1] != "6bd6d1381c194c0f456b184cb48d132d"@[1]);
    lemma_distinct_bytes("616c5751ac9fc584af250f1b04474afd", "6bd6d1381c194c0f456b184cb48d132d");
    reveal_strlit("05689183497e58838e99b897f2e0e6ac");
    assert("05689183497e58838e99b897f2e0e6ac"@[0] != "6bd6d1381c194c0f456b184cb48d132d"@[0]);
    lemma_distinct_bytes("05689183497e58838e99b897f2e0e6ac", "6bd6d1381c194c0f456b184cb48d132d");
    reveal_strlit("267a8abe468d824222810201f00003be");
    assert("267a8abe468d824222810201f00003be"@[0] != "6bd6d1381c194c0f456b184cb48d132d"@[0]);
    lemma_distinct_bytes("267a8abe468d824222810201f00003be", "6bd6d1381c194c0f456b184cb48d132d");
    reveal_strlit("272a16964597ed6dc8d2393ed051d3ce");
    assert("272a16964597ed6dc8d2393ed051d3ce"@[0] != "6bd6d1381c194c0f456b184cb48d132d"@[0]);
    lemma_distinct_bytes("272a16964597ed6dc8d2393ed051d3ce", "6bd6d1381c194c0f456b184cb48d132d");
    reveal_strlit("5fbe01f2bc1c04f45d809ffd060ac386");
    assert("5fbe01f2bc1c04f45d809ffd060ac386"@[0] != "6bd6d1381c194c0f456b184cb48d132d"@[0]);
    lemma_distinct_bytes("5fbe01f2bc1c04f45d809ffd060ac386", "6bd6d1381c194c0f456b184cb48d132d");
    reveal_strlit("a37c77a4310d2d6a6c2af18294aaae7a");
    assert("a37c77a4310d2d6a6c2af18294aaae7a"@[0] != "6bd6d1381c194c0f456b184cb48d132d"@[0]);
    lemma_distinct_bytes("a37c77a4310d2d6a6c2af18294aaae7a", "6bd6d1381c194c0f456b184cb48d132d");
    reveal_strlit("cd77a63d7902990dbc704fe32b30700a");
    assert("cd77a63d7902990dbc704fe32b30700a"@[0] != "6bd6d1381c194c0f456b184cb48d132d"@[0]);
    lemma_distinct_bytes("cd77a63d7902990dbc704fe32b30700a", "6bd6d1381c194c0f456b184cb48d132d");
    reveal_strlit("758c8862f22f778fdeafe25fbcd1f4ec");
    assert("758c8862f22f778fdeafe25fbcd1f4ec"@[0] != "6bd6d1381c194c0f456b184cb48d132d"@[0]);
    lemma_distinct_bytes("758c8862f22f778fdeafe25fbcd1f4ec", "6bd6d1381c194c0f456b184cb48d132d");
    reveal_strlit("ed4568bab864166bfd6322ceeb3fb544");
    assert("ed4568bab864166bfd6322ceeb3fb544"@[0] != "6bd6d1381c194c0f456b184cb48d132d"@[0]);
    lemma_distinct_bytes("ed4568bab864166bfd6322ceeb3fb544", "6bd6d1381c194c0f456b184cb48d132d");
    assert forall|j: int| 0 <= j < 13 implies #[trigger] game_keys()[j] != "6bd6d1381c194c0f456b184cb48d132d".spec_bytes() by {
        if j == 0 {
            assert(game_keys()[0] == "a88a2db3a68c714ca2b1ff57ac08a032".spec_bytes());
        } else if j == 1 {
            assert(game_keys()[1] == "047c11435b1c592ec731bff3b9c5b0cf".spec_bytes());
        } else if j == 2 {
            assert(game_keys()[2] == "22008370824a37baef8948127963c769".spec_bytes());
        } else if j == 3 {
            assert(game_keys()[3] == "e05433fe679bc91e3809c1138e3a8ea1".spec_bytes());
        } else if j == 4 {
            assert(game_keys()[4] == "616c5751ac9fc584af250f1b04474afd".spec_bytes());
        } else if j == 5 {
            assert(game_keys()[5] == "05689183497e58838e99b897f2e0e6ac".spec_bytes());
        } else if j == 6 {
            assert(game_keys()[6] == "267a8abe468d824222810201f00003be".spec_bytes());
        } else if j == 7 {
            assert(game_keys()[7] == "272a16964597ed6dc8d2393ed051d3ce".spec_bytes());
        } else if j == 8 {
            assert(game_keys()[8] == "5fbe01f2bc1c04f45d809ffd060ac386".spec_bytes());
        } else if j == 9 {
            assert(game_keys()[9] == "a37c77a4310d2d6a6c2af18294aaae7a".spec_bytes());
        } else if j == 10 {
            assert(game_keys()[10] == "cd77a63d7902990dbc704fe32b30700a".spec_bytes());
        } else if j == 11 {
            assert(game_keys()[11] == "758c8862f22f778fdeafe25fbcd1f4ec".spec_bytes());
        } else if j == 12 {
            assert(game_keys()[12] == "ed4568bab864166bfd6322ceeb3fb544".spec_bytes());
        }
    }
    assert(game_keys()[13] == "6bd6d1381c194c0f456b184cb48d132d".spec_bytes() && game_values()[13] == GameVersion::D115);
    lemma_lookup_first(game_keys(), game_values(), "6bd6d1381c194c0f456b184cb48d132d".spec_bytes(), 13);
}

proof fn game_digest_14()
    ensures
        spec_game_version("7ad299a8b33fa449e20edfe0fededdb2".spec_bytes()) == GameVersion::D119,
{
    reveal_strlit("7ad299a8b33fa449e20edfe0fededdb2");
    reveal_strlit("a88a2db3a68c714ca2b1ff57ac08a032");
    assert("a88a2db3a68c714ca2b1ff57ac08a032"@[0] != "7ad299a8b33fa449e20edfe0fededdb2"@[0]);
    lemma_distinct_bytes("a88a2db3a68c714ca2b1ff57ac08a032", "7ad299a8b33fa449e20edfe0fededdb2");
    reveal_strlit("047c11435b1c592ec731bff3b9c5b0cf");
    assert("047c11435b1c592ec731bff3b9c5b0cf"@[0] != "7ad299a8b33fa449e20edfe0fededdb2"@[0]);
    lemma_distinct_bytes("047c11435b1c592ec731bff3b9c5b0cf", "7ad299a8b33fa449e20edfe0fededdb2");
    reveal_strlit("22008370824a37baef8948127963c769");
    assert("22008370824a37baef8948127963c769"@[0] != "7ad299a8b33fa449e20edfe0fededdb2"@[0]);
    lemma_distinct_bytes("22008370824a37baef8948127963c769", "7ad299a8b33fa449e20edfe0fededdb2");
    reveal_strlit("e05433fe679bc91e3809c1138e3a8ea1");
    assert("e05433fe679bc91e3809c1138e3a8ea1"@[0] != "7ad299a8b33fa449e20edfe0fededdb2"@[0]);
    lemma_distinct_bytes("e05433fe679bc91e3809c1138e3a8ea1", "7ad299a8b33fa449e20edfe0fededdb2");
    reveal_strlit("616c5751ac9fc584af250f1b04474afd");
    assert("616c5751ac9fc584af250f1b04474afd"@[0] != "7ad299a8b33fa449e20edfe0fededdb2"@[0]);
    lemma_distinct_bytes("616c5751ac9fc584af250f1b04474afd", "7ad299a8b33fa449e20edfe0fededdb2");
    reveal_strlit("05689183497e58838e99b897f2e0e6ac");
    assert("05689183497e58838e99b897f2e0e6ac"@[0] != "7ad299a8b33fa449e20edfe0fededdb2"@[0]);
    lemma_distinct_bytes("05689183497e58838e99b897f2e0e6ac", "7ad299a8b33fa449e20edfe0fededdb2");
    reveal_strlit("267a8abe468d824222810201f00003be");
    assert("267a8abe468d824222810201f00003be"@[0] != "7ad299a8b33fa449e20edfe0fededdb2"@[0]);
    lemma_distinct_bytes("267a8abe468d824222810201f00003be", "7ad299a8b33fa449e20edfe0fededdb2");
    reveal_strlit("272a16964597ed6dc8d2393ed051d3ce");
    assert("272a16964597ed6dc8d2393ed051d3ce"@[0] != "7ad299a8b33fa449e20edfe0fededdb2"@[0]);
    lemma_distinct_bytes("272a16964597ed6dc8d2393ed051d3ce", "7ad299a8b33fa449e20edfe0fededdb2");
    reveal_strlit("5fbe01f2bc1c04f45d809ffd060ac386");
    assert("5fbe01f2bc1c04f45d809ffd060ac386"@[0] != "7ad299a8b33fa449e20edfe0fededdb2"@[0]);
    lemma_distinct_bytes("5fbe01f2bc1c04f45d809ffd060ac386", "7ad299a8b33fa449e20edfe0fededdb2");
    reveal_strlit("a37c77a4310d2d6a6c2af18294aaae7a");
    assert("a37c77a4310d2d6a6c2af18294aaae7a"@[0] != "7ad299a8b33fa449e20edfe0fededdb2"@[0]);
    lemma_distinct_bytes("a37c77a4310d2d6a6c2af18294aaae7a", "7ad299a8b33fa449e20edfe0fededdb2");
    reveal_strlit("cd77a63d7902990dbc704fe32b30700a");
    assert("cd77a63d7902990dbc704fe32b30700a"@[0] != "7ad299a8b33fa449e20edfe0fededdb2"@[0]);
    lemma_distinct_bytes("cd77a63d7902990dbc704fe32b30700a", "7ad299a8b33fa449e20edfe0fededdb2");
    reveal_strlit("758c8862f22f778fdeafe25fbcd1f4ec");
    assert("758c8862f22f778fdeafe25fbcd1f4ec"@[1] != "7ad299a8b33fa449e20edfe0fededdb2"@[1]);
    lemma_distinct_bytes("758c8862f22f778fdeafe25fbcd1f4ec", "7ad299a8b33fa449e20edfe0fededdb2");
    reveal_strlit("ed4568bab864166bfd6322ceeb3fb544");
    assert("ed4568bab864166bfd6322ceeb3fb544"@[0] != "7ad299a8b33fa449e20edfe0fededdb2"@[0]);
    lemma_distinct_bytes("ed4568bab864166bfd6322ceeb3fb544", "7ad299a8b33fa449e20edfe0fededdb2");
    reveal_strlit("6bd6d1381c194c0f456b184cb48d132d");
    assert("6bd6d1381c194c0f456b184cb48d132d"@[0] != "7ad299a8b33fa449e20edfe0fededdb2"@[0]);
    lemma_distinct_bytes("6bd6d1381c194c0f456b184cb48d132d", "7ad299a8b33fa449e20edfe0fededdb2");
    assert forall|j: int| 0 <= j < 14 implies #[trigger] game_keys()[j] != "7ad299a8b33fa449e20edfe0fededdb2".spec_bytes() by {
        if j == 0 {
            assert(game_keys()[0] == "a88a2db3a68c714ca2b1ff57ac08a032".spec_bytes());
        } else if j == 1 {
            assert(game_keys()[1] == "047c11435b1c592ec731bff3b9c5b0cf".spec_bytes());
        } else if j == 2 {
            assert(game_keys()[2] == "22008370824a37baef8948127963c769".spec_bytes());
        } else if j == 3 {
            assert(game_keys()[3] == "e05433fe679bc91e3809c1138e3a8ea1".spec_bytes());
        } else if j == 4 {
            assert(game_keys()[4] == "616c5751ac9fc584af250f1b04474afd".spec_bytes());
        } else if j == 5 {
            assert(game_keys()[5] == "05689183497e58838e99b897f2e0e6ac".spec_bytes());
        } else if j == 6 {
            assert(game_keys()[6] == "267a8abe468d824222810201f00003be".spec_bytes());
        } else if j == 7 {
            assert(game_keys()[7] == "272a16964597ed6dc8d2393ed051d3ce".spec_bytes());
        } else if j == 8 {
            assert(game_keys()[8] == "5fbe01f2bc1c04f45d809ffd060ac386".spec_bytes());
        } else if j == 9 {
            assert(game_keys()[9] == "a37c77a4310d2d6a6c2af18294aaae7a".spec_bytes());
        } else if j == 10 {
            assert(game_keys()[10] == "cd77a63d7902990dbc704fe32b30700a".spec_bytes());
        } else if j == 11 {
            assert(game_keys()[11] == "758c8862f22f778fdeafe25fbcd1f4ec".spec_bytes());
        } else if j == 12 {
            assert(game_keys()[12] == "ed4568bab864166bfd6322ceeb3fb544".spec_bytes());
        } else if j == 13 {
            assert(game_keys()[13] == "6bd6d1381c194c0f456b184cb48d132d".spec_bytes());
        }
    }
    assert(game_keys()[14] == "7ad299a8b33fa449e20edfe0fededdb2".spec_bytes() && game_values()[14] == GameVersion::D119);
    lemma_lookup_first(game_keys(), game_values(), "7ad299a8b33fa449e20edfe0fededdb2".spec_bytes(), 14);
}

proof fn game_digest_15()
    ensures
        spec_game_version("fd0857e6a3af3aa74e5e00f15aea5224".spec_bytes()) == GameVersion::D119,
{
    reveal_strlit("fd0857e6a3af3aa74e5e00f15aea5224");
    reveal_strlit("a88a2db3a68c714ca2b1ff57ac08a032");
    assert("a88a2db3a68c714ca2b1ff57ac08a032"@[0] != "fd0857e6a3af3aa74e5e00f15aea5224"@[0]);
    lemma_distinct_bytes("a88a2db3a68c714ca2b1ff57ac08a032", "fd0857e6a3af3aa74e5e00f15aea5224");
    reveal_strlit("047c11435b1c592ec731bff3b9c5b0cf");
    assert("047c11435b1c592ec731bff3b9c5b0cf"@[0] != "fd0857e6a3af3aa74e5e00f15aea5224"@[0]);
    lemma_distinct_bytes("047c11435b1c592ec731bff3b9c5b0cf", "fd0857e6a3af3aa74e5e00f15aea5224");
    reveal_strlit("22008370824a37baef8948127963c769");
    assert("22008370824a37baef8948127963c769"@[0] != "fd0857e6a3af3aa74e5e00f15aea5224"@[0]);
    lemma_distinct_bytes("22008370824a37baef8948127963c769", "fd0857e6a3af3aa74e5e00f15aea5224");
    reveal_strlit("e05433fe679bc91e3809c1138e3a8ea1");
    assert("e05433fe679bc91e3809c1138e3a8ea1"@[0] != "fd0857e6a3af3aa74e5e00f15aea5224"@[0]);
    lemma_distinct_bytes("e05433fe679bc91e3809c1138e3a8ea1", "fd0857e6a3af3aa74e5e00f15aea5224");
    reveal_strlit("616c5751ac9fc584af250f1b04474afd");
    assert("616c5751ac9fc584af250f1b04474afd"@[0] != "fd0857e6a3af3aa74e5e00f15aea5224"@[0]);
    lemma_distinct_bytes("616c5751ac9fc584af250f1b04474afd", "fd0857e6a3af3aa74e5e00f15aea5224");
    reveal_strlit("05689183497e58838e99b897f2e0e6ac");
    assert("05689183497e58838e99b897f2e0e6ac"@[0] != "fd0857e6a3af3aa74e5e00f15aea5224"@[0]);
    lemma_distinct_bytes("05689183497e58838e99b897f2e0e6ac", "fd0857e6a3af3aa74e5e00f15aea5224");
    reveal_strlit("267a8abe468d824222810201f00003be");
    assert("267a8abe468d824222810201f00003be"@[0] != "fd0857e6a3af3aa74e5e00f15aea5224"@[0]);
    lemma_distinct_bytes("267a8abe468d824222810201f00003be", "fd0857e6a3af3aa74e5e00f15aea5224");
    reveal_strlit("272a16964597ed6dc8d2393ed051d3ce");
    assert("272a16964597ed6dc8d2393ed051d3ce"@[0] != "fd0857e6a3af3aa74e5e00f15aea5224"@[0]);
    lemma_distinct_bytes("272a16964597ed6dc8d2393ed051d3ce", "fd0857e6a3af3aa74e5e00f15aea5224");
    reveal_strlit("5fbe01f2bc1c04f45d809ffd060ac386");
    assert("5fbe01f2bc1c04f45d809ffd060ac386"@[0] != "fd0857e6a3af3aa74e5e00f15aea5224"@[0]);
    lemma_distinct_bytes("5fbe01f2bc1c04f45d809ffd060ac386", "fd0857e6a3af3aa74e5e00f15aea5224");
    reveal_strlit("a37c77a4310d2d6a6c2af18294aaae7a");
    assert("a37c77a4310d2d6a6c2af18294aaae7a"@[0] != "fd0857e6a3af3aa74e5e00f15aea5224"@[0]);
    lemma_distinct_bytes("a37c77a4310d2d6a6c2af18294aaae7a", "fd0857e6a3af3aa74e5e00f15aea5224");
    reveal_strlit("cd77a63d7902990dbc704fe32b30700a");
    assert("cd77a63d7902990dbc704fe32b30700a"@[0] != "fd0857e6a3af3aa74e5e00f15aea5224"@[0]);
    lemma_distinct_bytes("cd77a63d7902990dbc704fe32b30700a", "fd0857e6a3af3aa74e5e00f15aea5224");
    reveal_strlit("758c8862f22f778fdeafe25fbcd1f4ec");
    assert("758c8862f22f778fdeafe25fbcd1f4ec"@[0] != "fd0857e6a3af3aa74e5e00f15aea5224"@[0]);
    lemma_distinct_bytes("758c8862f22f778fdeafe25fbcd1f4ec", "fd0857e6a3af3aa74e5e00f15aea5224");
    reveal_strlit("ed4568bab864166bfd6322ceeb3fb544");
    assert("ed4568bab864166bfd6322ceeb3fb544"@[0] != "fd0857e6a3af3aa74e5e00f15aea5224"@[0]);
    lemma_distinct_bytes("ed4568bab864166bfd6322ceeb3fb544", "fd0857e6a3af3aa74e5e00f15aea5224");
    reveal_strlit("6bd6d1381c194c0f456b184cb48d132d");
    assert("6bd6d1381c194c0f456b184cb48d132d"@[0] != "fd0857e6a3af3aa74e5e00f15aea5224"@[0]);
    lemma_distinct_bytes("6bd6d1381c194c0f456b184cb48d132d", "fd0857e6a3af3aa74e5e00f15aea5224");
    reveal_strlit("7ad299a8b33fa449e20edfe0fededdb2");
    assert("7ad299a8b33fa449e20edfe0fededdb2"@[0] != "fd0857e6a3af3aa74e5e00f15aea5224"@[0]);
    lemma_distinct_bytes("7ad299a8b33fa449e20edfe0fededdb2", "fd0857e6a3af3aa74e5e00f15aea5224");
    assert forall|j: int| 0 <= j < 15 implies #[trigger] game_keys()[j] != "fd0857e6a3af3aa74e5e00f15aea5224".spec_bytes() by {
        if j == 0 {
            assert(game_keys()[0] == "a88a2db3a68c714ca2b1ff57ac08a032".spec_bytes());
        } else if j == 1 {
            assert(game_keys()[1] == "047c11435b1c592ec731bff3b9c5b0cf".spec_bytes());
        } else if j == 2 {
            assert(game_keys()[2] == "22008370824a37baef8948127963c769".spec_bytes());
        } else if j == 3 {
            assert(game_keys()[3] == "e05433fe679bc91e3809c1138e3a8ea1".spec_bytes());
        } else if j == 4 {
            assert(game_keys()[4] == "616c5751ac9fc584af250f1b04474afd".spec_bytes());
        } else if j == 5 {
            assert(game_keys()[5] == "05689183497e58838e99b897f2e0e6ac".spec_bytes());
        } else if j == 6 {
            assert(game_keys()[6] == "267a8abe468d824222810201f00003be".spec_bytes());
        } else if j == 7 {
            assert(game_keys()[7] == "272a16964597ed6dc8d2393ed051d3ce".spec_bytes());
        } else if j == 8 {
            assert(game_keys()[8] == "5fbe01f2bc1c04f45d809ffd060ac386".spec_bytes());
        } else if j == 9 {
            assert(game_keys()[9] == "a37c77a4310d2d6a6c2af18294aaae7a".spec_bytes());
        } else if j == 10 {
            assert(game_keys()[10] == "cd77a63d7902990dbc704fe32b30700a".spec_bytes());
        } else if j == 11 {
            assert(game_keys()[11] == "758c8862f22f778fdeafe25fbcd1f4ec".spec_bytes());
        } else if j == 12 {
            assert(game_keys()[12] == "ed4568bab864166bfd6322ceeb3fb544".spec_bytes());
        } else if j == 13 {
            assert(game_keys()[13] == "6bd6d1381c194c0f456b184cb48d132d".spec_bytes());
        } else if j == 14 {
            assert(game_keys()[14] == "7ad299a8b33fa449e20edfe0fededdb2".spec_bytes());
        }
    }
    assert(game_keys()[15] == "fd0857e6a3af3aa74e5e00f15aea5224".spec_bytes() && game_values()[15] == GameVersion::D119);
    lemma_lookup_first(game_keys(), game_values(), "fd0857e6a3af3aa74e5e00f15aea5224".spec_bytes(), 15);
}

proof fn game_digest_16()
    ensures
        spec_game_version("b5ef0eec9554c491777d6c4e93e0df76".spec_bytes()) == GameVersion::Ch4_v102,
{
    reveal_strlit("b5ef0eec9554c491777d6c4e93e0df76");
    reveal_strlit("a88a2db3a68c714ca2b1ff57ac08a032");
    assert("a88a2db3a68c714ca2b1ff57ac08a032"@[0] != "b5ef0eec9554c491777d6c4e93e0df76"@[0]);
    lemma_distinct_bytes("a88a2db3a68c714ca2b1ff57ac08a032", "b5ef0eec9554c491777d6c4e93e0df76");
    reveal_strlit("047c11435b1c592ec731bff3b9c5b0cf");
    assert("047c11435b1c592ec731bff3b9c5b0cf"@[0] != "b5ef0eec9554c491777d6c4e93e0df76"@[0]);
    lemma_distinct_bytes("047c11435b1c592ec731bff3b9c5b0cf", "b5ef0eec9554c491777d6c4e93e0df76");
    reveal_strlit("22008370824a37baef8948127963c769");
    assert("22008370824a37baef8948127963c769"@[0] != "b5ef0eec9554c491777d6c4e93e0df76"@[0]);
    lemma_distinct_bytes("22008370824a37baef8948127963c769", "b5ef0eec9554c491777d6c4e93e0df76");
    reveal_strlit("e05433fe679bc91e3809c1138e3a8ea1");
    assert("e05433fe679bc91e3809c1138e3a8ea1"@[0] != "b5ef0eec9554c491777d6c4e93e0df76"@[0]);
    lemma_distinct_bytes("e05433fe679bc91e3809c1138e3a8ea1", "b5ef0eec9554c491777d6c4e93e0df76");
    reveal_strlit("616c5751ac9fc584af250f1b04474afd");
    assert("616c5751ac9fc584af250f1b04474afd"@[0] != "b5ef0eec9554c491777d6c4e93e0df76"@[0]);
    lemma_distinct_bytes("616c5751ac9fc584af250f1b04474afd", "b5ef0eec9554c491777d6c4e93e0df76");
    reveal_strlit("05689183497e58838e99b897f2e0e6ac");
    assert("05689183497e58838e99b897f2e0e6ac"@[0] != "b5ef0eec9554c491777d6c4e93e0df76"@[0]);
    lemma_distinct_bytes("05689183497e58838e99b897f2e0e6ac", "b5ef0eec9554c491777d6c4e93e0df76");
    reveal_strlit("267a8abe468d824222810201f00003be");
    assert("267a8abe468d824222810201f00003be"@[0] != "b5ef0eec9554c491777d6c4e93e0df76"@[0]);
    lemma_distinct_bytes("267a8abe468d824222810201f00003be", "b5ef0eec9554c491777d6c4e93e0df76");
    reveal_strlit("272a16964597ed6dc8d2393ed051d3ce");
    assert("272a16964597ed6dc8d2393ed051d3ce"@[0] != "b5ef0eec9554c491777d6c4e93e0df76"@[0]);
    lemma_distinct_bytes("272a16964597ed6dc8d2393ed051d3ce", "b5ef0eec9554c491777d6c4e93e0df76");
    reveal_strlit("5fbe01f2bc1c04f45d809ffd060ac386");
    assert("5fbe01f2bc1c04f45d809ffd060ac386"@[0] != "b5ef0eec9554c491777d6c4e93e0df76"@[0]);
    lemma_distinct_bytes("5fbe01f2bc1c04f45d809ffd060ac386", "b5ef0eec9554c491777d6c4e93e0df76");
    reveal_strlit("a37c77a4310d2d6a6c2af18294aaae7a");
    assert("a37c77a4310d2d6a6c2af18294aaae7a"@[0] != "b5ef0eec9554c491777d6c4e93e0df76"@[0]);
    lemma_distinct_bytes("a37c77a4310d2d6a6c2af18294aaae7a", "b5ef0eec9554c491777d6c4e93e0df76");
    reveal_strlit("cd77a63d7902990dbc704fe32b30700a");
    assert("cd77a63d7902990dbc704fe32b30700a"@[0] != "b5ef0eec9554c491777d6c4e93e0df76"@[0]);
    lemma_distinct_bytes("cd77a63d7902990dbc704fe32b30700a", "b5ef0eec9554c491777d6c4e93e0df76");
    reveal_strlit("758c8862f22f778fdeafe25fbcd1f4ec");
    assert("758c8862f22f778fdeafe25fbcd1f4ec"@[0] != "b5ef0eec9554c491777d6c4e93e0df76"@[0]);
    lemma_distinct_bytes("758c8862f22f778fdeafe25fbcd1f4ec", "b5ef0eec9554c491777d6c4e93e0df76");
    reveal_strlit("ed4568bab864166bfd6322ceeb3fb544");
    assert("ed4568bab864166bfd6322ceeb3fb544"@[0] != "b5ef0eec9554c491777d6c4e93e0df76"@[0]);
    lemma_distinct_bytes("ed4568bab864166bfd6322ceeb3fb544", "b5ef0eec9554c491777d6c4e93e0df76");
    reveal_strlit("6bd6d1381c194c0f456b184cb48d132d");
    assert("6bd6d1381c194c0f456b184cb48d132d"@[0] != "b5ef0eec9554c491777d6c4e93e0df76"@[0]);
    lemma_distinct_bytes("6bd6d1381c194c0f456b184cb48d132d", "b5ef0eec9554c491777d6c4e93e0df76");
    reveal_strlit("7ad299a8b33fa449e20edfe0fededdb2");
    assert("7ad299a8b33fa449e20edfe0fededdb2"@[0] != "b5ef0eec9554c491777d6c4e93e0df76"@[0]);
    lemma_distinct_bytes("7ad299a8b33fa449e20edfe0fededdb2", "b5ef0eec9554c491777d6c4e93e0df76");
    reveal_strlit("fd0857e6a3af3aa74e5e00f15aea5224");
    assert("fd0857e6a3af3aa74e5e00f15aea5224"@[0] != "b5ef0eec9554c491777d6c4e93e0df76"@[0]);
    lemma_distinct_bytes("fd0857e6a3af3aa74e5e00f15aea5224", "b5ef0eec9554c491777d6c4e93e0df76");
    assert forall|j: int| 0 <= j < 16 implies #[trigger] game_keys()[j] != "b5ef0eec9554c491777d6c4e93e0df76".spec_bytes() by {
        if j == 0 {
            assert(game_keys()[0] == "a88a2db3a68c714ca2b1ff57ac08a032".spec_bytes());
        } else if j == 1 {
            assert(game_keys()[1] == "047c11435b1c592ec731bff3b9c5b0cf".spec_bytes());
        } else if j == 2 {
            assert(game_keys()[2] == "22008370824a37baef8948127963c769".spec_bytes());
        } else if j == 3 {
            assert(game_keys()[3] == "e05433fe679bc91e3809c1138e3a8ea1".spec_bytes());
        } else if j == 4 {
            assert(game_keys()[4] == "616c5751ac9fc584af250f1b04474afd".spec_bytes());
        } else if j == 5 {
            assert(game_keys()[5] == "05689183497e58838e99b897f2e0e6ac".spec_bytes());
        } else if j == 6 {
            assert(game_keys()[6] == "267a8abe468d824222810201f00003be".spec_bytes());
        } else if j == 7 {
            assert(game_keys()[7] == "272a16964597ed6dc8d2393ed051d3ce".spec_bytes());
        } else if j == 8 {
            assert(game_keys()[8] == "5fbe01f2bc1c04f45d809ffd060ac386".spec_bytes());
        } else if j == 9 {
            assert(game_keys()[9] == "a37c77a4310d2d6a6c2af18294aaae7a".spec_bytes());
        } else if j == 10 {
            assert(game_keys()[10] == "cd77a63d7902990dbc704fe32b30700a".spec_bytes());
        } else if j == 11 {
            assert(game_keys()[11] == "758c8862f22f778fdeafe25fbcd1f4ec".spec_bytes());
        } else if j == 12 {
            assert(game_keys()[12] == "ed4568bab864166bfd6322ceeb3fb544".spec_bytes());
        } else if j == 13 {
            assert(game_keys()[13] == "6bd6d1381c194c0f456b184cb48d132d".spec_bytes());
        } else if j == 14 {
            assert(game_keys()[14] == "7ad299a8b33fa449e20edfe0fededdb2".spec_bytes());
        } else if j == 15 {
            assert(game_keys()[15] == "fd0857e6a3af3aa74e5e00f15aea5224".spec_bytes());
        }
    }
    assert(game_keys()[16] == "b5ef0eec9554c491777d6c4e93e0df76".spec_bytes() && game_values()[16] == GameVersion::Ch4_v102);
    lemma_lookup_first(game_keys(), game_values(), "b5ef0eec9554c491777d6c4e93e0df76".spec_bytes(), 16);
}

proof fn game_digest_17()
    ensures
        spec_game_version("40a8185886a8a1a2be996bc57de3d916".spec_bytes()) == GameVersion::Ch4_v102,
{
    reveal_strlit("40a8185886a8a1a2be996bc57de3d916");
    reveal_strlit("a88a2db3a68c714ca2b1ff57ac08a032");
    assert("a88a2db3a68c714ca2b1ff57ac08a032"@[0] != "40a8185886a8a1a2be996bc57de3d916"@[0]);
    lemma_distinct_bytes("a88a2db3a68c714ca2b1ff57ac08a032", "40a8185886a8a1a2be996bc57de3d916");
    reveal_strlit("047c11435b1c592ec731bff3b9c5b0cf");
    assert("047c11435b1c592ec731bff3b9c5b0cf"@[0] != "40a8185886a8a1a2be996bc57de3d916"@[0]);
    lemma_distinct_bytes("047c11435b1c592ec731bff3b9c5b0cf", "40a8185886a8a1a2be996bc57de3d916");
    reveal_strlit("22008370824a37baef8948127963c769");
    assert("22008370824a37baef8948127963c769"@[0] != "40a8185886a8a1a2be996bc57de3d916"@[0]);
    lemma_distinct_bytes("22008370824a37baef8948127963c769", "40a8185886a8a1a2be996bc57de3d916");
    reveal_strlit("e05433fe679bc91e3809c1138e3a8ea1");
    assert("e05433fe679bc91e3809c1138e3a8ea1"@[0] != "40a8185886a8a1a2be996bc57de3d916"@[0]);
    lemma_distinct_bytes("e05433fe679bc91e3809c1138e3a8ea1", "40a8185886a8a1a2be996bc57de3d916");
    reveal_strlit("616c5751ac9fc584af250f1b04474afd");
    assert("616c5751ac9fc584af250f1b04474afd"@[0] != "40a8185886a8a1a2be996bc57de3d916"@[0]);
    lemma_distinct_bytes("616c5751ac9fc584af250f1b04474afd", "40a8185886a8a1a2be996bc57de3d916");
    reveal_strlit("05689183497e58838e99b897f2e0e6ac");
    assert("05689183497e58838e99b897f2e0e6ac"@[0] != "40a8185886a8a1a2be996bc57de3d916"@[0]);
    lemma_distinct_bytes("05689183497e58838e99b897f2e0e6ac", "40a8185886a8a1a2be996bc57de3d916");
    reveal_strlit("267a8abe468d824222810201f00003be");
    assert("267a8abe468d824222810201f00003be"@[0] != "40a8185886a8a1a2be996bc57de3d916"@[0]);
    lemma_distinct_bytes("267a8abe468d824222810201f00003be", "40a8185886a8a1a2be996bc57de3d916");
    reveal_strlit("272a16964597ed6dc8d2393ed051d3ce");
    assert("272a16964597ed6dc8d2393ed051d3ce"@[0] != "40a8185886a8a1a2be996bc57de3d916"@[0]);
    lemma_distinct_bytes("272a16964597ed6dc8d2393ed051d3ce", "40a8185886a8a1a2be996bc57de3d916");
    reveal_strlit("5fbe01f2bc1c04f45d809ffd060ac386");
    assert("5fbe01f2bc1c04f45d809ffd060ac386"@[0] != "40a8185886a8a1a2be996bc57de3d916"@[0]);
    lemma_distinct_bytes("5fbe01f2bc1c04f45d809ffd060ac386", "40a8185886a8a1a2be996bc57de3d916");
    reveal_strlit("a37c77a4310d2d6a6c2af18294aaae7a");
    assert("a37c77a4310d2d6a6c2af18294aaae7a"@[0] != "40a8185886a8a1a2be996bc57de3d916"@[0]);
    lemma_distinct_bytes("a37c77a4310d2d6a6c2af18294aaae7a", "40a8185886a8a1a2be996bc57de3d916");
    reveal_strlit("cd77a63d7902990dbc704fe32b30700a");
    assert("cd77a63d7902990dbc704fe32b30700a"@[0] != "40a8185886a8a1a2be996bc57de3d916"@[0]);
    lemma_distinct_bytes("cd77a63d7902990dbc704fe32b30700a", "40a8185886a8a1a2be996bc57de3d916");
    reveal_strlit("758c8862f22f778fdeafe25fbcd1f4ec");
    assert("758c8862f22f778fdeafe25fbcd1f4ec"@[0] != "40a8185886a8a1a2be996bc57de3d916"@[0]);
    lemma_distinct_bytes("758c8862f22f778fdeafe25fbcd1f4ec", "40a8185886a8a1a2be996bc57de3d916");
    reveal_strlit("ed4568bab864166bfd6322ceeb3fb544");
    assert("ed4568bab864166bfd6322ceeb3fb544"@[0] != "40a8185886a8a1a2be996bc57de3d916"@[0]);
    lemma_distinct_bytes("ed4568bab864166bfd6322ceeb3fb544", "40a8185886a8a1a2be996bc57de3d916");
    reveal_strlit("6bd6d1381c194c0f456b184cb48d132d");
    assert("6bd6d1381c194c0f456b184cb48d132d"@[0] != "40a8185886a8a1a2be996bc57de3d916"@[0]);
    lemma_distinct_bytes("6bd6d1381c194c0f456b184cb48d132d", "40a8185886a8a1a2be996bc57de3d916");
    reveal_strlit("7ad299a8b33fa449e20edfe0fededdb2");
    assert("7ad299a8b33fa449e20edfe0fededdb2"@[0] != "40a8185886a8a1a2be996bc57de3d916"@[0]);
    lemma_distinct_bytes("7ad299a8b33fa449e20edfe0fededdb2", "40a8185886a8a1a2be996bc57de3d916");
    reveal_strlit("fd0857e6a3af3aa74e5e00f15aea5224");
    assert("fd0857e6a3af3aa74e5e00f15aea5224"@[0] != "40a8185886a8a1a2be996bc57de3d916"@[0]);
    lemma_distinct_bytes("fd0857e6a3af3aa74e5e00f15aea5224", "40a8185886a8a1a2be996bc57de3d916");
    reveal_strlit("b5ef0eec9554c491777d6c4e93e0df76");
    assert("b5ef0eec9554c491777d6c4e93e0df76"@[0] != "40a8185886a8a1a2be996bc57de3d916"@[0]);
    lemma_distinct_bytes("b5ef0eec9554c491777d6c4e93e0df76", "40a8185886a8a1a2be996bc57de3d916");
    assert forall|j: int| 0 <= j < 17 implies #[trigger] game_keys()[j] != "40a8185886a8a1a2be996bc57de3d916".spec_bytes() by {
        if j == 0 {
            assert(game_keys()[0] == "a88a2db3a68c714ca2b1ff57ac08a032".spec_bytes());
        } else if j == 1 {
            assert(game_keys()[1] == "047c11435b1c592ec731bff3b9c5b0cf".spec_bytes());
        } else if j == 2 {
            assert(game_keys()[2] == "22008370824a37baef8948127963c769".spec_bytes());
        } else if j == 3 {
            assert(game_keys()[3] == "e05433fe679bc91e3809c1138e3a8ea1".spec_bytes());
        } else if j == 4 {
            assert(game_keys()[4] == "616c5751ac9fc584af250f1b04474afd".spec_bytes());
        } else if j == 5 {
            assert(game_keys()[5] == "05689183497e58838e99b897f2e0e6ac".spec_bytes());
        } else if j == 6 {
            assert(game_keys()[6] == "267a8abe468d824222810201f00003be".spec_bytes());
        } else if j == 7 {
            assert(game_keys()[7] == "272a16964597ed6dc8d2393ed051d3ce".spec_bytes());
        } else if j == 8 {
            assert(game_keys()[8] == "5fbe01f2bc1c04f45d809ffd060ac386".spec_bytes());
        } else if j == 9 {
            assert(game_keys()[9] == "a37c77a4310d2d6a6c2af18294aaae7a".spec_bytes());
        } else if j == 10 {
            assert(game_keys()[10] == "cd77a63d7902990dbc704fe32b30700a".spec_bytes());
        } else if j == 11 {
            assert(game_keys()[11] == "758c8862f22f778fdeafe25fbcd1f4ec".spec_bytes());
        } else if j == 12 {
            assert(game_keys()[12] == "ed4568bab864166bfd6322ceeb3fb544".spec_bytes());
        } else if j == 13 {
            assert(game_keys()[13] == "6bd6d1381c194c0f456b184cb48d132d".spec_bytes());
        } else if j == 14 {
            assert(game_keys()[14] == "7ad299a8b33fa449e20edfe0fededdb2".spec_bytes());
        } else if j == 15 {
            assert(game_keys()[15] == "fd0857e6a3af3aa74e5e00f15aea5224".spec_bytes());
        } else if j == 16 {
            assert(game_keys()[16] == "b5ef0eec9554c491777d6c4e93e0df76".spec_bytes());
        }
    }
    assert(game_keys()[17] == "40a8185886a8a1a2be996bc57de3d916".spec_bytes() && game_values()[17] == GameVersion::Ch4_v102);
    lemma_lookup_first(game_keys(), game_values(), "40a8185886a8a1a2be996bc57de3d916".spec_bytes(), 17);
}

proof fn game_digest_18()
    ensures
        spec_game_version("ddedbbd10ff129b49c64dbefaa763c6a".spec_bytes()) == GameVersion::Ch5_v244,
{
    reveal_strlit("ddedbbd10ff129b49c64dbefaa763c6a");
    reveal_strlit("a88a2db3a68c714ca2b1ff57ac08a032");
    assert("a88a2db3a68c714ca2b1ff57ac08a032"@[0] != "ddedbbd10ff129b49c64dbefaa763c6a"@[0]);
    lemma_distinct_bytes("a88a2db3a68c714ca2b1ff57ac08a032", "ddedbbd10ff129b49c64dbefaa763c6a");
    reveal_strlit("047c11435b1c592ec731bff3b9c5b0cf");
    assert("047c11435b1c592ec731bff3b9c5b0cf"@[0] != "ddedbbd10ff129b49c64dbefaa763c6a"@[0]);
    lemma_distinct_bytes("047c11435b1c592ec731bff3b9c5b0cf", "ddedbbd10ff129b49c64dbefaa763c6a");
    reveal_strlit("22008370824a37baef8948127963c769");
    assert("22008370824a37baef8948127963c769"@[0] != "ddedbbd10ff129b49c64dbefaa763c6a"@[0]);
    lemma_distinct_bytes("22008370824a37baef8948127963c769", "ddedbbd10ff129b49c64dbefaa763c6a");
    reveal_strlit("e05433fe679bc91e3809c1138e3a8ea1");
    assert("e05433fe679bc91e3809c1138e3a8ea1"@[0] != "ddedbbd10ff129b49c64dbefaa763c6a"@[0]);
    lemma_distinct_bytes("e05433fe679bc91e3809c1138e3a8ea1", "ddedbbd10ff129b49c64dbefaa763c6a");
    reveal_strlit("616c5751ac9fc584af250f1b04474afd");
    assert("616c5751ac9fc584af250f1b04474afd"@[0] != "ddedbbd10ff129b49c64dbefaa763c6a"@[0]);
    lemma_distinct_bytes("616c5751ac9fc584af250f1b04474afd", "ddedbbd10ff129b49c64dbefaa763c6a");
    reveal_strlit("05689183497e58838e99b897f2e0e6ac");
    assert("05689183497e58838e99b897f2e0e6ac"@[0] != "ddedbbd10ff129b49c64dbefaa763c6a"@[0]);
    lemma_distinct_bytes("05689183497e58838e99b897f2e0e6ac", "ddedbbd10ff129b49c64dbefaa763c6a");
    reveal_strlit("267a8abe468d824222810201f00003be");
    assert("267a8abe468d824222810201f00003be"@[0] != "ddedbbd10ff129b49c64dbefaa763c6a"@[0]);
    lemma_distinct_bytes("267a8abe468d824222810201f00003be", "ddedbbd10ff129b49c64dbefaa763c6a");
    reveal_strlit("272a16964597ed6dc8d2393ed051d3ce");
    assert("272a16964597ed6dc8d2393ed051d3ce"@[0] != "ddedbbd10ff129b49c64dbefaa763c6a"@[0]);
    lemma_distinct_bytes("272a16964597ed6dc8d2393ed051d3ce", "ddedbbd10ff129b49c64dbefaa763c6a");
    reveal_strlit("5fbe01f2bc1c04f45d809ffd060ac386");
    assert("5fbe01f2bc1c04f45d809ffd060ac386"@[0] != "ddedbbd10ff129b49c64dbefaa763c6a"@[0]);
    lemma_distinct_bytes("5fbe01f2bc1c04f45d809ffd060ac386", "ddedbbd10ff129b49c64dbefaa763c6a");
    reveal_strlit("a37c77a4310d2d6a6c2af18294aaae7a");
    assert("a37c77a4310d2d6a6c2af18294aaae7a"@[0] != "ddedbbd10ff129b49c64dbefaa763c6a"@[0]);
    lemma_distinct_bytes("a37c77a4310d2d6a6c2af18294aaae7a", "ddedbbd10ff129b49c64dbefaa763c6a");
    reveal_strlit("cd77a63d7902990dbc704fe32b30700a");
    assert("cd77a63d7902990dbc704fe32b30700a"@[0] != "ddedbbd10ff129b49c64dbefaa763c6a"@[0]);
    lemma_distinct_bytes("cd77a63d7902990dbc704fe32b30700a", "ddedbbd10ff129b49c64dbefaa763c6a");
    reveal_strlit("758c8862f22f778fdeafe25fbcd1f4ec");
    assert("758c8862f22f778fdeafe25fbcd1f4ec"@[0] != "ddedbbd10ff129b49c64dbefaa763c6a"@[0]);
    lemma_distinct_bytes("758c8862f22f778fdeafe25fbcd1f4ec", "ddedbbd10ff129b49c64dbefaa763c6a");
    reveal_strlit("ed4568bab864166bfd6322ceeb3fb544");
    assert("ed4568bab864166bfd6322ceeb3fb544"@[0] != "ddedbbd10ff129b49c64dbefaa763c6a"@[0]);
    lemma_distinct_bytes("ed4568bab864166bfd6322ceeb3fb544", "ddedbbd10ff129b49c64dbefaa763c6a");
    reveal_strlit("6bd6d1381c194c0f456b184cb48d132d");
    assert("6bd6d1381c194c0f456b184cb48d132d"@[0] != "ddedbbd10ff129b49c64dbefaa763c6a"@[0]);
    lemma_distinct_bytes("6bd6d1381c194c0f456b184cb48d132d", "ddedbbd10ff129b49c64dbefaa763c6a");
    reveal_strlit("7ad299a8b33fa449e20edfe0fededdb2");
    assert("7ad299a8b33fa449e20edfe0fededdb2"@[0] != "ddedbbd10ff129b49c64dbefaa763c6a"@[0]);
    lemma_distinct_bytes("7ad299a8b33fa449e20edfe0fededdb2", "ddedbbd10ff129b49c64dbefaa763c6a");
    reveal_strlit("fd0857e6a3af3aa74e5e00f15aea5224");
    assert("fd0857e6a3af3aa74e5e00f15aea5224"@[0] != "ddedbbd10ff129b49c64dbefaa763c6a"@[0]);
    lemma_distinct_bytes("fd0857e6a3af3aa74e5e00f15aea5224", "ddedbbd10ff129b49c64dbefaa763c6a");
    reveal_strlit("b5ef0eec9554c491777d6c4e93e0df76");
    assert("b5ef0eec9554c491777d6c4e93e0df76"@[0] != "ddedbbd10ff129b49c64dbefaa763c6a"@[0]);
    lemma_distinct_bytes("b5ef0eec9554c491777d6c4e93e0df76", "ddedbbd10ff129b49c64dbefaa763c6a");
    reveal_strlit("40a8185886a8a1a2be996bc57de3d916");
    assert("40a8185886a8a1a2be996bc57de3d916"@[0] != "ddedbbd10ff129b49c64dbefaa763c6a"@[0]);
    lemma_distinct_bytes("40a8185886a8a1a2be996bc57de3d916", "ddedbbd10ff129b49c64dbefaa763c6a");
    assert forall|j: int| 0 <= j < 18 implies #[trigger] game_keys()[j] != "ddedbbd10ff129b49c64dbefaa763c6a".spec_bytes() by {
        if j == 0 {
            assert(game_keys()[0] == "a88a2db3a68c714ca2b1ff57ac08a032".spec_bytes());
        } else if j == 1 {
            assert(game_keys()[1] == "047c11435b1c592ec731bff3b9c5b0cf".spec_bytes());
        } else if j == 2 {
            assert(game_keys()[2] == "22008370824a37baef8948127963c769".spec_bytes());
        } else if j == 3 {
            assert(game_keys()[3] == "e05433fe679bc91e3809c1138e3a8ea1".spec_bytes());
        } else if j == 4 {
            assert(game_keys()[4] == "616c5751ac9fc584af250f1b04474afd".spec_bytes());
        } else if j == 5 {
            assert(game_keys()[5] == "05689183497e58838e99b897f2e0e6ac".spec_bytes());
        } else if j == 6 {
            assert(game_keys()[6] == "267a8abe468d824222810201f00003be".spec_bytes());
        } else if j == 7 {
            assert(game_keys()[7] == "272a16964597ed6dc8d2393ed051d3ce".spec_bytes());
        } else if j == 8 {
            assert(game_keys()[8] == "5fbe01f2bc1c04f45d809ffd060ac386".spec_bytes());
        } else if j == 9 {
            assert(game_keys()[9] == "a37c77a4310d2d6a6c2af18294aaae7a".spec_bytes());
        } else if j == 10 {
            assert(game_keys()[10] == "cd77a63d7902990dbc704fe32b30700a".spec_bytes());
        } else if j == 11 {
            assert(game_keys()[11] == "758c8862f22f778fdeafe25fbcd1f4ec".spec_bytes());
        } else if j == 12 {
            assert(game_keys()[12] == "ed4568bab864166bfd6322ceeb3fb544".spec_bytes());
        } else if j == 13 {
            assert(game_keys()[13] == "6bd6d1381c194c0f456b184cb48d132d".spec_bytes());
        } else if j == 14 {
            assert(game_keys()[14] == "7ad299a8b33fa449e20edfe0fededdb2".spec_bytes());
        } else if j == 15 {
            assert(game_keys()[15] == "fd0857e6a3af3aa74e5e00f15aea5224".spec_bytes());
        } else if j == 16 {
            assert(game_keys()[16] == "b5ef0eec9554c491777d6c4e93e0df76".spec_bytes());
        } else if j == 17 {
            assert(game_keys()[17] == "40a8185886a8a1a2be996bc57de3d916".spec_bytes());
        }
    }
    assert(game_keys()[18] == "ddedbbd10ff129b49c64dbefaa763c6a".spec_bytes() && game_values()[18] == GameVersion::Ch5_v244);
    lemma_lookup_first(game_keys(), game_values(), "ddedbbd10ff129b49c64dbefaa763c6a".spec_bytes(), 18);
}

proof fn game_digest_19()
    ensures
        spec_game_version("4a9c69b42e442b673395b3253f292f17".spec_bytes()) == GameVersion::Ch5_v244,
{
    reveal_strlit("4a9c69b42e442b673395b3253f292f17");
    reveal_strlit("a88a2db3a68c714ca2b1ff57ac08a032");
    assert("a88a2db3a68c714ca2b1ff57ac08a032"@[0] != "4a9c69b42e442b673395b3253f292f17"@[0]);
    lemma_distinct_bytes("a88a2db3a68c714ca2b1ff57ac08a032", "4a9c69b42e442b673395b3253f292f17");
    reveal_strlit("047c11435b1c592ec731bff3b9c5b0cf");
    assert("047c11435b1c592ec731bff3b9c5b0cf"@[0] != "4a9c69b42e442b673395b3253f292f17"@[0]);
    lemma_distinct_bytes("047c11435b1c592ec731bff3b9c5b0cf", "4a9c69b42e442b673395b3253f292f17");
    reveal_strlit("22008370824a37baef8948127963c769");
    assert("22008370824a37baef8948127963c769"@[0] != "4a9c69b42e442b673395b3253f292f17"@[0]);
    lemma_distinct_bytes("22008370824a37baef8948127963c769", "4a9c69b42e442b673395b3253f292f17");
    reveal_strlit("e05433fe679bc91e3809c1138e3a8ea1");
    assert("e05433fe679bc91e3809c1138e3a8ea1"@[0] != "4a9c69b42e442b673395b3253f292f17"@[0]);
    lemma_distinct_bytes("e05433fe679bc91e3809c1138e3a8ea1", "4a9c69b42e442b673395b3253f292f17");
    reveal_strlit("616c5751ac9fc584af250f1b04474afd");
    assert("616c5751ac9fc584af250f1b04474afd"@[0] != "4a9c69b42e442b673395b3253f292f17"@[0]);
    lemma_distinct_bytes("616c5751ac9fc584af250f1b04474afd", "4a9c69b42e442b673395b3253f292f17");
    reveal_strlit("05689183497e58838e99b897f2e0e6ac");
    assert("05689183497e58838e99b897f2e0e6ac"@[0] != "4a9c69b42e442b673395b3253f292f17"@[0]);
    lemma_distinct_bytes("05689183497e58838e99b897f2e0e6ac", "4a9c69b42e442b673395b3253f292f17");
    reveal_strlit("267a8abe468d824222810201f00003be");
    assert("267a8abe468d824222810201f00003be"@[0] != "4a9c69b42e442b673395b3253f292f17"@[0]);
    lemma_distinct_bytes("267a8abe468d824222810201f00003be", "4a9c69b42e442b673395b3253f292f17");
    reveal_strlit("272a16964597ed6dc8d2393ed051d3ce");
    assert("272a16964597ed6dc8d2393ed051d3ce"@[0] != "4a9c69b42e442b673395b3253f292f17"@[0]);
    lemma_distinct_bytes("272a16964597ed6dc8d2393ed051d3ce", "4a9c69b42e442b673395b3253f292f17");
    reveal_strlit("5fbe01f2bc1c04f45d809ffd060ac386");
    assert("5fbe01f2bc1c04f45d809ffd060ac386"@[0] != "4a9c69b42e442b673395b3253f292f17"@[0]);
    lemma_distinct_bytes("5fbe01f2bc1c04f45d809ffd060ac386", "4a9c69b42e442b673395b3253f292f17");
    reveal_strlit("a37c77a4310d2d6a6c2af18294aaae7a");
    assert("a37c77a4310d2d6a6c2af18294aaae7a"@[0] != "4a9c69b42e442b673395b3253f292f17"@[0]);
    lemma_distinct_bytes("a37c77a4310d2d6a6c2af18294aaae7a", "4a9c69b42e442b673395b3253f292f17");
    reveal_strlit("cd77a63d7902990dbc704fe32b30700a");
    assert("cd77a63d7902990dbc704fe32b30700a"@[0] != "4a9c69b42e442b673395b3253f292f17"@[0]);
    lemma_distinct_bytes("cd77a63d7902990dbc704fe32b30700a", "4a9c69b42e442b673395b3253f292f17");
    reveal_strlit("758c8862f22f778fdeafe25fbcd1f4ec");
    assert("758c8862f22f778fdeafe25fbcd1f4ec"@[0] != "4a9c69b42e442b673395b3253f292f17"@[0]);
    lemma_distinct_bytes("758c8862f22f778fdeafe25fbcd1f4ec", "4a9c69b42e442b673395b3253f292f17");
    reveal_strlit("ed4568bab864166bfd6322ceeb3fb544");
    assert("ed4568bab864166bfd6322ceeb3fb544"@[0] != "4a9c69b42e442b673395b3253f292f17"@[0]);
    lemma_distinct_bytes("ed4568bab864166bfd6322ceeb3fb544", "4a9c69b42e442b673395b3253f292f17");
    reveal_strlit("6bd6d1381c194c0f456b184cb48d132d");
    assert("6bd6d1381c194c0f456b184cb48d132d"@[0] != "4a9c69b42e442b673395b3253f292f17"@[0]);
    lemma_distinct_bytes("6bd6d1381c194c0f456b184cb48d132d", "4a9c69b42e442b673395b3253f292f17");
    reveal_strlit("7ad299a8b33fa449e20edfe0fededdb2");
    assert("7ad299a8b33fa449e20edfe0fededdb2"@[0] != "4a9c69b42e442b673395b3253f292f17"@[0]);
    lemma_distinct_bytes("7ad299a8b33fa449e20edfe0fededdb2", "4a9c69b42e442b673395b3253f292f17");
    reveal_strlit("fd0857e6a3af3aa74e5e00f15aea5224");
    assert("fd0857e6a3af3aa74e5e00f15aea5224"@[0] != "4a9c69b42e442b673395b3253f292f17"@[0]);
    lemma_distinct_bytes("fd0857e6a3af3aa74e5e00f15aea5224", "4a9c69b42e442b673395b3253f292f17");
    reveal_strlit("b5ef0eec9554c491777d6c4e93e0df76");
    assert("b5ef0eec9554c491777d6c4e93e0df76"@[0] != "4a9c69b42e442b673395b3253f292f17"@[0]);
    lemma_distinct_bytes("b5ef0eec9554c491777d6c4e93e0df76", "4a9c69b42e442b673395b3253f292f17");
    reveal_strlit("40a8185886a8a1a2be996bc57de3d916");
    assert("40a8185886a8a1a2be996bc57de3d916"@[1] != "4a9c69b42e442b673395b3253f292f17"@[1]);
    lemma_distinct_bytes("40a8185886a8a1a2be996bc57de3d916", "4a9c69b42e442b673395b3253f292f17");
    reveal_strlit("ddedbbd10ff129b49c64dbefaa763c6a");
    assert("ddedbbd10ff129b49c64dbefaa763c6a"@[0] != "4a9c69b42e442b673395b3253f292f17"@[0]);
    lemma_distinct_bytes("ddedbbd10ff129b49c64dbefaa763c6a", "4a9c69b42e442b673395b3253f292f17");
    assert forall|j: int| 0 <= j < 19 implies #[trigger] game_keys()[j] != "4a9c69b42e442b673395b3253f292f17".spec_bytes() by {
        if j == 0 {
            assert(game_keys()[0] == "a88a2db3a68c714ca2b1ff57ac08a032".spec_bytes());
        } else if j == 1 {
            assert(game_keys()[1] == "047c11435b1c592ec731bff3b9c5b0cf".spec_bytes());
        } else if j == 2 {
            assert(game_keys()[2] == "22008370824a37baef8948127963c769".spec_bytes());
        } else if j == 3 {
            assert(game_keys()[3] == "e05433fe679bc91e3809c1138e3a8ea1".spec_bytes());
        } else if j == 4 {
            assert(game_keys()[4] == "616c5751ac9fc584af250f1b04474afd".spec_bytes());
        } else if j == 5 {
            assert(game_keys()[5] == "05689183497e58838e99b897f2e0e6ac".spec_bytes());
        } else if j == 6 {
            assert(game_keys()[6] == "267a8abe468d824222810201f00003be".spec_bytes());
        } else if j == 7 {
            assert(game_keys()[7] == "272a16964597ed6dc8d2393ed051d3ce".spec_bytes());
        } else if j == 8 {
            assert(game_keys()[8] == "5fbe01f2bc1c04f45d809ffd060ac386".spec_bytes());
        } else if j == 9 {
            assert(game_keys()[9] == "a37c77a4310d2d6a6c2af18294aaae7a".spec_bytes());
        } else if j == 10 {
            assert(game_keys()[10] == "cd77a63d7902990dbc704fe32b30700a".spec_bytes());
        } else if j == 11 {
            assert(game_keys()[11] == "758c8862f22f778fdeafe25fbcd1f4ec".spec_bytes());
        } else if j == 12 {
            assert(game_keys()[12] == "ed4568bab864166bfd6322ceeb3fb544".spec_bytes());
        } else if j == 13 {
            assert(game_keys()[13] == "6bd6d1381c194c0f456b184cb48d132d".spec_bytes());
        } else if j == 14 {
            assert(game_keys()[14] == "7ad299a8b33fa449e20edfe0fededdb2".spec_bytes());
        } else if j == 15 {
            assert(game_keys()[15] == "fd0857e6a3af3aa74e5e00f15aea5224".spec_bytes());
        } else if j == 16 {
            assert(game_keys()[16] == "b5ef0eec9554c491777d6c4e93e0df76".spec_bytes());
        } else if j == 17 {
            assert(game_keys()[17] == "40a8185886a8a1a2be996bc57de3d916".spec_bytes());
        } else if j == 18 {
            assert(game_keys()[18] == "ddedbbd10ff129b49c64dbefaa763c6a".spec_bytes());
        }
    }
    assert(game_keys()[19] == "4a9c69b42e442b673395b3253f292f17".spec_bytes() && game_values()[19] == GameVersion::Ch5_v244);
    lemma_lookup_first(game_keys(), game_values(), "4a9c69b42e442b673395b3253f292f17".spec_bytes(), 19);
}

proof fn game_digest_20()
    ensures
        spec_game_version("42b66b41b6cea12fb54219e9d31e5dc8".spec_bytes()) == GameVersion::Ch5_v244,
{
    reveal_strlit("42b66b41b6cea12fb54219e9d31e5dc8");
    reveal_strlit("a88a2db3a68c714ca2b1ff57ac08a032");
    assert("a88a2db3a68c714ca2b1ff57ac08a032"@[0] != "42b66b41b6cea12fb54219e9d31e5dc8"@[0]);
    lemma_distinct_bytes("a88a2db3a68c714ca2b1ff57ac08a032", "42b66b41b6cea12fb54219e9d31e5dc8");
    reveal_strlit("047c11435b1c592ec731bff3b9c5b0cf");
    assert("047c11435b1c592ec731bff3b9c5b0cf"@[0] != "42b66b41b6cea12fb54219e9d31e5dc8"@[0]);
    lemma_distinct_bytes("047c11435b1c592ec731bff3b9c5b0cf", "42b66b41b6cea12fb54219e9d31e5dc8");
    reveal_strlit("22008370824a37baef8948127963c769");
    assert("22008370824a37baef8948127963c769"@[0] != "42b66b41b6cea12fb54219e9d31e5dc8"@[0]);
    lemma_distinct_bytes("22008370824a37baef8948127963c769", "42b66b41b6cea12fb54219e9d31e5dc8");
    reveal_strlit("e05433fe679bc91e3809c1138e3a8ea1");
    assert("e05433fe679bc91e3809c1138e3a8ea1"@[0] != "42b66b41b6cea12fb54219e9d31e5dc8"@[0]);
    lemma_distinct_bytes("e05433fe679bc91e3809c1138e3a8ea1", "42b66b41b6cea12fb54219e9d31e5dc8");
    reveal_strlit("616c5751ac9fc584af250f1b04474afd");
    assert("616c5751ac9fc584af250f1b04474afd"@[0] != "42b66b41b6cea12fb54219e9d31e5dc8"@[0]);
    lemma_distinct_bytes("616c5751ac9fc584af250f1b04474afd", "42b66b41b6cea12fb54219e9d31e5dc8");
    reveal_strlit("05689183497e58838e99b897f2e0e6ac");
    assert("05689183497e58838e99b897f2e0e6ac"@[0] != "42b66b41b6cea12fb54219e9d31e5dc8"@[0]);
    lemma_distinct_bytes("05689183497e58838e99b897f2e0e6ac", "42b66b41b6cea12fb54219e9d31e5dc8");
    reveal_strlit("267a8abe468d824222810201f00003be");
    assert("267a8abe468d824222810201f00003be"@[0] != "42b66b41b6cea12fb54219e9d31e5dc8"@[0]);
    lemma_distinct_bytes("267a8abe468d824222810201f00003be", "42b66b41b6cea12fb54219e9d31e5dc8");
    reveal_strlit("272a16964597ed6dc8d2393ed051d3ce");
    assert("272a16964597ed6dc8d2393ed051d3ce"@[0] != "42b66b41b6cea12fb54219e9d31e5dc8"@[0]);
    lemma_distinct_bytes("272a16964597ed6dc8d2393ed051d3ce", "42b66b41b6cea12fb54219e9d31e5dc8");
    reveal_strlit("5fbe01f2bc1c04f45d809ffd060ac386");
    assert("5fbe01f2bc1c04f45d809ffd060ac386"@[0] != "42b66b41b6cea12fb54219e9d31e5dc8"@[0]);
    lemma_distinct_bytes("5fbe01f2bc1c04f45d809ffd060ac386", "42b66b41b6cea12fb54219e9d31e5dc8");
    reveal_strlit("a37c77a4310d2d6a6c2af18294aaae7a");
    assert("a37c77a4310d2d6a6c2af18294aaae7a"@[0] != "42b66b41b6cea12fb54219e9d31e5dc8"@[0]);
    lemma_distinct_bytes("a37c77a4310d2d6a6c2af18294aaae7a", "42b66b41b6cea12fb54219e9d31e5dc8");
    reveal_strlit("cd77a63d7902990dbc704fe32b30700a");
    assert("cd77a63d7902990dbc704fe32b30700a"@[0] != "42b66b41b6cea12fb54219e9d31e5dc8"@[0]);
    lemma_distinct_bytes("cd77a63d7902990dbc704fe32b30700a", "42b66b41b6cea12fb54219e9d31e5dc8");
    reveal_strlit("758c8862f22f778fdeafe25fbcd1f4ec");
    assert("758c8862f22f778fdeafe25fbcd1f4ec"@[0] != "42b66b41b6cea12fb54219e9d31e5dc8"@[0]);
    lemma_distinct_bytes("758c8862f22f778fdeafe25fbcd1f4ec", "42b66b41b6cea12fb54219e9d31e5dc8");
    reveal_strlit("ed4568bab864166bfd6322ceeb3fb544");
    assert("ed4568bab864166bfd6322ceeb3fb544"@[0] != "42b66b41b6cea12fb54219e9d31e5dc8"@[0]);
    lemma_distinct_bytes("ed4568bab864166bfd6322ceeb3fb544", "42b66b41b6cea12fb54219e9d31e5dc8");
    reveal_strlit("6bd6d1381c194c0f456b184cb48d132d");
    assert("6bd6d1381c194c0f456b184cb48d132d"@[0] != "42b66b41b6cea12fb54219e9d31e5dc8"@[0]);
    lemma_distinct_bytes("6bd6d1381c194c0f456b184cb48d132d", "42b66b41b6cea12fb54219e9d31e5dc8");
    reveal_strlit("7ad299a8b33fa449e20edfe0fededdb2");
    assert("7ad299a8b33fa449e20edfe0fededdb2"@[0] != "42b66b41b6cea12fb54219e9d31e5dc8"@[0]);
    lemma_distinct_bytes("7ad299a8b33fa449e20edfe0fededdb2", "42b66b41b6cea12fb54219e9d31e5dc8");
    reveal_strlit("fd0857e6a3af3aa74e5e00f15aea5224");
    assert("fd0857e6a3af3aa74e5e00f15aea5224"@[0] != "42b66b41b6cea12fb54219e9d31e5dc8"@[0]);
    lemma_distinct_bytes("fd0857e6a3af3aa74e5e00f15aea5224", "42b66b41b6cea12fb54219e9d31e5dc8");
    reveal_strlit("b5ef0eec9554c491777d6c4e93e0df76");
    assert("b5ef0eec9554c491777d6c4e93e0df76"@[0] != "42b66b41b6cea12fb54219e9d31e5dc8"@[0]);
    lemma_distinct_bytes("b5ef0eec9554c491777d6c4e93e0df76", "42b66b41b6cea12fb54219e9d31e5dc8");
    reveal_strlit("40a8185886a8a1a2be996bc57de3d916");
    assert("40a8185886a8a1a2be996bc57de3d916"@[1] != "42b66b41b6cea12fb54219e9d31e5dc8"@[1]);
    lemma_distinct_bytes("40a8185886a8a1a2be996bc57de3d916", "42b66b41b6cea12fb54219e9d31e5dc8");
    reveal_strlit("ddedbbd10ff129b49c64dbefaa763c6a");
    assert("ddedbbd10ff129b49c64dbefaa763c6a"@[0] != "42b66b41b6cea12fb54219e9d31e5dc8"@[0]);
    lemma_distinct_bytes("ddedbbd10ff129b49c64dbefaa763c6a", "42b66b41b6cea12fb54219e9d31e5dc8");
    reveal_strlit("4a9c69b42e442b673395b3253f292f17");
    assert("4a9c69b42e442b673395b3253f292f17"@[1] != "42b66b41b6cea12fb54219e9d31e5dc8"@[1]);
    lemma_distinct_bytes("4a9c69b42e442b673395b3253f292f17", "42b66b41b6cea12fb54219e9d31e5dc8");
    assert forall|j: int| 0 <= j < 20 implies #[trigger] game_keys()[j] != "42b66b41b6cea12fb54219e9d31e5dc8".spec_bytes() by {
        if j == 0 {
            assert(game_keys()[0] == "a88a2db3a68c714ca2b1ff57ac08a032".spec_bytes());
        } else if j == 1 {
            assert(game_keys()[1] == "047c11435b1c592ec731bff3b9c5b0cf".spec_bytes());
        } else if j == 2 {
            assert(game_keys()[2] == "22008370824a37baef8948127963c769".spec_bytes());
        } else if j == 3 {
            assert(game_keys()[3] == "e05433fe679bc91e3809c1138e3a8ea1".spec_bytes());
        } else if j == 4 {
            assert(game_keys()[4] == "616c5751ac9fc584af250f1b04474afd".spec_bytes());
        } else if j == 5 {
            assert(game_keys()[5] == "05689183497e58838e99b897f2e0e6ac".spec_bytes());
        } else if j == 6 {
            assert(game_keys()[6] == "267a8abe468d824222810201f00003be".spec_bytes());
        } else if j == 7 {
            assert(game_keys()[7] == "272a16964597ed6dc8d2393ed051d3ce".spec_bytes());
        } else if j == 8 {
            assert(game_keys()[8] == "5fbe01f2bc1c04f45d809ffd060ac386".spec_bytes());
        } else if j == 9 {
            assert(game_keys()[9] == "a37c77a4310d2d6a6c2af18294aaae7a".spec_bytes());
        } else if j == 10 {
            assert(game_keys()[10] == "cd77a63d7902990dbc704fe32b30700a".spec_bytes());
        } else if j == 11 {
            assert(game_keys()[11] == "758c8862f22f778fdeafe25fbcd1f4ec".spec_bytes());
        } else if j == 12 {
            assert(game_keys()[12] == "ed4568bab864166bfd6322ceeb3fb544".spec_bytes());
        } else if j == 13 {
            assert(game_keys()[13] == "6bd6d1381c194c0f456b184cb48d132d".spec_bytes());
        } else if j == 14 {
            assert(game_keys()[14] == "7ad299a8b33fa449e20edfe0fededdb2".spec_bytes());
        } else if j == 15 {
            assert(game_keys()[15] == "fd0857e6a3af3aa74e5e00f15aea5224".spec_bytes());
        } else if j == 16 {
            assert(game_keys()[16] == "b5ef0eec9554c491777d6c4e93e0df76".spec_bytes());
        } else if j == 17 {
            assert(game_keys()[17] == "40a8185886a8a1a2be996bc57de3d916".spec_bytes());
        } else if j == 18 {
            assert(game_keys()[18] == "ddedbbd10ff129b49c64dbefaa763c6a".spec_bytes());
        } else if j == 19 {
            assert(game_keys()[19] == "4a9c69b42e442b673395b3253f292f17".spec_bytes());
        }
    }
    assert(game_keys()[20] == "42b66b41b6cea12fb54219e9d31e5dc8".spec_bytes() && game_values()[20] == GameVersion::Ch5_v244);
    lemma_lookup_first(game_keys(), game_values(), "42b66b41b6cea12fb54219e9d31e5dc8".spec_bytes(), 20);
}

proof fn game_digest_21()
    ensures
        spec_game_version("d0420c09a5debd6176ea24a1fe1ee3e3".spec_bytes()) == GameVersion::Ch5_v244,
{
    reveal_strlit("d0420c09a5debd6176ea24a1fe1ee3e3");
    reveal_strlit("a88a2db3a68c714ca2b1ff57ac08a032");
    assert("a88a2db3a68c714ca2b1ff57ac08a032"@[0] != "d0420c09a5debd6176ea24a1fe1ee3e3"@[0]);
    lemma_distinct_bytes("a88a2db3a68c714ca2b1ff57ac08a032", "d0420c09a5debd6176ea24a1fe1ee3e3");
    reveal_strlit("047c11435b1c592ec731bff3b9c5b0cf");
    assert("047c11435b1c592ec731bff3b9c5b0cf"@[0] != "d0420c09a5debd6176ea24a1fe1ee3e3"@[0]);
    lemma_distinct_bytes("047c11435b1c592ec731bff3b9c5b0cf", "d0420c09a5debd6176ea24a1fe1ee3e3");
    reveal_strlit("22008370824a37baef8948127963c769");
    assert("22008370824a37baef8948127963c769"@[0] != "d0420c09a5debd6176ea24a1fe1ee3e3"@[0]);
    lemma_distinct_bytes("22008370824a37baef8948127963c769", "d0420c09a5debd6176ea24a1fe1ee3e3");
    reveal_strlit("e05433fe679bc91e3809c1138e3a8ea1");
    assert("e05433fe679bc91e3809c1138e3a8ea1"@[0] != "d0420c09a5debd6176ea24a1fe1ee3e3"@[0]);
    lemma_distinct_bytes("e05433fe679bc91e3809c1138e3a8ea1", "d0420c09a5debd6176ea24a1fe1ee3e3");
    reveal_strlit("616c5751ac9fc584af250f1b04474afd");
    assert("616c5751ac9fc584af250f1b04474afd"@[0] != "d0420c09a5debd6176ea24a1fe1ee3e3"@[0]);
    lemma_distinct_bytes("616c5751ac9fc584af250f1b04474afd", "d0420c09a5debd6176ea24a1fe1ee3e3");
    reveal_strlit("05689183497e58838e99b897f2e0e6ac");
    assert("05689183497e58838e99b897f2e0e6ac"@[0] != "d0420c09a5debd6176ea24a1fe1ee3e3"@[0]);
    lemma_distinct_bytes("05689183497e58838e99b897f2e0e6ac", "d0420c09a5debd6176ea24a1fe1ee3e3");
    reveal_strlit("267a8abe468d824222810201f00003be");
    assert("267a8abe468d824222810201f00003be"@[0] != "d0420c09a5debd6176ea24a1fe1ee3e3"@[0]);
    lemma_distinct_bytes("267a8abe468d824222810201f00003be", "d0420c09a5debd6176ea24a1fe1ee3e3");
    reveal_strlit("272a16964597ed6dc8d2393ed051d3ce");
    assert("272a16964597ed6dc8d2393ed051d3ce"@[0] != "d0420c09a5debd6176ea24a1fe1ee3e3"@[0]);
    lemma_distinct_bytes("272a16964597ed6dc8d2393ed051d3ce", "d0420c09a5debd6176ea24a1fe1ee3e3");
    reveal_strlit("5fbe01f2bc1c04f45d809ffd060ac386");
    assert("5fbe01f2bc1c04f45d809ffd060ac386"@[0] != "d0420c09a5debd6176ea24a1fe1ee3e3"@[0]);
    lemma_distinct_bytes("5fbe01f2bc1c04f45d809ffd060ac386", "d0420c09a5debd6176ea24a1fe1ee3e3");
    reveal_strlit("a37c77a4310d2d6a6c2af18294aaae7a");
    assert("a37c77a4310d2d6a6c2af18294aaae7a"@[0] != "d0420c09a5debd6176ea24a1fe1ee3e3"@[0]);
    lemma_distinct_bytes("a37c77a4310d2d6a6c2af18294aaae7a", "d0420c09a5debd6176ea24a1fe1ee3e3");
    reveal_strlit("cd77a63d7902990dbc704fe32b30700a");
    assert("cd77a63d7902990dbc704fe32b30700a"@[0] != "d0420c09a5debd6176ea24a1fe1ee3e3"@[0]);
    lemma_distinct_bytes("cd77a63d7902990dbc704fe32b30700a", "d0420c09a5debd6176ea24a1fe1ee3e3");
    reveal_strlit("758c8862f22f778fdeafe25fbcd1f4ec");
    assert("758c8862f22f778fdeafe25fbcd1f4ec"@[0] != "d0420c09a5debd6176ea24a1fe1ee3e3"@[0]);
    lemma_distinct_bytes("758c8862f22f778fdeafe25fbcd1f4ec", "d0420c09a5debd6176ea24a1fe1ee3e3");
    reveal_strlit("ed4568bab864166bfd6322ceeb3fb544");
    assert("ed4568bab864166bfd6322ceeb3fb544"@[0] != "d0420c09a5debd6176ea24a1fe1ee3e3"@[0]);
    lemma_distinct_bytes("ed4568bab864166bfd6322ceeb3fb544", "d0420c09a5debd6176ea24a1fe1ee3e3");
    reveal_strlit("6bd6d1381c194c0f456b184cb48d132d");
    assert("6bd6d1381c194c0f456b184cb48d132d"@[0] != "d0420c09a5debd6176ea24a1fe1ee3e3"@[0]);
    lemma_distinct_bytes("6bd6d1381c194c0f456b184cb48d132d", "d0420c09a5debd6176ea24a1fe1ee3e3");
    reveal_strlit("7ad299a8b33fa449e20edfe0fededdb2");
    assert("7ad299a8b33fa449e20edfe0fededdb2"@[0] != "d0420c09a5debd6176ea24a1fe1ee3e3"@[0]);
    lemma_distinct_bytes("7ad299a8b33fa449e20edfe0fededdb2", "d0420c09a5debd6176ea24a1fe1ee3e3");
    reveal_strlit("fd0857e6a3af3aa74e5e00f15aea5224");
    assert("fd0857e6a3af3aa74e5e00f15aea5224"@[0] != "d0420c09a5debd6176ea24a1fe1ee3e3"@[0]);
    lemma_distinct_bytes("fd0857e6a3af3aa74e5e00f15aea5224", "d0420c09a5debd6176ea24a1fe1ee3e3");
    reveal_strlit("b5ef0eec9554c491777d6c4e93e0df76");
    assert("b5ef0eec9554c491777d6c4e93e0df76"@[0] != "d0420c09a5debd6176ea24a1fe1ee3e3"@[0]);
    lemma_distinct_bytes("b5ef0eec9554c491777d6c4e93e0df76", "d0420c09a5debd6176ea24a1fe1ee3e3");
    reveal_strlit("40a8185886a8a1a2be996bc57de3d916");
    assert("40a8185886a8a1a2be996bc57de3d916"@[0] != "d0420c09a5debd6176ea24a1fe1ee3e3"@[0]);
    lemma_distinct_bytes("40a8185886a8a1a2be996bc57de3d916", "d0420c09a5debd6176ea24a1fe1ee3e3");
    reveal_strlit("ddedbbd10ff129b49c64dbefaa763c6a");
    assert("ddedbbd10ff129b49c64dbefaa763c6a"@[1] != "d0420c09a5debd6176ea24a1fe1ee3e3"@[1]);
    lemma_distinct_bytes("ddedbbd10ff129b49c64dbefaa763c6a", "d0420c09a5debd6176ea24a1fe1ee3e3");
    reveal_strlit("4a9c69b42e442b673395b3253f292f17");
    assert("4a9c69b42e442b673395b3253f292f17"@[0] != "d0420c09a5debd6176ea24a1fe1ee3e3"@[0]);
    lemma_distinct_bytes("4a9c69b42e442b673395b3253f292f17", "d0420c09a5debd6176ea24a1fe1ee3e3");
    reveal_strlit("42b66b41b6cea12fb54219e9d31e5dc8");
    assert("42b66b41b6cea12fb54219e9d31e5dc8"@[0] != "d0420c09a5debd6176ea24a1fe1ee3e3"@[0]);
    lemma_distinct_bytes("42b66b41b6cea12fb54219e9d31e5dc8", "d0420c09a5debd6176ea24a1fe1ee3e3");
    assert forall|j: int| 0 <= j < 21 implies #[trigger] game_keys()[j] != "d0420c09a5debd6176ea24a1fe1ee3e3".spec_bytes() by {
        if j == 0 {
            assert(game_keys()[0] == "a88a2db3a68c714ca2b1ff57ac08a032".spec_bytes());
        } else if j == 1 {
            assert(game_keys()[1] == "047c11435b1c592ec731bff3b9c5b0cf".spec_bytes());
        } else if j == 2 {
            assert(game_keys()[2] == "22008370824a37baef8948127963c769".spec_bytes());
        } else if j == 3 {
            assert(game_keys()[3] == "e05433fe679bc91e3809c1138e3a8ea1".spec_bytes());
        } else if j == 4 {
            assert(game_keys()[4] == "616c5751ac9fc584af250f1b04474afd".spec_bytes());
        } else if j == 5 {
            assert(game_keys()[5] == "05689183497e58838e99b897f2e0e6ac".spec_bytes());
        } else if j == 6 {
            assert(game_keys()[6] == "267a8abe468d824222810201f00003be".spec_bytes());
        } else if j == 7 {
            assert(game_keys()[7] == "272a16964597ed6dc8d2393ed051d3ce".spec_bytes());
        } else if j == 8 {
            assert(game_keys()[8] == "5fbe01f2bc1c04f45d809ffd060ac386".spec_bytes());
        } else if j == 9 {
            assert(game_keys()[9] == "a37c77a4310d2d6a6c2af18294aaae7a".spec_bytes());
        } else if j == 10 {
            assert(game_keys()[10] == "cd77a63d7902990dbc704fe32b30700a".spec_bytes());
        } else if j == 11 {
            assert(game_keys()[11] == "758c8862f22f778fdeafe25fbcd1f4ec".spec_bytes());
        } else if j == 12 {
            assert(game_keys()[12] == "ed4568bab864166bfd6322ceeb3fb544".spec_bytes());
        } else if j == 13 {
            assert(game_keys()[13] == "6bd6d1381c194c0f456b184cb48d132d".spec_bytes());
        } else if j == 14 {
            assert(game_keys()[14] == "7ad299a8b33fa449e20edfe0fededdb2".spec_bytes());
        } else if j == 15 {
            assert(game_keys()[15] == "fd0857e6a3af3aa74e5e00f15aea5224".spec_bytes());
        } else if j == 16 {
            assert(game_keys()[16] == "b5ef0eec9554c491777d6c4e93e0df76".spec_bytes());
        } else if j == 17 {
            assert(game_keys()[17] == "40a8185886a8a1a2be996bc57de3d916".spec_bytes());
        } else if j == 18 {
            assert(game_keys()[18] == "ddedbbd10ff129b49c64dbefaa763c6a".spec_bytes());
        } else if j == 19 {
            assert(game_keys()[19] == "4a9c69b42e442b673395b3253f292f17".spec_bytes());
        } else if j == 20 {
            assert(game_keys()[20] == "42b66b41b6cea12fb54219e9d31e5dc8".spec_bytes());
        }
    }
    assert(game_keys()[21] == "d0420c09a5debd6176ea24a1fe1ee3e3".spec_bytes() && game_values()[21] == GameVersion::Ch5_v244);
    lemma_lookup_first(game_keys(), game_values(), "d0420c09a5debd6176ea24a1fe1ee3e3".spec_bytes(), 21);
}

proof fn game_digest_22()
    ensures
        spec_game_version("908643b7593b000f5b6c61bb484d086a".spec_bytes()) == GameVersion::Ch5_v247,
{
    reveal_strlit("908643b7593b000f5b6c61bb484d086a");
    reveal_strlit("a88a2db3a68c714ca2b1ff57ac08a032");
    assert("a88a2db3a68c714ca2b1ff57ac08a032"@[0] != "908643b7593b000f5b6c61bb484d086a"@[0]);
    lemma_distinct_bytes("a88a2db3a68c714ca2b1ff57ac08a032", "908643b7593b000f5b6c61bb484d086a");
    reveal_strlit("047c11435b1c592ec731bff3b9c5b0cf");
    assert("047c11435b1c592ec731bff3b9c5b0cf"@[0] != "908643b7593b000f5b6c61bb484d086a"@[0]);
    lemma_distinct_bytes("047c11435b1c592ec731bff3b9c5b0cf", "908643b7593b000f5b6c61bb484d086a");
    reveal_strlit("22008370824a37baef8948127963c769");
    assert("22008370824a37baef8948127963c769"@[0] != "908643b7593b000f5b6c61bb484d086a"@[0]);
    lemma_distinct_bytes("22008370824a37baef8948127963c769", "908643b7593b000f5b6c61bb484d086a");
    reveal_strlit("e05433fe679bc91e3809c1138e3a8ea1");
    assert("e05433fe679bc91e3809c1138e3a8ea1"@[0] != "908643b7593b000f5b6c61bb484d086a"@[0]);
    lemma_distinct_bytes("e05433fe679bc91e3809c1138e3a8ea1", "908643b7593b000f5b6c61bb484d086a");
    reveal_strlit("616c5751ac9fc584af250f1b04474afd");
    assert("616c5751ac9fc584af250f1b04474afd"@[0] != "908643b7593b000f5b6c61bb484d086a"@[0]);
    lemma_distinct_bytes("616c5751ac9fc584af250f1b04474afd", "908643b7593b000f5b6c61bb484d086a");
    reveal_strlit("05689183497e58838e99b897f2e0e6ac");
    assert("05689183497e58838e99b897f2e0e6ac"@[0] != "908643b7593b000f5b6c61bb484d086a"@[0]);
    lemma_distinct_bytes("05689183497e58838e99b897f2e0e6ac", "908643b7593b000f5b6c61bb484d086a");
    reveal_strlit("267a8abe468d824222810201f00003be");
    assert("267a8abe468d824222810201f00003be"@[0] != "908643b7593b000f5b6c61bb484d086a"@[0]);
    lemma_distinct_bytes("267a8abe468d824222810201f00003be", "908643b7593b000f5b6c61bb484d086a");
    reveal_strlit("272a16964597ed6dc8d2393ed051d3ce");
    assert("272a16964597ed6dc8d2393ed051d3ce"@[0] != "908643b7593b000f5b6c61bb484d086a"@[0]);
    lemma_distinct_bytes("272a16964597ed6dc8d2393ed051d3ce", "908643b7593b000f5b6c61bb484d086a");
    reveal_strlit("5fbe01f2bc1c04f45d809ffd060ac386");
    assert("5fbe01f2bc1c04f45d809ffd060ac386"@[0] != "908643b7593b000f5b6c61bb484d086a"@[0]);
    lemma_distinct_bytes("5fbe01f2bc1c04f45d809ffd060ac386", "908643b7593b000f5b6c61bb484d086a");
    reveal_strlit("a37c77a4310d2d6a6c2af18294aaae7a");
    assert("a37c77a4310d2d6a6c2af18294aaae7a"@[0] != "908643b7593b000f5b6c61bb484d086a"@[0]);
    lemma_distinct_bytes("a37c77a4310d2d6a6c2af18294aaae7a", "908643b7593b000f5b6c61bb484d086a");
    reveal_strlit("cd77a63d7902990dbc704fe32b30700a");
    assert("cd77a63d7902990dbc704fe32b30700a"@[0] != "908643b7593b000f5b6c61bb484d086a"@[0]);
    lemma_distinct_bytes("cd77a63d7902990dbc704fe32b30700a", "908643b7593b000f5b6c61bb484d086a");
    reveal_strlit("758c8862f22f778fdeafe25fbcd1f4ec");
    assert("758c8862f22f778fdeafe25fbcd1f4ec"@[0] != "908643b7593b000f5b6c61bb484d086a"@[0]);
    lemma_distinct_bytes("758c8862f22f778fdeafe25fbcd1f4ec", "908643b7593b000f5b6c61bb484d086a");
    reveal_strlit("ed4568bab864166bfd6322ceeb3fb544");
    assert("ed4568bab864166bfd6322ceeb3fb544"@[0] != "908643b7593b000f5b6c61bb484d086a"@[0]);
    lemma_distinct_bytes("ed4568bab864166bfd6322ceeb3fb544", "908643b7593b000f5b6c61bb484d086a");
    reveal_strlit("6bd6d1381c194c0f456b184cb48d132d");
    assert("6bd6d1381c194c0f456b184cb48d132d"@[0] != "908643b7593b000f5b6c61bb484d086a"@[0]);
    lemma_distinct_bytes("6bd6d1381c194c0f456b184cb48d132d", "908643b7593b000f5b6c61bb484d086a");
    reveal_strlit("7ad299a8b33fa449e20edfe0fededdb2");
    assert("7ad299a8b33fa449e20edfe0fededdb2"@[0] != "908643b7593b000f5b6c61bb484d086a"@[0]);
    lemma_distinct_bytes("7ad299a8b33fa449e20edfe0fededdb2", "908643b7593b000f5b6c61bb484d086a");
    reveal_strlit("fd0857e6a3af3aa74e5e00f15aea5224");
    assert("fd0857e6a3af3aa74e5e00f15aea5224"@[0] != "908643b7593b000f5b6c61bb484d086a"@[0]);
    lemma_distinct_bytes("fd0857e6a3af3aa74e5e00f15aea5224", "908643b7593b000f5b6c61bb484d086a");
    reveal_strlit("b5ef0eec9554c491777d6c4e93e0df76");
    assert("b5ef0eec9554c491777d6c4e93e0df76"@[0] != "908643b7593b000f5b6c61bb484d086a"@[0]);
    lemma_distinct_bytes("b5ef0eec9554c491777d6c4e93e0df76", "908643b7593b000f5b6c61bb484d086a");
    reveal_strlit("40a8185886a8a1a2be996bc57de3d916");
    assert("40a8185886a8a1a2be996bc57de3d916"@[0] != "908643b7593b000f5b6c61bb484d086a"@[0]);
    lemma_distinct_bytes("40a8185886a8a1a2be996bc57de3d916", "908643b7593b000f5b6c61bb484d086a");
    reveal_strlit("ddedbbd10ff129b49c64dbefaa763c6a");
    assert("ddedbbd10ff129b49c64dbefaa763c6a"@[0] != "908643b7593b000f5b6c61bb484d086a"@[0]);
    lemma_distinct_bytes("ddedbbd10ff129b49c64dbefaa763c6a", "908643b7593b000f5b6c61bb484d086a");
    reveal_strlit("4a9c69b42e442b673395b3253f292f17");
    assert("4a9c69b42e442b673395b3253f292f17"@[0] != "908643b7593b000f5b6c61bb484d086a"@[0]);
    lemma_distinct_bytes("4a9c69b42e442b673395b3253f292f17", "908643b7593b000f5b6c61bb484d086a");
    reveal_strlit("42b66b41b6cea12fb54219e9d31e5dc8");
    assert("42b66b41b6cea12fb54219e9d31e5dc8"@[0] != "908643b7593b000f5b6c61bb484d086a"@[0]);
    lemma_distinct_bytes("42b66b41b6cea12fb54219e9d31e5dc8", "908643b7593b000f5b6c61bb484d086a");
    reveal_strlit("d0420c09a5debd6176ea24a1fe1ee3e3");
    assert("d0420c09a5debd6176ea24a1fe1ee3e3"@[0] != "908643b7593b000f5b6c61bb484d086a"@[0]);
    lemma_distinct_bytes("d0420c09a5debd6176ea24a1fe1ee3e3", "908643b7593b000f5b6c61bb484d086a");
    assert forall|j: int| 0 <= j < 22 implies #[trigger] game_keys()[j] != "908643b7593b000f5b6c61bb484d086a".spec_bytes() by {
        if j == 0 {
            assert(game_keys()[0] == "a88a2db3a68c714ca2b1ff57ac08a032".spec_bytes());
        } else if j == 1 {
            assert(game_keys()[1] == "047c11435b1c592ec731bff3b9c5b0cf".spec_bytes());
        } else if j == 2 {
            assert(game_keys()[2] == "22008370824a37baef8948127963c769".spec_bytes());
        } else if j == 3 {
            assert(game_keys()[3] == "e05433fe679bc91e3809c1138e3a8ea1".spec_bytes());
        } else if j == 4 {
            assert(game_keys()[4] == "616c5751ac9fc584af250f1b04474afd".spec_bytes());
        } else if j == 5 {
            assert(game_keys()[5] == "05689183497e58838e99b897f2e0e6ac".spec_bytes());
        } else if j == 6 {
            assert(game_keys()[6] == "267a8abe468d824222810201f00003be".spec_bytes());
        } else if j == 7 {
            assert(game_keys()[7] == "272a16964597ed6dc8d2393ed051d3ce".spec_bytes());
        } else if j == 8 {
            assert(game_keys()[8] == "5fbe01f2bc1c04f45d809ffd060ac386".spec_bytes());
        } else if j == 9 {
            assert(game_keys()[9] == "a37c77a4310d2d6a6c2af18294aaae7a".spec_bytes());
        } else if j == 10 {
            assert(game_keys()[10] == "cd77a63d7902990dbc704fe32b30700a".spec_bytes());
        } else if j == 11 {
            assert(game_keys()[11] == "758c8862f22f778fdeafe25fbcd1f4ec".spec_bytes());
        } else if j == 12 {
            assert(game_keys()[12] == "ed4568bab864166bfd6322ceeb3fb544".spec_bytes());
        } else if j == 13 {
            assert(game_keys()[13] == "6bd6d1381c194c0f456b184cb48d132d".spec_bytes());
        } else if j == 14 {
            assert(game_keys()[14] == "7ad299a8b33fa449e20edfe0fededdb2".spec_bytes());
        } else if j == 15 {
            assert(game_keys()[15] == "fd0857e6a3af3aa74e5e00f15aea5224".spec_bytes());
        } else if j == 16 {
            assert(game_keys()[16] == "b5ef0eec9554c491777d6c4e93e0df76".spec_bytes());
        } else if j == 17 {
            assert(game_keys()[17] == "40a8185886a8a1a2be996bc57de3d916".spec_bytes());
        } else if j == 18 {
            assert(game_keys()[18] == "ddedbbd10ff129b49c64dbefaa763c6a".spec_bytes());
        } else if j == 19 {
            assert(game_keys()[19] == "4a9c69b42e442b673395b3253f292f17".spec_bytes());
        } else if j == 20 {
            assert(game_keys()[20] == "42b66b41b6cea12fb54219e9d31e5dc8".spec_bytes());
        } else if j == 21 {
            assert(game_keys()[21] == "d0420c09a5debd6176ea24a1fe1ee3e3".spec_bytes());
        }
    }
    assert(game_keys()[22] == "908643b7593b000f5b6c61bb484d086a".spec_bytes() && game_values()[22] == GameVersion::Ch5_v247);
    lemma_lookup_first(game_keys(), game_values(), "908643b7593b000f5b6c61bb484d086a".spec_bytes(), 22);
}

proof fn game_digest_23()
    ensures
        spec_game_version("80a63475ef69529b612f9dca75af4cc5".spec_bytes()) == GameVersion::Ch5_v247,
{
    reveal_strlit("80a63475ef69529b612f9dca75af4cc5");
    reveal_strlit("a88a2db3a68c714ca2b1ff57ac08a032");
    assert("a88a2db3a68c714ca2b1ff57ac08a032"@[0] != "80a63475ef69529b612f9dca75af4cc5"@[0]);
    lemma_distinct_bytes("a88a2db3a68c714ca2b1ff57ac08a032", "80a63475ef69529b612f9dca75af4cc5");
    reveal_strlit("047c11435b1c592ec731bff3b9c5b0cf");
    assert("047c11435b1c592ec731bff3b9c5b0cf"@[0] != "80a63475ef69529b612f9dca75af4cc5"@[0]);
    lemma_distinct_bytes("047c11435b1c592ec731bff3b9c5b0cf", "80a63475ef69529b612f9dca75af4cc5");
    reveal_strlit("22008370824a37baef8948127963c769");
    assert("22008370824a37baef8948127963c769"@[0] != "80a63475ef69529b612f9dca75af4cc5"@[0]);
    lemma_distinct_bytes("22008370824a37baef8948127963c769", "80a63475ef69529b612f9dca75af4cc5");
    reveal_strlit("e05433fe679bc91e3809c1138e3a8ea1");
    assert("e05433fe679bc91e3809c1138e3a8ea1"@[0] != "80a63475ef69529b612f9dca75af4cc5"@[0]);
    lemma_distinct_bytes("e05433fe679bc91e3809c1138e3a8ea1", "80a63475ef69529b612f9dca75af4cc5");
    reveal_strlit("616c5751ac9fc584af250f1b04474afd");
    assert("616c5751ac9fc584af250f1b04474afd"@[0] != "80a63475ef69529b612f9dca75af4cc5"@[0]);
    lemma_distinct_bytes("616c5751ac9fc584af250f1b04474afd", "80a63475ef69529b612f9dca75af4cc5");
    reveal_strlit("05689183497e58838e99b897f2e0e6ac");
    assert("05689183497e58838e99b897f2e0e6ac"@[0] != "80a63475ef69529b612f9dca75af4cc5"@[0]);
    lemma_distinct_bytes("05689183497e58838e99b897f2e0e6ac", "80a63475ef69529b612f9dca75af4cc5");
    reveal_strlit("267a8abe468d824222810201f00003be");
    assert("267a8abe468d824222810201f00003be"@[0] != "80a63475ef69529b612f9dca75af4cc5"@[0]);
    lemma_distinct_bytes("267a8abe468d824222810201f00003be", "80a63475ef69529b612f9dca75af4cc5");
    reveal_strlit("272a16964597ed6dc8d2393ed051d3ce");
    assert("272a16964597ed6dc8d2393ed051d3ce"@[0] != "80a63475ef69529b612f9dca75af4cc5"@[0]);
    lemma_distinct_bytes("272a16964597ed6dc8d2393ed051d3ce", "80a63475ef69529b612f9dca75af4cc5");
    reveal_strlit("5fbe01f2bc1c04f45d809ffd060ac386");
    assert("5fbe01f2bc1c04f45d809ffd060ac386"@[0] != "80a63475ef69529b612f9dca75af4cc5"@[0]);
    lemma_distinct_bytes("5fbe01f2bc1c04f45d809ffd060ac386", "80a63475ef69529b612f9dca75af4cc5");
    reveal_strlit("a37c77a4310d2d6a6c2af18294aaae7a");
    assert("a37c77a4310d2d6a6c2af18294aaae7a"@[0] != "80a63475ef69529b612f9dca75af4cc5"@[0]);
    lemma_distinct_bytes("a37c77a4310d2d6a6c2af18294aaae7a", "80a63475ef69529b612f9dca75af4cc5");
    reveal_strlit("cd77a63d7902990dbc704fe32b30700a");
    assert("cd77a63d7902990dbc704fe32b30700a"@[0] != "80a63475ef69529b612f9dca75af4cc5"@[0]);
    lemma_distinct_bytes("cd77a63d7902990dbc704fe32b30700a", "80a63475ef69529b612f9dca75af4cc5");
    reveal_strlit("758c8862f22f778fdeafe25fbcd1f4ec");
    assert("758c8862f22f778fdeafe25fbcd1f4ec"@[0] != "80a63475ef69529b612f9dca75af4cc5"@[0]);
    lemma_distinct_bytes("758c8862f22f778fdeafe25fbcd1f4ec", "80a63475ef69529b612f9dca75af4cc5");
    reveal_strlit("ed4568bab864166bfd6322ceeb3fb544");
    assert("ed4568bab864166bfd6322ceeb3fb544"@[0] != "80a63475ef69529b612f9dca75af4cc5"@[0]);
    lemma_distinct_bytes("ed4568bab864166bfd6322ceeb3fb544", "80a63475ef69529b612f9dca75af4cc5");
    reveal_strlit("6bd6d1381c194c0f456b184cb48d132d");
    assert("6bd6d1381c194c0f456b184cb48d132d"@[0] != "80a63475ef69529b612f9dca75af4cc5"@[0]);
    lemma_distinct_bytes("6bd6d1381c194c0f456b184cb48d132d", "80a63475ef69529b612f9dca75af4cc5");
    reveal_strlit("7ad299a8b33fa449e20edfe0fededdb2");
    assert("7ad299a8b33fa449e20edfe0fededdb2"@[0] != "80a63475ef69529b612f9dca75af4cc5"@[0]);
    lemma_distinct_bytes("7ad299a8b33fa449e20edfe0fededdb2", "80a63475ef69529b612f9dca75af4cc5");
    reveal_strlit("fd0857e6a3af3aa74e5e00f15aea5224");
    assert("fd0857e6a3af3aa74e5e00f15aea5224"@[0] != "80a63475ef69529b612f9dca75af4cc5"@[0]);
    lemma_distinct_bytes("fd0857e6a3af3aa74e5e00f15aea5224", "80a63475ef69529b612f9dca75af4cc5");
    reveal_strlit("b5ef0eec9554c491777d6c4e93e0df76");
    assert("b5ef0eec9554c491777d6c4e93e0df76"@[0] != "80a63475ef69529b612f9dca75af4cc5"@[0]);
    lemma_distinct_bytes("b5ef0eec9554c491777d6c4e93e0df76", "80a63475ef69529b612f9dca75af4cc5");
    reveal_strlit("40a8185886a8a1a2be996bc57de3d916");
    assert("40a8185886a8a1a2be996bc57de3d916"@[0] != "80a63475ef69529b612f9dca75af4cc5"@[0]);
    lemma_distinct_bytes("40a8185886a8a1a2be996bc57de3d916", "80a63475ef69529b612f9dca75af4cc5");
    reveal_strlit("ddedbbd10ff129b49c64dbefaa763c6a");
    assert("ddedbbd10ff129b49c64dbefaa763c6a"@[0] != "80a63475ef69529b612f9dca75af4cc5"@[0]);
    lemma_distinct_bytes("ddedbbd10ff129b49c64dbefaa763c6a", "80a63475ef69529b612f9dca75af4cc5");
    reveal_strlit("4a9c69b42e442b673395b3253f292f17");
    assert("4a9c69b42e442b673395b3253f292f17"@[0] != "80a63475ef69529b612f9dca75af4cc5"@[0]);
    lemma_distinct_bytes("4a9c69b42e442b673395b3253f292f17", "80a63475ef69529b612f9dca75af4cc5");
    reveal_strlit("42b66b41b6cea12fb54219e9d31e5dc8");
    assert("42b66b41b6cea12fb54219e9d31e5dc8"@[0] != "80a63475ef69529b612f9dca75af4cc5"@[0]);
    lemma_distinct_bytes("42b66b41b6cea12fb54219e9d31e5dc8", "80a63475ef69529b612f9dca75af4cc5");
    reveal_strlit("d0420c09a5debd6176ea24a1fe1ee3e3");
    assert("d0420c09a5debd6176ea24a1fe1ee3e3"@[0] != "80a63475ef69529b612f9dca75af4cc5"@[0]);
    lemma_distinct_bytes("d0420c09a5debd6176ea24a1fe1ee3e3", "80a63475ef69529b612f9dca75af4cc5");
    reveal_strlit("908643b7593b000f5b6c61bb484d086a");
    assert("908643b7593b000f5b6c61bb484d086a"@[0] != "80a63475ef69529b612f9dca75af4cc5"@[0]);
    lemma_distinct_bytes("908643b7593b000f5b6c61bb484d086a", "80a63475ef69529b612f9dca75af4cc5");
    assert forall|j: int| 0 <= j < 23 implies #[trigger] game_keys()[j] != "80a63475ef69529b612f9dca75af4cc5".spec_bytes() by {
        if j == 0 {
            assert(game_keys()[0] == "a88a2db3a68c714ca2b1ff57ac08a032".spec_bytes());
        } else if j == 1 {
            assert(game_keys()[1] == "047c11435b1c592ec731bff3b9c5b0cf".spec_bytes());
        } else if j == 2 {
            assert(game_keys()[2] == "22008370824a37baef8948127963c769".spec_bytes());
        } else if j == 3 {
            assert(game_keys()[3] == "e05433fe679bc91e3809c1138e3a8ea1".spec_bytes());
        } else if j == 4 {
            assert(game_keys()[4] == "616c5751ac9fc584af250f1b04474afd".spec_bytes());
        } else if j == 5 {
            assert(game_keys()[5] == "05689183497e58838e99b897f2e0e6ac".spec_bytes());
        } else if j == 6 {
            assert(game_keys()[6] == "267a8abe468d824222810201f00003be".spec_bytes());
        } else if j == 7 {
            assert(game_keys()[7] == "272a16964597ed6dc8d2393ed051d3ce".spec_bytes());
        } else if j == 8 {
            assert(game_keys()[8] == "5fbe01f2bc1c04f45d809ffd060ac386".spec_bytes());
        } else if j == 9 {
            assert(game_keys()[9] == "a37c77a4310d2d6a6c2af18294aaae7a".spec_bytes());
        } else if j == 10 {
            assert(game_keys()[10] == "cd77a63d7902990dbc704fe32b30700a".spec_bytes());
        } else if j == 11 {
            assert(game_keys()[11] == "758c8862f22f778fdeafe25fbcd1f4ec".spec_bytes());
        } else if j == 12 {
            assert(game_keys()[12] == "ed4568bab864166bfd6322ceeb3fb544".spec_bytes());
        } else if j == 13 {
            assert(game_keys()[13] == "6bd6d1381c194c0f456b184cb48d132d".spec_bytes());
        } else if j == 14 {
            assert(game_keys()[14] == "7ad299a8b33fa449e20edfe0fededdb2".spec_bytes());
        } else if j == 15 {
            assert(game_keys()[15] == "fd0857e6a3af3aa74e5e00f15aea5224".spec_bytes());
        } else if j == 16 {
            assert(game_keys()[16] == "b5ef0eec9554c491777d6c4e93e0df76".spec_bytes());
        } else if j == 17 {
            assert(game_keys()[17] == "40a8185886a8a1a2be996bc57de3d916".spec_bytes());
        } else if j == 18 {
            assert(game_keys()[18] == "ddedbbd10ff129b49c64dbefaa763c6a".spec_bytes());
        } else if j == 19 {
            assert(game_keys()[19] == "4a9c69b42e442b673395b3253f292f17".spec_bytes());
        } else if j == 20 {
            assert(game_keys()[20] == "42b66b41b6cea12fb54219e9d31e5dc8".spec_bytes());
        } else if j == 21 {
            assert(game_keys()[21] == "d0420c09a5debd6176ea24a1fe1ee3e3".spec_bytes());
        } else if j == 22 {
            assert(game_keys()[22] == "908643b7593b000f5b6c61bb484d086a".spec_bytes());
        }
    }
    assert(game_keys()[23] == "80a63475ef69529b612f9dca75af4cc5".spec_bytes() && game_values()[23] == GameVersion::Ch5_v247);
    lemma_lookup_first(game_keys(), game_values(), "80a63475ef69529b612f9dca75af4cc5".spec_bytes(), 23);
}

proof fn game_digest_24()
    ensures
        spec_game_version("3217f3bfe82c3e4aa8ee2e9e3a4f4e14".spec_bytes()) == GameVersion::Ch5_v247,
{
    reveal_strlit("3217f3bfe82c3e4aa8ee2e9e3a4f4e14");
    reveal_strlit("a88a2db3a68c714ca2b1ff57ac08a032");
    assert("a88a2db3a68c714ca2b1ff57ac08a032"@[0] != "3217f3bfe82c3e4aa8ee2e9e3a4f4e14"@[0]);
    lemma_distinct_bytes("a88a2db3a68c714ca2b1ff57ac08a032", "3217f3bfe82c3e4aa8ee2e9e3a4f4e14");
    reveal_strlit("047c11435b1c592ec731bff3b9c5b0cf");
    assert("047c11435b1c592ec731bff3b9c5b0cf"@[0] != "3217f3bfe82c3e4aa8ee2e9e3a4f4e14"@[0]);
    lemma_distinct_bytes("047c11435b1c592ec731bff3b9c5b0cf", "3217f3bfe82c3e4aa8ee2e9e3a4f4e14");
    reveal_strlit("22008370824a37baef8948127963c769");
    assert("22008370824a37baef8948127963c769"@[0] != "3217f3bfe82c3e4aa8ee2e9e3a4f4e14"@[0]);
    lemma_distinct_bytes("22008370824a37baef8948127963c769", "3217f3bfe82c3e4aa8ee2e9e3a4f4e14");
    reveal_strlit("e05433fe679bc91e3809c1138e3a8ea1");
    assert("e05433fe679bc91e3809c1138e3a8ea1"@[0] != "3217f3bfe82c3e4aa8ee2e9e3a4f4e14"@[0]);
    lemma_distinct_bytes("e05433fe679bc91e3809c1138e3a8ea1", "3217f3bfe82c3e4aa8ee2e9e3a4f4e14");
    reveal_strlit("616c5751ac9fc584af250f1b04474afd");
    assert("616c5751ac9fc584af250f1b04474afd"@[0] != "3217f3bfe82c3e4aa8ee2e9e3a4f4e14"@[0]);
    lemma_distinct_bytes("616c5751ac9fc584af250f1b04474afd", "3217f3bfe82c3e4aa8ee2e9e3a4f4e14");
    reveal_strlit("05689183497e58838e99b897f2e0e6ac");
    assert("05689183497e58838e99b897f2e0e6ac"@[0] != "3217f3bfe82c3e4aa8ee2e9e3a4f4e14"@[0]);
    lemma_distinct_bytes("05689183497e58838e99b897f2e0e6ac", "3217f3bfe82c3e4aa8ee2e9e3a4f4e14");
    reveal_strlit("267a8abe468d824222810201f00003be");
    assert("267a8abe468d824222810201f00003be"@[0] != "3217f3bfe82c3e4aa8ee2e9e3a4f4e14"@[0]);
    lemma_distinct_bytes("267a8abe468d824222810201f00003be", "3217f3bfe82c3e4aa8ee2e9e3a4f4e14");
    reveal_strlit("272a16964597ed6dc8d2393ed051d3ce");
    assert("272a16964597ed6dc8d2393ed051d3ce"@[0] != "3217f3bfe82c3e4aa8ee2e9e3a4f4e14"@[0]);
    lemma_distinct_bytes("272a16964597ed6dc8d2393ed051d3ce", "3217f3bfe82c3e4aa8ee2e9e3a4f4e14");
    reveal_strlit("5fbe01f2bc1c04f45d809ffd060ac386");
    assert("5fbe01f2bc1c04f45d809ffd060ac386"@[0] != "3217f3bfe82c3e4aa8ee2e9e3a4f4e14"@[0]);
    lemma_distinct_bytes("5fbe01f2bc1c04f45d809ffd060ac386", "3217f3bfe82c3e4aa8ee2e9e3a4f4e14");
    reveal_strlit("a37c77a4310d2d6a6c2af18294aaae7a");
    assert("a37c77a4310d2d6a6c2af18294aaae7a"@[0] != "3217f3bfe82c3e4aa8ee2e9e3a4f4e14"@[0]);
    lemma_distinct_bytes("a37c77a4310d2d6a6c2af18294aaae7a", "3217f3bfe82c3e4aa8ee2e9e3a4f4e14");
    reveal_strlit("cd77a63d7902990dbc704fe32b30700a");
    assert("cd77a63d7902990dbc704fe32b30700a"@[0] != "3217f3bfe82c3e4aa8ee2e9e3a4f4e14"@[0]);
    lemma_distinct_bytes("cd77a63d7902990dbc704fe32b30700a", "3217f3bfe82c3e4aa8ee2e9e3a4f4e14");
    reveal_strlit("758c8862f22f778fdeafe25fbcd1f4ec");
    assert("758c8862f22f778fdeafe25fbcd1f4ec"@[0] != "3217f3bfe82c3e4aa8ee2e9e3a4f4e14"@[0]);
    lemma_distinct_bytes("758c8862f22f778fdeafe25fbcd1f4ec", "3217f3bfe82c3e4aa8ee2e9e3a4f4e14");
    reveal_strlit("ed4568bab864166bfd6322ceeb3fb544");
    assert("ed4568bab864166bfd6322ceeb3fb544"@[0] != "3217f3bfe82c3e4aa8ee2e9e3a4f4e14"@[0]);
    lemma_distinct_bytes("ed4568bab864166bfd6322ceeb3fb544", "3217f3bfe82c3e4aa8ee2e9e3a4f4e14");
    reveal_strlit("6bd6d1381c194c0f456b184cb48d132d");
    assert("6bd6d1381c194c0f456b184cb48d132d"@[0] != "3217f3bfe82c3e4aa8ee2e9e3a4f4e14"@[0]);
    lemma_distinct_bytes("6bd6d1381c194c0f456b184cb48d132d", "3217f3bfe82c3e4aa8ee2e9e3a4f4e14");
    reveal_strlit("7ad299a8b33fa449e20edfe0fededdb2");
    assert("7ad299a8b33fa449e20edfe0fededdb2"@[0] != "3217f3bfe82c3e4aa8ee2e9e3a4f4e14"@[0]);
    lemma_distinct_bytes("7ad299a8b33fa449e20edfe0fededdb2", "3217f3bfe82c3e4aa8ee2e9e3a4f4e14");
    reveal_strlit("fd0857e6a3af3aa74e5e00f15aea5224");
    assert("fd0857e6a3af3aa74e5e00f15aea5224"@[0] != "3217f3bfe82c3e4aa8ee2e9e3a4f4e14"@[0]);
    lemma_distinct_bytes("fd0857e6a3af3aa74e5e00f15aea5224", "3217f3bfe82c3e4aa8ee2e9e3a4f4e14");
    reveal_strlit("b5ef0eec9554c491777d6c4e93e0df76");
    assert("b5ef0eec9554c491777d6c4e93e0df76"@[0] != "3217f3bfe82c3e4aa8ee2e9e3a4f4e14"@[0]);
    lemma_distinct_bytes("b5ef0eec9554c491777d6c4e93e0df76", "3217f3bfe82c3e4aa8ee2e9e3a4f4e14");
    reveal_strlit("40a8185886a8a1a2be996bc57de3d916");
    assert("40a8185886a8a1a2be996bc57de3d916"@[0] != "3217f3bfe82c3e4aa8ee2e9e3a4f4e14"@[0]);
    lemma_distinct_bytes("40a8185886a8a1a2be996bc57de3d916", "3217f3bfe82c3e4aa8ee2e9e3a4f4e14");
    reveal_strlit("ddedbbd10ff129b49c64dbefaa763c6a");
    assert("ddedbbd10ff129b49c64dbefaa763c6a"@[0] != "3217f3bfe82c3e4aa8ee2e9e3a4f4e14"@[0]);
    lemma_distinct_bytes("ddedbbd10ff129b49c64dbefaa763c6a", "3217f3bfe82c3e4aa8ee2e9e3a4f4e14");
    reveal_strlit("4a9c69b42e442b673395b3253f292f17");
    assert("4a9c69b42e442b673395b3253f292f17"@[0] != "3217f3bfe82c3e4aa8ee2e9e3a4f4e14"@[0]);
    lemma_distinct_bytes("4a9c69b42e442b673395b3253f292f17", "3217f3bfe82c3e4aa8ee2e9e3a4f4e14");
    reveal_strlit("42b66b41b6cea12fb54219e9d31e5dc8");
    assert("42b66b41b6cea12fb54219e9d31e5dc8"@[0] != "3217f3bfe82c3e4aa8ee2e9e3a4f4e14"@[0]);
    lemma_distinct_bytes("42b66b41b6cea12fb54219e9d31e5dc8", "3217f3bfe82c3e4aa8ee2e9e3a4f4e14");
    reveal_strlit("d0420c09a5debd6176ea24a1fe1ee3e3");
    assert("d0420c09a5debd6176ea24a1fe1ee3e3"@[0] != "3217f3bfe82c3e4aa8ee2e9e3a4f4e14"@[0]);
    lemma_distinct_bytes("d0420c09a5debd6176ea24a1fe1ee3e3", "3217f3bfe82c3e4aa8ee2e9e3a4f4e14");
    reveal_strlit("908643b7593b000f5b6c61bb484d086a");
    assert("908643b7593b000f5b6c61bb484d086a"@[0] != "3217f3bfe82c3e4aa8ee2e9e3a4f4e14"@[0]);
    lemma_distinct_bytes("908643b7593b000f5b6c61bb484d086a", "3217f3bfe82c3e4aa8ee2e9e3a4f4e14");
    reveal_strlit("80a63475ef69529b612f9dca75af4cc5");
    assert("80a63475ef69529b612f9dca75af4cc5"@[0] != "3217f3bfe82c3e4aa8ee2e9e3a4f4e14"@[0]);
    lemma_distinct_bytes("80a63475ef69529b612f9dca75af4cc5", "3217f3bfe82c3e4aa8ee2e9e3a4f4e14");
    assert forall|j: int| 0 <= j < 24 implies #[trigger] game_keys()[j] != "3217f3bfe82c3e4aa8ee2e9e3a4f4e14".spec_bytes() by {
        if j == 0 {
            assert(game_keys()[0] == "a88a2db3a68c714ca2b1ff57ac08a032".spec_bytes());
        } else if j == 1 {
            assert(game_keys()[1] == "047c11435b1c592ec731bff3b9c5b0cf".spec_bytes());
        } else if j == 2 {
            assert(game_keys()[2] == "22008370824a37baef8948127963c769".spec_bytes());
        } else if j == 3 {
            assert(game_keys()[3] == "e05433fe679bc91e3809c1138e3a8ea1".spec_bytes());
        } else if j == 4 {
            assert(game_keys()[4] == "616c5751ac9fc584af250f1b04474afd".spec_bytes());
        } else if j == 5 {
            assert(game_keys()[5] == "05689183497e58838e99b897f2e0e6ac".spec_bytes());
        } else if j == 6 {
            assert(game_keys()[6] == "267a8abe468d824222810201f00003be".spec_bytes());
        } else if j == 7 {
            assert(game_keys()[7] == "272a16964597ed6dc8d2393ed051d3ce".spec_bytes());
        } else if j == 8 {
            assert(game_keys()[8] == "5fbe01f2bc1c04f45d809ffd060ac386".spec_bytes());
        } else if j == 9 {
            assert(game_keys()[9] == "a37c77a4310d2d6a6c2af18294aaae7a".spec_bytes());
        } else if j == 10 {
            assert(game_keys()[10] == "cd77a63d7902990dbc704fe32b30700a".spec_bytes());
        } else if j == 11 {
            assert(game_keys()[11] == "758c8862f22f778fdeafe25fbcd1f4ec".spec_bytes());
        } else if j == 12 {
            assert(game_keys()[12] == "ed4568bab864166bfd6322ceeb3fb544".spec_bytes());
        } else if j == 13 {
            assert(game_keys()[13] == "6bd6d1381c194c0f456b184cb48d132d".spec_bytes());
        } else if j == 14 {
            assert(game_keys()[14] == "7ad299a8b33fa449e20edfe0fededdb2".spec_bytes());
        } else if j == 15 {
            assert(game_keys()[15] == "fd0857e6a3af3aa74e5e00f15aea5224".spec_bytes());
        } else if j == 16 {
            assert(game_keys()[16] == "b5ef0eec9554c491777d6c4e93e0df76".spec_bytes());
        } else if j == 17 {
            assert(game_keys()[17] == "40a8185886a8a1a2be996bc57de3d916".spec_bytes());
        } else if j == 18 {
            assert(game_keys()[18] == "ddedbbd10ff129b49c64dbefaa763c6a".spec_bytes());
        } else if j == 19 {
            assert(game_keys()[19] == "4a9c69b42e442b673395b3253f292f17".spec_bytes());
        } else if j == 20 {
            assert(game_keys()[20] == "42b66b41b6cea12fb54219e9d31e5dc8".spec_bytes());
        } else if j == 21 {
            assert(game_keys()[21] == "d0420c09a5debd6176ea24a1fe1ee3e3".spec_bytes());
        } else if j == 22 {
            assert(game_keys()[22] == "908643b7593b000f5b6c61bb484d086a".spec_bytes());
        } else if j == 23 {
            assert(game_keys()[23] == "80a63475ef69529b612f9dca75af4cc5".spec_bytes());
        }
    }
    assert(game_keys()[24] == "3217f3bfe82c3e4aa8ee2e9e3a4f4e14".spec_bytes() && game_values()[24] == GameVersion::Ch5_v247);
    lemma_lookup_first(game_keys(), game_values(), "3217f3bfe82c3e4aa8ee2e9e3a4f4e14".spec_bytes(), 24);
}

proof fn game_digest_25()
    ensures
        spec_game_version("21cdd09eeadbcc77535ab2bb3412259a".spec_bytes()) == GameVersion::Ch5_v247,
{
    reveal_strlit("21cdd09eeadbcc77535ab2bb3412259a");
    reveal_strlit("a88a2db3a68c714ca2b1ff57ac08a032");
    assert("a88a2db3a68c714ca2b1ff57ac08a032"@[0] != "21cdd09eeadbcc77535ab2bb3412259a"@[0]);
    lemma_distinct_bytes("a88a2db3a68c714ca2b1ff57ac08a032", "21cdd09eeadbcc77535ab2bb3412259a");
    reveal_strlit("047c11435b1c592ec731bff3b9c5b0cf");
    assert("047c11435b1c592ec731bff3b9c5b0cf"@[0] != "21cdd09eeadbcc77535ab2bb3412259a"@[0]);
    lemma_distinct_bytes("047c11435b1c592ec731bff3b9c5b0cf", "21cdd09eeadbcc77535ab2bb3412259a");
    reveal_strlit("22008370824a37baef8948127963c769");
    assert("22008370824a37baef8948127963c769"@[1] != "21cdd09eeadbcc77535ab2bb3412259a"@[1]);
    lemma_distinct_bytes("22008370824a37baef8948127963c769", "21cdd09eeadbcc77535ab2bb3412259a");
    reveal_strlit("e05433fe679bc91e3809c1138e3a8ea1");
    assert("e05433fe679bc91e3809c1138e3a8ea1"@[0] != "21cdd09eeadbcc77535ab2bb3412259a"@[0]);
    lemma_distinct_bytes("e05433fe679bc91e3809c1138e3a8ea1", "21cdd09eeadbcc77535ab2bb3412259a");
    reveal_strlit("616c5751ac9fc584af250f1b04474afd");
    assert("616c5751ac9fc584af250f1b04474afd"@[0] != "21cdd09eeadbcc77535ab2bb3412259a"@[0]);
    lemma_distinct_bytes("616c5751ac9fc584af250f1b04474afd", "21cdd09eeadbcc77535ab2bb3412259a");
    reveal_strlit("05689183497e58838e99b897f2e0e6ac");
    assert("05689183497e58838e99b897f2e0e6ac"@[0] != "21cdd09eeadbcc77535ab2bb3412259a"@[0]);
    lemma_distinct_bytes("05689183497e58838e99b897f2e0e6ac", "21cdd09eeadbcc77535ab2bb3412259a");
    reveal_strlit("267a8abe468d824222810201f00003be");
    assert("267a8abe468d824222810201f00003be"@[1] != "21cdd09eeadbcc77535ab2bb3412259a"@[1]);
    lemma_distinct_bytes("267a8abe468d824222810201f00003be", "21cdd09eeadbcc77535ab2bb3412259a");
    reveal_strlit("272a16964597ed6dc8d2393ed051d3ce");
    assert("272a16964597ed6dc8d2393ed051d3ce"@[1] != "21cdd09eeadbcc77535ab2bb3412259a"@[1]);
    lemma_distinct_bytes("272a16964597ed6dc8d2393ed051d3ce", "21cdd09eeadbcc77535ab2bb3412259a");
    reveal_strlit("5fbe01f2bc1c04f45d809ffd060ac386");
    assert("5fbe01f2bc1c04f45d809ffd060ac386"@[0] != "21cdd09eeadbcc77535ab2bb3412259a"@[0]);
    lemma_distinct_bytes("5fbe01f2bc1c04f45d809ffd060ac386", "21cdd09eeadbcc77535ab2bb3412259a");
    reveal_strlit("a37c77a4310d2d6a6c2af18294aaae7a");
    assert("a37c77a4310d2d6a6c2af18294aaae7a"@[0] != "21cdd09eeadbcc77535ab2bb3412259a"@[0]);
    lemma_distinct_bytes("a37c77a4310d2d6a6c2af18294aaae7a", "21cdd09eeadbcc77535ab2bb3412259a");
    reveal_strlit("cd77a63d7902990dbc704fe32b30700a");
    assert("cd77a63d7902990dbc704fe32b30700a"@[0] != "21cdd09eeadbcc77535ab2bb3412259a"@[0]);
    lemma_distinct_bytes("cd77a63d7902990dbc704fe32b30700a", "21cdd09eeadbcc77535ab2bb3412259a");
    reveal_strlit("758c8862f22f778fdeafe25fbcd1f4ec");
    assert("758c8862f22f778fdeafe25fbcd1f4ec"@[0] != "21cdd09eeadbcc77535ab2bb3412259a"@[0]);
    lemma_distinct_bytes("758c8862f22f778fdeafe25fbcd1f4ec", "21cdd09eeadbcc77535ab2bb3412259a");
    reveal_strlit("ed4568bab864166bfd6322ceeb3fb544");
    assert("ed4568bab864166bfd6322ceeb3fb544"@[0] != "21cdd09eeadbcc77535ab2bb3412259a"@[0]);
    lemma_distinct_bytes("ed4568bab864166bfd6322ceeb3fb544", "21cdd09eeadbcc77535ab2bb3412259a");
    reveal_strlit("6bd6d1381c194c0f456b184cb48d132d");
    assert("6bd6d1381c194c0f456b184cb48d132d"@[0] != "21cdd09eeadbcc77535ab2bb3412259a"@[0]);
    lemma_distinct_bytes("6bd6d1381c194c0f456b184cb48d132d", "21cdd09eeadbcc77535ab2bb3412259a");
    reveal_strlit("7ad299a8b33fa449e20edfe0fededdb2");
    assert("7ad299a8b33fa449e20edfe0fededdb2"@[0] != "21cdd09eeadbcc77535ab2bb3412259a"@[0]);
    lemma_distinct_bytes("7ad299a8b33fa449e20edfe0fededdb2", "21cdd09eeadbcc77535ab2bb3412259a");
    reveal_strlit("fd0857e6a3af3aa74e5e00f15aea5224");
    assert("fd0857e6a3af3aa74e5e00f15aea5224"@[0] != "21cdd09eeadbcc77535ab2bb3412259a"@[0]);
    lemma_distinct_bytes("fd0857e6a3af3aa74e5e00f15aea5224", "21cdd09eeadbcc77535ab2bb3412259a");
    reveal_strlit("b5ef0eec9554c491777d6c4e93e0df76");
    assert("b5ef0eec9554c491777d6c4e93e0df76"@[0] != "21cdd09eeadbcc77535ab2bb3412259a"@[0]);
    lemma_distinct_bytes("b5ef0eec9554c491777d6c4e93e0df76", "21cdd09eeadbcc77535ab2bb3412259a");
    reveal_strlit("40a8185886a8a1a2be996bc57de3d916");
    assert("40a8185886a8a1a2be996bc57de3d916"@[0] != "21cdd09eeadbcc77535ab2bb3412259a"@[0]);
    lemma_distinct_bytes("40a8185886a8a1a2be996bc57de3d916", "21cdd09eeadbcc77535ab2bb3412259a");
    reveal_strlit("ddedbbd10ff129b49c64dbefaa763c6a");
    assert("ddedbbd10ff129b49c64dbefaa763c6a"@[0] != "21cdd09eeadbcc77535ab2bb3412259a"@[0]);
    lemma_distinct_bytes("ddedbbd10ff129b49c64dbefaa763c6a", "21cdd09eeadbcc77535ab2bb3412259a");
    reveal_strlit("4a9c69b42e442b673395b3253f292f17");
    assert("4a9c69b42e442b673395b3253f292f17"@[0] != "21cdd09eeadbcc77535ab2bb3412259a"@[0]);
    lemma_distinct_bytes("4a9c69b42e442b673395b3253f292f17", "21cdd09eeadbcc77535ab2bb3412259a");
    reveal_strlit("42b66b41b6cea12fb54219e9d31e5dc8");
    assert("42b66b41b6cea12fb54219e9d31e5dc8"@[0] != "21cdd09eeadbcc77535ab2bb3412259a"@[0]);
    lemma_distinct_bytes("42b66b41b6cea12fb54219e9d31e5dc8", "21cdd09eeadbcc77535ab2bb3412259a");
    reveal_strlit("d0420c09a5debd6176ea24a1fe1ee3e3");
    assert("d0420c09a5debd6176ea24a1fe1ee3e3"@[0] != "21cdd09eeadbcc77535ab2bb3412259a"@[0]);
    lemma_distinct_bytes("d0420c09a5debd6176ea24a1fe1ee3e3", "21cdd09eeadbcc77535ab2bb3412259a");
    reveal_strlit("908643b7593b000f5b6c61bb484d086a");
    assert("908643b7593b000f5b6c61bb484d086a"@[0] != "21cdd09eeadbcc77535ab2bb3412259a"@[0]);
    lemma_distinct_bytes("908643b7593b000f5b6c61bb484d086a", "21cdd09eeadbcc77535ab2bb3412259a");
    reveal_strlit("80a63475ef69529b612f9dca75af4cc5");
    assert("80a63475ef69529b612f9dca75af4cc5"@[0] != "21cdd09eeadbcc77535ab2bb3412259a"@[0]);
    lemma_distinct_bytes("80a63475ef69529b612f9dca75af4cc5", "21cdd09eeadbcc77535ab2bb3412259a");
    reveal_strlit("3217f3bfe82c3e4aa8ee2e9e3a4f4e14");
    assert("3217f3bfe82c3e4aa8ee2e9e3a4f4e14"@[0] != "21cdd09eeadbcc77535ab2bb3412259a"@[0]);
    lemma_distinct_bytes("3217f3bfe82c3e4aa8ee2e9e3a4f4e14", "21cdd09eeadbcc77535ab2bb3412259a");
    assert forall|j: int| 0 <= j < 25 implies #[trigger] game_keys()[j] != "21cdd09eeadbcc77535ab2bb3412259a".spec_bytes() by {
        if j == 0 {
            assert(game_keys()[0] == "a88a2db3a68c714ca2b1ff57ac08a032".spec_bytes());
        } else if j == 1 {
            assert(game_keys()[1] == "047c11435b1c592ec731bff3b9c5b0cf".spec_bytes());
        } else if j == 2 {
            assert(game_keys()[2] == "22008370824a37baef8948127963c769".spec_bytes());
        } else if j == 3 {
            assert(game_keys()[3] == "e05433fe679bc91e3809c1138e3a8ea1".spec_bytes());
        } else if j == 4 {
            assert(game_keys()[4] == "616c5751ac9fc584af250f1b04474afd".spec_bytes());
        } else if j == 5 {
            assert(game_keys()[5] == "05689183497e58838e99b897f2e0e6ac".spec_bytes());
        } else if j == 6 {
            assert(game_keys()[6] == "267a8abe468d824222810201f00003be".spec_bytes());
        } else if j == 7 {
            assert(game_keys()[7] == "272a16964597ed6dc8d2393ed051d3ce".spec_bytes());
        } else if j == 8 {
            assert(game_keys()[8] == "5fbe01f2bc1c04f45d809ffd060ac386".spec_bytes());
        } else if j == 9 {
            assert(game_keys()[9] == "a37c77a4310d2d6a6c2af18294aaae7a".spec_bytes());
        } else if j == 10 {
            assert(game_keys()[10] == "cd77a63d7902990dbc704fe32b30700a".spec_bytes());
        } else if j == 11 {
            assert(game_keys()[11] == "758c8862f22f778fdeafe25fbcd1f4ec".spec_bytes());
        } else if j == 12 {
            assert(game_keys()[12] == "ed4568bab864166bfd6322ceeb3fb544".spec_bytes());
        } else if j == 13 {
            assert(game_keys()[13] == "6bd6d1381c194c0f456b184cb48d132d".spec_bytes());
        } else if j == 14 {
            assert(game_keys()[14] == "7ad299a8b33fa449e20edfe0fededdb2".spec_bytes());
        } else if j == 15 {
            assert(game_keys()[15] == "fd0857e6a3af3aa74e5e00f15aea5224".spec_bytes());
        } else if j == 16 {
            assert(game_keys()[16] == "b5ef0eec9554c491777d6c4e93e0df76".spec_bytes());
        } else if j == 17 {
            assert(game_keys()[17] == "40a8185886a8a1a2be996bc57de3d916".spec_bytes());
        } else if j == 18 {
            assert(game_keys()[18] == "ddedbbd10ff129b49c64dbefaa763c6a".spec_bytes());
        } else if j == 19 {
            assert(game_keys()[19] == "4a9c69b42e442b673395b3253f292f17".spec_bytes());
        } else if j == 20 {
            assert(game_keys()[20] == "42b66b41b6cea12fb54219e9d31e5dc8".spec_bytes());
        } else if j == 21 {
            assert(game_keys()[21] == "d0420c09a5debd6176ea24a1fe1ee3e3".spec_bytes());
        } else if j == 22 {
            assert(game_keys()[22] == "908643b7593b000f5b6c61bb484d086a".spec_bytes());
        } else if j == 23 {
            assert(game_keys()[23] == "80a63475ef69529b612f9dca75af4cc5".spec_bytes());
        } else if j == 24 {
            assert(game_keys()[24] == "3217f3bfe82c3e4aa8ee2e9e3a4f4e14".spec_bytes());
        }
    }
    assert(game_keys()[25] == "21cdd09eeadbcc77535ab2bb3412259a".spec_bytes() && game_values()[25] == GameVersion::Ch5_v247);
    lemma_lookup_first(game_keys(), game_values(), "21cdd09eeadbcc77535ab2bb3412259a".spec_bytes(), 25);
}

/// Every `data.win` digest that the tracker knows is recognized as its release, spelled
/// in lower-case hexadecimal: four SURVEY_PROGRAM builds, four each of demo 1.09 and
/// 1.10, two each of demo 1.15, demo 1.19 and Ch1-4 v1.02, and four each of the Ch5
/// v0.0.244 and v0.0.247 builds; any other digest is an unsupported version.
pub proof fn law_game_digests(hex: Seq<u8>)
    ensures
        spec_game_version("a88a2db3a68c714ca2b1ff57ac08a032".spec_bytes()) == GameVersion::SP,
        spec_game_version("047c11435b1c592ec731bff3b9c5b0cf".spec_bytes()) == GameVersion::SP,
        spec_game_version("22008370824a37baef8948127963c769".spec_bytes()) == GameVersion::SP,
        spec_game_version("e05433fe679bc91e3809c1138e3a8ea1".spec_bytes()) == GameVersion::SP,
        spec_game_version("616c5751ac9fc584af250f1b04474afd".spec_bytes()) == GameVersion::D109,
        spec_game_version("05689183497e58838e99b897f2e0e6ac".spec_bytes()) == GameVersion::D109,
        spec_game_version("267a8abe468d824222810201f00003be".spec_bytes()) == GameVersion::D109,
        spec_game_version("272a16964597ed6dc8d2393ed051d3ce".spec_bytes()) == GameVersion::D109,
        spec_game_version("5fbe01f2bc1c04f45d809ffd060ac386".spec_bytes()) == GameVersion::D110,
        spec_game_version("a37c77a4310d2d6a6c2af18294aaae7a".spec_bytes()) == GameVersion::D110,
        spec_game_version("cd77a63d7902990dbc704fe32b30700a".spec_bytes()) == GameVersion::D110,
        spec_game_version("758c8862f22f778fdeafe25fbcd1f4ec".spec_bytes()) == GameVersion::D110,
        spec_game_version("ed4568bab864166bfd6322ceeb3fb544".spec_bytes()) == GameVersion::D115,
        spec_game_version("6bd6d1381c194c0f456b184cb48d132d".spec_bytes()) == GameVersion::D115,
        spec_game_version("7ad299a8b33fa449e20edfe0fededdb2".spec_bytes()) == GameVersion::D119,
        spec_game_version("fd0857e6a3af3aa74e5e00f15aea5224".spec_bytes()) == GameVersion::D119,
        spec_game_version("b5ef0eec9554c491777d6c4e93e0df76".spec_bytes()) == GameVersion::Ch4_v102,
        spec_game_version("40a8185886a8a1a2be996bc57de3d916".spec_bytes()) == GameVersion::Ch4_v102,
        spec_game_version("ddedbbd10ff129b49c64dbefaa763c6a".spec_bytes()) == GameVersion::Ch5_v244,
        spec_game_version("4a9c69b42e442b673395b3253f292f17".spec_bytes()) == GameVersion::Ch5_v244,
        spec_game_version("42b66b41b6cea12fb54219e9d31e5dc8".spec_bytes()) == GameVersion::Ch5_v244,
        spec_game_version("d0420c09a5debd6176ea24a1fe1ee3e3".spec_bytes()) == GameVersion::Ch5_v244,
        spec_game_version("908643b7593b000f5b6c61bb484d086a".spec_bytes()) == GameVersion::Ch5_v247,
        spec_game_version("80a63475ef69529b612f9dca75af4cc5".spec_bytes()) == GameVersion::Ch5_v247,
        spec_game_version("3217f3bfe82c3e4aa8ee2e9e3a4f4e14".spec_bytes()) == GameVersion::Ch5_v247,
        spec_game_version("21cdd09eeadbcc77535ab2bb3412259a".spec_bytes()) == GameVersion::Ch5_v247,
        hex != "a88a2db3a68c714ca2b1ff57ac08a032".spec_bytes() && hex != "047c11435b1c592ec731bff3b9c5b0cf".spec_bytes() && hex != "22008370824a37baef8948127963c769".spec_bytes() && hex != "e05433fe679bc91e3809c1138e3a8ea1".spec_bytes() && hex != "616c5751ac9fc584af250f1b04474afd".spec_bytes() && hex != "05689183497e58838e99b897f2e0e6ac".spec_bytes() && hex != "267a8abe468d824222810201f00003be".spec_bytes() && hex != "272a16964597ed6dc8d2393ed051d3ce".spec_bytes() && hex != "5fbe01f2bc1c04f45d809ffd060ac386".spec_bytes() && hex != "a37c77a4310d2d6a6c2af18294aaae7a".spec_bytes() && hex != "cd77a63d7902990dbc704fe32b30700a".spec_bytes() && hex != "758c8862f22f778fdeafe25fbcd1f4ec".spec_bytes() && hex != "ed4568bab864166bfd6322ceeb3fb544".spec_bytes() && hex != "6bd6d1381c194c0f456b184cb48d132d".spec_bytes() && hex != "7ad299a8b33fa449e20edfe0fededdb2".spec_bytes() && hex != "fd0857e6a3af3aa74e5e00f15aea5224".spec_bytes() && hex != "b5ef0eec9554c491777d6c4e93e0df76".spec_bytes() && hex != "40a8185886a8a1a2be996bc57de3d916".spec_bytes() && hex != "ddedbbd10ff129b49c64dbefaa763c6a".spec_bytes() && hex != "4a9c69b42e442b673395b3253f292f17".spec_bytes() && hex != "42b66b41b6cea12fb54219e9d31e5dc8".spec_bytes() && hex != "d0420c09a5debd6176ea24a1fe1ee3e3".spec_bytes() && hex != "908643b7593b000f5b6c61bb484d086a".spec_bytes() && hex != "80a63475ef69529b612f9dca75af4cc5".spec_bytes() && hex != "3217f3bfe82c3e4aa8ee2e9e3a4f4e14".spec_bytes() && hex != "21cdd09eeadbcc77535ab2bb3412259a".spec_bytes()
            ==> spec_game_version(hex) == GameVersion::Invalid,
{
    game_digest_0();
    game_digest_1();
    game_digest_2();
    game_digest_3();
    game_digest_4();
    game_digest_5();
    game_digest_6();
    game_digest_7();
    game_digest_8();
    game_digest_9();
    game_digest_10();
    game_digest_11();
    game_digest_12();
    game_digest_13();
    game_digest_14();
    game_digest_15();
    game_digest_16();
    game_digest_17();
    game_digest_18();
    game_digest_19();
    game_digest_20();
    game_digest_21();
    game_digest_22();
    game_digest_23();
    game_digest_24();
    game_digest_25();
    if hex != "a88a2db3a68c714ca2b1ff57ac08a032".spec_bytes() && hex != "047c11435b1c592ec731bff3b9c5b0cf".spec_bytes() && hex != "22008370824a37baef8948127963c769".spec_bytes() && hex != "e05433fe679bc91e3809c1138e3a8ea1".spec_bytes() && hex != "616c5751ac9fc584af250f1b04474afd".spec_bytes() && hex != "05689183497e58838e99b897f2e0e6ac".spec_bytes() && hex != "267a8abe468d824222810201f00003be".spec_bytes() && hex != "272a16964597ed6dc8d2393ed051d3ce".spec_bytes() && hex != "5fbe01f2bc1c04f45d809ffd060ac386".spec_bytes() && hex != "a37c77a4310d2d6a6c2af18294aaae7a".spec_bytes() && hex != "cd77a63d7902990dbc704fe32b30700a".spec_bytes() && hex != "758c8862f22f778fdeafe25fbcd1f4ec".spec_bytes() && hex != "ed4568bab864166bfd6322ceeb3fb544".spec_bytes() && hex != "6bd6d1381c194c0f456b184cb48d132d".spec_bytes() && hex != "7ad299a8b33fa449e20edfe0fededdb2".spec_bytes() && hex != "fd0857e6a3af3aa74e5e00f15aea5224".spec_bytes() && hex != "b5ef0eec9554c491777d6c4e93e0df76".spec_bytes() && hex != "40a8185886a8a1a2be996bc57de3d916".spec_bytes() && hex != "ddedbbd10ff129b49c64dbefaa763c6a".spec_bytes() && hex != "4a9c69b42e442b673395b3253f292f17".spec_bytes() && hex != "42b66b41b6cea12fb54219e9d31e5dc8".spec_bytes() && hex != "d0420c09a5debd6176ea24a1fe1ee3e3".spec_bytes() && hex != "908643b7593b000f5b6c61bb484d086a".spec_bytes() && hex != "80a63475ef69529b612f9dca75af4cc5".spec_bytes() && hex != "3217f3bfe82c3e4aa8ee2e9e3a4f4e14".spec_bytes() && hex != "21cdd09eeadbcc77535ab2bb3412259a".spec_bytes() {
        assert forall|j: int| 0 <= j < game_keys().len() implies #[trigger] game_keys()[j] != hex by {
            if j == 0 {
                assert(game_keys()[0] == "a88a2db3a68c714ca2b1ff57ac08a032".spec_bytes());
            } else if j == 1 {
                assert(game_keys()[1] == "047c11435b1c592ec731bff3b9c5b0cf".spec_bytes());
            } else if j == 2 {
                assert(game_keys()[2] == "22008370824a37baef8948127963c769".spec_bytes());
            } else if j == 3 {
                assert(game_keys()[3] == "e05433fe679bc91e3809c1138e3a8ea1".spec_bytes());
            } else if j == 4 {
                assert(game_keys()[4] == "616c5751ac9fc584af250f1b04474afd".spec_bytes());
            } else if j == 5 {
                assert(game_keys()[5] == "05689183497e58838e99b897f2e0e6ac".spec_bytes());
            } else if j == 6 {
                assert(game_keys()[6] == "267a8abe468d824222810201f00003be".spec_bytes());
            } else if j == 7 {
                assert(game_keys()[7] == "272a16964597ed6dc8d2393ed051d3ce".spec_bytes());
            } else if j == 8 {
                assert(game_keys()[8] == "5fbe01f2bc1c04f45d809ffd060ac386".spec_bytes());
            } else if j == 9 {
                assert(game_keys()[9] == "a37c77a4310d2d6a6c2af18294aaae7a".spec_bytes());
            } else if j == 10 {
                assert(game_keys()[10] == "cd77a63d7902990dbc704fe32b30700a".spec_bytes());
            } else if j == 11 {
                assert(game_keys()[11] == "758c8862f22f778fdeafe25fbcd1f4ec".spec_bytes());
            } else if j == 12 {
                assert(game_keys()[12] == "ed4568bab864166bfd6322ceeb3fb544".spec_bytes());
            } else if j == 13 {
                assert(game_keys()[13] == "6bd6d1381c194c0f456b184cb48d132d".spec_bytes());
            } else if j == 14 {
                assert(game_keys()[14] == "7ad299a8b33fa449e20edfe0fededdb2".spec_bytes());
            } else if j == 15 {
                assert(game_keys()[15] == "fd0857e6a3af3aa74e5e00f15aea5224".spec_bytes());
            } else if j == 16 {
                assert(game_keys()[16] == "b5ef0eec9554c491777d6c4e93e0df76".spec_bytes());
            } else if j == 17 {
                assert(game_keys()[17] == "40a8185886a8a1a2be996bc57de3d916".spec_bytes());
            } else if j == 18 {
                assert(game_keys()[18] == "ddedbbd10ff129b49c64dbefaa763c6a".spec_bytes());
            } else if j == 19 {
                assert(game_keys()[19] == "4a9c69b42e442b673395b3253f292f17".spec_bytes());
            } else if j == 20 {
                assert(game_keys()[20] == "42b66b41b6cea12fb54219e9d31e5dc8".spec_bytes());
            } else if j == 21 {
                assert(game_keys()[21] == "d0420c09a5debd6176ea24a1fe1ee3e3".spec_bytes());
            } else if j == 22 {
                assert(game_keys()[22] == "908643b7593b000f5b6c61bb484d086a".spec_bytes());
            } else if j == 23 {
                assert(game_keys()[23] == "80a63475ef69529b612f9dca75af4cc5".spec_bytes());
            } else if j == 24 {
                assert(game_keys()[24] == "3217f3bfe82c3e4aa8ee2e9e3a4f4e14".spec_bytes());
            } else if j == 25 {
                assert(game_keys()[25] == "21cdd09eeadbcc77535ab2bb3412259a".spec_bytes());
            }
        }
        lemma_lookup_none(game_keys(), game_values(), hex);
    }
}

proof fn engine_digest_0()
    ensures
        spec_engine_version("4d09627e1fa123d12ddf1a496c489f73".spec_bytes()) == Some(EngineVersion::GMS2_v2_2_0),
{
    reveal_strlit("4d09627e1fa123d12ddf1a496c489f73");
    assert(engine_keys()[0] == "4d09627e1fa123d12ddf1a496c489f73".spec_bytes() && engine_values()[0] == EngineVersion::GMS2_v2_2_0);
    lemma_lookup_first(engine_keys(), engine_values(), "4d09627e1fa123d12ddf1a496c489f73".spec_bytes(), 0);
}

proof fn engine_digest_1()
    ensures
        spec_engine_version("dcfb86f7a80d9906bbbafa1b2c224848".spec_bytes()) == Some(EngineVersion::GMS2_2022_1),
{
    reveal_strlit("dcfb86f7a80d9906bbbafa1b2c224848");
    reveal_strlit("4d09627e1fa123d12ddf1a496c489f73");
    assert("4d09627e1fa123d12ddf1a496c489f73"@[0] != "dcfb86f7a80d9906bbbafa1b2c224848"@[0]);
    lemma_distinct_bytes("4d09627e1fa123d12ddf1a496c489f73", "dcfb86f7a80d9906bbbafa1b2c224848");
    assert forall|j: int| 0 <= j < 1 implies #[trigger] engine_keys()[j] != "dcfb86f7a80d9906bbbafa1b2c224848".spec_bytes() by {
        if j == 0 {
            assert(engine_keys()[0] == "4d09627e1fa123d12ddf1a496c489f73".spec_bytes());
        }
    }
    assert(engine_keys()[1] == "dcfb86f7a80d9906bbbafa1b2c224848".spec_bytes() && engine_values()[1] == EngineVersion::GMS2_2022_1);
    lemma_lookup_first(engine_keys(), engine_values(), "dcfb86f7a80d9906bbbafa1b2c224848".spec_bytes(), 1);
}

proof fn engine_digest_2()
    ensures
        spec_engine_version("a9db8b7fb6333b5e267f574f46076b3f".spec_bytes()) == Some(EngineVersion::GMS2_2022_2),
{
    reveal_strlit("a9db8b7fb6333b5e267f574f46076b3f");
    reveal_strlit("4d09627e1fa123d12ddf1a496c489f73");
    assert("4d09627e1fa123d12ddf1a496c489f73"@[0] != "a9db8b7fb6333b5e267f574f46076b3f"@[0]);
    lemma_distinct_bytes("4d09627e1fa123d12ddf1a496c489f73", "a9db8b7fb6333b5e267f574f46076b3f");
    reveal_strlit("dcfb86f7a80d9906bbbafa1b2c224848");
    assert("dcfb86f7a80d9906bbbafa1b2c224848"@[0] != "a9db8b7fb6333b5e267f574f46076b3f"@[0]);
    lemma_distinct_bytes("dcfb86f7a80d9906bbbafa1b2c224848", "a9db8b7fb6333b5e267f574f46076b3f");
    assert forall|j: int| 0 <= j < 2 implies #[trigger] engine_keys()[j] != "a9db8b7fb6333b5e267f574f46076b3f".spec_bytes() by {
        if j == 0 {
            assert(engine_keys()[0] == "4d09627e1fa123d12ddf1a496c489f73".spec_bytes());
        } else if j == 1 {
            assert(engine_keys()[1] == "dcfb86f7a80d9906bbbafa1b2c224848".spec_bytes());
        }
    }
    assert(engine_keys()[2] == "a9db8b7fb6333b5e267f574f46076b3f".spec_bytes() && engine_values()[2] == EngineVersion::GMS2_2022_2);
    lemma_lookup_first(engine_keys(), engine_values(), "a9db8b7fb6333b5e267f574f46076b3f".spec_bytes(), 2);
}

proof fn engine_digest_3()
    ensures
        spec_engine_version("14af94e0435eb4cbe3bb5a03ab4218c4".spec_bytes()) == Some(EngineVersion::GM_LTS2022_0_3_99),
{
    reveal_strlit("14af94e0435eb4cbe3bb5a03ab4218c4");
    reveal_strlit("4d09627e1fa123d12ddf1a496c489f73");
    assert("4d09627e1fa123d12ddf1a496c489f73"@[0] != "14af94e0435eb4cbe3bb5a03ab4218c4"@[0]);
    lemma_distinct_bytes("4d09627e1fa123d12ddf1a496c489f73", "14af94e0435eb4cbe3bb5a03ab4218c4");
    reveal_strlit("dcfb86f7a80d9906bbbafa1b2c224848");
    assert("dcfb86f7a80d9906bbbafa1b2c224848"@[0] != "14af94e0435eb4cbe3bb5a03ab4218c4"@[0]);
    lemma_distinct_bytes("dcfb86f7a80d9906bbbafa1b2c224848", "14af94e0435eb4cbe3bb5a03ab4218c4");
    reveal_strlit("a9db8b7fb6333b5e267f574f46076b3f");
    assert("a9db8b7fb6333b5e267f574f46076b3f"@[0] != "14af94e0435eb4cbe3bb5a03ab4218c4"@[0]);
    lemma_distinct_bytes("a9db8b7fb6333b5e267f574f46076b3f", "14af94e0435eb4cbe3bb5a03ab4218c4");
    assert forall|j: int| 0 <= j < 3 implies #[trigger] engine_keys()[j] != "14af94e0435eb4cbe3bb5a03ab4218c4".spec_bytes() by {
        if j == 0 {
            assert(engine_keys()[0] == "4d09627e1fa123d12ddf1a496c489f73".spec_bytes());
        } else if j == 1 {
            assert(engine_keys()[1] == "dcfb86f7a80d9906bbbafa1b2c224848".spec_bytes());
        } else if j == 2 {
            assert(engine_keys()[2] == "a9db8b7fb6333b5e267f574f46076b3f".spec_bytes());
        }
    }
    assert(engine_keys()[3] == "14af94e0435eb4cbe3bb5a03ab4218c4".spec_bytes() && engine_values()[3] == EngineVersion::GM_LTS2022_0_3_99);
    lemma_lookup_first(engine_keys(), engine_values(), "14af94e0435eb4cbe3bb5a03ab4218c4".spec_bytes(), 3);
}

proof fn engine_digest_4()
    ensures
        spec_engine_version("7bf3cccc2e54481ced3a149e1a083684".spec_bytes()) == Some(EngineVersion::GM_LTS2022_0_3_104),
{
    reveal_strlit("7bf3cccc2e54481ced3a149e1a083684");
    reveal_strlit("4d09627e1fa123d12ddf1a496c489f73");
    assert("4d09627e1fa123d12ddf1a496c489f73"@[0] != "7bf3cccc2e54481ced3a149e1a083684"@[0]);
    lemma_distinct_bytes("4d09627e1fa123d12ddf1a496c489f73", "7bf3cccc2e54481ced3a149e1a083684");
    reveal_strlit("dcfb86f7a80d9906bbbafa1b2c224848");
    assert("dcfb86f7a80d9906bbbafa1b2c224848"@[0] != "7bf3cccc2e54481ced3a149e1a083684"@[0]);
    lemma_distinct_bytes("dcfb86f7a80d9906bbbafa1b2c224848", "7bf3cccc2e54481ced3a149e1a083684");
    reveal_strlit("a9db8b7fb6333b5e267f574f46076b3f");
    assert("a9db8b7fb6333b5e267f574f46076b3f"@[0] != "7bf3cccc2e54481ced3a149e1a083684"@[0]);
    lemma_distinct_bytes("a9db8b7fb6333b5e267f574f46076b3f", "7bf3cccc2e54481ced3a149e1a083684");
    reveal_strlit("14af94e0435eb4cbe3bb5a03ab4218c4");
    assert("14af94e0435eb4cbe3bb5a03ab4218c4"@[0] != "7bf3cccc2e54481ced3a149e1a083684"@[0]);
    lemma_distinct_bytes("14af94e0435eb4cbe3bb5a03ab4218c4", "7bf3cccc2e54481ced3a149e1a083684");
    assert forall|j: int| 0 <= j < 4 implies #[trigger] engine_keys()[j] != "7bf3cccc2e54481ced3a149e1a083684".spec_bytes() by {
        if j == 0 {
            assert(engine_keys()[0] == "4d09627e1fa123d12ddf1a496c489f73".spec_bytes());
        } else if j == 1 {
            assert(engine_keys()[1] == "dcfb86f7a80d9906bbbafa1b2c224848".spec_bytes());
        } else if j == 2 {
            assert(engine_keys()[2] == "a9db8b7fb6333b5e267f574f46076b3f".spec_bytes());
        } else if j == 3 {
            assert(engine_keys()[3] == "14af94e0435eb4cbe3bb5a03ab4218c4".spec_bytes());
        }
    }
    assert(engine_keys()[4] == "7bf3cccc2e54481ced3a149e1a083684".spec_bytes() && engine_values()[4] == EngineVersion::GM_LTS2022_0_3_104);
    lemma_lookup_first(engine_keys(), engine_values(), "7bf3cccc2e54481ced3a149e1a083684".spec_bytes(), 4);
}

/// Every runner digest that the tracker knows is recognized as its engine version,
/// spelled in lower-case hexadecimal; any other runner is not recognized.
pub proof fn law_engine_digests(hex: Seq<u8>)
    ensures
        spec_engine_version("4d09627e1fa123d12ddf1a496c489f73".spec_bytes()) == Some(EngineVersion::GMS2_v2_2_0),
        spec_engine_version("dcfb86f7a80d9906bbbafa1b2c224848".spec_bytes()) == Some(EngineVersion::GMS2_2022_1),
        spec_engine_version("a9db8b7fb6333b5e267f574f46076b3f".spec_bytes()) == Some(EngineVersion::GMS2_2022_2),
        spec_engine_version("14af94e0435eb4cbe3bb5a03ab4218c4".spec_bytes()) == Some(EngineVersion::GM_LTS2022_0_3_99),
        spec_engine_version("7bf3cccc2e54481ced3a149e1a083684".spec_bytes()) == Some(EngineVersion::GM_LTS2022_0_3_104),
        hex != "4d09627e1fa123d12ddf1a496c489f73".spec_bytes() && hex != "dcfb86f7a80d9906bbbafa1b2c224848".spec_bytes() && hex != "a9db8b7fb6333b5e267f574f46076b3f".spec_bytes() && hex != "14af94e0435eb4cbe3bb5a03ab4218c4".spec_bytes() && hex != "7bf3cccc2e54481ced3a149e1a083684".spec_bytes()
            ==> spec_engine_version(hex) is None,
{
    engine_digest_0();
    engine_digest_1();
    engine_digest_2();
    engine_digest_3();
    engine_digest_4();
    if hex != "4d09627e1fa123d12ddf1a496c489f73".spec_bytes() && hex != "dcfb86f7a80d9906bbbafa1b2c224848".spec_bytes() && hex != "a9db8b7fb6333b5e267f574f46076b3f".spec_bytes() && hex != "14af94e0435eb4cbe3bb5a03ab4218c4".spec_bytes() && hex != "7bf3cccc2e54481ced3a149e1a083684".spec_bytes() {
        assert forall|j: int| 0 <= j < engine_keys().len() implies #[trigger] engine_keys()[j] != hex by {
            if j == 0 {
                assert(engine_keys()[0] == "4d09627e1fa123d12ddf1a496c489f73".spec_bytes());
            } else if j == 1 {
                assert(engine_keys()[1] == "dcfb86f7a80d9906bbbafa1b2c224848".spec_bytes());
            } else if j == 2 {
                assert(engine_keys()[2] == "a9db8b7fb6333b5e267f574f46076b3f".spec_bytes());
            } else if j == 3 {
                assert(engine_keys()[3] == "14af94e0435eb4cbe3bb5a03ab4218c4".spec_bytes());
            } else if j == 4 {
                assert(engine_keys()[4] == "7bf3cccc2e54481ced3a149e1a083684".spec_bytes());
            }
        }
        lemma_lookup_none(engine_keys(), engine_values(), hex);
    }
}


/// The hexadecimal digits: values 0 to 9 are the characters `0` to `9`, values 10 to 15
/// the letters `a` to `f`, or `A` to `F` in upper case.
pub proof fn law_hex_digits(n: u8, upper: bool)
    requires
        n < 16,
    ensures
        n < 10 ==> hex_digit(n, upper) == '0' as u8 + n,
        n >= 10 && !upper ==> hex_digit(n, upper) == 'a' as u8 + (n - 10),
        n >= 10 && upper ==> hex_digit(n, upper) == 'A' as u8 + (n - 10),
{
}

/// A byte is spelled by two digits, the high four bits first.
pub proof fn law_hex_of_byte(b: u8, upper: bool)
    ensures
        spec_hex(seq![b], upper) == seq![hex_digit(b / 16, upper), hex_digit(b % 16, upper)],
{
    assert(seq![b].drop_last() =~= Seq::<u8>::empty());
    assert(spec_hex(Seq::<u8>::empty(), upper) =~= Seq::<u8>::empty());
    assert(Seq::<u8>::empty() + seq![hex_digit(b / 16, upper), hex_digit(b % 16, upper)] =~= seq![hex_digit(b / 16, upper), hex_digit(b % 16, upper)]);
}

/// The three GameMaker Studio 2 runners (SURVEY_PROGRAM's and the demos') are 32-bit; the
/// two LTS runners are 64-bit; no runner is 16-bit.
pub proof fn law_pointer_sizes(version: EngineVersion)
    ensures
        (version == EngineVersion::GMS2_v2_2_0 || version == EngineVersion::GMS2_2022_1
            || version == EngineVersion::GMS2_2022_2) <==> spec_ver_ps(version) == PtrSize::Bit32,
        (version == EngineVersion::GM_LTS2022_0_3_99 || version == EngineVersion::GM_LTS2022_0_3_104)
            <==> spec_ver_ps(version) == PtrSize::Bit64,
        spec_ver_ps(version) != PtrSize::Bit16,
{
}

} // verus!
