use codebreaker::cipher::{KeyedCipher, SimpleCipher};
use codebreaker::session::Scheme;
use codebreaker::Codebreaker;

/// Plaintext and ciphertext of the published legacy-cipher codes.
const LEGACY_CODES: [((u32, u32), (u32, u32)); 3] = [
    ((0x2043AFCC, 0x2411FFFF), (0x2AFF014C, 0x2411FFFF)),
    ((0x201F6024, 0x00000000), (0x2A973DBD, 0x00000000)),
    ((0xBEEFC0DE, 0x00000000), (0xB4336FA9, 0x4DFEFB79)),
];

/// The activation pair that the conventional seeding stands for.
const ACTIVATION: (u32, u32) = (0xBEEFC0DE, 0x00000000);

/// Plaintext and ciphertext of the published keyed-cipher code, the first
/// line after the conventional seeding.
const KEYED_CODE: ((u32, u32), (u32, u32)) = ((0x2096F5B8, 0x000000BE), (0x973E0B2A, 0xA7D4AF10));

/// A legacy cipher that knows the published codes and no others.
struct PublishedSimple;

impl SimpleCipher for PublishedSimple {
    fn encrypted(addr: u32, val: u32) -> (u32, u32) {
        for (plain, cipher) in LEGACY_CODES {
            if plain == (addr, val) {
                return cipher;
            }
        }
        panic!("no published ciphertext for {:08X} {:08X}", addr, val)
    }

    fn decrypted(addr: u32, val: u32) -> (u32, u32) {
        for (plain, cipher) in LEGACY_CODES {
            if cipher == (addr, val) {
                return plain;
            }
        }
        panic!("no published plaintext for {:08X} {:08X}", addr, val)
    }

    fn decrypt_inverts_encrypt(addr: u32, val: u32) {
        let cipher = Self::encrypted(addr, val);
        assert_eq!((addr, val), Self::decrypted(cipher.0, cipher.1));
    }

    fn encrypt_inverts_decrypt(addr: u32, val: u32) {
        let plain = Self::decrypted(addr, val);
        assert_eq!((addr, val), Self::encrypted(plain.0, plain.1));
    }

    fn encrypt(addr: u32, val: u32) -> (u32, u32) {
        Self::encrypted(addr, val)
    }

    fn decrypt(addr: u32, val: u32) -> (u32, u32) {
        Self::decrypted(addr, val)
    }
}

/// The key state of `PublishedKeyed`: the pair it was last seeded from, and
/// the lines it has transformed since.
#[derive(Clone, Copy, Debug, PartialEq, Eq)]
struct Seeding {
    seed: Option<(u32, u32)>,
    lines: u32,
}

/// A keyed cipher that knows the published code and no other.
struct PublishedKeyed(Seeding);

impl PublishedKeyed {
    fn first_line_after_activation(s: Seeding) -> bool {
        s == Seeding { seed: Some(ACTIVATION), lines: 0 }
    }
}

impl KeyedCipher for PublishedKeyed {
    type State = Seeding;

    fn state(&self) -> Seeding {
        self.0
    }

    fn unseeded_state() -> Seeding {
        Seeding { seed: None, lines: 0 }
    }

    fn seeded_state() -> Seeding {
        Self::reseeded(Self::unseeded_state(), ACTIVATION.0, ACTIVATION.1)
    }

    fn is_marker(addr: u32) -> bool {
        addr == ACTIVATION.0
    }

    fn encrypted(s: Seeding, addr: u32, val: u32) -> (Seeding, (u32, u32)) {
        assert!(Self::first_line_after_activation(s));
        assert_eq!((addr, val), KEYED_CODE.0);
        (Seeding { lines: s.lines + 1, ..s }, KEYED_CODE.1)
    }

    fn decrypted(s: Seeding, addr: u32, val: u32) -> (Seeding, (u32, u32)) {
        assert!(Self::first_line_after_activation(s));
        assert_eq!((addr, val), KEYED_CODE.1);
        (Seeding { lines: s.lines + 1, ..s }, KEYED_CODE.0)
    }

    fn reseeded(_s: Seeding, addr: u32, val: u32) -> Seeding {
        Seeding { seed: Some((addr, val)), lines: 0 }
    }

    fn decrypt_inverts_encrypt(s: Seeding, addr: u32, val: u32) {
        let cipher = Self::encrypted(s, addr, val).1;
        assert_eq!((addr, val), Self::decrypted(s, cipher.0, cipher.1).1);
    }

    fn encrypt_inverts_decrypt(s: Seeding, addr: u32, val: u32) {
        let plain = Self::decrypted(s, addr, val).1;
        assert_eq!((addr, val), Self::encrypted(s, plain.0, plain.1).1);
    }

    fn unseeded() -> Self {
        PublishedKeyed(Self::unseeded_state())
    }

    fn seeded() -> Self {
        PublishedKeyed(Self::seeded_state())
    }

    fn is_activation_marker(addr: u32) -> bool {
        Self::is_marker(addr)
    }

    fn encrypt(&mut self, addr: u32, val: u32) -> (u32, u32) {
        let (next, code) = Self::encrypted(self.0, addr, val);
        self.0 = next;
        code
    }

    fn decrypt(&mut self, addr: u32, val: u32) -> (u32, u32) {
        let (next, code) = Self::decrypted(self.0, addr, val);
        self.0 = next;
        code
    }

    fn reseed(&mut self, addr: u32, val: u32) {
        assert!(Self::is_marker(addr));
        self.0 = Self::reseeded(self.0, addr, val);
    }
}

type Published = Codebreaker<PublishedSimple, PublishedKeyed>;

#[test]
fn published_ciphers_keep_the_laws_of_their_kind() {
    for (plain, cipher) in LEGACY_CODES {
        PublishedSimple::decrypt_inverts_encrypt(plain.0, plain.1);
        PublishedSimple::encrypt_inverts_decrypt(cipher.0, cipher.1);
    }
    let seeded = PublishedKeyed::seeded().state();
    assert_eq!(Seeding { seed: Some(ACTIVATION), lines: 0 }, seeded);
    assert_eq!(Seeding { seed: None, lines: 0 }, PublishedKeyed::unseeded().state());
    PublishedKeyed::decrypt_inverts_encrypt(seeded, KEYED_CODE.0.0, KEYED_CODE.0.1);
    PublishedKeyed::encrypt_inverts_decrypt(seeded, KEYED_CODE.1.0, KEYED_CODE.1.1);
    assert!(PublishedKeyed::is_activation_marker(0xBEEFC0DE));
    assert!(!PublishedKeyed::is_activation_marker(0xB4336FA9));
}

#[test]
fn encrypt_code_in_a_cold_session() {
    let mut cb = Published::new();
    let code = cb.encrypt_code(0x2043AFCC, 0x2411FFFF);
    assert_eq!((0x2AFF014C, 0x2411FFFF), code);
}

#[test]
fn encrypt_code_mut_in_a_cold_session() {
    let mut cb = Published::new();
    let mut code = (0x2043AFCC, 0x2411FFFF);
    cb.encrypt_code_mut(&mut code.0, &mut code.1);
    assert_eq!((0x2AFF014C, 0x2411FFFF), code);
}

#[test]
fn decrypt_code_through_an_activation() {
    let encrypted: Vec<(u32, u32)> = vec![
        (0x2AFF014C, 0x2411FFFF),
        (0xB4336FA9, 0x4DFEFB79),
        (0x973E0B2A, 0xA7D4AF10),
    ];
    let decrypted: Vec<(u32, u32)> = vec![
        (0x2043AFCC, 0x2411FFFF),
        (0xBEEFC0DE, 0x00000000),
        (0x2096F5B8, 0x000000BE),
    ];
    let schemes = [Scheme::Raw, Scheme::Keyed, Scheme::Keyed];

    let mut cb = Published::new();
    for (i, code) in encrypted.iter().enumerate() {
        let result = cb.decrypt_code(code.0, code.1);
        assert_eq!(decrypted[i], result);
        assert_eq!(schemes[i], cb.scheme());
    }
}

#[test]
fn decrypt_code_mut_through_an_activation() {
    let mut encrypted: Vec<(u32, u32)> = vec![
        (0x2AFF014C, 0x2411FFFF),
        (0xB4336FA9, 0x4DFEFB79),
        (0x973E0B2A, 0xA7D4AF10),
    ];
    let decrypted: Vec<(u32, u32)> = vec![
        (0x2043AFCC, 0x2411FFFF),
        (0xBEEFC0DE, 0x00000000),
        (0x2096F5B8, 0x000000BE),
    ];

    let mut cb = Published::new();
    for code in encrypted.iter_mut() {
        cb.decrypt_code_mut(&mut code.0, &mut code.1);
    }
    assert_eq!(decrypted, encrypted);
}

#[test]
fn auto_decrypt_code_through_every_scheme() {
    let input: Vec<(u32, u32)> = vec![
        (0x2043AFCC, 0x2411FFFF),
        (0x2A973DBD, 0x00000000),
        (0xB4336FA9, 0x4DFEFB79),
        (0x973E0B2A, 0xA7D4AF10),
    ];
    let output: Vec<(u32, u32)> = vec![
        (0x2043AFCC, 0x2411FFFF),
        (0x201F6024, 0x00000000),
        (0xBEEFC0DE, 0x00000000),
        (0x2096F5B8, 0x000000BE),
    ];
    let schemes = [Scheme::Raw, Scheme::Simple, Scheme::Keyed, Scheme::Keyed];
    let lines = [0, 0, 1, 0];

    let mut cb = Published::new();
    for (i, code) in input.iter().enumerate() {
        assert_eq!(output[i], cb.auto_decrypt_code(code.0, code.1));
        assert_eq!(schemes[i], cb.scheme());
        assert_eq!(lines[i], cb.lines_remaining());
    }
}

#[test]
fn auto_decrypt_code_mut_through_every_scheme() {
    let mut codes: Vec<(u32, u32)> = vec![
        (0x2043AFCC, 0x2411FFFF),
        (0x2A973DBD, 0x00000000),
        (0xB4336FA9, 0x4DFEFB79),
        (0x973E0B2A, 0xA7D4AF10),
    ];
    let output: Vec<(u32, u32)> = vec![
        (0x2043AFCC, 0x2411FFFF),
        (0x201F6024, 0x00000000),
        (0xBEEFC0DE, 0x00000000),
        (0x2096F5B8, 0x000000BE),
    ];

    let mut cb = Published::new();
    for code in codes.iter_mut() {
        cb.auto_decrypt_code_mut(&mut code.0, &mut code.1);
    }
    assert_eq!(output, codes);
}

#[test]
fn warm_session_decrypts_the_first_keyed_line() {
    let mut cb = Published::new_v7();
    assert_eq!(Scheme::Keyed, cb.scheme());
    assert_eq!((0x2096F5B8, 0x000000BE), cb.decrypt_code(0x973E0B2A, 0xA7D4AF10));

    let mut cb = Published::new_v7();
    assert_eq!((0x2096F5B8, 0x000000BE), cb.auto_decrypt_code(0x973E0B2A, 0xA7D4AF10));

    let mut cb = Published::new_v7();
    assert_eq!((0x973E0B2A, 0xA7D4AF10), cb.encrypt_code(0x2096F5B8, 0x000000BE));
}

#[test]
fn encrypt_code_through_an_activation() {
    let decrypted: Vec<(u32, u32)> = vec![
        (0x2043AFCC, 0x2411FFFF),
        (0xBEEFC0DE, 0x00000000),
        (0x2096F5B8, 0x000000BE),
    ];
    let encrypted: Vec<(u32, u32)> = vec![
        (0x2AFF014C, 0x2411FFFF),
        (0xB4336FA9, 0x4DFEFB79),
        (0x973E0B2A, 0xA7D4AF10),
    ];

    let mut cb = Published::new();
    for (i, code) in decrypted.iter().enumerate() {
        assert_eq!(encrypted[i], cb.encrypt_code(code.0, code.1));
    }
    assert_eq!(Scheme::Keyed, cb.scheme());
}
