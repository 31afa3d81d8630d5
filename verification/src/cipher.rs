//! The two cipher backends an engine is built over.
//!
//! The engine never looks inside a cipher. It needs a stateless legacy cipher
//! and a stateful keyed cipher, each with an exact inverse, and a way to tell
//! an activation address from any other. Both are described here by a
//! mathematical model (the spec functions), by the laws the model obeys (the
//! proof functions) and by the executable operations, each tied to the model.

use vstd::prelude::*;

verus! {

/// The stateless legacy cipher: one fixed bijection on word pairs.
pub trait SimpleCipher {
    /// The ciphertext of the plaintext pair `(addr, val)`.
    spec fn encrypted(addr: u32, val: u32) -> (u32, u32);

    /// The plaintext of the ciphertext pair `(addr, val)`.
    spec fn decrypted(addr: u32, val: u32) -> (u32, u32);

    /// Decrypting a ciphertext gives back the plaintext it was made from.
    proof fn decrypt_inverts_encrypt(addr: u32, val: u32)
        ensures
            Self::decrypted(Self::encrypted(addr, val).0, Self::encrypted(addr, val).1) == (
                addr,
                val,
            ),
    ;

    /// Encrypting a plaintext gives back the ciphertext it was read from.
    proof fn encrypt_inverts_decrypt(addr: u32, val: u32)
        ensures
            Self::encrypted(Self::decrypted(addr, val).0, Self::decrypted(addr, val).1) == (
                addr,
                val,
            ),
    ;

    /// Encrypts one word pair.
    fn encrypt(addr: u32, val: u32) -> (code: (u32, u32))
        ensures
            code == Self::encrypted(addr, val),
    ;

    /// Decrypts one word pair.
    fn decrypt(addr: u32, val: u32) -> (code: (u32, u32))
        ensures
            code == Self::decrypted(addr, val),
    ;
}

/// The stateful keyed cipher.
///
/// Every transform consumes keystream, so it moves the key state on as well as
/// producing a word pair. An activation pair reseeds the key state.
pub trait KeyedCipher: Sized {
    /// The mathematical model of a key state.
    type State;

    /// The key state this cipher is in.
    spec fn state(&self) -> Self::State;

    /// The key state of a cipher that has never been seeded.
    spec fn unseeded_state() -> Self::State;

    /// The key state of a cipher seeded the conventional way, as if the
    /// customary activation pair had already gone by.
    spec fn seeded_state() -> Self::State;

    /// Whether `addr` is an activation address.
    spec fn is_marker(addr: u32) -> bool;

    /// The key state left behind by encrypting `(addr, val)` in state `s`, and
    /// the ciphertext.
    spec fn encrypted(s: Self::State, addr: u32, val: u32) -> (Self::State, (u32, u32));

    /// The key state left behind by decrypting `(addr, val)` in state `s`, and
    /// the plaintext.
    spec fn decrypted(s: Self::State, addr: u32, val: u32) -> (Self::State, (u32, u32));

    /// The key state derived from the activation pair `(addr, val)` when the
    /// cipher was in state `s`.
    spec fn reseeded(s: Self::State, addr: u32, val: u32) -> Self::State;

    /// From one and the same key state, decrypting a ciphertext gives back the
    /// plaintext it was made from.
    proof fn decrypt_inverts_encrypt(s: Self::State, addr: u32, val: u32)
        ensures
            ({
                let code = Self::encrypted(s, addr, val).1;
                Self::decrypted(s, code.0, code.1).1 == (addr, val)
            }),
    ;

    /// From one and the same key state, encrypting a plaintext gives back the
    /// ciphertext it was read from.
    proof fn encrypt_inverts_decrypt(s: Self::State, addr: u32, val: u32)
        ensures
            ({
                let code = Self::decrypted(s, addr, val).1;
                Self::encrypted(s, code.0, code.1).1 == (addr, val)
            }),
    ;

    /// A cipher that has never been seeded.
    fn unseeded() -> (cipher: Self)
        ensures
            cipher.state() == Self::unseeded_state(),
    ;

    /// A cipher seeded the conventional way.
    fn seeded() -> (cipher: Self)
        ensures
            cipher.state() == Self::seeded_state(),
    ;

    /// Tells whether `addr` is an activation address.
    fn is_activation_marker(addr: u32) -> (marker: bool)
        ensures
            marker == Self::is_marker(addr),
    ;

    /// Encrypts one word pair and moves the key state on.
    fn encrypt(&mut self, addr: u32, val: u32) -> (code: (u32, u32))
        ensures
            (final(self).state(), code) == Self::encrypted(old(self).state(), addr, val),
    ;

    /// Decrypts one word pair and moves the key state on.
    fn decrypt(&mut self, addr: u32, val: u32) -> (code: (u32, u32))
        ensures
            (final(self).state(), code) == Self::decrypted(old(self).state(), addr, val),
    ;

    /// Replaces the key state by the one derived from an activation pair.
    fn reseed(&mut self, addr: u32, val: u32)
        requires
            Self::is_marker(addr),
        ensures
            final(self).state() == Self::reseeded(old(self).state(), addr, val),
    ;
}

} // verus!
