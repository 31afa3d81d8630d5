//! Encrypt and decrypt cheat codes of a legacy cheat cartridge.
//!
//! A code is a pair of 32-bit words, an address word and a value word. Codes
//! come raw, encrypted with a stateless legacy cipher, or encrypted with a
//! keyed cipher that an activation code switches on for the rest of the
//! stream. A [`Codebreaker`] encrypts and decrypts a stream line by line, and
//! can work out by itself how each line of a stream needs to be decrypted:
//! which scheme it is under, how many lines its code takes, and when an
//! activation code has gone by.
//!
//! The ciphers themselves are not part of this crate. An engine is built over
//! any pair of them that keeps the contracts of [`cipher`]. What an engine
//! does with them is stated over the model in [`session`], and what follows
//! for every stream is proved in [`laws`].

use vstd::prelude::*;

pub mod cipher;
pub mod framing;
pub mod laws;
pub mod session;

use crate::cipher::{KeyedCipher, SimpleCipher};
use crate::framing::{num_code_lines, rekey_request_takes_one_line, REKEY_REQUEST};
use crate::session::{Scheme, Session};
use std::marker::PhantomData;

verus! {

/// The code processor for one stream, over a legacy cipher `S` and a keyed
/// cipher `K`.
///
/// An engine is a cursor over one stream. It remembers the scheme in force,
/// the key state of the keyed cipher and the lines still owed to the code
/// being read, so it must see the lines of its stream in order and no others.
pub struct Codebreaker<S: SimpleCipher, K: KeyedCipher> {
    scheme: Scheme,
    keyed: K,
    code_lines: usize,
    simple: PhantomData<S>,
}

impl<S: SimpleCipher, K: KeyedCipher> View for Codebreaker<S, K> {
    type V = Session<K>;

    closed spec fn view(&self) -> Session<K> {
        Session {
            scheme: self.scheme,
            keyed: self.keyed.state(),
            lines_remaining: self.code_lines as nat,
        }
    }
}

impl<S: SimpleCipher, K: KeyedCipher> Codebreaker<S, K> {
    /// Starts cold: codes are taken as raw or legacy codes until an activation
    /// code switches the keyed cipher on.
    pub fn new() -> (cb: Self)
        ensures
            cb@ == Session::<K>::cold_start(),
    {
        Codebreaker { scheme: Scheme::Raw, keyed: K::unseeded(), code_lines: 0, simple: PhantomData }
    }

    /// Starts warm: the keyed cipher is on from the first line, seeded the
    /// conventional way, so that the customary activation code can be left out
    /// of the stream.
    pub fn new_v7() -> (cb: Self)
        ensures
            cb@ == Session::<K>::warm_start(),
    {
        Codebreaker { scheme: Scheme::Keyed, keyed: K::seeded(), code_lines: 0, simple: PhantomData }
    }

    /// The scheme in force.
    pub fn scheme(&self) -> (scheme: Scheme)
        ensures
            scheme == self@.scheme,
    {
        self.scheme
    }

    /// Lines left of the logical code being read, the next line included; zero
    /// when the next line starts a new logical code.
    pub fn lines_remaining(&self) -> (lines: usize)
        ensures
            lines == self@.lines_remaining,
    {
        self.code_lines
    }

    /// Encrypts one line and returns it; see
    /// [`encrypt_code_mut`](Self::encrypt_code_mut).
    pub fn encrypt_code(&mut self, addr: u32, val: u32) -> (code: (u32, u32))
        ensures
            (*final(self))@ == old(self)@.encrypt::<S>(addr, val).0,
            code == old(self)@.encrypt::<S>(addr, val).1,
    {
        let mut code = (addr, val);
        self.encrypt_code_mut(&mut code.0, &mut code.1);
        code
    }

    /// Encrypts one line in place.
    ///
    /// The line is encrypted with the keyed cipher under the keyed scheme and
    /// with the legacy cipher otherwise. If its address, as it came in, is an
    /// activation address, the keyed cipher is then reseeded from the line as
    /// it came in, and the keyed scheme is in force from the next line on.
    pub fn encrypt_code_mut(&mut self, addr: &mut u32, val: &mut u32)
        ensures
            (*final(self))@ == old(self)@.encrypt::<S>(*old(addr), *old(val)).0,
            (*final(addr), *final(val)) == old(self)@.encrypt::<S>(*old(addr), *old(val)).1,
    {
        let (oldaddr, oldval) = (*addr, *val);

        let code = if self.scheme == Scheme::Keyed {
            self.keyed.encrypt(*addr, *val)
        } else {
            S::encrypt(*addr, *val)
        };
        *addr = code.0;
        *val = code.1;

        if K::is_activation_marker(oldaddr) {
            self.keyed.reseed(oldaddr, oldval);
            self.scheme = Scheme::Keyed;
        }
    }

    /// Decrypts one line and returns it; see
    /// [`decrypt_code_mut`](Self::decrypt_code_mut).
    pub fn decrypt_code(&mut self, addr: u32, val: u32) -> (code: (u32, u32))
        ensures
            (*final(self))@ == old(self)@.decrypt::<S>(addr, val).0,
            code == old(self)@.decrypt::<S>(addr, val).1,
    {
        let mut code = (addr, val);
        self.decrypt_code_mut(&mut code.0, &mut code.1);
        code
    }

    /// Decrypts one line in place.
    ///
    /// The line is decrypted with the keyed cipher under the keyed scheme and
    /// with the legacy cipher otherwise. If its address, as decrypted, is an
    /// activation address, the keyed cipher is then reseeded from the
    /// decrypted line, and the keyed scheme is in force from the next line on.
    pub fn decrypt_code_mut(&mut self, addr: &mut u32, val: &mut u32)
        ensures
            (*final(self))@ == old(self)@.decrypt::<S>(*old(addr), *old(val)).0,
            (*final(addr), *final(val)) == old(self)@.decrypt::<S>(*old(addr), *old(val)).1,
    {
        let code = if self.scheme == Scheme::Keyed {
            self.keyed.decrypt(*addr, *val)
        } else {
            S::decrypt(*addr, *val)
        };
        *addr = code.0;
        *val = code.1;

        if K::is_activation_marker(*addr) {
            self.keyed.reseed(*addr, *val);
            self.scheme = Scheme::Keyed;
        }
    }

    /// Decrypts one line of a stream that says nothing of its schemes, and
    /// returns it; see [`auto_decrypt_code_mut`](Self::auto_decrypt_code_mut).
    pub fn auto_decrypt_code(&mut self, addr: u32, val: u32) -> (code: (u32, u32))
        ensures
            (*final(self))@ == old(self)@.auto_decrypt::<S>(addr, val).0,
            code == old(self)@.auto_decrypt::<S>(addr, val).1,
    {
        let mut code = (addr, val);
        self.auto_decrypt_code_mut(&mut code.0, &mut code.1);
        code
    }

    /// Decrypts, in place, one line of a stream that says nothing of its
    /// schemes.
    ///
    /// Outside the keyed scheme the first line of a code is read undecrypted:
    /// its opcode tells how many lines the code takes, and bits 25 to 27 of
    /// its address tell whether the code is encrypted with the legacy cipher.
    /// The lines that follow are read as the scheme in force has it. Under the
    /// keyed scheme every line is decrypted first, and lines are counted on
    /// the decrypted address. An activation address in a line so read reseeds
    /// the keyed cipher, puts the keyed scheme in force and leaves one line
    /// owed.
    ///
    /// Two lines are handed back without a look for an activation address: an
    /// activation code met in the clear at the start of an encrypted code, and
    /// the second line of a raw code. A request for a change of keying, which
    /// a keyed stream makes at the all-ones address, is not carried out: the
    /// line is handed back as decrypted.
    ///
    /// A stream whose codes take other numbers of lines than their opcodes
    /// tell is read out of step, and nothing shows it.
    pub fn auto_decrypt_code_mut(&mut self, addr: &mut u32, val: &mut u32)
        ensures
            (*final(self))@ == old(self)@.auto_decrypt::<S>(*old(addr), *old(val)).0,
            (*final(addr), *final(val)) == old(self)@.auto_decrypt::<S>(*old(addr), *old(val)).1,
    {
        if self.scheme != Scheme::Keyed {
            if self.code_lines == 0 {
                self.code_lines = num_code_lines(*addr);
                if (*addr >> 24) & 0x0e != 0 {
                    if K::is_activation_marker(*addr) {
                        // An activation code in the clear is passed over.
                        self.code_lines -= 1;
                        return ;
                    } else {
                        self.scheme = Scheme::Simple;
                        self.code_lines -= 1;
                        let code = S::decrypt(*addr, *val);
                        *addr = code.0;
                        *val = code.1;
                    }
                } else {
                    self.scheme = Scheme::Raw;
                    self.code_lines -= 1;
                }
            } else {
                self.code_lines -= 1;
                if self.scheme == Scheme::Raw {
                    return ;
                }
                let code = S::decrypt(*addr, *val);
                *addr = code.0;
                *val = code.1;
            }
        } else {
            let code = self.keyed.decrypt(*addr, *val);
            *addr = code.0;
            *val = code.1;
            if self.code_lines == 0 {
                self.code_lines = num_code_lines(*addr);
                proof {
                    rekey_request_takes_one_line();
                }
                if self.code_lines == 1 && *addr == REKEY_REQUEST {
                    // A change of keying is not carried out.
                    self.code_lines = 0;
                    return ;
                }
            }
            self.code_lines -= 1;
        }

        if K::is_activation_marker(*addr) {
            self.keyed.reseed(*addr, *val);
            self.scheme = Scheme::Keyed;
            self.code_lines = 1;
        }
    }
}

/// Does the same as [`new`](Codebreaker::new).
impl<S: SimpleCipher, K: KeyedCipher> Default for Codebreaker<S, K> {
    fn default() -> (cb: Self)
        ensures
            cb@ == Session::<K>::cold_start(),
    {
        Self::new()
    }
}

} // verus!
