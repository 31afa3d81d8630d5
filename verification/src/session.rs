//! The mathematical model of a decoding session.
//!
//! A session is what an engine remembers between two lines of one stream: the
//! scheme in force, the key state of the keyed cipher and the number of lines
//! still owed to the logical code being read. Each operation of the engine is
//! a function from a session and a word pair to the next session and the word
//! pair handed back.

use vstd::prelude::*;
use crate::cipher::{KeyedCipher, SimpleCipher};
use crate::framing::{line_count, shows_cipher, REKEY_REQUEST};

verus! {

/// The cipher scheme in force.
#[derive(Clone, Copy, PartialEq, Eq, Structural, Debug)]
pub enum Scheme {
    /// Codes are not encrypted.
    Raw,
    /// Codes are encrypted with the stateless legacy cipher.
    Simple,
    /// Codes are encrypted with the keyed cipher.
    Keyed,
}

/// The state of one decoding session.
pub struct Session<K: KeyedCipher> {
    /// The scheme in force.
    pub scheme: Scheme,
    /// The key state of the keyed cipher.
    pub keyed: K::State,
    /// Lines left of the logical code being read, the next line included;
    /// zero when the next line starts a new logical code.
    pub lines_remaining: nat,
}

/// What an engine can be asked to do with a line.
pub enum Operation {
    /// Explicit encryption.
    Encrypt,
    /// Explicit decryption.
    Decrypt,
    /// Scheme-inferring decryption.
    AutoDecrypt,
}

/// One line handed to an engine, with what is asked for.
pub struct Request {
    /// What is asked for.
    pub operation: Operation,
    /// The address word of the line.
    pub addr: u32,
    /// The value word of the line.
    pub val: u32,
}

/// One line as the scheme-inferring decryption leaves it before it looks for
/// an activation address.
pub struct Line<K: KeyedCipher> {
    /// The session after the line was framed and transformed.
    pub session: Session<K>,
    /// The word pair after the transform.
    pub code: (u32, u32),
    /// Whether the line is done with: no activation address is looked for.
    pub settled: bool,
}

impl<K: KeyedCipher> Session<K> {
    /// The session of an engine started cold: raw scheme, unseeded cipher.
    pub open spec fn cold_start() -> Self {
        Session { scheme: Scheme::Raw, keyed: K::unseeded_state(), lines_remaining: 0 }
    }

    /// The session of an engine started warm: keyed scheme, cipher seeded the
    /// conventional way.
    pub open spec fn warm_start() -> Self {
        Session { scheme: Scheme::Keyed, keyed: K::seeded_state(), lines_remaining: 0 }
    }

    /// The session after `(addr, val)` was looked at for an activation
    /// address: on one, the keyed cipher is reseeded from the pair and the
    /// keyed scheme is in force from then on.
    pub open spec fn activated_by(self, addr: u32, val: u32) -> Self {
        if K::is_marker(addr) {
            Session {
                scheme: Scheme::Keyed,
                keyed: K::reseeded(self.keyed, addr, val),
                lines_remaining: self.lines_remaining,
            }
        } else {
            self
        }
    }

    /// The explicit encryption of one line.
    ///
    /// The line is encrypted under the scheme in force, the legacy cipher
    /// standing in for the raw scheme. The plaintext address decides on
    /// activation, after the transform.
    pub open spec fn encrypt<S: SimpleCipher>(self, addr: u32, val: u32) -> (Self, (u32, u32)) {
        if self.scheme == Scheme::Keyed {
            let (keyed, code) = K::encrypted(self.keyed, addr, val);
            (Session { keyed, ..self }.activated_by(addr, val), code)
        } else {
            (self.activated_by(addr, val), S::encrypted(addr, val))
        }
    }

    /// The explicit decryption of one line.
    ///
    /// The line is decrypted under the scheme in force, the legacy cipher
    /// standing in for the raw scheme. The decrypted address decides on
    /// activation.
    pub open spec fn decrypt<S: SimpleCipher>(self, addr: u32, val: u32) -> (Self, (u32, u32)) {
        if self.scheme == Scheme::Keyed {
            let (keyed, code) = K::decrypted(self.keyed, addr, val);
            (Session { keyed, ..self }.activated_by(code.0, code.1), code)
        } else {
            let code = S::decrypted(addr, val);
            (self.activated_by(code.0, code.1), code)
        }
    }

    /// The first line of a logical code, outside the keyed scheme.
    ///
    /// The undecrypted address gives the line count and shows whether the
    /// group is encrypted. An activation address met in the clear among
    /// encrypted groups is passed over: it takes its line and nothing else
    /// happens.
    pub open spec fn header_line<S: SimpleCipher>(self, addr: u32, val: u32) -> Line<K> {
        let lines_remaining = (line_count(addr) - 1) as nat;
        if !shows_cipher(addr) {
            Line {
                session: Session { scheme: Scheme::Raw, lines_remaining, ..self },
                code: (addr, val),
                settled: false,
            }
        } else if K::is_marker(addr) {
            Line { session: Session { lines_remaining, ..self }, code: (addr, val), settled: true }
        } else {
            Line {
                session: Session { scheme: Scheme::Simple, lines_remaining, ..self },
                code: S::decrypted(addr, val),
                settled: false,
            }
        }
    }

    /// A further line of a logical code, outside the keyed scheme: it is read
    /// under the scheme in force, and a raw line is done with as it stands.
    pub open spec fn continuation_line<S: SimpleCipher>(self, addr: u32, val: u32) -> Line<K> {
        let session = Session { lines_remaining: (self.lines_remaining - 1) as nat, ..self };
        if self.scheme == Scheme::Raw {
            Line { session, code: (addr, val), settled: true }
        } else {
            Line { session, code: S::decrypted(addr, val), settled: false }
        }
    }

    /// A line under the keyed scheme.
    ///
    /// The line is decrypted first. Where it starts a logical code, the
    /// decrypted address gives the line count. A code at the all-ones address,
    /// which takes one line, asks for a change of keying. That is not carried
    /// out: the line is handed back as decrypted and owes no further line.
    pub open spec fn keyed_line(self, addr: u32, val: u32) -> Line<K> {
        let (keyed, code) = K::decrypted(self.keyed, addr, val);
        if self.lines_remaining != 0 {
            Line {
                session: Session {
                    keyed,
                    lines_remaining: (self.lines_remaining - 1) as nat,
                    ..self
                },
                code,
                settled: false,
            }
        } else if code.0 == REKEY_REQUEST {
            Line { session: Session { keyed, lines_remaining: 0, ..self }, code, settled: true }
        } else {
            Line {
                session: Session {
                    keyed,
                    lines_remaining: (line_count(code.0) - 1) as nat,
                    ..self
                },
                code,
                settled: false,
            }
        }
    }

    /// One line as the scheme-inferring decryption frames and transforms it.
    pub open spec fn framed_line<S: SimpleCipher>(self, addr: u32, val: u32) -> Line<K> {
        if self.scheme == Scheme::Keyed {
            self.keyed_line(addr, val)
        } else if self.lines_remaining == 0 {
            self.header_line::<S>(addr, val)
        } else {
            self.continuation_line::<S>(addr, val)
        }
    }

    /// The scheme-inferring decryption of one line.
    ///
    /// The line is framed and transformed. Unless it is done with by then, its
    /// address as transformed decides on activation, and an activation leaves
    /// exactly one line owed.
    pub open spec fn auto_decrypt<S: SimpleCipher>(self, addr: u32, val: u32) -> (
        Self,
        (u32, u32),
    ) {
        let line = self.framed_line::<S>(addr, val);
        if !line.settled && K::is_marker(line.code.0) {
            (
                Session {
                    lines_remaining: 1,
                    ..line.session.activated_by(line.code.0, line.code.1)
                },
                line.code,
            )
        } else {
            (line.session, line.code)
        }
    }

    /// Whether a request makes the session meet an activation address where
    /// it looks for one: in the line as it came in when encrypting, in the
    /// line as decrypted when decrypting, and in the line as transformed,
    /// unless it was done with before, when inferring the scheme.
    pub open spec fn meets_activation<S: SimpleCipher>(self, request: Request) -> bool {
        match request.operation {
            Operation::Encrypt => K::is_marker(request.addr),
            Operation::Decrypt => K::is_marker(
                self.decrypt::<S>(request.addr, request.val).1.0,
            ),
            Operation::AutoDecrypt => {
                let line = self.framed_line::<S>(request.addr, request.val);
                !line.settled && K::is_marker(line.code.0)
            },
        }
    }

    /// The session and the word pair that answer one request.
    pub open spec fn apply<S: SimpleCipher>(self, request: Request) -> (Self, (u32, u32)) {
        match request.operation {
            Operation::Encrypt => self.encrypt::<S>(request.addr, request.val),
            Operation::Decrypt => self.decrypt::<S>(request.addr, request.val),
            Operation::AutoDecrypt => self.auto_decrypt::<S>(request.addr, request.val),
        }
    }

    /// The session after a run of requests, answered in order.
    pub open spec fn run<S: SimpleCipher>(self, requests: Seq<Request>) -> Self
        decreases requests.len(),
    {
        if requests.len() == 0 {
            self
        } else {
            self.run::<S>(requests.drop_last()).apply::<S>(requests.last()).0
        }
    }
}

} // verus!
