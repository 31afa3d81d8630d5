//! What holds of every session, whatever the ciphers and whatever the stream.

use vstd::prelude::*;
use crate::cipher::{KeyedCipher, SimpleCipher};
use crate::framing::REKEY_REQUEST;
use crate::session::{Operation, Request, Scheme, Session};

verus! {

/// Round trip: a line encrypted from some session and then decrypted from the
/// same session comes back as it was. Outside the keyed scheme the two
/// sessions also end alike.
pub proof fn decrypt_inverts_encrypt<S: SimpleCipher, K: KeyedCipher>(
    session: Session<K>,
    addr: u32,
    val: u32,
)
    ensures
        ({
            let (encrypting, code) = session.encrypt::<S>(addr, val);
            let (decrypting, plain) = session.decrypt::<S>(code.0, code.1);
            &&& plain == (addr, val)
            &&& session.scheme != Scheme::Keyed ==> decrypting == encrypting
        }),
{
    S::decrypt_inverts_encrypt(addr, val);
    K::decrypt_inverts_encrypt(session.keyed, addr, val);
}

/// Round trip the other way: a line decrypted from some session and then
/// encrypted from the same session comes back as it was. Outside the keyed
/// scheme the two sessions also end alike.
pub proof fn encrypt_inverts_decrypt<S: SimpleCipher, K: KeyedCipher>(
    session: Session<K>,
    addr: u32,
    val: u32,
)
    ensures
        ({
            let (decrypting, plain) = session.decrypt::<S>(addr, val);
            let (encrypting, code) = session.encrypt::<S>(plain.0, plain.1);
            &&& code == (addr, val)
            &&& session.scheme != Scheme::Keyed ==> encrypting == decrypting
        }),
{
    S::encrypt_inverts_decrypt(addr, val);
    K::encrypt_inverts_decrypt(session.keyed, addr, val);
}

/// Under the keyed scheme no request brings another scheme back.
pub proof fn keyed_stays_keyed<S: SimpleCipher, K: KeyedCipher>(
    session: Session<K>,
    request: Request,
)
    requires
        session.scheme == Scheme::Keyed,
    ensures
        session.apply::<S>(request).0.scheme == Scheme::Keyed,
{
}

/// The keyed scheme is permanent: a session under the keyed scheme is still
/// under it after any run of requests.
pub proof fn keyed_is_permanent<S: SimpleCipher, K: KeyedCipher>(
    session: Session<K>,
    requests: Seq<Request>,
)
    requires
        session.scheme == Scheme::Keyed,
    ensures
        session.run::<S>(requests).scheme == Scheme::Keyed,
    decreases requests.len(),
{
    if requests.len() > 0 {
        keyed_is_permanent::<S, K>(session, requests.drop_last());
        keyed_stays_keyed::<S, K>(session.run::<S>(requests.drop_last()), requests.last());
    }
}

/// An activation is for good: once a request has made the session meet an
/// activation address, the session is under the keyed scheme after that
/// request and after any run of requests that follows.
pub proof fn activation_is_permanent<S: SimpleCipher, K: KeyedCipher>(
    session: Session<K>,
    request: Request,
    rest: Seq<Request>,
)
    requires
        session.meets_activation::<S>(request),
    ensures
        session.apply::<S>(request).0.scheme == Scheme::Keyed,
        session.apply::<S>(request).0.run::<S>(rest).scheme == Scheme::Keyed,
{
    keyed_is_permanent::<S, K>(session.apply::<S>(request).0, rest);
}

/// Explicit encryption from a cold start: once a pair has activated the
/// session and left the keyed cipher seeded the conventional way, the session
/// is the warm start, and whatever is asked next is answered as a warm start
/// answers it.
pub proof fn encrypt_activated_is_warm_start<S: SimpleCipher, K: KeyedCipher>(
    activation_addr: u32,
    activation_val: u32,
    next: Request,
)
    requires
        ({
            let activated = Session::<K>::cold_start().encrypt::<S>(
                activation_addr,
                activation_val,
            ).0;
            activated.scheme == Scheme::Keyed && activated.keyed == K::seeded_state()
        }),
    ensures
        ({
            let activated = Session::<K>::cold_start().encrypt::<S>(
                activation_addr,
                activation_val,
            ).0;
            &&& activated == Session::<K>::warm_start()
            &&& activated.apply::<S>(next) == Session::<K>::warm_start().apply::<S>(next)
        }),
{
}

/// Explicit decryption from a cold start: once a pair has activated the
/// session and left the keyed cipher seeded the conventional way, the session
/// is the warm start, and whatever is asked next is answered as a warm start
/// answers it.
pub proof fn decrypt_activated_is_warm_start<S: SimpleCipher, K: KeyedCipher>(
    activation_addr: u32,
    activation_val: u32,
    next: Request,
)
    requires
        ({
            let activated = Session::<K>::cold_start().decrypt::<S>(
                activation_addr,
                activation_val,
            ).0;
            activated.scheme == Scheme::Keyed && activated.keyed == K::seeded_state()
        }),
    ensures
        ({
            let activated = Session::<K>::cold_start().decrypt::<S>(
                activation_addr,
                activation_val,
            ).0;
            &&& activated == Session::<K>::warm_start()
            &&& activated.apply::<S>(next) == Session::<K>::warm_start().apply::<S>(next)
        }),
{
}

/// Scheme-inferring decryption from a cold start: once a pair has activated
/// the session and left the keyed cipher seeded the conventional way, the next
/// line is handed back as a warm start hands it back. Both sessions are then
/// under the keyed scheme, with the keyed cipher in the same state unless the
/// line asked for a change of keying at an address that activates as well.
pub proof fn auto_decrypt_activated_matches_warm_start<S: SimpleCipher, K: KeyedCipher>(
    activation_addr: u32,
    activation_val: u32,
    addr: u32,
    val: u32,
)
    requires
        ({
            let activated = Session::<K>::cold_start().auto_decrypt::<S>(
                activation_addr,
                activation_val,
            ).0;
            activated.scheme == Scheme::Keyed && activated.keyed == K::seeded_state()
        }),
    ensures
        ({
            let activated = Session::<K>::cold_start().auto_decrypt::<S>(
                activation_addr,
                activation_val,
            ).0;
            let (cold, cold_code) = activated.auto_decrypt::<S>(addr, val);
            let (warm, warm_code) = Session::<K>::warm_start().auto_decrypt::<S>(addr, val);
            &&& cold_code == warm_code
            &&& cold_code == K::decrypted(K::seeded_state(), addr, val).1
            &&& cold.scheme == Scheme::Keyed
            &&& warm.scheme == Scheme::Keyed
            &&& !(cold_code.0 == REKEY_REQUEST && K::is_marker(REKEY_REQUEST)) ==> cold.keyed
                == warm.keyed
        }),
{
}

/// Under the scheme-inferring decryption an activation leaves exactly one
/// line owed, whatever the line count was before, and the keyed cipher
/// reseeded from the line as transformed.
pub proof fn auto_decrypt_activation_owes_one_line<S: SimpleCipher, K: KeyedCipher>(
    session: Session<K>,
    addr: u32,
    val: u32,
)
    requires
        session.meets_activation::<S>(
            Request { operation: Operation::AutoDecrypt, addr, val },
        ),
    ensures
        ({
            let line = session.framed_line::<S>(addr, val);
            let (next, code) = session.auto_decrypt::<S>(addr, val);
            &&& code == line.code
            &&& next.scheme == Scheme::Keyed
            &&& next.keyed == K::reseeded(line.session.keyed, code.0, code.1)
            &&& next.lines_remaining == 1
        }),
{
}

/// No request makes a session owe more than one line, if it did not before:
/// the scheme-inferring decryption leaves at most one line owed, and the
/// explicit operations leave the count alone.
pub proof fn request_owes_at_most_one_line<S: SimpleCipher, K: KeyedCipher>(
    session: Session<K>,
    request: Request,
)
    requires
        session.lines_remaining <= 1,
    ensures
        session.apply::<S>(request).0.lines_remaining <= 1,
        !(request.operation is AutoDecrypt) ==> session.apply::<S>(request).0.lines_remaining
            == session.lines_remaining,
{
}

/// Between two lines of a stream a session never owes more than one line:
/// what holds of a cold and of a warm start holds after any run of requests.
pub proof fn at_most_one_line_owed<S: SimpleCipher, K: KeyedCipher>(
    session: Session<K>,
    requests: Seq<Request>,
)
    requires
        session.lines_remaining <= 1,
    ensures
        session.run::<S>(requests).lines_remaining <= 1,
        Session::<K>::cold_start().lines_remaining == 0,
        Session::<K>::warm_start().lines_remaining == 0,
    decreases requests.len(),
{
    if requests.len() > 0 {
        at_most_one_line_owed::<S, K>(session, requests.drop_last());
        request_owes_at_most_one_line::<S, K>(
            session.run::<S>(requests.drop_last()),
            requests.last(),
        );
    }
}

} // verus!
