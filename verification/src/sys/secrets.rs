//! A credential that is read only through a callback and wiped when it goes.

use vstd::prelude::*;
use vstd::string::*;

verus! {

/// Sensitive bytes in a `secrecy::Secret`, which zeroes them when it is
/// dropped and keeps them out of debug output. The field is closed to proofs:
/// what it holds is known by `held_bytes` alone.
#[verifier::external_body]
pub struct ProviderCredential {
    token: secrecy::Secret<Vec<u8>>,
}

/// The bytes that a credential holds.
pub uninterp spec fn held_bytes(c: ProviderCredential) -> Seq<u8>;

impl View for ProviderCredential {
    type V = Seq<u8>;

    open spec fn view(&self) -> Seq<u8> {
        held_bytes(*self)
    }
}

/// Calls `secrecy::Secret::new`, which takes the bytes as they are.
#[verifier::external_body]
fn seal(raw: Vec<u8>) -> (c: ProviderCredential)
    ensures
        held_bytes(c) == raw@,
{
    ProviderCredential { token: secrecy::Secret::new(raw) }
}

/// Calls `secrecy::ExposeSecret::expose_secret`, which lends the bytes held.
#[verifier::external_body]
fn exposed(c: &ProviderCredential) -> (b: &[u8])
    ensures
        b@ == held_bytes(*c),
{
    secrecy::ExposeSecret::expose_secret(&c.token).as_slice()
}

/// Puts an empty `secrecy::Secret` in the place of the one held, which is
/// dropped and thereby zeroed; the empty one has no bytes to lend.
#[verifier::external_body]
fn reseal_empty(c: &mut ProviderCredential)
    ensures
        held_bytes(*final(c)) == Seq::<u8>::empty(),
{
    c.token = secrecy::Secret::new(Vec::new());
}

/// Calls `zeroize::Zeroize::zeroize` on a string, which zeroes its bytes and
/// leaves it empty.
#[verifier::external_body]
fn wipe_string(s: &mut String)
    ensures
        final(s)@ == Seq::<char>::empty(),
{
    secrecy::Zeroize::zeroize(s);
}

impl ProviderCredential {
    /// Takes ownership of the bytes.
    pub fn new(raw_token: Vec<u8>) -> (c: Self)
        ensures
            c@ == raw_token@,
    {
        seal(raw_token)
    }

    /// Holds the UTF-8 bytes of the string and wipes the string itself: its
    /// buffer is zeroed and it is left empty.
    pub fn from_string(s: &mut String) -> (c: Self)
        ensures
            c@ == vstd::utf8::encode_utf8(old(s)@),
            final(s)@ == Seq::<char>::empty(),
    {
        let bytes = s.as_str().as_bytes_vec();
        wipe_string(s);
        seal(bytes)
    }

    /// Lends the bytes to `action` for the length of one call and hands back
    /// what it returns.
    pub fn use_secret<F, R>(&self, action: F) -> (r: R) where F: FnOnce(&[u8]) -> R
        requires
            forall|b: &[u8]| b@ == self@ ==> #[trigger] action.requires((b,)),
        ensures
            exists|b: &[u8]| b@ == self@ && #[trigger] action.ensures((b,), r),
    {
        let bytes = exposed(self);
        let r = action(bytes);
        assert(bytes@ == self@ && action.ensures((bytes,), r));
        r
    }

    /// Wipes the credential: the bytes it held are zeroed and it holds none
    /// any more.
    pub fn destroy(&mut self)
        ensures
            final(self)@ == Seq::<u8>::empty(),
            forall|i: int| 0 <= i < final(self)@.len() ==> final(self)@[i] == 0,
    {
        reseal_empty(self);
    }

    /// What stands for the credential in any output.
    pub fn redacted(&self) -> (r: String)
        ensures
            r@ == "[REDACTED]"@,
    {
        String::from_str("[REDACTED]")
    }
}

} // verus!
