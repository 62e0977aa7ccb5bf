//! Owned containers for secrets that are wiped when they go out of scope.

use vstd::prelude::*;
use vstd::string::StringExecFns;
use zeroize::Zeroize;
use zeroize::Zeroizing;

verus! {

/// A byte vector inside `zeroize::Zeroizing`, which overwrites it with zeros
/// when it is dropped.
#[verifier::external_body]
#[derive(Debug)]
pub struct GuardedBytes {
    inner: Zeroizing<Vec<u8>>,
}

/// A string inside `zeroize::Zeroizing`, which overwrites it with zeros when
/// it is dropped.
#[verifier::external_body]
#[derive(Debug)]
pub struct GuardedText {
    inner: Zeroizing<String>,
}

/// The bytes that a guarded byte vector holds.
pub uninterp spec fn guarded_bytes(guard: GuardedBytes) -> Seq<u8>;

/// The characters that a guarded string holds.
pub uninterp spec fn guarded_text(guard: GuardedText) -> Seq<char>;

/// `Zeroizing::new` on a byte vector: the guard holds exactly the bytes given.
#[verifier::external_body]
fn guard_bytes(bytes: Vec<u8>) -> (guard: GuardedBytes)
    ensures
        guarded_bytes(guard) == bytes@,
{
    GuardedBytes { inner: Zeroizing::new(bytes) }
}

/// `Deref::deref` of a guarded byte vector: a view of the bytes held.
#[verifier::external_body]
fn guarded_bytes_ref(guard: &GuardedBytes) -> (bytes: &Vec<u8>)
    ensures
        bytes@ == guarded_bytes(*guard),
{
    core::ops::Deref::deref(&guard.inner)
}

/// `DerefMut::deref_mut` of a guarded byte vector: the guard holds whatever
/// is written through the reference.
#[verifier::external_body]
fn guarded_bytes_mut(guard: &mut GuardedBytes) -> (bytes: &mut Vec<u8>)
    ensures
        bytes@ == guarded_bytes(*old(guard)),
        guarded_bytes(*final(guard)) == final(bytes)@,
{
    core::ops::DerefMut::deref_mut(&mut guard.inner)
}

/// `Zeroizing::new` on a string: the guard holds exactly the text given.
#[verifier::external_body]
fn guard_text(text: String) -> (guard: GuardedText)
    ensures
        guarded_text(guard) == text@,
{
    GuardedText { inner: Zeroizing::new(text) }
}

/// `Deref::deref` of a guarded string: a view of the text held.
#[verifier::external_body]
fn guarded_text_ref(guard: &GuardedText) -> (text: &String)
    ensures
        text@ == guarded_text(*guard),
{
    core::ops::Deref::deref(&guard.inner)
}

/// `DerefMut::deref_mut` of a guarded string: the guard holds whatever is
/// written through the reference.
#[verifier::external_body]
fn guarded_text_mut(guard: &mut GuardedText) -> (text: &mut String)
    ensures
        text@ == guarded_text(*old(guard)),
        guarded_text(*final(guard)) == final(text)@,
{
    core::ops::DerefMut::deref_mut(&mut guard.inner)
}

/// `Zeroize::zeroize` on a byte vector: overwrites the bytes and the spare
/// capacity with zeros and leaves the vector empty.
#[verifier::external_body]
pub(crate) fn zeroize_bytes(bytes: &mut Vec<u8>)
    ensures
        final(bytes)@ == Seq::<u8>::empty(),
{
    bytes.zeroize();
}

/// `Zeroize::zeroize` on a string: overwrites its bytes and the spare
/// capacity with zeros and leaves the string empty.
#[verifier::external_body]
pub(crate) fn zeroize_text(text: &mut String)
    ensures
        final(text)@ == Seq::<char>::empty(),
{
    text.zeroize();
}

/// `Zeroize::zeroize` on a byte array: overwrites every byte with zero.
#[verifier::external_body]
pub(crate) fn zeroize_array<const N: usize>(bytes: &mut [u8; N])
    ensures
        final(bytes)@ == Seq::new(N as nat, |i: int| 0u8),
{
    bytes.zeroize();
}

/// A kind of secret value, together with the holder that wipes it on drop.
pub trait Secret: Sized + View {
    /// The zero-on-drop holder of such a value.
    type Guard;

    /// What a holder holds.
    spec fn guarded(guard: &Self::Guard) -> Self::V;

    /// Puts the value under guard.
    fn guard(self) -> (guard: Self::Guard)
        ensures
            Self::guarded(&guard) == self@,
    ;

    /// Looks at the guarded value.
    fn peek(guard: &Self::Guard) -> (value: &Self)
        ensures
            value@ == Self::guarded(guard),
    ;

    /// Reaches the guarded value for writing.
    fn peek_mut(guard: &mut Self::Guard) -> (value: &mut Self)
        ensures
            value@ == Self::guarded(old(guard)),
            Self::guarded(final(guard)) == final(value)@,
    ;

    /// Takes the value out from under its guard, leaving nothing behind to
    /// wipe.
    fn release(guard: Self::Guard) -> (value: Self)
        ensures
            value@ == Self::guarded(&guard),
    ;
}

impl Secret for Vec<u8> {
    type Guard = GuardedBytes;

    open spec fn guarded(guard: &Self::Guard) -> Seq<u8> {
        guarded_bytes(*guard)
    }

    fn guard(self) -> (guard: Self::Guard) {
        guard_bytes(self)
    }

    fn peek(guard: &Self::Guard) -> (value: &Self) {
        guarded_bytes_ref(guard)
    }

    fn peek_mut(guard: &mut Self::Guard) -> (value: &mut Self) {
        guarded_bytes_mut(guard)
    }

    fn release(guard: Self::Guard) -> (value: Self) {
        let mut guard = guard;
        let mut value: Vec<u8> = Vec::new();
        let held = guarded_bytes_mut(&mut guard);
        core::mem::swap(held, &mut value);
        value
    }
}

impl Secret for String {
    type Guard = GuardedText;

    open spec fn guarded(guard: &Self::Guard) -> Seq<char> {
        guarded_text(*guard)
    }

    fn guard(self) -> (guard: Self::Guard) {
        guard_text(self)
    }

    fn peek(guard: &Self::Guard) -> (value: &Self) {
        guarded_text_ref(guard)
    }

    fn peek_mut(guard: &mut Self::Guard) -> (value: &mut Self) {
        guarded_text_mut(guard)
    }

    fn release(guard: Self::Guard) -> (value: Self) {
        let mut guard = guard;
        let mut value: String = String::new();
        let held = guarded_text_mut(&mut guard);
        core::mem::swap(held, &mut value);
        value
    }
}

/// What is shown in place of a secret: the name of the holder, with a
/// placeholder where the content would stand.
pub open spec fn redaction() -> Seq<char> {
    "SecureMemory { data: \"[REDACTED]\" }"@
}

/// Exclusive owner of one secret value. The value lives in a holder that
/// overwrites it with zeros on every exit path: normal drop, early return and
/// unwinding alike. Its debug form shows nothing of the value.
#[derive(Debug)]
pub struct SecureMemory<T: Secret> {
    data: T::Guard,
}

impl<T: Secret> View for SecureMemory<T> {
    type V = T::V;

    closed spec fn view(&self) -> T::V {
        T::guarded(&self.data)
    }
}

impl<T: Secret> SecureMemory<T> {
    /// Takes ownership of `data`.
    pub fn new(data: T) -> (held: Self)
        ensures
            held@ == data@,
    {
        Self { data: data.guard() }
    }

    /// Read access for the owner.
    pub fn as_ref(&self) -> (data: &T)
        ensures
            data@ == self@,
    {
        T::peek(&self.data)
    }

    /// Write access for the owner.
    pub fn as_mut(&mut self) -> (data: &mut T)
        ensures
            data@ == old(self)@,
            final(self)@ == final(data)@,
    {
        T::peek_mut(&mut self.data)
    }

    /// The text to show for this secret, whatever it holds: the placeholder
    /// and nothing of the content.
    pub fn redacted(&self) -> (text: String)
        ensures
            text@ == redaction(),
    {
        String::from_str("SecureMemory { data: \"[REDACTED]\" }")
    }

    /// Hands the secret out and switches the automatic wipe off for it.
    ///
    /// Dangerous: from here on the caller alone is responsible for wiping the
    /// returned value once it is no longer needed.
    pub fn into_inner(self) -> (data: T)
        ensures
            data@ == self@,
    {
        T::release(self.data)
    }
}

} // verus!
