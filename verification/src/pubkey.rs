//! Account identifiers: a 32-byte value interned from a transaction's
//! resolved account list, with a canonical base58 text encoding.

use vstd::prelude::*;

verus! {

/// What base58 encoding of a byte string yields.  The encoding is a pure
/// function of the bytes; its definition is left to the `bs58` crate.
pub uninterp spec fn base58_of(bytes: Seq<u8>) -> Seq<char>;

/// What base58 decoding of a text yields: the decoded bytes, or `None` when
/// the text is not valid base58.  A pure function of the text.
pub uninterp spec fn base58_decoded(text: Seq<char>) -> Option<Seq<u8>>;

/// Relies on `bs58::encode(..).into_string()`: base58-encodes a byte string;
/// the result depends on the bytes alone.
#[verifier::external_body]
pub(crate) fn bs58_encode(bytes: &[u8]) -> (r: String)
    ensures
        r@ == base58_of(bytes@),
{
    bs58::encode(bytes).into_string()
}

/// Relies on `bs58::decode(..).into_vec()`: decodes base58 text, failing
/// exactly on text that is not valid base58; the result depends on the text
/// alone.
#[verifier::external_body]
fn bs58_decode(text: &str) -> (r: Option<Vec<u8>>)
    ensures
        r is Some <==> base58_decoded(text@) is Some,
        r is Some ==> r->0@ == base58_decoded(text@)->0,
{
    bs58::decode(text).into_vec().ok()
}

/// An error of this crate's own decoding and structuring logic.
#[derive(Clone, Copy, PartialEq, Eq, Debug)]
pub enum DecodeError {
    /// A byte string that should hold a 32-byte account identifier has
    /// another length.
    BadPubkeyLength,
    /// A text that should be base58 is not.
    BadBase58,
}

/// A 32-byte account identifier.  Equality is byte equality.
#[derive(Clone, Copy, PartialEq, Eq, Hash, Debug)]
pub struct Pubkey(pub [u8; 32]);

impl View for Pubkey {
    type V = Seq<u8>;

    open spec fn view(&self) -> Seq<u8> {
        self.0@
    }
}

impl Pubkey {
    /// Reads an identifier from a byte string of exactly 32 bytes.
    pub fn try_from(pubkey: &[u8]) -> (r: Result<Self, DecodeError>)
        ensures
            r is Ok <==> pubkey@.len() == 32,
            r is Ok ==> r->Ok_0@ == pubkey@,
    {
        if pubkey.len() != 32 {
            return Err(DecodeError::BadPubkeyLength);
        }
        let mut bytes = [0u8; 32];
        let mut i: usize = 0;
        while i < 32
            invariant
                i <= 32,
                pubkey@.len() == 32,
                forall|j: int| 0 <= j < i ==> bytes@[j] == pubkey@[j],
            decreases 32 - i,
        {
            bytes[i] = pubkey[i];
            i += 1;
        }
        assert(bytes@ =~= pubkey@);
        Ok(Pubkey(bytes))
    }

    /// Reads an identifier from instruction payload bytes; same rule as
    /// `try_from`.
    pub fn unpack(data: &[u8]) -> (r: Result<Self, DecodeError>)
        ensures
            r is Ok <==> data@.len() == 32,
            r is Ok ==> r->Ok_0@ == data@,
    {
        Pubkey::try_from(data)
    }

    /// Decodes a base58 text into an identifier; fails when the text is not
    /// base58 or does not decode to exactly 32 bytes.
    pub fn try_from_string(pubkey: &str) -> (r: Result<Self, DecodeError>)
        ensures
            r is Ok <==> (base58_decoded(pubkey@) matches Some(b) && b.len() == 32),
            r is Ok ==> r->Ok_0@ == base58_decoded(pubkey@)->0,
    {
        match bs58_decode(pubkey) {
            None => Err(DecodeError::BadBase58),
            Some(decoded) => {
                if decoded.len() == 32 {
                    Ok(Pubkey::from_string(pubkey))
                } else {
                    Err(DecodeError::BadPubkeyLength)
                }
            },
        }
    }

    /// Decodes a base58 text into an identifier.
    ///
    /// The text must be valid base58 of exactly 32 bytes; texts on which
    /// decoding fails are excluded: this crate's verified functions do not panic.
    pub fn from_string(pubkey: &str) -> (r: Self)
        requires
            (base58_decoded(pubkey@) matches Some(b) && b.len() == 32),
        ensures
            r@ == base58_decoded(pubkey@)->0,
    {
        match bs58_decode(pubkey) {
            None => unreached(),
            Some(decoded) => {
                match Pubkey::try_from(decoded.as_slice()) {
                    Ok(key) => key,
                    Err(_) => unreached(),
                }
            },
        }
    }

    /// The canonical base58 text of this identifier.
    pub fn to_string(&self) -> (r: String)
        ensures
            r@ == base58_of(self@),
    {
        bs58_encode(self.0.as_slice())
    }

    /// The all-zero identifier.
    pub fn default() -> (r: Self)
        ensures
            r@ == Seq::<u8>::new(32, |i: int| 0u8),
    {
        let r = Pubkey([0u8; 32]);
        assert(r@ =~= Seq::<u8>::new(32, |i: int| 0u8));
        r
    }
}

/// An account identifier borrowed from a transaction's resolved account
/// list.
#[derive(Clone, Copy)]
pub struct PubkeyRef<'a>(pub &'a Vec<u8>);

impl<'a> View for PubkeyRef<'a> {
    type V = Seq<u8>;

    open spec fn view(&self) -> Seq<u8> {
        self.0@
    }
}

impl<'a> PubkeyRef<'a> {
    /// Copies the borrowed bytes into an owned identifier; fails when they
    /// are not exactly 32 bytes.
    pub fn to_pubkey(&self) -> (r: Result<Pubkey, DecodeError>)
        ensures
            r is Ok <==> self@.len() == 32,
            r is Ok ==> r->Ok_0@ == self@,
    {
        Pubkey::try_from(self.0.as_slice())
    }

    /// The canonical base58 text of the borrowed bytes.
    pub fn to_string(&self) -> (r: String)
        ensures
            r@ == base58_of(self@),
    {
        bs58_encode(self.0.as_slice())
    }
}

} // verus!
