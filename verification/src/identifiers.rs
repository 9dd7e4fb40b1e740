//! Identifiers: symbols, venues, and the instrument identity made of both.

use std::collections::hash_map::DefaultHasher;
use std::hash::{Hash, Hasher};
use vstd::prelude::*;
use vstd::std_specs::cmp::PartialEqSpec;
use vstd::std_specs::hash::DefaultHasherAdditionalSpecFns;
use vstd::utf8::encode_utf8;

verus! {

/// A ticker symbol, as text.
#[derive(Debug, Hash)]
pub struct Symbol {
    pub value: String,
}

impl View for Symbol {
    type V = Seq<char>;

    open spec fn view(&self) -> Seq<char> {
        self.value@
    }
}

impl Symbol {
    /// The symbol spelled `value`.
    pub fn new(value: &str) -> (r: Symbol)
        ensures
            r@ == value@,
    {
        Symbol { value: value.to_owned() }
    }
}

impl Clone for Symbol {
    fn clone(&self) -> (r: Self)
        ensures
            r == *self,
    {
        Symbol { value: self.value.clone() }
    }
}

impl PartialEq for Symbol {
    /// Two symbols are equal when they are spelled alike.
    fn eq(&self, other: &Self) -> (r: bool)
        ensures
            r == (self@ == other@),
    {
        self.value == other.value
    }
}

impl Eq for Symbol {}

impl vstd::std_specs::cmp::PartialEqSpecImpl for Symbol {
    open spec fn obeys_eq_spec() -> bool {
        true
    }

    open spec fn eq_spec(&self, other: &Self) -> bool {
        self@ == other@
    }
}

/// A trading venue, as text.
#[derive(Debug, Hash)]
pub struct Venue {
    pub value: String,
}

impl View for Venue {
    type V = Seq<char>;

    open spec fn view(&self) -> Seq<char> {
        self.value@
    }
}

impl Venue {
    /// The venue spelled `value`.
    pub fn new(value: &str) -> (r: Venue)
        ensures
            r@ == value@,
    {
        Venue { value: value.to_owned() }
    }
}

impl Clone for Venue {
    fn clone(&self) -> (r: Self)
        ensures
            r == *self,
    {
        Venue { value: self.value.clone() }
    }
}

impl PartialEq for Venue {
    /// Two venues are equal when they are spelled alike.
    fn eq(&self, other: &Self) -> (r: bool)
        ensures
            r == (self@ == other@),
    {
        self.value == other.value
    }
}

impl Eq for Venue {}

impl vstd::std_specs::cmp::PartialEqSpecImpl for Venue {
    open spec fn obeys_eq_spec() -> bool {
        true
    }

    open spec fn eq_spec(&self, other: &Self) -> bool {
        self@ == other@
    }
}

/// The identity of a tradable contract: a symbol on a venue.
#[derive(Debug)]
pub struct InstrumentId {
    pub symbol: Symbol,
    pub venue: Venue,
}

impl View for InstrumentId {
    type V = (Seq<char>, Seq<char>);

    open spec fn view(&self) -> (Seq<char>, Seq<char>) {
        (self.symbol@, self.venue@)
    }
}

/// The byte written after each part of an identity. It occurs in no UTF-8
/// text, so the bytes written tell where the symbol ends and the venue begins.
pub const PART_END: u8 = 0xff;

/// The 64-bit digest of an identity spelled `symbol` on `venue`: what the
/// standard library's default hasher, freshly made, yields once it has been
/// written the UTF-8 bytes of the symbol, `PART_END`, the UTF-8 bytes of the
/// venue, and `PART_END` again.
pub open spec fn identity_digest(symbol: Seq<char>, venue: Seq<char>) -> u64 {
    DefaultHasher::spec_finish(
        seq![encode_utf8(symbol), seq![PART_END], encode_utf8(venue), seq![PART_END]],
    )
}

impl InstrumentId {
    /// The digest of this identity, a function of its spelling alone.
    pub open spec fn spec_digest(&self) -> u64 {
        identity_digest(self.symbol@, self.venue@)
    }

    /// The identity of `symbol` on `venue`.
    pub fn new(symbol: Symbol, venue: Venue) -> (r: InstrumentId)
        ensures
            r == (InstrumentId { symbol, venue }),
    {
        InstrumentId { symbol, venue }
    }

    /// The digest of this identity, a function of its spelling alone.
    #[verifier::when_used_as_spec(spec_digest)]
    pub fn digest(&self) -> (h: u64)
        ensures
            h == self.digest(),
    {
        let end: [u8; 1] = [PART_END];
        let mut hasher = DefaultHasher::new();
        hasher.write(self.symbol.value.as_str().as_bytes());
        hasher.write(end.as_slice());
        hasher.write(self.venue.value.as_str().as_bytes());
        hasher.write(end.as_slice());
        assert(end@ =~= seq![PART_END]);
        assert(hasher@ =~= seq![
            encode_utf8(self.symbol@),
            seq![PART_END],
            encode_utf8(self.venue@),
            seq![PART_END],
        ]);
        hasher.finish()
    }
}

impl Clone for InstrumentId {
    fn clone(&self) -> (r: Self)
        ensures
            r == *self,
    {
        InstrumentId { symbol: self.symbol.clone(), venue: self.venue.clone() }
    }
}

impl PartialEq for InstrumentId {
    /// Two identities are equal when symbol and venue are both spelled alike.
    fn eq(&self, other: &Self) -> (r: bool)
        ensures
            r == (self@ == other@),
    {
        self.symbol == other.symbol && self.venue == other.venue
    }
}

impl Eq for InstrumentId {}

impl vstd::std_specs::cmp::PartialEqSpecImpl for InstrumentId {
    open spec fn obeys_eq_spec() -> bool {
        true
    }

    open spec fn eq_spec(&self, other: &Self) -> bool {
        self@ == other@
    }
}

impl Hash for InstrumentId {
    /// Feeds the digest of this identity to `state`, and nothing else.
    fn hash<H: Hasher>(&self, state: &mut H) {
        write_digest(state, self.digest());
    }
}

/// Hands `digest` to `state` by `std::hash::Hasher::write_u64`. What a hasher
/// does with the value is its own affair, so nothing is claimed of `state`
/// afterwards.
#[verifier::external_body]
pub(crate) fn write_digest<H: Hasher>(state: &mut H, digest: u64) {
    state.write_u64(digest)
}

/// Identities that compare equal have the same digest.
pub proof fn lemma_equal_ids_share_digest(a: InstrumentId, b: InstrumentId)
    requires
        a.eq_spec(&b),
    ensures
        a.digest() == b.digest(),
{
}

} // verus!
