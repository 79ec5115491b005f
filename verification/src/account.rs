//! Account identifiers: 20-byte addresses, written as forty hex digits.

use std::str::FromStr;
use vstd::prelude::*;

verus! {

/// A fixed-width, Ethereum-style account identifier.
#[derive(Clone, Copy, Debug, PartialEq, Eq, PartialOrd, Ord, Hash)]
pub struct AccountId(pub [u8; 20]);

impl View for AccountId {
    type V = Seq<u8>;

    open spec fn view(&self) -> Seq<u8> {
        self.0@
    }
}

/// The characters that a hex string may carry between its digits.
pub open spec fn is_hex_blank(c: char) -> bool {
    c == ' ' || c == '\r' || c == '\n' || c == '\t'
}

/// Whether `c` is one of `0-9`, `a-f`, `A-F`.
pub open spec fn is_hex_digit(c: char) -> bool {
    ('0' <= c && c <= '9') || ('a' <= c && c <= 'f') || ('A' <= c && c <= 'F')
}

/// The value of a hex digit, 0 for any other character.
pub open spec fn hex_value(c: char) -> int {
    if '0' <= c && c <= '9' {
        c as int - '0' as int
    } else if 'a' <= c && c <= 'f' {
        c as int - 'a' as int + 10
    } else if 'A' <= c && c <= 'F' {
        c as int - 'A' as int + 10
    } else {
        0
    }
}

/// `s` without one leading `0x`, if it has one.
pub open spec fn without_hex_prefix(s: Seq<char>) -> Seq<char> {
    if s.len() >= 2 && s[0] == '0' && s[1] == 'x' {
        s.subrange(2, s.len() as int)
    } else {
        s
    }
}

/// The test that keeps every character but the blanks.
pub open spec fn not_hex_blank() -> spec_fn(char) -> bool {
    |c: char| !is_hex_blank(c)
}

/// What is left of `s` once the prefix and the blanks are taken out.
pub open spec fn hex_payload(s: Seq<char>) -> Seq<char> {
    without_hex_prefix(s).filter(not_hex_blank())
}

/// The byte that two hex digits spell, high nibble first.
pub open spec fn hex_byte(hi: char, lo: char) -> u8 {
    (16 * hex_value(hi) + hex_value(lo)) as u8
}

/// The address that a hex string spells: after an optional `0x` and with
/// blanks ignored, exactly forty hex digits, read big-endian. `None` for
/// every other string.
pub open spec fn spec_parse_address(s: Seq<char>) -> Option<Seq<u8>> {
    let digits = hex_payload(s);
    if digits.len() == 40 && (forall|i: int| 0 <= i < 40 ==> is_hex_digit(#[trigger] digits[i])) {
        Some(Seq::new(20, |i: int| hex_byte(digits[2 * i], digits[2 * i + 1])))
    } else {
        None
    }
}

/// Parses with `<sp_core::H160 as FromStr>::from_str`. That function strips
/// one leading `0x`, then decodes hex with `rustc_hex::FromHexIter`, which
/// skips space, CR, LF and TAB, fails on any other non-digit and on a
/// dangling nibble; it wants exactly twenty bytes. The contract states that
/// as `spec_parse_address`.
#[verifier::external_body]
fn h160_from_str(s: &str) -> (parsed: Option<[u8; 20]>)
    ensures
        parsed is Some <==> spec_parse_address(s@) is Some,
        parsed matches Some(bytes) ==> bytes@ == spec_parse_address(s@).unwrap(),
{
    sp_core::H160::from_str(s).ok().map(|hash| hash.0)
}

impl AccountId {
    /// Reads an address from its hex form.
    pub fn from_hex(s: &str) -> (parsed: Option<AccountId>)
        ensures
            parsed is Some <==> spec_parse_address(s@) is Some,
            parsed matches Some(id) ==> id@ == spec_parse_address(s@).unwrap(),
    {
        match h160_from_str(s) {
            Some(bytes) => Some(AccountId(bytes)),
            None => None,
        }
    }

    /// The address held in the last twenty bytes of a 32-byte digest.
    pub fn from_digest(digest: &[u8; 32]) -> (id: AccountId)
        ensures
            id@ == digest@.subrange(12, 32),
    {
        let mut bytes = [0u8; 20];
        let mut i: usize = 0;
        while i < 20
            invariant
                i <= 20,
                forall|j: int| 0 <= j < i ==> bytes@[j] == digest@[j + 12],
            decreases 20 - i,
        {
            bytes[i] = digest[i + 12];
            i += 1;
        }
        assert(bytes@ =~= digest@.subrange(12, 32));
        AccountId(bytes)
    }

    /// The raw bytes of the address.
    pub fn as_bytes(&self) -> (bytes: &[u8; 20])
        ensures
            bytes@ == self@,
    {
        &self.0
    }

    /// Whether two identifiers are the same, byte for byte.
    pub fn same_as(&self, other: &AccountId) -> (same: bool)
        ensures
            same == (*self == *other),
    {
        let mut i: usize = 0;
        while i < 20
            invariant
                i <= 20,
                forall|j: int| 0 <= j < i ==> self.0@[j] == other.0@[j],
            decreases 20 - i,
        {
            if self.0[i] != other.0[i] {
                return false;
            }
            i += 1;
        }
        proof {
            assert(self@ =~= other@);
            lemma_account_id_injective(*self, *other);
        }
        true
    }
}

/// A string with neither prefix nor blanks is its own payload.
pub proof fn lemma_plain_hex_payload(s: Seq<char>)
    requires
        s.len() < 2 || s[0] != '0' || s[1] != 'x',
        forall|i: int| 0 <= i < s.len() ==> !is_hex_blank(#[trigger] s[i]),
    ensures
        hex_payload(s) == s,
{
    lemma_filter_keeps_all(s, not_hex_blank());
}

/// Filtering keeps a sequence whole when every element passes.
proof fn lemma_filter_keeps_all(s: Seq<char>, pred: spec_fn(char) -> bool)
    requires
        forall|i: int| 0 <= i < s.len() ==> pred(#[trigger] s[i]),
    ensures
        s.filter(pred) == s,
    decreases s.len(),
{
    reveal(Seq::filter);
    if s.len() > 0 {
        lemma_filter_keeps_all(s.drop_last(), pred);
        assert(s.drop_last().push(s.last()) =~= s);
    }
}

/// Two account identifiers with the same bytes are the same identifier.
pub proof fn lemma_account_id_injective(a: AccountId, b: AccountId)
    requires
        a@ == b@,
    ensures
        a == b,
{
    assert(a.0@ =~= b.0@);
    assert(a.0 == b.0);
}

} // verus!
