//! Token identifiers, addresses and payments as plain bytes.

use crate::amount::Amount;
use vstd::prelude::*;

verus! {

/// Whether two byte vectors hold the same bytes.
pub fn bytes_eq(a: &Vec<u8>, b: &Vec<u8>) -> (r: bool)
    ensures
        r == (a@ == b@),
{
    if a.len() != b.len() {
        return false;
    }
    let n = a.len();
    for i in 0..n
        invariant
            n == a.len(),
            n == b.len(),
            forall|j: int| 0 <= j < i ==> a@[j] == b@[j],
    {
        if a[i] != b[i] {
            return false;
        }
    }
    assert(a@ =~= b@);
    true
}

/// The number of random characters after the dash of a token identifier.
pub open spec fn random_chars_len() -> nat {
    6
}

pub open spec fn is_upper_alnum(c: u8) -> bool {
    (65 <= c <= 90) || (48 <= c <= 57)
}

pub open spec fn is_lower_alnum(c: u8) -> bool {
    (97 <= c <= 122) || (48 <= c <= 57)
}

/// The ESDT identifier format that the framework accepts: a ticker of 3 to 10
/// upper-case letters or digits, a dash, then 6 lower-case letters or digits.
pub open spec fn valid_esdt_identifier(id: Seq<u8>) -> bool {
    let len = id.len();
    let ticker_len = len - 7;
    &&& 10 <= len <= 17
    &&& forall|i: int| 0 <= i < ticker_len ==> is_upper_alnum(#[trigger] id[i])
    &&& id[ticker_len] == 45
    &&& forall|i: int| len - 6 <= i < len ==> is_lower_alnum(#[trigger] id[i])
}

/// Checks the ESDT identifier format (the rule of the framework's
/// `TokenIdentifier::is_valid_esdt_identifier`).
pub fn is_valid_esdt_identifier(id: &Vec<u8>) -> (r: bool)
    ensures
        r == valid_esdt_identifier(id@),
{
    let len = id.len();
    if len < 10 || len > 17 {
        return false;
    }
    let ticker_len = len - 7;
    for i in 0..ticker_len
        invariant
            len == id.len(),
            ticker_len == len - 7,
            10 <= len <= 17,
            forall|j: int| 0 <= j < i ==> is_upper_alnum(#[trigger] id@[j]),
    {
        let c = id[i];
        if !((65 <= c && c <= 90) || (48 <= c && c <= 57)) {
            return false;
        }
    }
    if id[ticker_len] != 45 {
        return false;
    }
    for i in len - 6..len
        invariant
            len == id.len(),
            10 <= len <= 17,
            forall|j: int| len - 6 <= j < i ==> is_lower_alnum(#[trigger] id@[j]),
    {
        let c = id[i];
        if !((97 <= c && c <= 122) || (48 <= c && c <= 57)) {
            return false;
        }
    }
    true
}

/// An ESDT token identifier, such as `LST-123456`, held as its bytes.
pub struct TokenId {
    pub bytes: Vec<u8>,
}

impl View for TokenId {
    type V = Seq<u8>;

    open spec fn view(&self) -> Seq<u8> {
        self.bytes@
    }
}

impl TokenId {
    pub fn new(bytes: Vec<u8>) -> (r: TokenId)
        ensures
            r@ == bytes@,
    {
        TokenId { bytes }
    }

    /// Same bytes.
    pub fn same(&self, other: &TokenId) -> (r: bool)
        ensures
            r == (self@ == other@),
    {
        bytes_eq(&self.bytes, &other.bytes)
    }

    pub fn duplicate(&self) -> (r: TokenId)
        ensures
            r@ == self@,
    {
        TokenId { bytes: self.bytes.clone() }
    }

    /// Whether the identifier has the ESDT format.
    pub fn is_valid_esdt_identifier(&self) -> (r: bool)
        ensures
            r == valid_esdt_identifier(self@),
    {
        is_valid_esdt_identifier(&self.bytes)
    }
}

/// An account address, held as its bytes.
pub struct Address {
    pub bytes: Vec<u8>,
}

impl View for Address {
    type V = Seq<u8>;

    open spec fn view(&self) -> Seq<u8> {
        self.bytes@
    }
}

impl Address {
    pub fn new(bytes: Vec<u8>) -> (r: Address)
        ensures
            r@ == bytes@,
    {
        Address { bytes }
    }

    /// Same bytes.
    pub fn same(&self, other: &Address) -> (r: bool)
        ensures
            r == (self@ == other@),
    {
        bytes_eq(&self.bytes, &other.bytes)
    }

    pub fn duplicate(&self) -> (r: Address)
        ensures
            r@ == self@,
    {
        Address { bytes: self.bytes.clone() }
    }
}

/// A transfer of `amount` units of the token `token_identifier` with nonce
/// `token_nonce` (zero for fungible tokens).
pub struct EsdtTokenPayment {
    pub token_identifier: TokenId,
    pub token_nonce: u64,
    pub amount: Amount,
}

/// The plain value of a payment: identifier bytes, nonce and amount.
pub open spec fn payment_view(p: &EsdtTokenPayment) -> (Seq<u8>, u64, nat) {
    (p.token_identifier@, p.token_nonce, p.amount@)
}

impl EsdtTokenPayment {
    pub fn new(token_identifier: TokenId, token_nonce: u64, amount: Amount) -> (r: EsdtTokenPayment)
        ensures
            r.token_identifier@ == token_identifier@,
            r.token_nonce == token_nonce,
            r.amount@ == amount@,
    {
        EsdtTokenPayment { token_identifier, token_nonce, amount }
    }

    pub fn duplicate(&self) -> (r: EsdtTokenPayment)
        ensures
            payment_view(&r) == payment_view(self),
    {
        EsdtTokenPayment {
            token_identifier: self.token_identifier.duplicate(),
            token_nonce: self.token_nonce,
            amount: self.amount.duplicate(),
        }
    }
}

/// What a fungible token storage slot of a contract holds: nothing yet, an
/// issue under way, or the identifier of the issued token.
pub enum TokenMapperState {
    NotSet,
    Pending,
    Token(TokenId),
}

} // verus!
