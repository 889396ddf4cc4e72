//! The token issuer: registers a new fungible token for a fee, answers
//! lookups on the tokens it issued, and lets its owner withdraw the fees.
use vstd::prelude::*;

use crate::types::{AccountId, Balance, CallContext, Error, NativeTransfer, Timestamp};

verus! {

/// What Blake2x256 gives for the given bytes.
pub uninterp spec fn blake2x256_of(input: Seq<u8>) -> Seq<u8>;

/// Relies on ink::env::hash_bytes with ink's Blake2x256: the 32-byte BLAKE2b
/// digest of the input, which depends on the input bytes alone.
#[verifier::external_body]
fn blake2x256(input: &[u8]) -> (r: [u8; 32])
    ensures
        r@ == blake2x256_of(input@),
{
    let mut output = [0u8; 32];
    ink::env::hash_bytes::<ink::env::hash::Blake2x256>(input, &mut output);
    output
}

/// Byte `i` of `n` in little-endian order.
pub open spec fn le_byte(n: u64, i: int) -> u8 {
    ((n >> ((8 * i) as u64)) & 0xff) as u8
}

/// The eight little-endian bytes of `n`.
pub open spec fn le_bytes(n: u64) -> Seq<u8> {
    Seq::new(8, |i: int| le_byte(n, i))
}

/// The deployment salt of a token created at `now`: the first four bytes of
/// the Blake2x256 digest of the clock's little-endian bytes.
pub open spec fn salt_at(now: Timestamp) -> Seq<u8> {
    blake2x256_of(le_bytes(now)).take(4)
}

/// The salt with which a token created at `now` is deployed.
pub fn deployment_salt(now: Timestamp) -> (r: Vec<u8>)
    ensures
        r@ == salt_at(now),
{
    let mut bytes: Vec<u8> = Vec::new();
    let mut i: u64 = 0;
    while i < 8
        invariant
            i <= 8,
            bytes@ == Seq::new(i as nat, |k: int| le_byte(now, k)),
        decreases 8 - i,
    {
        bytes.push(((now >> (8 * i)) & 0xff) as u8);
        i = i + 1;
        assert(bytes@ =~= Seq::new(i as nat, |k: int| le_byte(now, k)));
    }
    assert(bytes@ =~= le_bytes(now));
    let digest = blake2x256(bytes.as_slice());
    let mut salt: Vec<u8> = Vec::new();
    let mut j: usize = 0;
    while j < 4
        invariant
            j <= 4,
            digest@.len() == 32,
            salt@ == digest@.take(j as int),
        decreases 4 - j,
    {
        salt.push(digest[j]);
        j = j + 1;
        assert(salt@ =~= digest@.take(j as int));
    }
    salt
}

/// The handle of the token issued `index`-th (from zero).
pub open spec fn token_handle(index: int) -> AccountId {
    AccountId { high: 0, low: (index + 1) as u128 }
}

/// What the issuer records of a token.
pub struct TokenInfo {
    pub name: String,
    pub symbol: String,
    pub decimals: u8,
    pub logo_uri: String,
    pub initial_supply: Balance,
    /// Who asked for the token, and holds its initial supply.
    pub owner: AccountId,
    /// The salt it was deployed with.
    pub salt: Vec<u8>,
}

/// The issuer: its owner, its fee, and the tokens issued so far in order.
pub struct TokenFactory {
    tokens: Vec<TokenInfo>,
    owner: AccountId,
    fee: Balance,
    other_contract_code_hash: [u8; 32],
}

impl TokenFactory {
    /// The tokens issued so far, in order of issue.
    pub closed spec fn tokens(&self) -> Seq<TokenInfo> {
        self.tokens@
    }

    pub closed spec fn owner_spec(&self) -> AccountId {
        self.owner
    }

    pub closed spec fn code_hash_spec(&self) -> [u8; 32] {
        self.other_contract_code_hash
    }

    pub closed spec fn fee_spec(&self) -> Balance {
        self.fee
    }

    /// The index of the token with handle `token`, if the issuer issued it.
    pub open spec fn index_of(&self, token: AccountId) -> Option<int> {
        if token.high == 0 && 1 <= token.low <= self.tokens().len() {
            Some(token.low - 1)
        } else {
            None
        }
    }

    /// Whether the issuer issued the token with handle `token`.
    pub open spec fn has_token(&self, token: AccountId) -> bool {
        self.index_of(token).is_some()
    }

    /// An issuer owned by the caller that charges `fee` and deploys the code
    /// with hash `other_contract_code_hash`.
    pub fn new(ctx: &CallContext, other_contract_code_hash: [u8; 32], fee: Balance) -> (r:
        TokenFactory)
        ensures
            r.tokens().len() == 0,
            r.owner_spec() == ctx.caller,
            r.fee_spec() == fee,
    {
        TokenFactory { tokens: Vec::new(), owner: ctx.caller, fee, other_contract_code_hash }
    }

    /// The fee that `create_token` asks for.
    pub fn get_fee(&self) -> (r: Balance)
        ensures
            r == self.fee_spec(),
    {
        self.fee
    }

    /// The owner, who alone may withdraw.
    pub fn get_owner(&self) -> (r: AccountId)
        ensures
            r == self.owner_spec(),
    {
        self.owner
    }

    /// The code hash of the token contract that the issuer deploys.
    pub fn code_hash(&self) -> (r: [u8; 32])
        ensures
            r == self.code_hash_spec(),
    {
        self.other_contract_code_hash
    }

    /// Whether the issuer issued the token with handle `token_address`.
    pub fn contains_token(&self, token_address: AccountId) -> (r: bool)
        ensures
            r == self.has_token(token_address),
    {
        token_address.high == 0 && token_address.low >= 1 && token_address.low
            <= self.tokens.len() as u128
    }

    /// How many tokens were issued.
    pub fn token_count(&self) -> (r: usize)
        ensures
            r == self.tokens().len(),
    {
        self.tokens.len()
    }

    /// Issues a token owned by the caller for the fee attached to the call.
    /// Fails with `FeeTooLow` when the attached value is below the fee;
    /// otherwise returns a handle that no earlier token has, whatever the
    /// clock reads.
    pub fn create_token(
        &mut self,
        ctx: &CallContext,
        initial_supply: Balance,
        name: String,
        symbol: String,
        decimals: u8,
        logo_uri: String,
    ) -> (r: Result<AccountId, Error>)
        ensures
            final(self).owner_spec() == old(self).owner_spec(),
            final(self).fee_spec() == old(self).fee_spec(),
            ctx.transferred_value < old(self).fee_spec() ==> r == Err::<AccountId, Error>(
                Error::FeeTooLow,
            ) && *final(self) == *old(self),
            ctx.transferred_value >= old(self).fee_spec() ==> {
                &&& r == Ok::<AccountId, Error>(token_handle(old(self).tokens().len() as int))
                &&& !old(self).has_token(r->Ok_0)
                &&& final(self).index_of(r->Ok_0) == Some(old(self).tokens().len() as int)
                &&& final(self).tokens() == old(self).tokens().push(
                    TokenInfo {
                        name,
                        symbol,
                        decimals,
                        logo_uri,
                        initial_supply,
                        owner: ctx.caller,
                        salt: final(self).tokens().last().salt,
                    },
                )
                &&& final(self).tokens().last().salt@ == salt_at(ctx.now)
            },
    {
        if ctx.transferred_value < self.fee {
            return Err(Error::FeeTooLow);
        }
        let salt = deployment_salt(ctx.now);
        let handle = AccountId { high: 0, low: self.tokens.len() as u128 + 1 };
        self.tokens.push(
            TokenInfo { name, symbol, decimals, logo_uri, initial_supply, owner: ctx.caller, salt },
        );
        Ok(handle)
    }

    /// The name, symbol, decimals and logo URI of a token the issuer issued;
    /// `TokenNotFound` for any other handle.
    pub fn get_token_info(&self, token_address: AccountId) -> (r: Result<
        (String, String, u8, String),
        Error,
    >)
        ensures
            self.index_of(token_address).is_none() ==> r == Err::<(String, String, u8, String), Error>(
                Error::TokenNotFound,
            ),
            self.index_of(token_address).is_some() ==> {
                let t = self.tokens()[self.index_of(token_address).unwrap()];
                r == Ok::<(String, String, u8, String), Error>(
                    (t.name, t.symbol, t.decimals, t.logo_uri),
                )
            },
    {
        if token_address.high != 0 || token_address.low == 0 || token_address.low
            > self.tokens.len() as u128 {
            return Err(Error::TokenNotFound);
        }
        let t = &self.tokens[(token_address.low - 1) as usize];
        Ok((t.name.clone(), t.symbol.clone(), t.decimals, t.logo_uri.clone()))
    }

    /// Pays `amount` of the issuer's collected fees to its owner. Fails with
    /// `Unauthorized` for any other caller and with `InsufficientBalance`
    /// when the issuer's balance, `contract_balance`, is below `amount`.
    pub fn withdraw(&self, ctx: &CallContext, contract_balance: Balance, amount: Balance) -> (r: Result<
        NativeTransfer,
        Error,
    >)
        ensures
            ctx.caller != self.owner_spec() ==> r == Err::<NativeTransfer, Error>(
                Error::Unauthorized,
            ),
            ctx.caller == self.owner_spec() && contract_balance < amount ==> r == Err::<
                NativeTransfer,
                Error,
            >(Error::InsufficientBalance),
            ctx.caller == self.owner_spec() && contract_balance >= amount ==> r == Ok::<
                NativeTransfer,
                Error,
            >(NativeTransfer { to: ctx.caller, amount }),
    {
        if ctx.caller != self.owner {
            return Err(Error::Unauthorized);
        }
        if contract_balance < amount {
            return Err(Error::InsufficientBalance);
        }
        Ok(NativeTransfer { to: ctx.caller, amount })
    }
}

} // verus!
