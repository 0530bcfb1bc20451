//! The supported-token list and its lookup keys.

use vstd::prelude::*;
use crate::bytes::EthAddress;

verus! {

/// One supported token.
#[derive(Clone, Copy, PartialEq, Eq, Structural, Debug)]
pub struct Token {
    pub id: u16,
    pub address: EthAddress,
}

/// A way of naming a token: by rollup id or by contract address.
#[derive(Clone, Copy, PartialEq, Eq, Structural, Debug)]
pub enum TokenLike {
    Id(u16),
    Address(EthAddress),
}

/// Whether a token entry answers to a name.
pub open spec fn token_matches(token: Token, like: TokenLike) -> bool {
    match like {
        TokenLike::Id(id) => token.id == id,
        TokenLike::Address(address) => token.address == address,
    }
}

/// The base token is id zero at the zero address.
pub open spec fn is_eth_spec(like: TokenLike) -> bool {
    match like {
        TokenLike::Id(id) => id == 0,
        TokenLike::Address(address) => address == (EthAddress { hi: 0, lo: 0 }),
    }
}

/// The tokens the rollup supports, as fetched from the server.
pub struct TokensCache {
    pub tokens: Vec<Token>,
}

impl TokensCache {
    /// A cache over the given token list.
    pub fn new(tokens: Vec<Token>) -> (c: TokensCache)
        ensures
            c.tokens@ == tokens@,
    {
        TokensCache { tokens }
    }

    /// An owned copy with the same contents.
    pub fn duplicate(&self) -> (c: TokensCache)
        ensures
            c.tokens@ == self.tokens@,
    {
        let mut tokens: Vec<Token> = Vec::new();
        let mut i: usize = 0;
        while i < self.tokens.len()
            invariant
                i <= self.tokens@.len(),
                tokens@ =~= self.tokens@.take(i as int),
            decreases self.tokens@.len() - i,
        {
            tokens.push(self.tokens[i]);
            proof {
                assert(tokens@ =~= self.tokens@.take(i + 1));
            }
            i = i + 1;
        }
        proof {
            assert(self.tokens@.take(self.tokens@.len() as int) =~= self.tokens@);
        }
        TokensCache { tokens }
    }

    /// Looks a token up by name: the first matching entry, or `None` when the
    /// token is unknown.
    pub fn resolve(&self, like: TokenLike) -> (r: Option<Token>)
        ensures
            match r {
                Option::Some(token) => exists|i: int|
                    0 <= i < self.tokens@.len() && self.tokens@[i] == token && token_matches(
                        #[trigger] self.tokens@[i],
                        like,
                    ),
                Option::None => forall|i: int|
                    0 <= i < self.tokens@.len() ==> !token_matches(
                        #[trigger] self.tokens@[i],
                        like,
                    ),
            },
    {
        let mut i: usize = 0;
        while i < self.tokens.len()
            invariant
                i <= self.tokens@.len(),
                forall|k: int|
                    0 <= k < i ==> !token_matches(#[trigger] self.tokens@[k], like),
            decreases self.tokens@.len() - i,
        {
            let token = self.tokens[i];
            let found = match like {
                TokenLike::Id(id) => token.id == id,
                TokenLike::Address(address) => token.address.hi == address.hi && token.address.lo
                    == address.lo,
            };
            if found {
                return Option::Some(token);
            }
            i = i + 1;
        }
        Option::None
    }

    /// Whether a name denotes the base token.
    pub fn is_eth(&self, like: TokenLike) -> (r: bool)
        ensures
            r == is_eth_spec(like),
    {
        match like {
            TokenLike::Id(id) => id == 0,
            TokenLike::Address(address) => address.hi == 0 && address.lo == 0,
        }
    }
}

} // verus!
