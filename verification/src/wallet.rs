//! The client-side wallet model: signing identity, token cache, and the
//! transaction builders it starts. Network traffic stays outside this core;
//! the wallet works on the plain values fetched for it.

use vstd::prelude::*;
use crate::bytes::EthAddress;
use crate::error::ClientError;
use crate::fee::{closest_packable_fee_amount, closest_packable_fee_spec, is_fee_amount_packable};
use crate::tokens::{Token, TokenLike, TokensCache, token_matches};

verus! {

/// The signing identity behind a wallet.
pub struct Signer {
    pub private_key: u128,
    pub address: EthAddress,
    pub eth_private_key: Option<u128>,
    pub account_id: Option<u32>,
}

impl Signer {
    /// A signer over the given key material; no account id yet.
    pub fn new(private_key: u128, address: EthAddress, eth_private_key: Option<u128>) -> (s:
        Signer)
        ensures
            s.private_key == private_key,
            s.address == address,
            s.eth_private_key == eth_private_key,
            s.account_id is None,
    {
        Signer { private_key, address, eth_private_key, account_id: Option::None }
    }

    /// Records the account id the server reported for this address.
    pub fn set_account_id(&mut self, account_id: Option<u32>)
        ensures
            final(self).account_id == account_id,
            final(self).private_key == old(self).private_key,
            final(self).address == old(self).address,
            final(self).eth_private_key == old(self).eth_private_key,
    {
        self.account_id = account_id;
    }
}

/// An account is usable once it has an id and a non-zero signing key — that
/// is, once a key-change operation has been performed for it.
pub open spec fn signing_key_set_spec(account_id: Option<u32>, pub_key_hash: u64) -> bool {
    account_id is Some && pub_key_hash != 0
}

/// Decides, from the committed account state fetched for a wallet, whether
/// its signing key has been set on the rollup.
pub fn signing_key_set(account_id: Option<u32>, pub_key_hash: u64) -> (r: bool)
    ensures
        r == signing_key_set_spec(account_id, pub_key_hash),
{
    account_id.is_some() && pub_key_hash != 0
}

/// A rollup wallet: its signer and the token cache fetched for it.
pub struct Wallet {
    pub signer: Signer,
    pub tokens: TokensCache,
}

impl Wallet {
    /// A wallet over an initialized signer and token cache.
    pub fn new(signer: Signer, tokens: TokensCache) -> (w: Wallet)
        ensures
            w.signer == signer,
            w.tokens == tokens,
    {
        Wallet { signer, tokens }
    }

    /// The wallet address.
    pub fn address(&self) -> (r: EthAddress)
        ensures
            r == self.signer.address,
    {
        self.signer.address
    }

    /// The current account id; `None` until the account exists on the rollup.
    pub fn account_id(&self) -> (r: Option<u32>)
        ensures
            r == self.signer.account_id,
    {
        self.signer.account_id
    }

    /// Records a freshly fetched account id. Must be invoked if the wallet
    /// was created for an account that did not exist yet and has since been
    /// initialized, e.g. by a deposit.
    pub fn update_account_id(&mut self, account_id: Option<u32>)
        ensures
            final(self).signer.account_id == account_id,
            final(self).signer.private_key == old(self).signer.private_key,
            final(self).signer.address == old(self).signer.address,
            final(self).signer.eth_private_key == old(self).signer.eth_private_key,
            final(self).tokens == old(self).tokens,
    {
        self.signer.set_account_id(account_id);
    }

    /// Replaces the token cache with a freshly fetched list.
    pub fn refresh_tokens_cache(&mut self, tokens: TokensCache)
        ensures
            final(self).tokens == tokens,
            final(self).signer == old(self).signer,
    {
        self.tokens = tokens;
    }

    /// Initializes a transfer transaction building process.
    pub fn start_transfer(&self) -> (b: TransferBuilder)
        ensures
            b.tokens.tokens@ == self.tokens.tokens@,
            b.token is None,
            b.amount is None,
            b.fee is None,
            b.to is None,
            b.nonce is None,
    {
        TransferBuilder {
            tokens: self.tokens.duplicate(),
            token: Option::None,
            amount: Option::None,
            fee: Option::None,
            to: Option::None,
            nonce: Option::None,
        }
    }

    /// Initializes a key-change transaction building process.
    pub fn start_change_pubkey(&self) -> (b: ChangePubKeyBuilder)
        ensures
            b.tokens.tokens@ == self.tokens.tokens@,
            b.onchain_auth == false,
            b.fee_token is None,
            b.fee is None,
            b.nonce is None,
    {
        ChangePubKeyBuilder {
            tokens: self.tokens.duplicate(),
            onchain_auth: false,
            fee_token: Option::None,
            fee: Option::None,
            nonce: Option::None,
        }
    }

    /// Initializes a withdrawal transaction building process.
    pub fn start_withdraw(&self) -> (b: WithdrawBuilder)
        ensures
            b.tokens.tokens@ == self.tokens.tokens@,
            b.token is None,
            b.amount is None,
            b.fee is None,
            b.eth_address is None,
            b.nonce is None,
    {
        WithdrawBuilder {
            tokens: self.tokens.duplicate(),
            token: Option::None,
            amount: Option::None,
            fee: Option::None,
            eth_address: Option::None,
            nonce: Option::None,
        }
    }
}

/// Step-by-step assembly of a key-change transaction.
pub struct ChangePubKeyBuilder {
    pub tokens: TokensCache,
    pub onchain_auth: bool,
    pub fee_token: Option<Token>,
    pub fee: Option<u128>,
    pub nonce: Option<u32>,
}

impl ChangePubKeyBuilder {
    /// Sets the fee token. Unknown tokens are rejected.
    pub fn fee_token(self, token: TokenLike) -> (r: Result<ChangePubKeyBuilder, ClientError>)
        ensures
            match r {
                Result::Ok(b) => {
                    &&& b.fee_token matches Some(t) && token_matches(t, token)
                    &&& b.tokens.tokens@ == self.tokens.tokens@
                    &&& b.onchain_auth == self.onchain_auth
                    &&& b.fee == self.fee
                    &&& b.nonce == self.nonce
                },
                Result::Err(e) => {
                    &&& e is UnknownToken
                    &&& forall|i: int|
                        0 <= i < self.tokens.tokens@.len() ==> !token_matches(
                            #[trigger] self.tokens.tokens@[i],
                            token,
                        )
                },
            },
    {
        match self.tokens.resolve(token) {
            Option::Some(resolved) => Result::Ok(
                ChangePubKeyBuilder { fee_token: Option::Some(resolved), ..self },
            ),
            Option::None => Result::Err(ClientError::UnknownToken),
        }
    }

    /// Sets the fee, rounding it down to the closest packable amount.
    pub fn fee(self, fee: u128) -> (b: ChangePubKeyBuilder)
        ensures
            b.fee matches Some(f) && f as nat == closest_packable_fee_spec(fee),
            b.tokens.tokens@ == self.tokens.tokens@,
            b.onchain_auth == self.onchain_auth,
            b.fee_token == self.fee_token,
            b.nonce == self.nonce,
    {
        let packable = closest_packable_fee_amount(fee);
        ChangePubKeyBuilder { fee: Option::Some(packable), ..self }
    }

    /// Sets the fee exactly; a fee the packed encoding cannot represent is
    /// rejected.
    pub fn fee_exact(self, fee: u128) -> (r: Result<ChangePubKeyBuilder, ClientError>)
        ensures
            crate::fee::fee_packable(fee) ==> (r matches Ok(b) && b.fee == Option::Some(fee)),
            !crate::fee::fee_packable(fee) ==> (r matches Err(e) && e is NotPackableValue),
            r matches Ok(b) ==> b.tokens.tokens@ == self.tokens.tokens@ && b.onchain_auth
                == self.onchain_auth && b.fee_token == self.fee_token && b.nonce == self.nonce,
    {
        if !is_fee_amount_packable(fee) {
            return Result::Err(ClientError::NotPackableValue);
        }
        Result::Ok(ChangePubKeyBuilder { fee: Option::Some(fee), ..self })
    }

    /// Sets the transaction nonce.
    pub fn nonce(self, nonce: u32) -> (b: ChangePubKeyBuilder)
        ensures
            b.nonce == Option::Some(nonce),
            b.tokens.tokens@ == self.tokens.tokens@,
            b.onchain_auth == self.onchain_auth,
            b.fee_token == self.fee_token,
            b.fee == self.fee,
    {
        ChangePubKeyBuilder { nonce: Option::Some(nonce), ..self }
    }
}

/// Step-by-step assembly of a transfer transaction.
pub struct TransferBuilder {
    pub tokens: TokensCache,
    pub token: Option<Token>,
    pub amount: Option<u128>,
    pub fee: Option<u128>,
    pub to: Option<EthAddress>,
    pub nonce: Option<u32>,
}

impl TransferBuilder {
    /// Sets the token to transfer. Unknown tokens are rejected.
    pub fn token(self, token: TokenLike) -> (r: Result<TransferBuilder, ClientError>)
        ensures
            match r {
                Result::Ok(b) => {
                    &&& b.token matches Some(t) && token_matches(t, token)
                    &&& b.tokens.tokens@ == self.tokens.tokens@
                    &&& b.amount == self.amount
                    &&& b.fee == self.fee
                    &&& b.to == self.to
                    &&& b.nonce == self.nonce
                },
                Result::Err(e) => e is UnknownToken,
            },
    {
        match self.tokens.resolve(token) {
            Option::Some(resolved) => Result::Ok(
                TransferBuilder { token: Option::Some(resolved), ..self },
            ),
            Option::None => Result::Err(ClientError::UnknownToken),
        }
    }

    /// Sets the amount to transfer.
    pub fn amount(self, amount: u128) -> (b: TransferBuilder)
        ensures
            b.amount == Option::Some(amount),
            b.tokens.tokens@ == self.tokens.tokens@,
            b.token == self.token,
            b.fee == self.fee,
            b.to == self.to,
            b.nonce == self.nonce,
    {
        TransferBuilder { amount: Option::Some(amount), ..self }
    }

    /// Sets the fee, rounding it down to the closest packable amount.
    pub fn fee(self, fee: u128) -> (b: TransferBuilder)
        ensures
            b.fee matches Some(f) && f as nat == closest_packable_fee_spec(fee),
            b.tokens.tokens@ == self.tokens.tokens@,
            b.token == self.token,
            b.amount == self.amount,
            b.to == self.to,
            b.nonce == self.nonce,
    {
        let packable = closest_packable_fee_amount(fee);
        TransferBuilder { fee: Option::Some(packable), ..self }
    }

    /// Sets the receiving address.
    pub fn to(self, to: EthAddress) -> (b: TransferBuilder)
        ensures
            b.to == Option::Some(to),
            b.tokens.tokens@ == self.tokens.tokens@,
            b.token == self.token,
            b.amount == self.amount,
            b.fee == self.fee,
            b.nonce == self.nonce,
    {
        TransferBuilder { to: Option::Some(to), ..self }
    }

    /// Sets the transaction nonce.
    pub fn nonce(self, nonce: u32) -> (b: TransferBuilder)
        ensures
            b.nonce == Option::Some(nonce),
            b.tokens.tokens@ == self.tokens.tokens@,
            b.token == self.token,
            b.amount == self.amount,
            b.fee == self.fee,
            b.to == self.to,
    {
        TransferBuilder { nonce: Option::Some(nonce), ..self }
    }
}

/// Step-by-step assembly of a withdrawal transaction.
pub struct WithdrawBuilder {
    pub tokens: TokensCache,
    pub token: Option<Token>,
    pub amount: Option<u128>,
    pub fee: Option<u128>,
    pub eth_address: Option<EthAddress>,
    pub nonce: Option<u32>,
}

impl WithdrawBuilder {
    /// Sets the token to withdraw. Unknown tokens are rejected.
    pub fn token(self, token: TokenLike) -> (r: Result<WithdrawBuilder, ClientError>)
        ensures
            match r {
                Result::Ok(b) => {
                    &&& b.token matches Some(t) && token_matches(t, token)
                    &&& b.tokens.tokens@ == self.tokens.tokens@
                    &&& b.amount == self.amount
                    &&& b.fee == self.fee
                    &&& b.eth_address == self.eth_address
                    &&& b.nonce == self.nonce
                },
                Result::Err(e) => e is UnknownToken,
            },
    {
        match self.tokens.resolve(token) {
            Option::Some(resolved) => Result::Ok(
                WithdrawBuilder { token: Option::Some(resolved), ..self },
            ),
            Option::None => Result::Err(ClientError::UnknownToken),
        }
    }

    /// Sets the amount to withdraw.
    pub fn amount(self, amount: u128) -> (b: WithdrawBuilder)
        ensures
            b.amount == Option::Some(amount),
            b.tokens.tokens@ == self.tokens.tokens@,
            b.token == self.token,
            b.fee == self.fee,
            b.eth_address == self.eth_address,
            b.nonce == self.nonce,
    {
        WithdrawBuilder { amount: Option::Some(amount), ..self }
    }

    /// Sets the fee, rounding it down to the closest packable amount.
    pub fn fee(self, fee: u128) -> (b: WithdrawBuilder)
        ensures
            b.fee matches Some(f) && f as nat == closest_packable_fee_spec(fee),
            b.tokens.tokens@ == self.tokens.tokens@,
            b.token == self.token,
            b.amount == self.amount,
            b.eth_address == self.eth_address,
            b.nonce == self.nonce,
    {
        let packable = closest_packable_fee_amount(fee);
        WithdrawBuilder { fee: Option::Some(packable), ..self }
    }

    /// Sets the base-chain address the funds leave to.
    pub fn eth_address(self, address: EthAddress) -> (b: WithdrawBuilder)
        ensures
            b.eth_address == Option::Some(address),
            b.tokens.tokens@ == self.tokens.tokens@,
            b.token == self.token,
            b.amount == self.amount,
            b.fee == self.fee,
            b.nonce == self.nonce,
    {
        WithdrawBuilder { eth_address: Option::Some(address), ..self }
    }

    /// Sets the transaction nonce.
    pub fn nonce(self, nonce: u32) -> (b: WithdrawBuilder)
        ensures
            b.nonce == Option::Some(nonce),
            b.tokens.tokens@ == self.tokens.tokens@,
            b.token == self.token,
            b.amount == self.amount,
            b.fee == self.fee,
            b.eth_address == self.eth_address,
    {
        WithdrawBuilder { nonce: Option::Some(nonce), ..self }
    }
}

} // verus!
