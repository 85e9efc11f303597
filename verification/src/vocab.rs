//! The closed vocabularies of a network record: its environment and its protocol family.
//!
//! On the wire each variant is a fixed lowercase token.

use vstd::prelude::*;
use crate::text::same_text;

verus! {

/// The environment a network belongs to.
#[derive(Clone, Copy, Debug, PartialEq, Eq, Hash, Structural)]
pub enum Env {
    Localhost,
    Testnet,
    Mainnet,
}

/// The protocol family of a network.
#[derive(Clone, Copy, Debug, PartialEq, Eq, Hash, Structural)]
pub enum Blockchain {
    Bitcoin,
    Evm,
}

impl Env {
    /// The token that stands for this environment on the wire.
    pub open spec fn token(self) -> Seq<char> {
        match self {
            Env::Localhost => "localhost"@,
            Env::Testnet => "testnet"@,
            Env::Mainnet => "mainnet"@,
        }
    }

    /// The environment that `text` names, if it is a token of the vocabulary.
    pub open spec fn of_token(text: Seq<char>) -> Option<Env> {
        if text == "localhost"@ {
            Some(Env::Localhost)
        } else if text == "testnet"@ {
            Some(Env::Testnet)
        } else if text == "mainnet"@ {
            Some(Env::Mainnet)
        } else {
            None
        }
    }

    /// The wire token of this environment.
    pub fn as_str(&self) -> (text: &'static str)
        ensures
            text@ == self.token(),
    {
        match self {
            Env::Localhost => "localhost",
            Env::Testnet => "testnet",
            Env::Mainnet => "mainnet",
        }
    }

    /// Reads a wire token; `None` for any text outside the vocabulary.
    pub fn from_token(text: &str) -> (env: Option<Env>)
        ensures
            env == Env::of_token(text@),
    {
        if same_text(text, "localhost") {
            Some(Env::Localhost)
        } else if same_text(text, "testnet") {
            Some(Env::Testnet)
        } else if same_text(text, "mainnet") {
            Some(Env::Mainnet)
        } else {
            None
        }
    }
}

impl Blockchain {
    /// The token that stands for this protocol family on the wire.
    pub open spec fn token(self) -> Seq<char> {
        match self {
            Blockchain::Bitcoin => "bitcoin"@,
            Blockchain::Evm => "evm"@,
        }
    }

    /// The protocol family that `text` names, if it is a token of the vocabulary.
    pub open spec fn of_token(text: Seq<char>) -> Option<Blockchain> {
        if text == "bitcoin"@ {
            Some(Blockchain::Bitcoin)
        } else if text == "evm"@ {
            Some(Blockchain::Evm)
        } else {
            None
        }
    }

    /// The wire token of this protocol family.
    pub fn as_str(&self) -> (text: &'static str)
        ensures
            text@ == self.token(),
    {
        match self {
            Blockchain::Bitcoin => "bitcoin",
            Blockchain::Evm => "evm",
        }
    }

    /// Reads a wire token; `None` for any text outside the vocabulary.
    pub fn from_token(text: &str) -> (blockchain: Option<Blockchain>)
        ensures
            blockchain == Blockchain::of_token(text@),
    {
        if same_text(text, "bitcoin") {
            Some(Blockchain::Bitcoin)
        } else if same_text(text, "evm") {
            Some(Blockchain::Evm)
        } else {
            None
        }
    }
}

/// A text names an environment exactly when it is that environment's token: reading
/// undoes writing, and no two environments share a token.
pub proof fn lemma_env_token_inverse(env: Env, text: Seq<char>)
    ensures
        Env::of_token(text) == Some(env) <==> text == env.token(),
{
    reveal_strlit("localhost");
    reveal_strlit("testnet");
    reveal_strlit("mainnet");
    if text == env.token() {
        assert("localhost"@.len() == 9 && "testnet"@.len() == 7 && "mainnet"@.len() == 7);
        assert("testnet"@[0] == 't' && "mainnet"@[0] == 'm');
    }
}

/// A text names a protocol family exactly when it is that family's token: reading
/// undoes writing, and no two families share a token.
pub proof fn lemma_blockchain_token_inverse(blockchain: Blockchain, text: Seq<char>)
    ensures
        Blockchain::of_token(text) == Some(blockchain) <==> text == blockchain.token(),
{
    reveal_strlit("bitcoin");
    reveal_strlit("evm");
    if text == blockchain.token() {
        assert("bitcoin"@.len() == 7 && "evm"@.len() == 3);
    }
}

} // verus!
