//! The validator's handle and the settings it carries.

use vstd::prelude::*;

verus! {

/// What can go wrong when a game session is looked up or a move is played.
#[derive(Clone, Copy, Debug, PartialEq, Eq, Structural)]
pub enum Error {
    InvalidMove,
    NotYourTurn,
    NoElementFoundInDB,
    ErrorFetchingFromDB,
}

/// The move validator, together with the account that administers it and
/// the address and key of the store that holds the game sessions.
pub struct OhMyChess {
    admin: [u8; 32],
    url: String,
    api_key: String,
}

impl OhMyChess {
    /// The administrating account.
    pub closed spec fn spec_admin(&self) -> [u8; 32] {
        self.admin
    }

    /// The address of the session store.
    pub closed spec fn spec_url(&self) -> Seq<char> {
        self.url@
    }

    /// The key presented to the session store.
    pub closed spec fn spec_api_key(&self) -> Seq<char> {
        self.api_key@
    }

    /// A validator administered by `admin`, with an empty store address and
    /// an empty key.
    pub fn new(admin: [u8; 32]) -> (contract: Self)
        ensures
            contract.spec_admin() == admin,
            contract.spec_url() == Seq::<char>::empty(),
            contract.spec_api_key() == Seq::<char>::empty(),
    {
        OhMyChess { admin, url: String::new(), api_key: String::new() }
    }

    /// The administrating account.
    pub fn admin(&self) -> (account: [u8; 32])
        ensures
            account == self.spec_admin(),
    {
        self.admin
    }

    /// The address of the session store. Always `Ok`.
    pub fn get_url(&self) -> (url: Result<String, Error>)
        ensures
            url is Ok,
            url->Ok_0@ == self.spec_url(),
    {
        Ok(self.url.clone())
    }

    /// A copy of the address of the session store.
    pub(crate) fn store_url(&self) -> (url: String)
        ensures
            url@ == self.spec_url(),
    {
        self.url.clone()
    }

    /// A copy of the key presented to the session store.
    pub(crate) fn store_key(&self) -> (key: String)
        ensures
            key@ == self.spec_api_key(),
    {
        self.api_key.clone()
    }

    /// Replaces the address of the session store; account and key stay.
    pub fn set_url(&mut self, url: String)
        ensures
            final(self).spec_url() == url@,
            final(self).spec_admin() == old(self).spec_admin(),
            final(self).spec_api_key() == old(self).spec_api_key(),
    {
        self.url = url;
    }
}

} // verus!
