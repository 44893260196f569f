use vstd::prelude::*;

use crate::address::Address;

verus! {

/// The revision number of this code. It is a property of the installed code,
/// not of the stored state: it changes only when other code is installed.
pub const VERSION: u32 = 1;

/// The keys under which the store keeps its state.
#[derive(Clone, Copy, Debug, PartialEq, Eq, Structural)]
pub enum DataKey {
    Admin,
    Counter,
}

/// Why an operation of the store failed. A failed operation leaves the store
/// as it was.
#[derive(Clone, Copy, Debug, PartialEq, Eq, Structural)]
pub enum ContractError {
    /// `init` on a store that already has an administrator.
    AlreadyInitialized,
    /// `upgrade` on a store that has no administrator yet.
    Uninitialized,
    /// `upgrade` by a caller other than the administrator.
    Unauthorized,
}

/// What the store holds: the administrator's identifier and the stored
/// counter, each absent until first written.
pub struct ContractState {
    pub admin: Option<Seq<u8>>,
    pub counter: Option<u32>,
}

/// The counter after one increment: one more, wrapping from `u32::MAX` to 0.
pub open spec fn next_count(c: u32) -> u32 {
    ((c as int + 1) % 0x1_0000_0000) as u32
}

impl ContractState {
    /// A store on which nothing has been written.
    pub open spec fn fresh() -> ContractState {
        ContractState { admin: None, counter: None }
    }

    pub open spec fn initialized(self) -> bool {
        self.admin is Some
    }

    pub open spec fn has(self, key: DataKey) -> bool {
        match key {
            DataKey::Admin => self.admin is Some,
            DataKey::Counter => self.counter is Some,
        }
    }

    /// The counter's value; an absent counter reads as 0.
    pub open spec fn count(self) -> u32 {
        match self.counter {
            Some(c) => c,
            None => 0,
        }
    }

    /// What `init` returns on this state, whatever the administrator given.
    pub open spec fn init_outcome(self) -> Result<(), ContractError> {
        if self.initialized() {
            Err(ContractError::AlreadyInitialized)
        } else {
            Ok(())
        }
    }

    /// The state after `init(admin)`.
    pub open spec fn after_init(self, admin: Seq<u8>) -> ContractState {
        if self.initialized() {
            self
        } else {
            ContractState { admin: Some(admin), counter: self.counter }
        }
    }

    /// What `upgrade` returns when `caller` asks to install `wasm_hash`:
    /// the code to install, or why nothing is installed.
    pub open spec fn upgrade_outcome(self, caller: Seq<u8>, wasm_hash: [u8; 32]) -> Result<
        [u8; 32],
        ContractError,
    > {
        match self.admin {
            None => Err(ContractError::Uninitialized),
            Some(a) => if a == caller {
                Ok(wasm_hash)
            } else {
                Err(ContractError::Unauthorized)
            },
        }
    }

    /// The state after `increment`.
    pub open spec fn after_increment(self) -> ContractState {
        ContractState { admin: self.admin, counter: Some(next_count(self.count())) }
    }
}

pub open spec fn admin_view(admin: Option<Address>) -> Option<Seq<u8>> {
    match admin {
        Some(a) => Some(a@),
        None => None,
    }
}

/// The store. The host loads it from durable storage before an operation and
/// writes back what the operation changed.
pub struct UpgradableContract {
    admin: Option<Address>,
    counter: Option<u32>,
}

impl View for UpgradableContract {
    type V = ContractState;

    closed spec fn view(&self) -> ContractState {
        ContractState { admin: admin_view(self.admin), counter: self.counter }
    }
}

impl UpgradableContract {
    /// A store on which nothing has been written.
    pub fn new() -> (r: UpgradableContract)
        ensures
            r@ == ContractState::fresh(),
    {
        UpgradableContract { admin: None, counter: None }
    }

    /// A store that holds what durable storage holds under `DataKey::Admin`
    /// and `DataKey::Counter`.
    pub fn from_storage(admin: Option<Address>, counter: Option<u32>) -> (r: UpgradableContract)
        ensures
            r@.admin == admin_view(admin),
            r@.counter == counter,
    {
        UpgradableContract { admin, counter }
    }

    /// Whether a value is stored under `key`.
    pub fn has(&self, key: DataKey) -> (r: bool)
        ensures
            r == self@.has(key),
    {
        match key {
            DataKey::Admin => self.admin.is_some(),
            DataKey::Counter => self.counter.is_some(),
        }
    }

    /// Installs `admin` as the administrator. Succeeds only on a store that
    /// has none; every later call fails with `AlreadyInitialized`, whatever
    /// its argument, and changes nothing. The counter is not touched.
    pub fn init(&mut self, admin: Address) -> (r: Result<(), ContractError>)
        ensures
            r == old(self)@.init_outcome(),
            r is Ok <==> !old(self)@.initialized(),
            r is Ok ==> final(self)@.admin == Some(admin@),
            final(self)@ == old(self)@.after_init(admin@),
            final(self)@.counter == old(self)@.counter,
    {
        if self.has(DataKey::Admin) {
            return Err(ContractError::AlreadyInitialized);
        }
        self.admin = Some(admin);
        Ok(())
    }

    /// Decides whether `caller`, as authenticated by the host, may have the
    /// running code replaced by the code that `new_wasm_hash` names. On
    /// success the result is the hash to install, once; on failure nothing
    /// is to be installed. The store itself is never changed.
    pub fn upgrade(&self, caller: &Address, new_wasm_hash: [u8; 32]) -> (r: Result<
        [u8; 32],
        ContractError,
    >)
        ensures
            r == self@.upgrade_outcome(caller@, new_wasm_hash),
            self@.admin is None ==> r == Err::<[u8; 32], ContractError>(
                ContractError::Uninitialized,
            ),
            self@.admin is Some && self@.admin != Some(caller@) ==> r == Err::<
                [u8; 32],
                ContractError,
            >(ContractError::Unauthorized),
            self@.admin == Some(caller@) ==> r == Ok::<[u8; 32], ContractError>(new_wasm_hash),
    {
        match &self.admin {
            None => Err(ContractError::Uninitialized),
            Some(a) => {
                if *a == *caller {
                    Ok(new_wasm_hash)
                } else {
                    Err(ContractError::Unauthorized)
                }
            },
        }
    }

    /// Adds one to the counter (an absent counter counts as 0) and returns
    /// the new value. At `u32::MAX` the counter wraps to 0. The administrator
    /// is not touched.
    pub fn increment(&mut self) -> (r: u32)
        ensures
            r == next_count(old(self)@.count()),
            final(self)@ == old(self)@.after_increment(),
            final(self)@.count() == r,
            final(self)@.admin == old(self)@.admin,
    {
        let count: u32 = self.get_count();
        let next: u32 = if count == u32::MAX {
            0
        } else {
            count + 1
        };
        self.counter = Some(next);
        next
    }

    /// The counter's value, 0 if it was never incremented.
    pub fn get_count(&self) -> (r: u32)
        ensures
            r == self@.count(),
    {
        match self.counter {
            Some(c) => c,
            None => 0,
        }
    }

    /// The revision number of the installed code. It depends on no state.
    pub fn version() -> (r: u32)
        ensures
            r == VERSION,
    {
        VERSION
    }
}

} // verus!
