//! Contract ownership and the global status gate.
//!
//! A collaborator of the claim engine rather than part of it: a two-step
//! ownership handshake (grant, then claim or revoke) and a halt switch that
//! permits only administrative un-halting while active. None of it touches
//! the vesting data model.

use vstd::prelude::*;

use crate::bytes::bytes_eq;

verus! {

/// Whether the contract processes requests normally or is halted.
#[derive(Clone, Copy, Debug, PartialEq, Eq, Structural)]
pub enum ContractStatusLevel {
    /// Everything is allowed.
    NormalRun,
    /// Only a status change by the owner is allowed.
    StopAll,
}

/// Wire encoding of a status level.
pub fn status_level_to_u8(status_level: ContractStatusLevel) -> (r: u8)
    ensures
        r == (match status_level {
            ContractStatusLevel::NormalRun => 0u8,
            ContractStatusLevel::StopAll => 1u8,
        }),
{
    match status_level {
        ContractStatusLevel::NormalRun => 0,
        ContractStatusLevel::StopAll => 1,
    }
}

/// Decodes a status level; anything above the known levels is rejected.
pub fn u8_to_status_level(status_level: u8) -> (r: Option<ContractStatusLevel>)
    ensures
        r == (if status_level == 0 {
            Some(ContractStatusLevel::NormalRun)
        } else if status_level == 1 {
            Some(ContractStatusLevel::StopAll)
        } else {
            None::<ContractStatusLevel>
        }),
{
    if status_level == 0 {
        Some(ContractStatusLevel::NormalRun)
    } else if status_level == 1 {
        Some(ContractStatusLevel::StopAll)
    } else {
        None
    }
}

/// Whether the status permits an action: while halted, only a status
/// change is permitted; in normal operation every action is.
pub fn status_permits(status: ContractStatusLevel, is_status_change: bool) -> (r: bool)
    ensures
        r == (status is NormalRun || is_status_change),
{
    match status {
        ContractStatusLevel::NormalRun => true,
        ContractStatusLevel::StopAll => is_status_change,
    }
}

/// Ownership and status of one deployment. An empty `granted_owner` means no
/// handshake is pending.
pub struct OwnershipState {
    /// Canonical identifier of the current owner.
    pub owner: Vec<u8>,
    /// Canonical identifier of the pending owner, empty if none.
    pub granted_owner: Vec<u8>,
    /// The global status gate.
    pub status: ContractStatusLevel,
}

/// Why an administrative action was rejected.
#[derive(Clone, Copy, Debug, PartialEq, Eq, Structural)]
pub enum AdminError {
    /// The sender is not the owner.
    NotAdmin,
    /// The sender is not the pending owner.
    NotGrantedAdmin,
    /// No ownership grant is pending.
    NoGrantedOwner,
}

impl OwnershipState {
    /// A fresh deployment: the registrant owns it, no handshake pending.
    pub fn init(owner: Vec<u8>, status: ContractStatusLevel) -> (r: OwnershipState)
        ensures
            r.owner@ == owner@,
            r.granted_owner@.len() == 0,
            r.status == status,
    {
        OwnershipState { owner: owner, granted_owner: Vec::new(), status: status }
    }

    /// The sender is the current owner.
    pub fn is_admin(&self, sender: &Vec<u8>) -> (r: bool)
        ensures
            r == (self.owner@ == sender@),
    {
        bytes_eq(&self.owner, sender)
    }

    /// The sender is the pending owner.
    pub fn is_granted_admin(&self, sender: &Vec<u8>) -> (r: bool)
        ensures
            r == (self.granted_owner@ == sender@),
    {
        bytes_eq(&self.granted_owner, sender)
    }

    /// The current owner's identifier.
    pub fn contract_owner(&self) -> (r: &Vec<u8>)
        ensures
            r@ == self.owner@,
    {
        &self.owner
    }

    /// The pending owner's identifier; empty if no grant is pending.
    pub fn granted_contract_owner(&self) -> (r: &Vec<u8>)
        ensures
            r@ == self.granted_owner@,
    {
        &self.granted_owner
    }

    /// The global status gate's current level.
    pub fn contract_status(&self) -> (r: ContractStatusLevel)
        ensures
            r == self.status,
    {
        self.status
    }

    /// The owner grants ownership to a candidate; the grant stays pending
    /// until claimed or revoked.
    pub fn transfer_contract_owner(&mut self, sender: &Vec<u8>, new_admin: Vec<u8>) -> (r: Result<
        (),
        AdminError,
    >)
        ensures
            match r {
                Ok(()) => old(self).owner@ == sender@ && final(self).owner == old(self).owner
                    && final(self).granted_owner == new_admin && final(self).status == old(self).status,
                Err(e) => e == AdminError::NotAdmin && old(self).owner@ != sender@ && *final(self)
                    == *old(self),
            },
    {
        if !self.is_admin(sender) {
            return Err(AdminError::NotAdmin);
        }
        self.granted_owner = new_admin;
        Ok(())
    }

    /// The pending owner claims ownership; the grant is consumed.
    pub fn claim_contract_owner(&mut self, sender: Vec<u8>) -> (r: Result<(), AdminError>)
        ensures
            match r {
                Ok(()) => old(self).granted_owner@ == sender@ && final(self).owner == sender
                    && final(self).granted_owner@.len() == 0 && final(self).status == old(self).status,
                Err(e) => e == AdminError::NotGrantedAdmin && old(self).granted_owner@ != sender@
                    && *final(self) == *old(self),
            },
    {
        if !self.is_granted_admin(&sender) {
            return Err(AdminError::NotGrantedAdmin);
        }
        self.owner = sender;
        self.granted_owner = Vec::new();
        Ok(())
    }

    /// The owner withdraws a pending grant.
    pub fn revoke_granted_contract_owner(&mut self, sender: &Vec<u8>) -> (r: Result<
        (),
        AdminError,
    >)
        ensures
            match r {
                Ok(()) => old(self).owner@ == sender@ && old(self).granted_owner@.len() > 0
                    && final(self).owner == old(self).owner && final(self).granted_owner@.len()
                    == 0 && final(self).status == old(self).status,
                Err(e) => *final(self) == *old(self) && ((e == AdminError::NotAdmin && old(self).owner@ != sender@) || (e == AdminError::NoGrantedOwner && old(self).owner@
                    == sender@ && old(self).granted_owner@.len() == 0)),
            },
    {
        if !self.is_admin(sender) {
            return Err(AdminError::NotAdmin);
        }
        if self.granted_owner.len() == 0 {
            return Err(AdminError::NoGrantedOwner);
        }
        self.granted_owner = Vec::new();
        Ok(())
    }

    /// The owner flips the global status gate.
    pub fn set_contract_status(&mut self, sender: &Vec<u8>, level: ContractStatusLevel) -> (r:
        Result<(), AdminError>)
        ensures
            match r {
                Ok(()) => old(self).owner@ == sender@ && final(self).status == level && final(self).owner == old(self).owner && final(self).granted_owner == old(self).granted_owner,
                Err(e) => e == AdminError::NotAdmin && old(self).owner@ != sender@ && *final(self)
                    == *old(self),
            },
    {
        if !self.is_admin(sender) {
            return Err(AdminError::NotAdmin);
        }
        self.status = level;
        Ok(())
    }
}

} // verus!
