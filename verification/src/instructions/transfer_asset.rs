//! Handing an asset to a new owner.

use vstd::prelude::*;
use crate::account::{
    check_mutable, check_optional_mutable, check_pinned, first, forward, forwarded, load,
    load_optional, mutable_failure, optional_at, optional_failure, optional_mutable_failure,
    pinned_failure, required_failure, AccountHandle, Slot,
};
use crate::address::{Address, CORE_PROGRAM_ID, SYSTEM_PROGRAM_ID};
use crate::cpi::{build_transfer, transfer_call, Instruction, InstructionView};
use crate::error::OpsError;

verus! {

/// The accounts of `transfer_asset`, in the order the instruction declares
/// them.
#[derive(Clone, Copy, Debug, PartialEq, Eq)]
pub struct TransferAsset {
    /// Pays the fees. Signs; mutable.
    pub payer: AccountHandle,
    /// The owner of the asset or a delegate of the owner, if any. Signs.
    pub authority: Option<AccountHandle>,
    /// The asset. Mutable.
    pub asset: AccountHandle,
    /// The account the asset goes to. It need not sign.
    pub new_owner: AccountHandle,
    /// The collection the asset belongs to, if any. Mutable.
    pub collection: Option<AccountHandle>,
    /// The native account-creation program, if supplied.
    pub system_program: Option<AccountHandle>,
    /// The Core Asset Program.
    pub mpl_core_program: AccountHandle,
}

impl TransferAsset {
    /// How many accounts the instruction declares.
    pub open spec fn declared() -> int {
        7
    }

    /// The accounts as their positions give them.
    pub open spec fn resolved(program_id: Address, accounts: Seq<AccountHandle>) -> TransferAsset {
        TransferAsset {
            payer: accounts[0],
            authority: optional_at(program_id, accounts, 1),
            asset: accounts[2],
            new_owner: accounts[3],
            collection: optional_at(program_id, accounts, 4),
            system_program: optional_at(program_id, accounts, 5),
            mpl_core_program: accounts[6],
        }
    }

    /// The first failure in loading the accounts one by one, if any.
    pub open spec fn load_failure(program_id: Address, accounts: Seq<AccountHandle>) -> Option<
        OpsError,
    > {
        first(
            required_failure(accounts, 0, Slot::Signer),
            first(
                optional_failure(program_id, accounts, 1, Slot::Signer),
                first(
                    required_failure(accounts, 2, Slot::Unchecked),
                    first(
                        required_failure(accounts, 3, Slot::Unchecked),
                        first(
                            optional_failure(program_id, accounts, 4, Slot::Unchecked),
                            first(
                                optional_failure(program_id, accounts, 5, Slot::SystemProgram),
                                required_failure(accounts, 6, Slot::Unchecked),
                            ),
                        ),
                    ),
                ),
            ),
        )
    }

    /// The first constraint that the loaded accounts break, if any.
    pub open spec fn constraint_failure(self) -> Option<OpsError> {
        first(
            mutable_failure(self.payer),
            first(
                mutable_failure(self.asset),
                first(
                    optional_mutable_failure(self.collection),
                    pinned_failure(self.mpl_core_program),
                ),
            ),
        )
    }

    /// What the instruction makes of the accounts it is given: the loaded
    /// accounts, or the first failure, loading before constraints.
    pub open spec fn accepted(program_id: Address, accounts: Seq<AccountHandle>) -> Result<
        TransferAsset,
        OpsError,
    > {
        match first(
            Self::load_failure(program_id, accounts),
            Self::resolved(program_id, accounts).constraint_failure(),
        ) {
            Some(e) => Err(e),
            None => Ok(Self::resolved(program_id, accounts)),
        }
    }

    /// Everything the instruction demands of its accounts before it acts.
    pub open spec fn valid(self) -> bool {
        &&& self.payer.is_signer
        &&& self.payer.is_writable
        &&& self.authority matches Some(a) ==> a.is_signer
        &&& self.asset.is_writable
        &&& self.collection matches Some(c) ==> c.is_writable
        &&& self.system_program matches Some(s) ==> s.key == SYSTEM_PROGRAM_ID && s.executable
        &&& self.mpl_core_program.key == CORE_PROGRAM_ID
    }

    /// The accounts are accepted exactly when there are as many as the
    /// instruction declares and they meet everything it demands of them.
    pub proof fn accepted_exactly_when_valid(program_id: Address, accounts: Seq<AccountHandle>)
        ensures
            Self::accepted(program_id, accounts) is Ok <==> accounts.len() >= Self::declared()
                && Self::resolved(program_id, accounts).valid(),
    {
    }

    /// The call that the instruction makes on these accounts.
    pub open spec fn outbound(self) -> InstructionView {
        transfer_call(
            self.asset.key,
            forwarded(self.collection),
            self.payer.key,
            forwarded(self.authority),
            self.new_owner.key,
            forwarded(self.system_program),
        )
    }

    /// Loads and checks the accounts of the instruction.
    pub fn try_accounts(program_id: &Address, accounts: &[AccountHandle]) -> (r: Result<
        TransferAsset,
        OpsError,
    >)
        ensures
            r == Self::accepted(*program_id, accounts@),
            r matches Ok(loaded) ==> loaded.valid(),
    {
        let payer = load(accounts, 0, Slot::Signer)?;
        let authority = load_optional(program_id, accounts, 1, Slot::Signer)?;
        let asset = load(accounts, 2, Slot::Unchecked)?;
        let new_owner = load(accounts, 3, Slot::Unchecked)?;
        let collection = load_optional(program_id, accounts, 4, Slot::Unchecked)?;
        let system_program = load_optional(program_id, accounts, 5, Slot::SystemProgram)?;
        let mpl_core_program = load(accounts, 6, Slot::Unchecked)?;
        check_mutable(&payer)?;
        check_mutable(&asset)?;
        check_optional_mutable(&collection)?;
        check_pinned(&mpl_core_program)?;
        Ok(
            TransferAsset {
                payer,
                authority,
                asset,
                new_owner,
                collection,
                system_program,
                mpl_core_program,
            },
        )
    }

    /// The call that transfers the asset to `new_owner`: every account that
    /// was supplied is passed on, every one that was not is passed as
    /// absent.
    pub fn transfer_asset(&self) -> (call: Instruction)
        requires
            self.valid(),
        ensures
            call@ == self.outbound(),
    {
        let collection = forward(&self.collection);
        let authority = forward(&self.authority);
        let system_program = forward(&self.system_program);
        build_transfer(
            self.asset.key,
            collection,
            self.payer.key,
            authority,
            self.new_owner.key,
            system_program,
        )
    }
}

} // verus!
