use crate::errors::ErrorCode;
use crate::pubkey::Pubkey;
use crate::schema::dao::Dao;
use vstd::prelude::*;

verus! {

#[derive(Clone, Copy, Debug, PartialEq, Eq)]
pub struct UpdateSupplyEvent {
    pub dao: Pubkey,
    pub supply: u64,
}

/// Sets the votable supply of the DAO stored under `dao_key`. Only the
/// authority may do so. Proposals raised before keep the supply they were
/// raised with.
pub fn exec(dao: &mut Dao, dao_key: Pubkey, authority: Pubkey, supply: u64) -> (done: Result<
    UpdateSupplyEvent,
    ErrorCode,
>)
    ensures
        match done {
            Ok(event) => {
                &&& authority == old(dao).authority
                &&& *final(dao) == (Dao { supply, ..*old(dao) })
                &&& event == (UpdateSupplyEvent { dao: dao_key, supply })
            },
            Err(error) => {
                &&& authority != old(dao).authority
                &&& error == ErrorCode::NoPermission
                &&& *final(dao) == *old(dao)
            },
        },
{
    if !dao.authority.equals(&authority) {
        return Err(ErrorCode::NoPermission);
    }
    dao.supply = supply;
    Ok(UpdateSupplyEvent { dao: dao_key, supply: dao.supply })
}

} // verus!
