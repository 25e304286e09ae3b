use crate::errors::ErrorCode;
use crate::pubkey::Pubkey;
use crate::schema::dao::{Dao, DaoRegime};
use vstd::prelude::*;

verus! {

#[derive(Clone, Copy, Debug, PartialEq, Eq)]
pub struct UpdateDaoRegimeEvent {
    pub dao: Pubkey,
    pub regime: DaoRegime,
}

/// Puts the DAO stored under `dao_key` under another regime. Only the authority
/// may do so. Proposals raised before keep the regime they were raised under.
pub fn exec(dao: &mut Dao, dao_key: Pubkey, authority: Pubkey, regime: DaoRegime) -> (done: Result<
    UpdateDaoRegimeEvent,
    ErrorCode,
>)
    ensures
        match done {
            Ok(event) => {
                &&& authority == old(dao).authority
                &&& *final(dao) == (Dao { regime, ..*old(dao) })
                &&& event == (UpdateDaoRegimeEvent { dao: dao_key, regime })
            },
            Err(error) => {
                &&& authority != old(dao).authority
                &&& error == ErrorCode::NoPermission
                &&& *final(dao) == *old(dao)
            },
        },
{
    if !dao.authority.equals(&authority) {
        return Err(ErrorCode::NoPermission);
    }
    dao.regime = regime;
    Ok(UpdateDaoRegimeEvent { dao: dao_key, regime: dao.regime })
}

} // verus!
