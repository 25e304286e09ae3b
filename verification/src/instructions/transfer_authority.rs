use crate::errors::ErrorCode;
use crate::pubkey::Pubkey;
use crate::schema::dao::Dao;
use vstd::prelude::*;

verus! {

#[derive(Clone, Copy, Debug, PartialEq, Eq)]
pub struct TransferAuthorityEvent {
    pub authority: Pubkey,
    pub new_authority: Pubkey,
    pub dao: Pubkey,
}

/// Hands the DAO stored under `dao_key` over to `new_authority`. Only the
/// present authority may do so.
pub fn exec(dao: &mut Dao, dao_key: Pubkey, authority: Pubkey, new_authority: Pubkey) -> (done:
    Result<TransferAuthorityEvent, ErrorCode>)
    ensures
        match done {
            Ok(event) => {
                &&& authority == old(dao).authority
                &&& *final(dao) == (Dao { authority: new_authority, ..*old(dao) })
                &&& event == (TransferAuthorityEvent { authority, new_authority, dao: dao_key })
            },
            Err(error) => {
                &&& authority != old(dao).authority
                &&& error == ErrorCode::NoPermission
                &&& *final(dao) == *old(dao)
            },
        },
{
    if !dao.authority.equals(&authority) {
        return Err(ErrorCode::NoPermission);
    }
    dao.authority = new_authority;
    Ok(TransferAuthorityEvent { authority, new_authority: dao.authority, dao: dao_key })
}

} // verus!
