use crate::errors::ErrorCode;
use crate::pubkey::Pubkey;
use crate::schema::dao::Dao;
use vstd::prelude::*;

verus! {

#[derive(Clone, Copy, Debug, PartialEq, Eq)]
pub struct UpdateDaoMetadataEvent {
    pub dao: Pubkey,
    pub metadata: [u8; 32],
}

/// Replaces the metadata of the DAO stored under `dao_key`. Only the authority
/// may do so.
pub fn exec(dao: &mut Dao, dao_key: Pubkey, authority: Pubkey, metadata: [u8; 32]) -> (done: Result<
    UpdateDaoMetadataEvent,
    ErrorCode,
>)
    ensures
        match done {
            Ok(event) => {
                &&& authority == old(dao).authority
                &&& *final(dao) == (Dao { metadata, ..*old(dao) })
                &&& event == (UpdateDaoMetadataEvent { dao: dao_key, metadata })
            },
            Err(error) => {
                &&& authority != old(dao).authority
                &&& error == ErrorCode::NoPermission
                &&& *final(dao) == *old(dao)
            },
        },
{
    if !dao.authority.equals(&authority) {
        return Err(ErrorCode::NoPermission);
    }
    dao.metadata = metadata;
    Ok(UpdateDaoMetadataEvent { dao: dao_key, metadata: dao.metadata })
}

} // verus!
