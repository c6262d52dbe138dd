//! The administration endpoints: what deleting a user and changing a role decide.

use vstd::prelude::*;

use crate::auth::extractor::AdminUser;
use crate::errors::AppError;
use crate::models::MessageResponse;
use crate::text::concat3;

verus! {

/// A request to grant or withdraw administrator rights.
#[derive(Debug)]
pub struct ChangeRoleRequest {
    pub is_admin: bool,
}

/// The error for a user id that matched no row.
pub open spec fn is_user_not_found(e: AppError, user_id: Seq<char>) -> bool {
    e matches AppError::NotFound(m) && m@ == "User "@ + user_id + " not found"@
}

fn user_not_found(user_id: &String) -> (e: AppError)
    ensures
        is_user_not_found(e, user_id@),
{
    AppError::NotFound(concat3("User ", user_id.as_str(), " not found"))
}

/// An administrator may delete any account but their own.
pub fn check_deletion(user_id: &String, admin: &AdminUser) -> (r: Result<(), AppError>)
    ensures
        user_id@ == admin.user_id@ ==> (r matches Err(AppError::BadRequest(m)) && m@ == "Cannot delete your own account"@),
        user_id@ != admin.user_id@ ==> r is Ok,
{
    if *user_id == admin.user_id {
        return Err(AppError::BadRequest("Cannot delete your own account".to_owned()));
    }
    Ok(())
}

/// The answer to a deletion that touched `rows_affected` rows.
pub fn deletion_outcome(user_id: &String, rows_affected: u64) -> (r: Result<MessageResponse, AppError>)
    ensures
        rows_affected == 0 ==> (r matches Err(e) && is_user_not_found(e, user_id@)),
        rows_affected != 0 ==> (r matches Ok(m) && m.message@ == "User "@ + user_id@ + " deleted"@),
{
    if rows_affected == 0 {
        return Err(user_not_found(user_id));
    }
    Ok(MessageResponse { message: concat3("User ", user_id.as_str(), " deleted") })
}

/// An administrator may change any role but may not withdraw their own rights.
pub fn check_role_change(user_id: &String, admin: &AdminUser, request: &ChangeRoleRequest) -> (r: Result<(), AppError>)
    ensures
        user_id@ == admin.user_id@ && !request.is_admin ==> (r matches Err(AppError::BadRequest(m))
            && m@ == "Cannot remove your own admin rights"@),
        !(user_id@ == admin.user_id@ && !request.is_admin) ==> r is Ok,
{
    if *user_id == admin.user_id && !request.is_admin {
        return Err(AppError::BadRequest("Cannot remove your own admin rights".to_owned()));
    }
    Ok(())
}

/// A role change goes on only when it touched a row.
pub fn role_change_outcome(user_id: &String, rows_affected: u64) -> (r: Result<(), AppError>)
    ensures
        rows_affected == 0 ==> (r matches Err(e) && is_user_not_found(e, user_id@)),
        rows_affected != 0 ==> r is Ok,
{
    if rows_affected == 0 {
        return Err(user_not_found(user_id));
    }
    Ok(())
}

} // verus!
