use vstd::prelude::*;

use crate::config::Args;

verus! {

/// A mutating call without the shared secret.
#[derive(Clone, Copy, Debug, PartialEq, Eq, Structural)]
pub struct Unauthorized;

/// Admits a caller whose `Authorization` value (absent, or not valid text,
/// as `None`) is exactly the configured password.
pub fn check_admin(auth_header: Option<&str>, config: &Args) -> (r: Result<(), Unauthorized>)
    ensures
        r is Ok <==> (auth_header is Some && auth_header->Some_0@ == config.admin_pw@),
{
    match auth_header {
        Some(value) => {
            let presented = value.to_owned();
            if presented == config.admin_pw {
                Ok(())
            } else {
                Err(Unauthorized)
            }
        },
        None => Err(Unauthorized),
    }
}

} // verus!
