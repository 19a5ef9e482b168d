use vstd::prelude::*;

verus! {

/// The address the server binds to when none is configured.
pub const DEFAULT_ADDRESS: &'static str = "0.0.0.0:6010";

/// The name of the setting that holds the address to bind to.
pub const ADDRESS_SETTING: &'static str = "APP_SERVER_ADDRESS";

/// The address to bind to: the configured one when there is one, else
/// `DEFAULT_ADDRESS`.
pub fn server_address(configured: Option<String>) -> (r: String)
    ensures
        configured matches Some(a) ==> r == a,
        configured is None ==> r@ == DEFAULT_ADDRESS@,
{
    match configured {
        Some(a) => a,
        None => DEFAULT_ADDRESS.to_owned(),
    }
}

} // verus!
