use vstd::prelude::*;

verus! {

/// The credentials of a sign-in request.
#[derive(Clone, Debug)]
pub struct SignInDTO {
    pub account: Option<String>,
    pub password: Option<String>,
}


} // verus!
