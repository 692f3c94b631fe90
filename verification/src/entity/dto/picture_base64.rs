use vstd::prelude::*;

verus! {

/// A picture uploaded as a base64 data URL.
#[derive(Clone, Debug)]
pub struct Base64PictureDTO {
    pub name: Option<String>,
    pub content: Option<String>,
    pub token: Option<String>,
}


} // verus!
