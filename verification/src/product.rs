use vstd::prelude::*;

use crate::text::{concat, from_chars, to_chars};

verus! {

/// The product's name.
pub const PRODUCT_NAME: &'static str = "Mam Voice Changer";

/// What the application tells about itself.
#[derive(Debug)]
pub struct ProductInformation {
    pub product_name: String,
    pub application_version: String,
    pub prototype: bool,
    pub operating_system: String,
    pub architecture: String,
    pub backend_version: String,
}

/// The backend's version line for an application version.
pub open spec fn backend_version_spec(application_version: Seq<char>) -> Seq<char> {
    "mam-voice-changer-rust "@ + application_version
}

/// The product information for this build: a prototype, with the backend version
/// derived from the application version.
pub fn product_information(
    application_version: &str,
    operating_system: &str,
    architecture: &str,
) -> (information: ProductInformation)
    ensures
        information.product_name@ == PRODUCT_NAME@,
        information.application_version@ == application_version@,
        information.prototype,
        information.operating_system@ == operating_system@,
        information.architecture@ == architecture@,
        information.backend_version@ == backend_version_spec(application_version@),
{
    ProductInformation {
        product_name: from_chars(to_chars(PRODUCT_NAME).as_slice()),
        application_version: from_chars(to_chars(application_version).as_slice()),
        prototype: true,
        operating_system: from_chars(to_chars(operating_system).as_slice()),
        architecture: from_chars(to_chars(architecture).as_slice()),
        backend_version: concat("mam-voice-changer-rust ", application_version),
    }
}

} // verus!
