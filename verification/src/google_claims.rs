use vstd::prelude::*;
use crate::util::clone_opt_string;

verus! {

/// The identity claims obtained from the federated identity provider.
pub struct GoogleClaims {
    pub sub: String,
    pub email: String,
    pub email_verified: bool,
    pub name: String,
    pub picture: Option<String>,
}

impl Clone for GoogleClaims {
    fn clone(&self) -> (r: Self)
        ensures
            r == *self,
    {
        GoogleClaims {
            sub: self.sub.clone(),
            email: self.email.clone(),
            email_verified: self.email_verified,
            name: self.name.clone(),
            picture: clone_opt_string(&self.picture),
        }
    }
}

/// Builds the claims record from the raw fields of a verified identity
/// token; an empty picture address is recorded as no picture at all.
pub fn google_claims_new(
    sub: String,
    email: String,
    email_verified: bool,
    name: String,
    picture: String,
) -> (r: GoogleClaims)
    ensures
        r.sub == sub,
        r.email == email,
        r.email_verified == email_verified,
        r.name == name,
        picture@.len() == 0 ==> r.picture is None,
        picture@.len() > 0 ==> r.picture == Some(picture),
{
    let picture_opt = if picture.as_str().is_empty() {
        None
    } else {
        Some(picture)
    };
    GoogleClaims { sub, email, email_verified, name, picture: picture_opt }
}

} // verus!
