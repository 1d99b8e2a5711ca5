//! User credentials for the captive-portal login exchange.

use vstd::prelude::*;
use vstd::string::StringExecFns;
use crate::password::Password;

verus! {

/// The internet service providers that the campus portal distinguishes.
#[derive(Debug, Clone, Copy)]
pub enum IspType {
    EDU,
    CMCC,
    CT,
}

/// The account string sent to the portal: the user id, with the
/// provider-specific suffix appended for the non-campus providers.
pub open spec fn account_of(isp: IspType, userid: Seq<char>) -> Seq<char> {
    match isp {
        IspType::EDU => userid,
        IspType::CMCC => userid + "@cmcc"@,
        IspType::CT => userid + "@njxy"@,
    }
}

/// A user's login identity: user id, password, and provider.
/// Immutable after construction.
#[derive(Debug)]
pub struct Credential {
    userid: String,
    password: Password,
    isp: IspType,
}

impl Credential {
    /// The user id of this credential, as spec-level data.
    pub closed spec fn spec_userid(&self) -> Seq<char> {
        self.userid@
    }

    /// The password of this credential, as spec-level data.
    pub closed spec fn spec_password(&self) -> Password {
        self.password
    }

    /// The provider of this credential, as spec-level data.
    pub closed spec fn spec_isp(&self) -> IspType {
        self.isp
    }

    pub fn new(userid: String, password: Password, isp: IspType) -> (r: Self)
        ensures
            r.spec_userid() == userid@,
            r.spec_password() == password,
            r.spec_isp() == isp,
    {
        Credential { userid, password, isp }
    }

    /// The account string submitted to the portal for this credential.
    pub fn derive_account(&self) -> (r: String)
        ensures
            r@ == account_of(self.spec_isp(), self.spec_userid()),
    {
        match self.isp {
            IspType::EDU => self.userid.clone(),
            IspType::CMCC => self.userid.clone().concat("@cmcc"),
            IspType::CT => self.userid.clone().concat("@njxy"),
        }
    }

    pub fn into_password(self) -> (r: Password)
        ensures
            r == self.spec_password(),
    {
        self.password
    }

    pub fn into_userid(self) -> (r: String)
        ensures
            r@ == self.spec_userid(),
    {
        self.userid
    }

    pub fn userid(&self) -> (r: &str)
        ensures
            r@ == self.spec_userid(),
    {
        self.userid.as_str()
    }

    pub fn password(&self) -> (r: &Password)
        ensures
            r == &self.spec_password(),
    {
        &self.password
    }

    pub fn isp(&self) -> (r: IspType)
        ensures
            r == self.spec_isp(),
    {
        self.isp
    }
}

} // verus!
