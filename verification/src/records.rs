//! The record data model: identities, derived addresses, model and license
//! records, and the error taxonomy shared by every operation.

use vstd::prelude::*;

verus! {

/// An authenticated actor reference (a creator, a licensee, or the
/// administrator).  The surrounding environment authenticates callers before
/// they reach this core, which only ever compares identities for equality.
#[derive(PartialEq, Eq, Structural, Clone, Copy, Debug)]
pub struct Identity {
    pub key: u64,
}

/// The deterministic address of a model record.  The logical key
/// `(creator, name)` is itself the address, so re-deriving the same key
/// always yields the same address and a second creation attempt at that
/// address is rejected rather than overwriting.
pub struct ModelAddress {
    pub creator: Identity,
    pub name: String,
}

/// The mathematical value of a [`ModelAddress`].
pub struct ModelAddressV {
    pub creator: Identity,
    pub name: Seq<char>,
}

impl View for ModelAddress {
    type V = ModelAddressV;

    open spec fn view(&self) -> ModelAddressV {
        ModelAddressV { creator: self.creator, name: self.name@ }
    }
}

impl Clone for ModelAddress {
    fn clone(&self) -> (r: Self)
        ensures
            r@ == self@,
    {
        ModelAddress { creator: self.creator, name: self.name.clone() }
    }
}

impl PartialEq for ModelAddress {
    fn eq(&self, other: &Self) -> (r: bool) {
        self.creator == other.creator && self.name == other.name
    }
}

impl vstd::std_specs::cmp::PartialEqSpecImpl for ModelAddress {
    open spec fn obeys_eq_spec() -> bool {
        true
    }

    open spec fn eq_spec(&self, other: &Self) -> bool {
        self@ == other@
    }
}

/// The deterministic address of a license record, derived from the licensed
/// model's address together with the licensee's identity.
pub struct LicenseAddress {
    pub model: ModelAddress,
    pub user: Identity,
}

/// The mathematical value of a [`LicenseAddress`].
pub struct LicenseAddressV {
    pub model: ModelAddressV,
    pub user: Identity,
}

impl View for LicenseAddress {
    type V = LicenseAddressV;

    open spec fn view(&self) -> LicenseAddressV {
        LicenseAddressV { model: self.model@, user: self.user }
    }
}

impl Clone for LicenseAddress {
    fn clone(&self) -> (r: Self)
        ensures
            r@ == self@,
    {
        LicenseAddress { model: self.model.clone(), user: self.user }
    }
}

impl PartialEq for LicenseAddress {
    fn eq(&self, other: &Self) -> (r: bool) {
        self.model == other.model && self.user == other.user
    }
}

impl vstd::std_specs::cmp::PartialEqSpecImpl for LicenseAddress {
    open spec fn obeys_eq_spec() -> bool {
        true
    }

    open spec fn eq_spec(&self, other: &Self) -> bool {
        self@ == other@
    }
}

/// The address of any record in the store.
pub enum Address {
    Model(ModelAddress),
    License(LicenseAddress),
}

/// The mathematical value of an [`Address`].
pub enum AddressV {
    Model(ModelAddressV),
    License(LicenseAddressV),
}

impl View for Address {
    type V = AddressV;

    open spec fn view(&self) -> AddressV {
        match self {
            Address::Model(a) => AddressV::Model(a@),
            Address::License(a) => AddressV::License(a@),
        }
    }
}

impl Clone for Address {
    fn clone(&self) -> (r: Self)
        ensures
            r@ == self@,
    {
        match self {
            Address::Model(a) => Address::Model(a.clone()),
            Address::License(a) => Address::License(a.clone()),
        }
    }
}

impl PartialEq for Address {
    fn eq(&self, other: &Self) -> (r: bool) {
        match (self, other) {
            (Address::Model(a), Address::Model(b)) => a == b,
            (Address::License(a), Address::License(b)) => a == b,
            _ => false,
        }
    }
}

impl vstd::std_specs::cmp::PartialEqSpecImpl for Address {
    open spec fn obeys_eq_spec() -> bool {
        true
    }

    open spec fn eq_spec(&self, other: &Self) -> bool {
        self@ == other@
    }
}

/// A registered artifact record.
pub struct ModelAccount {
    pub model_name: String,
    pub creator: Identity,
    pub url: String,
    pub royalty_bps: u16,
    pub created_at: i64,
    pub is_active: bool,
    pub parent: Option<ModelAddress>,
    pub is_allowed: bool,
}

/// The mathematical value of a [`ModelAccount`].
pub struct ModelAccountV {
    pub model_name: Seq<char>,
    pub creator: Identity,
    pub url: Seq<char>,
    pub royalty_bps: u16,
    pub created_at: i64,
    pub is_active: bool,
    pub parent: Option<ModelAddressV>,
    pub is_allowed: bool,
}

impl View for ModelAccount {
    type V = ModelAccountV;

    open spec fn view(&self) -> ModelAccountV {
        ModelAccountV {
            model_name: self.model_name@,
            creator: self.creator,
            url: self.url@,
            royalty_bps: self.royalty_bps,
            created_at: self.created_at,
            is_active: self.is_active,
            parent: match self.parent {
                Some(a) => Some(a@),
                None => None,
            },
            is_allowed: self.is_allowed,
        }
    }
}

impl Clone for ModelAccount {
    fn clone(&self) -> (r: Self)
        ensures
            r@ == self@,
    {
        ModelAccount {
            model_name: self.model_name.clone(),
            creator: self.creator,
            url: self.url.clone(),
            royalty_bps: self.royalty_bps,
            created_at: self.created_at,
            is_active: self.is_active,
            parent: match &self.parent {
                Some(a) => Some(a.clone()),
                None => None,
            },
            is_allowed: self.is_allowed,
        }
    }
}

/// A grant of usage rights over a model to an identity.
pub struct LicenseAccount {
    pub user: Identity,
    pub model: ModelAddress,
    pub license_type: u8,
    pub issued_at: i64,
    pub expires_at: Option<i64>,
    pub is_active: bool,
}

/// The mathematical value of a [`LicenseAccount`].
pub struct LicenseAccountV {
    pub user: Identity,
    pub model: ModelAddressV,
    pub license_type: u8,
    pub issued_at: i64,
    pub expires_at: Option<i64>,
    pub is_active: bool,
}

impl View for LicenseAccount {
    type V = LicenseAccountV;

    open spec fn view(&self) -> LicenseAccountV {
        LicenseAccountV {
            user: self.user,
            model: self.model@,
            license_type: self.license_type,
            issued_at: self.issued_at,
            expires_at: self.expires_at,
            is_active: self.is_active,
        }
    }
}

impl Clone for LicenseAccount {
    fn clone(&self) -> (r: Self)
        ensures
            r@ == self@,
    {
        LicenseAccount {
            user: self.user,
            model: self.model.clone(),
            license_type: self.license_type,
            issued_at: self.issued_at,
            expires_at: self.expires_at,
            is_active: self.is_active,
        }
    }
}

/// A stored record: either a model or a license.
pub enum Record {
    Model(ModelAccount),
    License(LicenseAccount),
}

/// The mathematical value of a [`Record`].
pub enum RecordV {
    Model(ModelAccountV),
    License(LicenseAccountV),
}

impl View for Record {
    type V = RecordV;

    open spec fn view(&self) -> RecordV {
        match self {
            Record::Model(m) => RecordV::Model(m@),
            Record::License(l) => RecordV::License(l@),
        }
    }
}

impl Clone for Record {
    fn clone(&self) -> (r: Self)
        ensures
            r@ == self@,
    {
        match self {
            Record::Model(m) => Record::Model(m.clone()),
            Record::License(l) => Record::License(l.clone()),
        }
    }
}

/// The typed failures an operation can surface.  Every failure leaves the
/// store unchanged: no partial mutation is ever committed.
#[derive(PartialEq, Eq, Structural, Clone, Copy, Debug)]
pub enum CustomError {
    /// The operation requires an active model and it is not.
    ModelInactive,
    /// The parent model does not permit derivative registration.
    IsNotAllowed,
    /// The caller is not the required owning identity (nor, for revocation,
    /// the administrator).
    Unauthorized,
    /// The operation requires an active license and it is not.
    LicenseNotActive,
    /// The caller-declared target address does not match the address derived
    /// from the logical key.
    AddressMismatch,
    /// A record already occupies the derived address.
    AlreadyExists,
    /// The referenced record does not exist.
    NotFound,
}

} // verus!
