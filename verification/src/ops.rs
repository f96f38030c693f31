//! The executable marketplace operations.  Each operation validates every
//! precondition against the current record state and the caller identity
//! before it mutates anything, and its contract ties the executable outcome
//! to the corresponding transition of the mathematical model in [`crate::state`].

use vstd::prelude::*;

use crate::records::{
    Address, AddressV, CustomError, Identity, LicenseAccount, LicenseAddress, LicenseAddressV,
    ModelAccount, ModelAddress, ModelAddressV, Record, RecordV,
};
use crate::state::{
    spec_buy_license, spec_create_model, spec_deactivate_model, spec_register_derivative_model,
    spec_revoke_license, spec_update_license_target, state_wf, record_kind_ok, BuyLicenseV,
    CreateModelV, DeactivateModelV, RegisterDerivativeModelV, RevokeLicenseV, StateV,
    UpdateLicenseTargetV,
};
use crate::store::RecordStore;

verus! {

/// The whole marketplace: the record store together with the administrator
/// identity injected at startup.
pub struct Marketplace {
    store: RecordStore,
    admin: Identity,
}

impl View for Marketplace {
    type V = StateV;

    closed spec fn view(&self) -> StateV {
        StateV { records: self.store@, admin: self.admin }
    }
}

impl Marketplace {
    /// The store keeps one record per address, and each record's kind agrees
    /// with the kind its address was derived for.
    pub closed spec fn wf(&self) -> bool {
        self.store.wf() && state_wf(self@)
    }

    /// An empty marketplace configured with the given administrator.
    pub fn new(admin: Identity) -> (m: Marketplace)
        ensures
            m.wf(),
            m@.records == Map::<AddressV, RecordV>::empty(),
            m@.admin == admin,
    {
        Marketplace { store: RecordStore::new(), admin }
    }

    /// The model stored at `addr`; fails `NotFound` if absent.
    pub fn get_model(&self, addr: &ModelAddress) -> (r: Result<&ModelAccount, CustomError>)
        requires
            self.wf(),
        ensures
            match r {
                Ok(m) => self@.records.contains_key(AddressV::Model(addr@))
                    && self@.records[AddressV::Model(addr@)] == RecordV::Model(m@),
                Err(e) => e == CustomError::NotFound && !self@.records.contains_key(
                    AddressV::Model(addr@),
                ),
            },
    {
        let a = Address::Model(addr.clone());
        match self.store.get(&a) {
            Err(e) => Err(e),
            Ok(rec) => match rec {
                Record::Model(m) => Ok(m),
                Record::License(_) => {
                    proof {
                        assert(record_kind_ok(a@, self@.records[a@]));
                    }
                    Err(CustomError::NotFound)
                },
            },
        }
    }

    /// The license stored at `addr`; fails `NotFound` if absent.
    pub fn get_license(&self, addr: &LicenseAddress) -> (r: Result<&LicenseAccount, CustomError>)
        requires
            self.wf(),
        ensures
            match r {
                Ok(l) => self@.records.contains_key(AddressV::License(addr@))
                    && self@.records[AddressV::License(addr@)] == RecordV::License(l@),
                Err(e) => e == CustomError::NotFound && !self@.records.contains_key(
                    AddressV::License(addr@),
                ),
            },
    {
        let a = Address::License(addr.clone());
        match self.store.get(&a) {
            Err(e) => Err(e),
            Ok(rec) => match rec {
                Record::License(l) => Ok(l),
                Record::Model(_) => {
                    proof {
                        assert(record_kind_ok(a@, self@.records[a@]));
                    }
                    Err(CustomError::NotFound)
                },
            },
        }
    }
}

/// The caller-facing context of `create_model`: the authenticated creator,
/// the caller-declared target address, and the clock reading supplied by the
/// environment.
pub struct CreateModel {
    pub creator: Identity,
    pub model_account: ModelAddress,
    pub now: i64,
}

impl View for CreateModel {
    type V = CreateModelV;

    open spec fn view(&self) -> CreateModelV {
        CreateModelV { creator: self.creator, model_account: self.model_account@, now: self.now }
    }
}

/// The caller-facing context of `buy_license`.
pub struct BuyLicense {
    pub user: Identity,
    pub model_account: ModelAddress,
    pub now: i64,
}

impl View for BuyLicense {
    type V = BuyLicenseV;

    open spec fn view(&self) -> BuyLicenseV {
        BuyLicenseV { user: self.user, model_account: self.model_account@, now: self.now }
    }
}

/// The caller-facing context of `register_derivative_model`.
pub struct RegisterDerivativeModel {
    pub creator: Identity,
    pub new_model_account: ModelAddress,
    pub parent_model_account: ModelAddress,
    pub now: i64,
}

impl View for RegisterDerivativeModel {
    type V = RegisterDerivativeModelV;

    open spec fn view(&self) -> RegisterDerivativeModelV {
        RegisterDerivativeModelV {
            creator: self.creator,
            new_model_account: self.new_model_account@,
            parent_model_account: self.parent_model_account@,
            now: self.now,
        }
    }
}

/// The caller-facing context of `deactivate_model`.
pub struct DeactivateModel {
    pub creator: Identity,
    pub model_account: ModelAddress,
}

impl View for DeactivateModel {
    type V = DeactivateModelV;

    open spec fn view(&self) -> DeactivateModelV {
        DeactivateModelV { creator: self.creator, model_account: self.model_account@ }
    }
}

/// The caller-facing context of `revoke_license`.
pub struct RevokeLicense {
    pub caller: Identity,
    pub license_account: LicenseAddress,
}

impl View for RevokeLicense {
    type V = RevokeLicenseV;

    open spec fn view(&self) -> RevokeLicenseV {
        RevokeLicenseV { caller: self.caller, license_account: self.license_account@ }
    }
}

/// The caller-facing context of `update_license_target`.
pub struct UpdateLicenseTarget {
    pub caller: Identity,
    pub license_account: LicenseAddress,
}

impl View for UpdateLicenseTarget {
    type V = UpdateLicenseTargetV;

    open spec fn view(&self) -> UpdateLicenseTargetV {
        UpdateLicenseTargetV { caller: self.caller, license_account: self.license_account@ }
    }
}

/// The mathematical value of a `create_model` or
/// `register_derivative_model` outcome.
pub open spec fn model_result_view(r: Result<ModelAddress, CustomError>) -> Result<
    ModelAddressV,
    CustomError,
> {
    match r {
        Ok(a) => Ok(a@),
        Err(e) => Err(e),
    }
}

/// The mathematical value of a license-operation outcome.
pub open spec fn license_result_view(r: Result<LicenseAddress, CustomError>) -> Result<
    LicenseAddressV,
    CustomError,
> {
    match r {
        Ok(a) => Ok(a@),
        Err(e) => Err(e),
    }
}

/// Registers a new model for `ctx.creator` under `model_name`, at the
/// address derived from that key, and returns the address.
pub fn create_model(
    mkt: &mut Marketplace,
    ctx: CreateModel,
    model_name: String,
    url: String,
    royalty_bps: u16,
    is_allowed: bool,
) -> (r: Result<ModelAddress, CustomError>)
    requires
        old(mkt).wf(),
        royalty_bps <= 10000,
    ensures
        final(mkt).wf(),
        ({
            let (s2, r2) = spec_create_model(
                old(mkt)@,
                ctx@,
                model_name@,
                url@,
                royalty_bps,
                is_allowed,
            );
            final(mkt)@ == s2 && model_result_view(r) == r2
        }),
{
    let derived = ModelAddress { creator: ctx.creator, name: model_name.clone() };
    if !(ctx.model_account == derived) {
        return Err(CustomError::AddressMismatch);
    }
    let record = Record::Model(
        ModelAccount {
            model_name,
            creator: ctx.creator,
            url,
            royalty_bps,
            created_at: ctx.now,
            is_active: true,
            parent: None,
            is_allowed,
        },
    );
    let addr = Address::Model(derived.clone());
    let ghost s0 = mkt@;
    match mkt.store.create(addr, record) {
        Ok(()) => {
            proof {
                assert forall|a: AddressV| #[trigger]
                    mkt@.records.contains_key(a) implies record_kind_ok(
                    a,
                    mkt@.records[a],
                ) by {
                    if a != AddressV::Model(derived@) {
                        assert(s0.records.contains_key(a));
                    }
                }
            }
            Ok(derived)
        },
        Err(e) => Err(e),
    }
}

/// Grants `ctx.user` a license of the given type over the model at
/// `ctx.model_account`, and returns the license's derived address.
pub fn buy_license(
    mkt: &mut Marketplace,
    ctx: BuyLicense,
    license_type: u8,
    expires_at: Option<i64>,
) -> (r: Result<LicenseAddress, CustomError>)
    requires
        old(mkt).wf(),
    ensures
        final(mkt).wf(),
        ({
            let (s2, r2) = spec_buy_license(old(mkt)@, ctx@, license_type, expires_at);
            final(mkt)@ == s2 && license_result_view(r) == r2
        }),
{
    let maddr = Address::Model(ctx.model_account.clone());
    let model_is_active: bool = match mkt.store.get(&maddr) {
        Err(e) => {
            return Err(e);
        },
        Ok(rec) => match rec {
            Record::Model(m) => m.is_active,
            Record::License(_) => {
                proof {
                    assert(record_kind_ok(maddr@, mkt@.records[maddr@]));
                }
                return Err(CustomError::NotFound);
            },
        },
    };
    if !model_is_active {
        return Err(CustomError::ModelInactive);
    }
    let laddr = LicenseAddress { model: ctx.model_account.clone(), user: ctx.user };
    let lic = LicenseAccount {
        user: ctx.user,
        model: ctx.model_account,
        license_type,
        issued_at: ctx.now,
        expires_at,
        is_active: model_is_active,
    };
    let ghost s0 = mkt@;
    match mkt.store.create(Address::License(laddr.clone()), Record::License(lic)) {
        Ok(()) => {
            proof {
                assert forall|a: AddressV| #[trigger]
                    mkt@.records.contains_key(a) implies record_kind_ok(
                    a,
                    mkt@.records[a],
                ) by {
                    if a != AddressV::License(laddr@) {
                        assert(s0.records.contains_key(a));
                    }
                }
            }
            Ok(laddr)
        },
        Err(e) => Err(e),
    }
}

/// Registers a derivative model for `ctx.creator` under `model_name`, with
/// the model at `ctx.parent_model_account` as its permanent parent, and
/// returns the new model's address.
pub fn register_derivative_model(
    mkt: &mut Marketplace,
    ctx: RegisterDerivativeModel,
    model_name: String,
    new_url: String,
    royalty_bps: u16,
    is_active: bool,
    is_allowed: bool,
) -> (r: Result<ModelAddress, CustomError>)
    requires
        old(mkt).wf(),
        royalty_bps <= 10000,
    ensures
        final(mkt).wf(),
        ({
            let (s2, r2) = spec_register_derivative_model(
                old(mkt)@,
                ctx@,
                model_name@,
                new_url@,
                royalty_bps,
                is_active,
                is_allowed,
            );
            final(mkt)@ == s2 && model_result_view(r) == r2
        }),
{
    let derived = ModelAddress { creator: ctx.creator, name: model_name.clone() };
    if !(ctx.new_model_account == derived) {
        return Err(CustomError::AddressMismatch);
    }
    let paddr = Address::Model(ctx.parent_model_account.clone());
    let parent_flags: (bool, bool) = match mkt.store.get(&paddr) {
        Err(e) => {
            return Err(e);
        },
        Ok(rec) => match rec {
            Record::Model(p) => (p.is_active, p.is_allowed),
            Record::License(_) => {
                proof {
                    assert(record_kind_ok(paddr@, mkt@.records[paddr@]));
                }
                return Err(CustomError::NotFound);
            },
        },
    };
    if !parent_flags.0 {
        return Err(CustomError::ModelInactive);
    }
    if !parent_flags.1 {
        return Err(CustomError::IsNotAllowed);
    }
    let record = Record::Model(
        ModelAccount {
            model_name,
            creator: ctx.creator,
            url: new_url,
            royalty_bps,
            created_at: ctx.now,
            is_active,
            parent: Some(ctx.parent_model_account),
            is_allowed,
        },
    );
    let addr = Address::Model(derived.clone());
    let ghost s0 = mkt@;
    match mkt.store.create(addr, record) {
        Ok(()) => {
            proof {
                assert forall|a: AddressV| #[trigger]
                    mkt@.records.contains_key(a) implies record_kind_ok(
                    a,
                    mkt@.records[a],
                ) by {
                    if a != AddressV::Model(derived@) {
                        assert(s0.records.contains_key(a));
                    }
                }
            }
            Ok(derived)
        },
        Err(e) => Err(e),
    }
}

/// Deactivates the model at `ctx.model_account`; only its creator may do so,
/// and a model is never reactivated afterwards.
pub fn deactivate_model(mkt: &mut Marketplace, ctx: DeactivateModel) -> (r: Result<
    ModelAddress,
    CustomError,
>)
    requires
        old(mkt).wf(),
    ensures
        final(mkt).wf(),
        ({
            let (s2, r2) = spec_deactivate_model(old(mkt)@, ctx@);
            final(mkt)@ == s2 && model_result_view(r) == r2
        }),
{
    let addr = Address::Model(ctx.model_account.clone());
    let model: ModelAccount = match mkt.store.get(&addr) {
        Err(e) => {
            return Err(e);
        },
        Ok(rec) => match rec {
            Record::Model(m) => m.clone(),
            Record::License(_) => {
                proof {
                    assert(record_kind_ok(addr@, mkt@.records[addr@]));
                }
                return Err(CustomError::NotFound);
            },
        },
    };
    if !(ctx.creator == model.creator) {
        return Err(CustomError::Unauthorized);
    }
    let mut updated = model;
    updated.is_active = false;
    let ghost s0 = mkt@;
    mkt.store.put(&addr, Record::Model(updated));
    proof {
        assert forall|a: AddressV| #[trigger]
            mkt@.records.contains_key(a) implies record_kind_ok(a, mkt@.records[a]) by {
            if a != addr@ {
                assert(s0.records.contains_key(a));
            }
        }
    }
    Ok(ctx.model_account)
}

/// Revokes the license at `ctx.license_account`; only the licensee or the
/// configured administrator may do so, and a license is never reactivated
/// afterwards.
pub fn revoke_license(mkt: &mut Marketplace, ctx: RevokeLicense) -> (r: Result<
    LicenseAddress,
    CustomError,
>)
    requires
        old(mkt).wf(),
    ensures
        final(mkt).wf(),
        ({
            let (s2, r2) = spec_revoke_license(old(mkt)@, ctx@);
            final(mkt)@ == s2 && license_result_view(r) == r2
        }),
{
    let addr = Address::License(ctx.license_account.clone());
    let lic: LicenseAccount = match mkt.store.get(&addr) {
        Err(e) => {
            return Err(e);
        },
        Ok(rec) => match rec {
            Record::License(l) => l.clone(),
            Record::Model(_) => {
                proof {
                    assert(record_kind_ok(addr@, mkt@.records[addr@]));
                }
                return Err(CustomError::NotFound);
            },
        },
    };
    if !(ctx.caller == lic.user) && !(ctx.caller == mkt.admin) {
        return Err(CustomError::Unauthorized);
    }
    let mut updated = lic;
    updated.is_active = false;
    let ghost s0 = mkt@;
    mkt.store.put(&addr, Record::License(updated));
    proof {
        assert forall|a: AddressV| #[trigger]
            mkt@.records.contains_key(a) implies record_kind_ok(a, mkt@.records[a]) by {
            if a != addr@ {
                assert(s0.records.contains_key(a));
            }
        }
    }
    Ok(ctx.license_account)
}

/// Overwrites the model-reference field of the license at
/// `ctx.license_account` with `new_value`.  Note that the new value itself
/// is deliberately not validated against the store: the reference may be
/// left dangling, and only the model the license pointed at beforehand is
/// required to be active.
pub fn update_license_target(
    mkt: &mut Marketplace,
    ctx: UpdateLicenseTarget,
    new_value: ModelAddress,
) -> (r: Result<LicenseAddress, CustomError>)
    requires
        old(mkt).wf(),
    ensures
        final(mkt).wf(),
        ({
            let (s2, r2) = spec_update_license_target(old(mkt)@, ctx@, new_value@);
            final(mkt)@ == s2 && license_result_view(r) == r2
        }),
{
    let laddr = Address::License(ctx.license_account.clone());
    let lic: LicenseAccount = match mkt.store.get(&laddr) {
        Err(e) => {
            return Err(e);
        },
        Ok(rec) => match rec {
            Record::License(l) => l.clone(),
            Record::Model(_) => {
                proof {
                    assert(record_kind_ok(laddr@, mkt@.records[laddr@]));
                }
                return Err(CustomError::NotFound);
            },
        },
    };
    if !(ctx.caller == lic.user) {
        return Err(CustomError::Unauthorized);
    }
    if !lic.is_active {
        return Err(CustomError::LicenseNotActive);
    }
    let maddr = Address::Model(lic.model.clone());
    let model_active: bool = match mkt.store.get(&maddr) {
        Err(e) => {
            return Err(e);
        },
        Ok(rec) => match rec {
            Record::Model(m) => m.is_active,
            Record::License(_) => {
                proof {
                    assert(record_kind_ok(maddr@, mkt@.records[maddr@]));
                }
                return Err(CustomError::NotFound);
            },
        },
    };
    if !model_active {
        return Err(CustomError::ModelInactive);
    }
    let mut updated = lic;
    updated.model = new_value;
    let ghost s0 = mkt@;
    mkt.store.put(&laddr, Record::License(updated));
    proof {
        assert forall|a: AddressV| #[trigger]
            mkt@.records.contains_key(a) implies record_kind_ok(a, mkt@.records[a]) by {
            if a != laddr@ {
                assert(s0.records.contains_key(a));
            }
        }
    }
    Ok(ctx.license_account)
}

} // verus!
