//! The mathematical model of the marketplace: its abstract state, the
//! transition of each operation, and a single `step` function that the
//! lifecycle laws quantify over.
//!
//! Each `spec_*` function returns the successor state together with the
//! operation's result; on a failing result the state is returned unchanged,
//! so no partial mutation is ever committed.

use vstd::prelude::*;

use crate::records::{
    AddressV, CustomError, Identity, LicenseAccountV, LicenseAddressV, ModelAccountV,
    ModelAddressV, RecordV,
};

verus! {

/// The abstract state of the whole marketplace: the record store's contents
/// and the administrator identity configured at startup.
pub struct StateV {
    pub records: Map<AddressV, RecordV>,
    pub admin: Identity,
}

/// The record kind stored at an address agrees with the kind the address was
/// derived for, and every stored royalty rate is a valid basis-point value.
pub open spec fn record_kind_ok(a: AddressV, r: RecordV) -> bool {
    match r {
        RecordV::Model(m) => a is Model && m.royalty_bps <= 10000,
        RecordV::License(_) => a is License,
    }
}

/// Well-formedness of a marketplace state.
pub open spec fn state_wf(s: StateV) -> bool {
    forall|a: AddressV| #[trigger]
        s.records.contains_key(a) ==> record_kind_ok(a, s.records[a])
}

/// The deterministic address derived for a model: the logical key itself.
pub open spec fn derived_model_address(creator: Identity, name: Seq<char>) -> ModelAddressV {
    ModelAddressV { creator, name }
}

/// The deterministic address derived for a license: the licensed model's
/// address together with the licensee.
pub open spec fn derived_license_address(model: ModelAddressV, user: Identity) -> LicenseAddressV {
    LicenseAddressV { model, user }
}

/// The caller-facing arguments of `create_model`.
pub struct CreateModelV {
    pub creator: Identity,
    pub model_account: ModelAddressV,
    pub now: i64,
}

/// The caller-facing arguments of `buy_license`.
pub struct BuyLicenseV {
    pub user: Identity,
    pub model_account: ModelAddressV,
    pub now: i64,
}

/// The caller-facing arguments of `register_derivative_model`.
pub struct RegisterDerivativeModelV {
    pub creator: Identity,
    pub new_model_account: ModelAddressV,
    pub parent_model_account: ModelAddressV,
    pub now: i64,
}

/// The caller-facing arguments of `deactivate_model`.
pub struct DeactivateModelV {
    pub creator: Identity,
    pub model_account: ModelAddressV,
}

/// The caller-facing arguments of `revoke_license`.
pub struct RevokeLicenseV {
    pub caller: Identity,
    pub license_account: LicenseAddressV,
}

/// The caller-facing arguments of `update_license_target`.
pub struct UpdateLicenseTargetV {
    pub caller: Identity,
    pub license_account: LicenseAddressV,
}

/// Registers a model at the address derived from `(creator, model_name)`.
/// Fails `AddressMismatch` if the caller-declared target disagrees with the
/// derived address, and `AlreadyExists` if that address is occupied.  On
/// success the model starts active, with no parent.
pub open spec fn spec_create_model(
    s: StateV,
    ctx: CreateModelV,
    model_name: Seq<char>,
    url: Seq<char>,
    royalty_bps: u16,
    is_allowed: bool,
) -> (StateV, Result<ModelAddressV, CustomError>) {
    let derived = derived_model_address(ctx.creator, model_name);
    let addr = AddressV::Model(derived);
    if ctx.model_account != derived {
        (s, Err(CustomError::AddressMismatch))
    } else if s.records.contains_key(addr) {
        (s, Err(CustomError::AlreadyExists))
    } else {
        let m = ModelAccountV {
            model_name,
            creator: ctx.creator,
            url,
            royalty_bps,
            created_at: ctx.now,
            is_active: true,
            parent: None,
            is_allowed,
        };
        (
            StateV { records: s.records.insert(addr, RecordV::Model(m)), admin: s.admin },
            Ok(derived),
        )
    }
}

/// Grants `ctx.user` a license over the model at `ctx.model_account`.
/// Fails `NotFound` if that model does not exist, `ModelInactive` if it is
/// inactive, and `AlreadyExists` if the user already holds a license record
/// at the derived address.  The license copies the model's activity state at
/// issuance time (always true, given the precondition).  An absent
/// `expires_at` means the license is perpetual; this core stores the field
/// without acting on it.
pub open spec fn spec_buy_license(
    s: StateV,
    ctx: BuyLicenseV,
    license_type: u8,
    expires_at: Option<i64>,
) -> (StateV, Result<LicenseAddressV, CustomError>) {
    let maddr = AddressV::Model(ctx.model_account);
    if !s.records.contains_key(maddr) {
        (s, Err(CustomError::NotFound))
    } else {
        match s.records[maddr] {
            RecordV::Model(m) => {
                if !m.is_active {
                    (s, Err(CustomError::ModelInactive))
                } else {
                    let derived = derived_license_address(ctx.model_account, ctx.user);
                    let laddr = AddressV::License(derived);
                    if s.records.contains_key(laddr) {
                        (s, Err(CustomError::AlreadyExists))
                    } else {
                        let l = LicenseAccountV {
                            user: ctx.user,
                            model: ctx.model_account,
                            license_type,
                            issued_at: ctx.now,
                            expires_at,
                            is_active: m.is_active,
                        };
                        (
                            StateV {
                                records: s.records.insert(laddr, RecordV::License(l)),
                                admin: s.admin,
                            },
                            Ok(derived),
                        )
                    }
                }
            },
            RecordV::License(_) => (s, Err(CustomError::NotFound)),
        }
    }
}

/// Registers a derivative model under `(creator, model_name)` with the model
/// at `ctx.parent_model_account` as its permanent parent.  Fails
/// `AddressMismatch` if the declared target disagrees with the derived
/// address, `NotFound` if the parent does not exist, `ModelInactive` if the
/// parent is inactive, `IsNotAllowed` if the parent forbids derivatives, and
/// `AlreadyExists` if the derived address is occupied.  Unlike a fresh model,
/// a derivative starts with the caller-chosen activity state.
pub open spec fn spec_register_derivative_model(
    s: StateV,
    ctx: RegisterDerivativeModelV,
    model_name: Seq<char>,
    new_url: Seq<char>,
    royalty_bps: u16,
    is_active: bool,
    is_allowed: bool,
) -> (StateV, Result<ModelAddressV, CustomError>) {
    let derived = derived_model_address(ctx.creator, model_name);
    let addr = AddressV::Model(derived);
    let paddr = AddressV::Model(ctx.parent_model_account);
    if ctx.new_model_account != derived {
        (s, Err(CustomError::AddressMismatch))
    } else if !s.records.contains_key(paddr) {
        (s, Err(CustomError::NotFound))
    } else {
        match s.records[paddr] {
            RecordV::Model(p) => {
                if !p.is_active {
                    (s, Err(CustomError::ModelInactive))
                } else if !p.is_allowed {
                    (s, Err(CustomError::IsNotAllowed))
                } else if s.records.contains_key(addr) {
                    (s, Err(CustomError::AlreadyExists))
                } else {
                    let m = ModelAccountV {
                        model_name,
                        creator: ctx.creator,
                        url: new_url,
                        royalty_bps,
                        created_at: ctx.now,
                        is_active,
                        parent: Some(ctx.parent_model_account),
                        is_allowed,
                    };
                    (
                        StateV {
                            records: s.records.insert(addr, RecordV::Model(m)),
                            admin: s.admin,
                        },
                        Ok(derived),
                    )
                }
            },
            RecordV::License(_) => (s, Err(CustomError::NotFound)),
        }
    }
}

/// Deactivates the model at `ctx.model_account`.  Fails `NotFound` if it
/// does not exist and `Unauthorized` unless the caller is its creator.
/// Repeated deactivation succeeds and leaves the state unchanged; a model is
/// never reactivated.
pub open spec fn spec_deactivate_model(s: StateV, ctx: DeactivateModelV) -> (
    StateV,
    Result<ModelAddressV, CustomError>,
) {
    let addr = AddressV::Model(ctx.model_account);
    if !s.records.contains_key(addr) {
        (s, Err(CustomError::NotFound))
    } else {
        match s.records[addr] {
            RecordV::Model(m) => {
                if ctx.creator != m.creator {
                    (s, Err(CustomError::Unauthorized))
                } else {
                    let m2 = ModelAccountV { is_active: false, ..m };
                    (
                        StateV {
                            records: s.records.insert(addr, RecordV::Model(m2)),
                            admin: s.admin,
                        },
                        Ok(ctx.model_account),
                    )
                }
            },
            RecordV::License(_) => (s, Err(CustomError::NotFound)),
        }
    }
}

/// Revokes the license at `ctx.license_account`.  Fails `NotFound` if it
/// does not exist and `Unauthorized` unless the caller is the licensee or
/// the configured administrator.  A license is never reactivated.
pub open spec fn spec_revoke_license(s: StateV, ctx: RevokeLicenseV) -> (
    StateV,
    Result<LicenseAddressV, CustomError>,
) {
    let addr = AddressV::License(ctx.license_account);
    if !s.records.contains_key(addr) {
        (s, Err(CustomError::NotFound))
    } else {
        match s.records[addr] {
            RecordV::License(l) => {
                if ctx.caller != l.user && ctx.caller != s.admin {
                    (s, Err(CustomError::Unauthorized))
                } else {
                    let l2 = LicenseAccountV { is_active: false, ..l };
                    (
                        StateV {
                            records: s.records.insert(addr, RecordV::License(l2)),
                            admin: s.admin,
                        },
                        Ok(ctx.license_account),
                    )
                }
            },
            RecordV::Model(_) => (s, Err(CustomError::NotFound)),
        }
    }
}

/// Overwrites the model-reference field of the license at
/// `ctx.license_account` with `new_value`.  Fails `NotFound` if the license
/// (or the model it currently references) does not exist, `Unauthorized`
/// unless the caller is the licensee, `LicenseNotActive` if the license is
/// inactive, and `ModelInactive` if the currently referenced model is
/// inactive.  The new value itself is not validated against the store.
pub open spec fn spec_update_license_target(
    s: StateV,
    ctx: UpdateLicenseTargetV,
    new_value: ModelAddressV,
) -> (StateV, Result<LicenseAddressV, CustomError>) {
    let laddr = AddressV::License(ctx.license_account);
    if !s.records.contains_key(laddr) {
        (s, Err(CustomError::NotFound))
    } else {
        match s.records[laddr] {
            RecordV::License(l) => {
                if ctx.caller != l.user {
                    (s, Err(CustomError::Unauthorized))
                } else if !l.is_active {
                    (s, Err(CustomError::LicenseNotActive))
                } else {
                    let maddr = AddressV::Model(l.model);
                    if !s.records.contains_key(maddr) {
                        (s, Err(CustomError::NotFound))
                    } else {
                        match s.records[maddr] {
                            RecordV::Model(m) => {
                                if !m.is_active {
                                    (s, Err(CustomError::ModelInactive))
                                } else {
                                    let l2 = LicenseAccountV { model: new_value, ..l };
                                    (
                                        StateV {
                                            records: s.records.insert(
                                                laddr,
                                                RecordV::License(l2),
                                            ),
                                            admin: s.admin,
                                        },
                                        Ok(ctx.license_account),
                                    )
                                }
                            },
                            RecordV::License(_) => (s, Err(CustomError::NotFound)),
                        }
                    }
                }
            },
            RecordV::Model(_) => (s, Err(CustomError::NotFound)),
        }
    }
}

/// Any one marketplace operation, with its arguments.
pub enum Op {
    CreateModel {
        ctx: CreateModelV,
        model_name: Seq<char>,
        url: Seq<char>,
        royalty_bps: u16,
        is_allowed: bool,
    },
    BuyLicense { ctx: BuyLicenseV, license_type: u8, expires_at: Option<i64> },
    RegisterDerivativeModel {
        ctx: RegisterDerivativeModelV,
        model_name: Seq<char>,
        new_url: Seq<char>,
        royalty_bps: u16,
        is_active: bool,
        is_allowed: bool,
    },
    DeactivateModel { ctx: DeactivateModelV },
    RevokeLicense { ctx: RevokeLicenseV },
    UpdateLicenseTarget { ctx: UpdateLicenseTargetV, new_value: ModelAddressV },
}

/// The result of any one operation, with per-operation addresses erased to
/// the common address type.
pub open spec fn step(s: StateV, op: Op) -> (StateV, Result<AddressV, CustomError>) {
    match op {
        Op::CreateModel { ctx, model_name, url, royalty_bps, is_allowed } => {
            let (s2, r) = spec_create_model(s, ctx, model_name, url, royalty_bps, is_allowed);
            (
                s2,
                match r {
                    Ok(a) => Ok(AddressV::Model(a)),
                    Err(e) => Err(e),
                },
            )
        },
        Op::BuyLicense { ctx, license_type, expires_at } => {
            let (s2, r) = spec_buy_license(s, ctx, license_type, expires_at);
            (
                s2,
                match r {
                    Ok(a) => Ok(AddressV::License(a)),
                    Err(e) => Err(e),
                },
            )
        },
        Op::RegisterDerivativeModel {
            ctx,
            model_name,
            new_url,
            royalty_bps,
            is_active,
            is_allowed,
        } => {
            let (s2, r) = spec_register_derivative_model(
                s,
                ctx,
                model_name,
                new_url,
                royalty_bps,
                is_active,
                is_allowed,
            );
            (
                s2,
                match r {
                    Ok(a) => Ok(AddressV::Model(a)),
                    Err(e) => Err(e),
                },
            )
        },
        Op::DeactivateModel { ctx } => {
            let (s2, r) = spec_deactivate_model(s, ctx);
            (
                s2,
                match r {
                    Ok(a) => Ok(AddressV::Model(a)),
                    Err(e) => Err(e),
                },
            )
        },
        Op::RevokeLicense { ctx } => {
            let (s2, r) = spec_revoke_license(s, ctx);
            (
                s2,
                match r {
                    Ok(a) => Ok(AddressV::License(a)),
                    Err(e) => Err(e),
                },
            )
        },
        Op::UpdateLicenseTarget { ctx, new_value } => {
            let (s2, r) = spec_update_license_target(s, ctx, new_value);
            (
                s2,
                match r {
                    Ok(a) => Ok(AddressV::License(a)),
                    Err(e) => Err(e),
                },
            )
        },
    }
}

/// The state reached by running a whole sequence of operations in order.
pub open spec fn run(s: StateV, ops: Seq<Op>) -> StateV
    decreases ops.len(),
{
    if ops.len() == 0 {
        s
    } else {
        run(step(s, ops[0]).0, ops.skip(1))
    }
}

} // verus!
