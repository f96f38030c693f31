//! The registry's lifecycle laws, proved over the mathematical model: a
//! derived address is stable so re-creation is refused, deactivation and
//! revocation are permanent under every later operation, derivative
//! registration is gated exactly by the parent's state, and deactivation is
//! gated exactly by the creator's identity.

use vstd::prelude::*;

use crate::records::{
    AddressV, CustomError, LicenseAccountV, LicenseAddressV, ModelAccountV, ModelAddressV, RecordV,
};
use crate::state::{
    derived_model_address, run, spec_buy_license, spec_create_model, spec_deactivate_model,
    spec_register_derivative_model, spec_revoke_license, step, BuyLicenseV, CreateModelV,
    DeactivateModelV, Op, RegisterDerivativeModelV, RevokeLicenseV, StateV,
};

verus! {

/// The record at the address derived for `a` is a model that has been
/// deactivated.
pub open spec fn model_inactive_at(s: StateV, a: ModelAddressV) -> bool {
    &&& s.records.contains_key(AddressV::Model(a))
    &&& s.records[AddressV::Model(a)] matches RecordV::Model(m)
    &&& !m.is_active
}

/// The record at the address derived for `a` is a license that has been
/// revoked.
pub open spec fn license_inactive_at(s: StateV, a: LicenseAddressV) -> bool {
    &&& s.records.contains_key(AddressV::License(a))
    &&& s.records[AddressV::License(a)] matches RecordV::License(l)
    &&& !l.is_active
}

/// No single operation reactivates a deactivated model: a model's activity
/// flag only ever moves from true to false.
pub proof fn lemma_step_preserves_model_inactive(s: StateV, op: Op, a: ModelAddressV)
    requires
        model_inactive_at(s, a),
    ensures
        model_inactive_at(step(s, op).0, a),
{
    match op {
        Op::CreateModel { .. } => {},
        Op::BuyLicense { .. } => {},
        Op::RegisterDerivativeModel { .. } => {},
        Op::DeactivateModel { .. } => {},
        Op::RevokeLicense { .. } => {},
        Op::UpdateLicenseTarget { .. } => {},
    }
}

/// No sequence of operations reactivates a deactivated model.
pub proof fn lemma_run_preserves_model_inactive(s: StateV, ops: Seq<Op>, a: ModelAddressV)
    requires
        model_inactive_at(s, a),
    ensures
        model_inactive_at(run(s, ops), a),
    decreases ops.len(),
{
    if ops.len() > 0 {
        lemma_step_preserves_model_inactive(s, ops[0], a);
        lemma_run_preserves_model_inactive(step(s, ops[0]).0, ops.skip(1), a);
    }
}

/// No single operation reactivates a revoked license: a license's activity
/// flag only ever moves from true to false.
pub proof fn lemma_step_preserves_license_inactive(s: StateV, op: Op, a: LicenseAddressV)
    requires
        license_inactive_at(s, a),
    ensures
        license_inactive_at(step(s, op).0, a),
{
    match op {
        Op::CreateModel { .. } => {},
        Op::BuyLicense { .. } => {},
        Op::RegisterDerivativeModel { .. } => {},
        Op::DeactivateModel { .. } => {},
        Op::RevokeLicense { .. } => {},
        Op::UpdateLicenseTarget { .. } => {},
    }
}

/// No sequence of operations reactivates a revoked license.
pub proof fn lemma_run_preserves_license_inactive(s: StateV, ops: Seq<Op>, a: LicenseAddressV)
    requires
        license_inactive_at(s, a),
    ensures
        license_inactive_at(run(s, ops), a),
    decreases ops.len(),
{
    if ops.len() > 0 {
        lemma_step_preserves_license_inactive(s, ops[0], a);
        lemma_run_preserves_license_inactive(step(s, ops[0]).0, ops.skip(1), a);
    }
}

/// A model record is never deleted, and no operation changes its creator,
/// name, reference, royalty rate, creation time, consent flag, or parent
/// link; its activity flag only ever falls.
pub proof fn lemma_step_preserves_model_identity(
    s: StateV,
    op: Op,
    a: ModelAddressV,
    m: ModelAccountV,
)
    requires
        s.records.contains_key(AddressV::Model(a)),
        s.records[AddressV::Model(a)] == RecordV::Model(m),
    ensures
        step(s, op).0.records.contains_key(AddressV::Model(a)),
        (step(s, op).0.records[AddressV::Model(a)] matches RecordV::Model(m2)
            && m2 == (ModelAccountV { is_active: m2.is_active, ..m }) && (m2.is_active
            ==> m.is_active)),
{
    match op {
        Op::CreateModel { .. } => {},
        Op::BuyLicense { .. } => {},
        Op::RegisterDerivativeModel { .. } => {},
        Op::DeactivateModel { .. } => {},
        Op::RevokeLicense { .. } => {},
        Op::UpdateLicenseTarget { .. } => {},
    }
}

/// A model record keeps its identity under any whole sequence of operations:
/// only its activity flag can change, and only from true to false.
pub proof fn lemma_run_preserves_model_identity(
    s: StateV,
    ops: Seq<Op>,
    a: ModelAddressV,
    m: ModelAccountV,
)
    requires
        s.records.contains_key(AddressV::Model(a)),
        s.records[AddressV::Model(a)] == RecordV::Model(m),
    ensures
        run(s, ops).records.contains_key(AddressV::Model(a)),
        (run(s, ops).records[AddressV::Model(a)] matches RecordV::Model(m2)
            && m2 == (ModelAccountV { is_active: m2.is_active, ..m }) && (m2.is_active
            ==> m.is_active)),
    decreases ops.len(),
{
    if ops.len() > 0 {
        lemma_step_preserves_model_identity(s, ops[0], a, m);
        let s1 = step(s, ops[0]).0;
        match s1.records[AddressV::Model(a)] {
            RecordV::Model(m1) => {
                lemma_run_preserves_model_identity(s1, ops.skip(1), a, m1);
            },
            RecordV::License(_) => {
                assert(false);
            },
        }
    }
}

/// A license record is never deleted, and no operation changes its user,
/// type, issuance time, or expiry; its activity flag only ever falls.  (Its
/// model reference is the one mutable field, by `update_license_target`.)
pub proof fn lemma_step_preserves_license_identity(
    s: StateV,
    op: Op,
    a: LicenseAddressV,
    l: LicenseAccountV,
)
    requires
        s.records.contains_key(AddressV::License(a)),
        s.records[AddressV::License(a)] == RecordV::License(l),
    ensures
        step(s, op).0.records.contains_key(AddressV::License(a)),
        (step(s, op).0.records[AddressV::License(a)] matches RecordV::License(l2)
            && l2 == (LicenseAccountV { model: l2.model, is_active: l2.is_active, ..l })
            && (l2.is_active ==> l.is_active)),
{
    match op {
        Op::CreateModel { .. } => {},
        Op::BuyLicense { .. } => {},
        Op::RegisterDerivativeModel { .. } => {},
        Op::DeactivateModel { .. } => {},
        Op::RevokeLicense { .. } => {},
        Op::UpdateLicenseTarget { .. } => {},
    }
}

/// A license record keeps its identity under any whole sequence of
/// operations: only its model reference and its activity flag can change,
/// and the flag only from true to false.
pub proof fn lemma_run_preserves_license_identity(
    s: StateV,
    ops: Seq<Op>,
    a: LicenseAddressV,
    l: LicenseAccountV,
)
    requires
        s.records.contains_key(AddressV::License(a)),
        s.records[AddressV::License(a)] == RecordV::License(l),
    ensures
        run(s, ops).records.contains_key(AddressV::License(a)),
        (run(s, ops).records[AddressV::License(a)] matches RecordV::License(l2)
            && l2 == (LicenseAccountV { model: l2.model, is_active: l2.is_active, ..l })
            && (l2.is_active ==> l.is_active)),
    decreases ops.len(),
{
    if ops.len() > 0 {
        lemma_step_preserves_license_identity(s, ops[0], a, l);
        let s1 = step(s, ops[0]).0;
        match s1.records[AddressV::License(a)] {
            RecordV::License(l1) => {
                lemma_run_preserves_license_identity(s1, ops.skip(1), a, l1);
            },
            RecordV::Model(_) => {
                assert(false);
            },
        }
    }
}

/// Creating a model twice under the same `(creator, name)` key succeeds the
/// first time and fails `AlreadyExists` the second time, and the derived
/// address is identical both times.
pub proof fn lemma_create_model_twice(
    s: StateV,
    ctx1: CreateModelV,
    ctx2: CreateModelV,
    model_name: Seq<char>,
    url1: Seq<char>,
    royalty_bps1: u16,
    is_allowed1: bool,
    url2: Seq<char>,
    royalty_bps2: u16,
    is_allowed2: bool,
)
    requires
        ctx2.creator == ctx1.creator,
        ctx1.model_account == derived_model_address(ctx1.creator, model_name),
        ctx2.model_account == derived_model_address(ctx2.creator, model_name),
        !s.records.contains_key(AddressV::Model(derived_model_address(ctx1.creator, model_name))),
    ensures
        derived_model_address(ctx2.creator, model_name) == derived_model_address(
            ctx1.creator,
            model_name,
        ),
        spec_create_model(s, ctx1, model_name, url1, royalty_bps1, is_allowed1).1
            == Ok::<ModelAddressV, CustomError>(derived_model_address(ctx1.creator, model_name)),
        spec_create_model(
            spec_create_model(s, ctx1, model_name, url1, royalty_bps1, is_allowed1).0,
            ctx2,
            model_name,
            url2,
            royalty_bps2,
            is_allowed2,
        ).1 == Err::<ModelAddressV, CustomError>(CustomError::AlreadyExists),
{
}

/// Once a model has been deactivated, every later attempt to buy a license
/// on it fails `ModelInactive`, whatever other operations ran in between.
pub proof fn lemma_no_license_after_deactivate(
    s: StateV,
    dctx: DeactivateModelV,
    ops: Seq<Op>,
    bctx: BuyLicenseV,
    license_type: u8,
    expires_at: Option<i64>,
)
    requires
        spec_deactivate_model(s, dctx).1 is Ok,
        bctx.model_account == dctx.model_account,
    ensures
        spec_buy_license(run(spec_deactivate_model(s, dctx).0, ops), bctx, license_type, expires_at).1
            == Err::<LicenseAddressV, CustomError>(CustomError::ModelInactive),
        spec_buy_license(run(spec_deactivate_model(s, dctx).0, ops), bctx, license_type, expires_at).0
            == run(spec_deactivate_model(s, dctx).0, ops),
{
    let s1 = spec_deactivate_model(s, dctx).0;
    assert(model_inactive_at(s1, dctx.model_account));
    lemma_run_preserves_model_inactive(s1, ops, dctx.model_account);
}

/// Once a license has been revoked, its activity flag stays false whatever
/// operations run afterwards: nothing reactivates a license.
pub proof fn lemma_revoked_license_stays_revoked(s: StateV, rctx: RevokeLicenseV, ops: Seq<Op>)
    requires
        spec_revoke_license(s, rctx).1 is Ok,
    ensures
        license_inactive_at(run(spec_revoke_license(s, rctx).0, ops), rctx.license_account),
{
    let s1 = spec_revoke_license(s, rctx).0;
    assert(license_inactive_at(s1, rctx.license_account));
    lemma_run_preserves_license_inactive(s1, ops, rctx.license_account);
}

/// With a well-declared target, an existing parent, and a free derived
/// address, registering a derivative succeeds exactly when the parent is
/// both active and allows derivatives; it fails `ModelInactive` whenever the
/// parent is inactive, regardless of the consent flag, and `IsNotAllowed`
/// when the parent is active but withholds consent.
pub proof fn lemma_register_derivative_conditions(
    s: StateV,
    ctx: RegisterDerivativeModelV,
    model_name: Seq<char>,
    new_url: Seq<char>,
    royalty_bps: u16,
    is_active: bool,
    is_allowed: bool,
    p: ModelAccountV,
)
    requires
        ctx.new_model_account == derived_model_address(ctx.creator, model_name),
        s.records.contains_key(AddressV::Model(ctx.parent_model_account)),
        s.records[AddressV::Model(ctx.parent_model_account)] == RecordV::Model(p),
        !s.records.contains_key(AddressV::Model(derived_model_address(ctx.creator, model_name))),
    ensures
        ({
            let r = spec_register_derivative_model(
                s,
                ctx,
                model_name,
                new_url,
                royalty_bps,
                is_active,
                is_allowed,
            ).1;
            &&& r is Ok <==> p.is_active && p.is_allowed
            &&& r == Err::<ModelAddressV, CustomError>(CustomError::ModelInactive) <==> !p.is_active
            &&& r == Err::<ModelAddressV, CustomError>(CustomError::IsNotAllowed) <==> p.is_active
                && !p.is_allowed
        }),
{
}

/// Deactivation is refused with `Unauthorized`, and changes nothing, for
/// every caller other than the model's creator — a licensee of the model
/// included.
pub proof fn lemma_deactivate_model_unauthorized(s: StateV, ctx: DeactivateModelV, m: ModelAccountV)
    requires
        s.records.contains_key(AddressV::Model(ctx.model_account)),
        s.records[AddressV::Model(ctx.model_account)] == RecordV::Model(m),
        ctx.creator != m.creator,
    ensures
        spec_deactivate_model(s, ctx) == (
            s,
            Err::<ModelAddressV, CustomError>(CustomError::Unauthorized),
        ),
{
}

} // verus!
