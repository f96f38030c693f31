//! End-to-end scenarios across several operations and identities.

use model_marketplace::ops::{
    buy_license, create_model, deactivate_model, register_derivative_model, revoke_license,
    update_license_target, BuyLicense, CreateModel, DeactivateModel, Marketplace,
    RegisterDerivativeModel, RevokeLicense, UpdateLicenseTarget,
};
use model_marketplace::records::{CustomError, Identity, LicenseAddress, ModelAddress};

fn ident(key: u64) -> Identity {
    Identity { key }
}

fn addr_of(creator: Identity, name: &str) -> ModelAddress {
    ModelAddress {
        creator,
        name: name.to_string(),
    }
}

fn register(
    mkt: &mut Marketplace,
    creator: Identity,
    name: &str,
    royalty_bps: u16,
    is_allowed: bool,
    now: i64,
) -> Result<ModelAddress, CustomError> {
    let ctx = CreateModel {
        creator,
        model_account: addr_of(creator, name),
        now,
    };
    create_model(mkt, ctx, name.to_string(), String::new(), royalty_bps, is_allowed)
}

#[test]
fn model_lifecycle_closes_to_new_licenses_and_derivatives() {
    let mut mkt = Marketplace::new(ident(0));
    let creator_a = ident(1);
    let user_b = ident(2);
    let user_c = ident(3);

    // creator A registers "alpha" with a 500 bps royalty, derivatives allowed
    let alpha = register(&mut mkt, creator_a, "alpha", 500, true, 100).unwrap();
    assert!(mkt.get_model(&alpha).unwrap().is_active);

    // user B buys a type-1 license and receives it active
    let ctx = BuyLicense {
        user: user_b,
        model_account: alpha.clone(),
        now: 200,
    };
    let license_b = buy_license(&mut mkt, ctx, 1, None).unwrap();
    assert!(mkt.get_license(&license_b).unwrap().is_active);

    // creator A deactivates "alpha"
    let ctx = DeactivateModel {
        creator: creator_a,
        model_account: alpha.clone(),
    };
    assert!(deactivate_model(&mut mkt, ctx).is_ok());

    // user C can no longer buy a license on it
    let ctx = BuyLicense {
        user: user_c,
        model_account: alpha.clone(),
        now: 300,
    };
    let r = buy_license(&mut mkt, ctx, 1, None);
    assert!(matches!(r, Err(CustomError::ModelInactive)));

    // even creator A can no longer derive from it, consent notwithstanding
    let ctx = RegisterDerivativeModel {
        creator: creator_a,
        new_model_account: addr_of(creator_a, "alpha-v2"),
        parent_model_account: alpha.clone(),
        now: 400,
    };
    let r = register_derivative_model(
        &mut mkt,
        ctx,
        "alpha-v2".to_string(),
        String::new(),
        500,
        true,
        true,
    );
    assert!(matches!(r, Err(CustomError::ModelInactive)));

    // the license B already holds was not touched by any of this
    assert!(mkt.get_license(&license_b).unwrap().is_active);
}

#[test]
fn consent_flag_blocks_derivatives_even_for_the_creator() {
    let mut mkt = Marketplace::new(ident(0));
    let creator_a = ident(1);
    let alpha = register(&mut mkt, creator_a, "alpha", 0, false, 100).unwrap();
    let ctx = RegisterDerivativeModel {
        creator: creator_a,
        new_model_account: addr_of(creator_a, "alpha-ft"),
        parent_model_account: alpha,
        now: 200,
    };
    let r = register_derivative_model(
        &mut mkt,
        ctx,
        "alpha-ft".to_string(),
        String::new(),
        0,
        true,
        true,
    );
    assert!(matches!(r, Err(CustomError::IsNotAllowed)));
}

#[test]
fn administrator_can_revoke_a_license_it_does_not_own() {
    let admin = ident(42);
    let mut mkt = Marketplace::new(admin);
    let creator_a = ident(1);
    let user_b = ident(2);
    let alpha = register(&mut mkt, creator_a, "alpha", 100, true, 100).unwrap();
    let ctx = BuyLicense {
        user: user_b,
        model_account: alpha,
        now: 200,
    };
    let license_b = buy_license(&mut mkt, ctx, 1, None).unwrap();

    let ctx = RevokeLicense {
        caller: admin,
        license_account: license_b.clone(),
    };
    assert!(revoke_license(&mut mkt, ctx).is_ok());
    assert!(!mkt.get_license(&license_b).unwrap().is_active);
}

#[test]
fn revoked_license_stays_inactive_under_later_operations() {
    let mut mkt = Marketplace::new(ident(0));
    let creator_a = ident(1);
    let user_b = ident(2);
    let alpha = register(&mut mkt, creator_a, "alpha", 100, true, 100).unwrap();
    let ctx = BuyLicense {
        user: user_b,
        model_account: alpha.clone(),
        now: 200,
    };
    let license_b = buy_license(&mut mkt, ctx, 1, None).unwrap();
    let ctx = RevokeLicense {
        caller: user_b,
        license_account: license_b.clone(),
    };
    revoke_license(&mut mkt, ctx).unwrap();
    assert!(!mkt.get_license(&license_b).unwrap().is_active);

    // later, unrelated operations run...
    register(&mut mkt, creator_a, "beta", 100, true, 300).unwrap();
    let ctx = BuyLicense {
        user: ident(3),
        model_account: alpha.clone(),
        now: 400,
    };
    buy_license(&mut mkt, ctx, 1, None).unwrap();

    // ...the user cannot repurpose the revoked license...
    let ctx = UpdateLicenseTarget {
        caller: user_b,
        license_account: license_b.clone(),
    };
    let r = update_license_target(&mut mkt, ctx, addr_of(creator_a, "beta"));
    assert!(matches!(r, Err(CustomError::LicenseNotActive)));

    // ...cannot buy it afresh at the same derived address...
    let ctx = BuyLicense {
        user: user_b,
        model_account: alpha,
        now: 500,
    };
    let r = buy_license(&mut mkt, ctx, 1, None);
    assert!(matches!(r, Err(CustomError::AlreadyExists)));

    // ...and it is still inactive
    assert!(!mkt.get_license(&license_b).unwrap().is_active);
}

#[test]
fn derivative_chain_follows_each_parent_consent() {
    let mut mkt = Marketplace::new(ident(0));
    let creator_a = ident(1);
    let creator_b = ident(2);
    let alpha = register(&mut mkt, creator_a, "alpha", 100, true, 100).unwrap();

    // a first derivative that itself withholds consent
    let ctx = RegisterDerivativeModel {
        creator: creator_b,
        new_model_account: addr_of(creator_b, "alpha-ft"),
        parent_model_account: alpha,
        now: 200,
    };
    let ft = register_derivative_model(
        &mut mkt,
        ctx,
        "alpha-ft".to_string(),
        String::new(),
        100,
        true,
        false,
    )
    .unwrap();
    let stored = mkt.get_model(&ft).unwrap();
    assert!(stored.is_active && !stored.is_allowed);

    // deriving from the derivative is refused by its own consent flag
    let ctx = RegisterDerivativeModel {
        creator: creator_b,
        new_model_account: addr_of(creator_b, "alpha-ft-ft"),
        parent_model_account: ft,
        now: 300,
    };
    let r = register_derivative_model(
        &mut mkt,
        ctx,
        "alpha-ft-ft".to_string(),
        String::new(),
        100,
        true,
        true,
    );
    assert!(matches!(r, Err(CustomError::IsNotAllowed)));
}

#[test]
fn licenses_on_two_models_are_kept_apart() {
    let mut mkt = Marketplace::new(ident(0));
    let creator_a = ident(1);
    let user_b = ident(2);
    let alpha = register(&mut mkt, creator_a, "alpha", 100, true, 100).unwrap();
    let beta = register(&mut mkt, creator_a, "beta", 100, true, 100).unwrap();
    let ctx = BuyLicense {
        user: user_b,
        model_account: alpha.clone(),
        now: 200,
    };
    let on_alpha = buy_license(&mut mkt, ctx, 1, None).unwrap();
    let ctx = BuyLicense {
        user: user_b,
        model_account: beta.clone(),
        now: 300,
    };
    let on_beta = buy_license(&mut mkt, ctx, 2, None).unwrap();
    assert!(
        on_alpha
            == LicenseAddress {
                model: alpha,
                user: user_b
            }
    );
    assert!(
        on_beta
            == LicenseAddress {
                model: beta,
                user: user_b
            }
    );
    let ctx = RevokeLicense {
        caller: user_b,
        license_account: on_alpha.clone(),
    };
    revoke_license(&mut mkt, ctx).unwrap();
    assert!(!mkt.get_license(&on_alpha).unwrap().is_active);
    assert!(mkt.get_license(&on_beta).unwrap().is_active);
}
