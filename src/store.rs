//! The decisions taken on the secret store's paths. The store itself is
//! remote: the caller makes each request and hands back what it answered.
use vstd::prelude::*;

use crate::error::TotpError;
use crate::totp::{seconds_left, totp_code, Totp};
use crate::validate::{secret_problem, site_name_problem, validate_secret, validate_site_name};

verus! {

/// What the write path asks of the store next.
#[derive(Debug, Clone, Copy, PartialEq, Eq)]
pub enum SaveStep {
    /// Ask, with a strongly consistent read, whether the site has a secret.
    CheckExists,
    /// Write the site and its secret.
    Put,
}

/// `e` reports a validation `problem` with the field `field`.
pub open spec fn validation_error_for(e: TotpError, field: Seq<char>, problem: Option<Seq<char>>) -> bool {
    match e {
        TotpError::Validation(v) => v.field@ == field && problem == Some(v.message@),
        _ => false,
    }
}

/// The answer of the write path for `site` and `secret`, where `exists` is
/// what the store said of the site, or `None` before it was asked: site name
/// rules first, then secret rules, then the uniqueness check.
pub open spec fn save_step_result(
    r: Result<SaveStep, TotpError>,
    site: Seq<char>,
    secret: Seq<char>,
    exists: Option<bool>,
) -> bool {
    if site_name_problem(site) is Some {
        r matches Err(e) && validation_error_for(e, "site_name"@, site_name_problem(site))
    } else if secret_problem(secret) is Some {
        r matches Err(e) && validation_error_for(e, "secret"@, secret_problem(secret))
    } else {
        match exists {
            None => r == Ok::<SaveStep, TotpError>(SaveStep::CheckExists),
            Some(true) => r matches Err(TotpError::DuplicateSiteName(n)) && n@ == site,
            Some(false) => r == Ok::<SaveStep, TotpError>(SaveStep::Put),
        }
    }
}

/// Whether a site and secret are written to a store where the site's
/// presence is `exists`.
pub open spec fn save_allowed(site: Seq<char>, secret: Seq<char>, exists: bool) -> bool {
    site_name_problem(site) is None && secret_problem(secret) is None && !exists
}

/// A store, as a map from site name to secret, after the write path ran on it.
pub open spec fn store_after_save(
    store: Map<Seq<char>, Seq<char>>,
    site: Seq<char>,
    secret: Seq<char>,
) -> Map<Seq<char>, Seq<char>> {
    if save_allowed(site, secret, store.contains_key(site)) {
        store.insert(site, secret)
    } else {
        store
    }
}

/// A store after the delete path ran on it: one delete request, with no
/// check of the site's presence before it.
pub open spec fn store_after_delete(
    store: Map<Seq<char>, Seq<char>>,
    site: Seq<char>,
) -> Map<Seq<char>, Seq<char>> {
    store.remove(site)
}

/// The uniqueness gate: a site that the store already holds is refused.
pub fn check_site_name_uniqueness(site_name: &str, site_exists: bool) -> (r: Result<(), TotpError>)
    ensures
        match r {
            Ok(()) => !site_exists,
            Err(e) => site_exists && (e matches TotpError::DuplicateSiteName(n) && n@ == site_name@),
        },
{
    if site_exists {
        Err(TotpError::DuplicateSiteName(site_name.to_string()))
    } else {
        Ok(())
    }
}

/// One step of the write path for a new site and secret. Called first with
/// `site_exists == None`; where it answers `CheckExists`, called again with
/// what the store said; where it answers `Put`, the caller writes.
pub fn save_secret_step(site_name: &str, secret: &str, site_exists: Option<bool>) -> (r: Result<
    SaveStep,
    TotpError,
>)
    ensures
        save_step_result(r, site_name@, secret@, site_exists),
        site_exists matches Some(b) ==> (r == Ok::<SaveStep, TotpError>(SaveStep::Put)
            <==> save_allowed(site_name@, secret@, b)),
{
    match validate_site_name(site_name) {
        Ok(()) => {},
        Err(e) => return Err(TotpError::Validation(e)),
    }
    match validate_secret(secret) {
        Ok(()) => {},
        Err(e) => return Err(TotpError::Validation(e)),
    }
    match site_exists {
        None => Ok(SaveStep::CheckExists),
        Some(exists) => match check_site_name_uniqueness(site_name, exists) {
            Ok(()) => Ok(SaveStep::Put),
            Err(e) => Err(e),
        },
    }
}

/// Adding a site that the store already holds never writes: the stored
/// secret is kept, and once both inputs pass validation the answer is
/// `DuplicateSiteName`.
pub proof fn lemma_duplicate_add_keeps_record(
    store: Map<Seq<char>, Seq<char>>,
    site: Seq<char>,
    secret: Seq<char>,
    r: Result<SaveStep, TotpError>,
)
    requires
        store.contains_key(site),
        save_step_result(r, site, secret, Some(store.contains_key(site))),
    ensures
        r != Ok::<SaveStep, TotpError>(SaveStep::Put),
        store_after_save(store, site, secret) == store,
        store_after_save(store, site, secret)[site] == store[site],
        site_name_problem(site) is None && secret_problem(secret) is None ==> (r matches Err(
            TotpError::DuplicateSiteName(n),
        ) && n@ == site),
{
}

/// Deleting a site that the store does not hold is no error and changes
/// nothing.
pub proof fn lemma_delete_missing_is_noop(store: Map<Seq<char>, Seq<char>>, site: Seq<char>)
    requires
        !store.contains_key(site),
    ensures
        store_after_delete(store, site) == store,
{
    assert(store.remove(site) =~= store);
}

/// A site's current code and how long it stays valid.
#[derive(Debug, Clone, PartialEq, Eq)]
pub struct TotpCode {
    pub code: String,
    pub remaining_seconds: u64,
    pub site_name: String,
}

/// The read path: the code for `site_name` at `now`, given the secret that
/// the store holds for it, if any.
pub fn code_for_site(site_name: &str, stored_secret: Option<String>, now: u64) -> (r: Result<
    TotpCode,
    TotpError,
>)
    ensures
        match stored_secret {
            None => r matches Err(TotpError::NotFound(n)) && n@ == site_name@,
            Some(s) => match totp_code(s@, now) {
                Ok(c) => r matches Ok(t) && t.code@ == c && t.remaining_seconds == seconds_left(now)
                    && t.site_name@ == site_name@,
                Err(e) => r == Err::<TotpCode, TotpError>(e),
            },
        },
{
    let secret = match stored_secret {
        Some(s) => s,
        None => return Err(TotpError::NotFound(site_name.to_string())),
    };
    let totp = Totp::new(secret);
    let code = match totp.generate_code(now) {
        Ok(c) => c,
        Err(e) => return Err(e),
    };
    Ok(TotpCode { code, remaining_seconds: Totp::remaining_seconds(now), site_name: site_name.to_string() })
}

} // verus!
