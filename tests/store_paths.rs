use wauth::completion::{fish_completion_script, join_site_names};
use wauth::error::TotpError;
use wauth::store::{check_site_name_uniqueness, code_for_site, save_secret_step, SaveStep};
use wauth::validate::ValidationError;

const SECRET: &str = "GEZDGNBVGY3TQOJQGEZDGNBVGY3TQOJQ";

#[test]
fn add_existing_site_is_duplicate() {
    assert_eq!(save_secret_step("acme", SECRET, None), Ok(SaveStep::CheckExists));
    assert_eq!(
        save_secret_step("acme", "JBSWY3DPEHPK3PXP", Some(true)),
        Err(TotpError::DuplicateSiteName("acme".to_string()))
    );
}

#[test]
fn add_new_site_is_written() {
    assert_eq!(save_secret_step("acme", SECRET, Some(false)), Ok(SaveStep::Put));
}

#[test]
fn add_validates_before_uniqueness() {
    assert_eq!(
        save_secret_step("bad name!", SECRET, Some(true)),
        Err(TotpError::Validation(ValidationError::new(
            "site_name",
            "Site name can only contain alphanumeric characters, hyphens, dots, and underscores"
        )))
    );
    assert_eq!(
        save_secret_step("acme", "short", Some(true)),
        Err(TotpError::Validation(ValidationError::new(
            "secret",
            "Secret must be a valid Base32 string"
        )))
    );
}

#[test]
fn uniqueness_gate() {
    assert_eq!(check_site_name_uniqueness("acme", false), Ok(()));
    assert_eq!(
        check_site_name_uniqueness("acme", true),
        Err(TotpError::DuplicateSiteName("acme".to_string()))
    );
}

#[test]
fn code_for_missing_site() {
    assert_eq!(
        code_for_site("nowhere", None, 59),
        Err(TotpError::NotFound("nowhere".to_string()))
    );
}

#[test]
fn code_for_stored_site() {
    let c = code_for_site("rfc", Some(SECRET.to_string()), 59).unwrap();
    assert_eq!(c.code, "287082");
    assert_eq!(c.remaining_seconds, 1);
    assert_eq!(c.site_name, "rfc");
}

#[test]
fn code_for_site_with_bad_secret() {
    assert_eq!(
        code_for_site("x", Some("bad!".to_string()), 59),
        Err(TotpError::InvalidSecret)
    );
}

#[test]
fn site_names_joined() {
    assert_eq!(join_site_names(&vec![]), "");
    assert_eq!(join_site_names(&vec!["a".to_string()]), "a");
    assert_eq!(
        join_site_names(&vec!["a".to_string(), "b.c".to_string(), "d".to_string()]),
        "a b.c d"
    );
}

#[test]
fn fish_script_lists_sites() {
    let script = fish_completion_script(&vec!["acme".to_string(), "github.com".to_string()]);
    let expected = "# Fish completion for wauth\n\
complete -f -c wauth -n \"__fish_use_subcommand\" -a \"add\" -d \"Add new TOTP secret for a site\"\n\
complete -f -c wauth -n \"__fish_use_subcommand\" -a \"delete\" -d \"Delete TOTP secret for a site\"\n\
complete -f -c wauth -n \"__fish_use_subcommand\" -a \"list\" -d \"List all registered sites\"\n\
complete -f -c wauth -n \"not __fish_seen_subcommand_from add delete list\" -a \"acme github.com\" -d \"Site name\"\n\
complete -f -c wauth -n \"__fish_seen_subcommand_from delete\" -a \"acme github.com\" -d \"Site to delete\"\n\
complete -f -c wauth -l profile -d \"Specify AWS profile\" -r\n";
    assert_eq!(script, expected);
}
