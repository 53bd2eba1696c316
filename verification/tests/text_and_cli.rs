use usermgmt::cli::CommonUserFields;
use usermgmt::cli::Modifiable;
use usermgmt::cli::UserToAdd;
use usermgmt::cli::short_about;
use usermgmt::cli::trimmed_non_empty;
use usermgmt::listing::ListedUsers;
use usermgmt::text::TrimmedNonEmptyText;
use usermgmt::text::is_non_blank;
use usermgmt::text::str_eq;

#[test]
fn trimmed_non_empty_trims_both_ends() {
    let t = trimmed_non_empty("  wagnerdo\t\n").unwrap();
    assert_eq!(t.as_str(), "wagnerdo");
    let t = trimmed_non_empty("a b").unwrap();
    assert_eq!(t.as_str(), "a b");
}

#[test]
fn trimmed_non_empty_rejects_blank_input() {
    assert!(trimmed_non_empty("").is_err());
    assert!(trimmed_non_empty("   \t \n ").is_err());
}

#[test]
fn trimming_strips_the_unicode_whitespace_set() {
    // The same characters `str::trim` strips: vertical tab, form feed,
    // no-break space, ideographic space and the rest of White_Space.
    assert!(trimmed_non_empty("\u{000B}").is_err());
    assert!(trimmed_non_empty("\u{000C}\u{0085}\u{00A0}").is_err());
    assert!(trimmed_non_empty("\u{2000}\u{2009}\u{2028}\u{202F}\u{205F}\u{3000}").is_err());
    let t = trimmed_non_empty("\u{00A0}name\u{3000}").unwrap();
    assert_eq!(t.as_str(), "name");
}

#[test]
fn trimming_agrees_with_str_trim_on_every_character() {
    for code in 0u32..=0x10FFFF {
        if let Some(c) = char::from_u32(code) {
            let one = c.to_string();
            assert_eq!(
                trimmed_non_empty(&one).is_err(),
                one.trim().is_empty(),
                "disagreement on U+{code:04X}"
            );
        }
    }
}

#[test]
fn non_blank_matches_trimming() {
    assert!(is_non_blank(" x "));
    assert!(!is_non_blank("  \t"));
}

#[test]
fn str_eq_compares_by_characters() {
    assert!(str_eq("abc", "abc"));
    assert!(!str_eq("abc", "abd"));
    assert!(!str_eq("abc", "ab"));
    assert!(str_eq("", ""));
}

#[test]
fn short_about_names_both_backends() {
    assert_eq!(
        short_about(),
        "Simultaneous user management for Slurm and LDAP"
    );
}

#[test]
fn common_user_fields_new_leaves_options_empty() {
    let name = TrimmedNonEmptyText::try_new("wagnerdo").unwrap();
    let fields = CommonUserFields::new(name);
    assert_eq!(fields.username.as_str(), "wagnerdo");
    assert!(fields.group.is_none());
    assert!(fields.mail.is_none());
    assert!(fields.default_qos.is_none());
    assert!(fields.publickey.is_none());
    assert!(fields.qos.is_empty());
}

#[test]
fn modifiable_new_changes_nothing_yet() {
    let name = TrimmedNonEmptyText::try_new("wagnerdo").unwrap();
    let m = Modifiable::new(name);
    assert!(m.firstname.is_none());
    assert!(m.lastname.is_none());
    assert_eq!(m.common_user_fields.username.as_str(), "wagnerdo");
}

#[test]
fn user_to_add_bundles_its_fields() {
    let first = TrimmedNonEmptyText::try_new("Dolores").unwrap();
    let last = TrimmedNonEmptyText::try_new("Wagner").unwrap();
    let common = CommonUserFields::new(TrimmedNonEmptyText::try_new("wagnerdo").unwrap());
    let user = UserToAdd::new(first, last, common);
    assert_eq!(user.firstname.as_str(), "Dolores");
    assert_eq!(user.lastname.as_str(), "Wagner");
    assert_eq!(user.common_user_fields().username.as_str(), "wagnerdo");
}

#[test]
fn listed_users_accepts_uniform_rows() {
    let listed = ListedUsers::new(
        vec!["User".to_string(), "QOS".to_string()],
        vec![
            vec!["ann".to_string(), "basic".to_string()],
            vec!["ben".to_string(), "interactive".to_string()],
        ],
    )
    .unwrap();
    assert_eq!(listed.len(), 2);
    assert_eq!(listed.headers().len(), 2);
    assert_eq!(listed.fields()[1][0], "ben");
}

#[test]
fn listed_users_rejects_ragged_rows() {
    let r = ListedUsers::new(
        vec!["User".to_string(), "QOS".to_string()],
        vec![vec!["ann".to_string()]],
    );
    assert!(r.is_none());
}

#[test]
fn listed_users_rejects_empty_header_row() {
    assert!(ListedUsers::new(Vec::new(), Vec::new()).is_none());
}

#[test]
fn listed_users_accepts_a_snapshot_with_no_records() {
    let listed = ListedUsers::new(vec!["User".to_string()], Vec::new()).unwrap();
    assert_eq!(listed.len(), 0);
}
