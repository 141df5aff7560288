use lpmng::errors::Error;
use lpmng::mac::{mac_from_neighbors, mac_string_of, NeighborEntry};
use lpmng::model::{Email, Phone, Username, ValidString};
use lpmng::text::{join_lines, str_eq};
use lpmng::user::{apply_patch, create_user_input, User, UserInput, UserPatch};

fn entry(destination: Option<u32>, lladdr: Option<Vec<u8>>) -> NeighborEntry {
    NeighborEntry { destination, lladdr }
}

#[test]
fn mac_formatting_is_lowercase_two_digit_hex() {
    assert_eq!(
        mac_string_of(&vec![0xaa, 0xbb, 0x0c, 0x3d, 0x44, 0xff]),
        "aa:bb:0c:3d:44:ff"
    );
    assert_eq!(mac_string_of(&vec![0x00]), "00");
    assert_eq!(mac_string_of(&vec![]), "");
}

#[test]
fn resolver_takes_the_first_matching_entry() {
    let ip: u32 = 0xc0a80017; // 192.168.0.23
    let entries = vec![
        entry(Some(1), Some(vec![1, 2, 3, 4, 5, 6])),
        entry(Some(ip), Some(vec![0xaa, 0xbb, 0xcc, 0xdd, 0xee, 0xff])),
        entry(Some(ip), Some(vec![9, 9, 9, 9, 9, 9])),
    ];
    assert_eq!(mac_from_neighbors(&entries, ip).unwrap(), "aa:bb:cc:dd:ee:ff");
}

#[test]
fn resolver_fails_when_nothing_maps() {
    let entries = vec![entry(Some(1), Some(vec![1, 2, 3, 4, 5, 6])), entry(None, None)];
    assert!(matches!(
        mac_from_neighbors(&entries, 2),
        Err(Error::NoMappingForAddress)
    ));
    assert!(matches!(
        mac_from_neighbors(&vec![], 2),
        Err(Error::NoMappingForAddress)
    ));
}

#[test]
fn resolver_fails_on_entry_without_hardware_address() {
    let entries = vec![entry(Some(5), None)];
    assert!(matches!(
        mac_from_neighbors(&entries, 5),
        Err(Error::MissingHardwareAddress)
    ));
}

#[test]
fn str_eq_compares_content() {
    assert!(str_eq("abc", "abc"));
    assert!(!str_eq("abc", "abd"));
    assert!(!str_eq("abc", "ab"));
    assert!(str_eq("", ""));
}

#[test]
fn join_lines_matches_expected_text() {
    assert_eq!(join_lines(&vec![]), "");
    assert_eq!(join_lines(&vec!["a".to_string()]), "a");
    assert_eq!(
        join_lines(&vec!["a".to_string(), "b".to_string(), "c".to_string()]),
        "a\nb\nc"
    );
}

fn stored_user() -> User {
    User {
        id: 10,
        username: "ada".to_string(),
        firstname: "Ada".to_string(),
        lastname: "Lovelace".to_string(),
        email: "ada@example.org".to_string(),
        password: "hashed".to_string(),
        phone: "0612345678".to_string(),
        role: "user".to_string(),
        is_allowed: true,
    }
}

fn input(name: &str) -> UserInput {
    UserInput {
        username: Username::new(name.to_string()).unwrap(),
        firstname: ValidString::new("Ada".to_string()).unwrap(),
        lastname: ValidString::new("Lovelace".to_string()).unwrap(),
        email: Email::new("ada@example.org".to_string()).unwrap(),
        password: ValidString::new("secret".to_string()).unwrap(),
        phone: Phone::new("0612345678".to_string()).unwrap(),
    }
}

#[test]
fn user_view_drops_the_password() {
    let v = stored_user().into_view();
    assert_eq!(v.id, 10);
    assert_eq!(v.username, "ada");
    assert_eq!(v.role, "user");
    assert!(v.is_allowed);
}

#[test]
fn user_input_unwraps_to_plain_strings() {
    let u = input("ada").into_unchecked();
    assert_eq!(u.username, "ada");
    assert_eq!(u.password, "secret");
    assert_eq!(u.phone, "0612345678");
}

#[test]
fn creation_refuses_the_reserved_name() {
    assert!(matches!(
        create_user_input(input("admin")),
        Err(Error::InvalidCredential)
    ));
    assert!(create_user_input(input("ada")).is_ok());
}

#[test]
fn patch_overrides_exactly_the_given_fields() {
    let patched = apply_patch(
        stored_user(),
        UserPatch {
            id: 10,
            username: None,
            firstname: Some(ValidString::new("Augusta".to_string()).unwrap()),
            lastname: None,
            email: None,
            phone: None,
            role: None,
            is_allowed: Some(false),
        },
    );
    assert_eq!(patched.id, 10);
    assert_eq!(patched.username, "ada");
    assert_eq!(patched.firstname, "Augusta");
    assert_eq!(patched.lastname, "Lovelace");
    assert_eq!(patched.password, "hashed");
    assert!(!patched.is_allowed);
}

#[test]
fn error_messages_are_stable() {
    assert_eq!(Error::ValidationError.message(), "validation error");
    assert_eq!(
        Error::TransportFailure("down".to_string()).message(),
        "router error: down"
    );
    assert_eq!(
        Error::EnforcementToolFailure("exit 1".to_string()).message(),
        "enforcement tool failed: exit 1"
    );
    assert_eq!(Error::OwnershipConflict.message(), "hardware address belongs to another identity");
    assert_eq!(Error::UserDoesNotExist.message(), "user not found");
    assert_eq!(Error::StorageFailure.message(), "storage failure");
    assert_eq!(Error::NoMappingForAddress.message(), "no neighbor-cache mapping for this address");
    assert_eq!(
        Error::MissingHardwareAddress.message(),
        "neighbor-cache entry has no hardware address"
    );
    assert_eq!(Error::InvalidCredential.message(), "invalid username or password");
    assert_eq!(
        Error::AuthorizationHeaderMalformed.message(),
        "authorization header malformed"
    );
}
