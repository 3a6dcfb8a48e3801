use deta::deta::Deta;
use deta::errors::DetaError;

#[test]
fn test_new_deta_from_string() {
    let project_key = "1234_abc".to_string();
    let deta = Deta::try_from(project_key);
    assert!(deta.is_ok());
    let deta = deta.unwrap();
    assert_eq!(deta.project_id(), "1234");
    assert_eq!(deta.project_key(), "1234_abc");
}

#[test]
fn test_new_deta_from_string_with_incorrect_key() {
    let project_key = "1234".to_string();
    let deta = Deta::try_from(project_key);
    assert!(deta.is_err());
    assert_eq!(deta.unwrap_err(), DetaError::InvalidProjectKey);
}

#[test]
fn deta_test_new_deta() {
    let deta = Deta::new(Some("1234_abc".to_string()));
    assert!(deta.is_ok());
    let deta = deta.unwrap();
    assert_eq!(deta.project_id(), "1234");
    assert_eq!(deta.project_key(), "1234_abc");
}

#[test]
fn deta_test_new_deta_with_incorrect_key() {
    let deta = Deta::new(Some("1234".to_string()));
    assert!(deta.is_err());
    assert_eq!(deta.unwrap_err(), DetaError::InvalidProjectKey);
}

#[test]
fn test_new_deta_with_missing_key() {
    let deta = Deta::new(None);
    assert!(deta.is_err());
    assert_eq!(deta.unwrap_err(), DetaError::MissingProjectKey);
}

#[test]
fn empty_key_is_invalid() {
    let deta = Deta::try_from(String::new());
    assert!(deta.is_err());
    assert_eq!(deta.unwrap_err(), DetaError::InvalidProjectKey);
}

#[test]
fn key_with_two_delimiters_is_invalid() {
    let deta = Deta::try_from("a_b_c".to_string());
    assert!(deta.is_err());
    assert_eq!(deta.unwrap_err(), DetaError::InvalidProjectKey);
}

#[test]
fn key_with_many_delimiters_is_invalid() {
    let deta = Deta::try_from("____".to_string());
    assert!(deta.is_err());
    assert_eq!(deta.unwrap_err(), DetaError::InvalidProjectKey);
}

#[test]
fn key_with_empty_id_segment_is_accepted() {
    let deta = Deta::try_from("_secret".to_string()).unwrap();
    assert_eq!(deta.project_id(), "");
    assert_eq!(deta.project_key(), "_secret");
}

#[test]
fn key_with_empty_secret_segment_is_accepted() {
    let deta = Deta::try_from("1234_".to_string()).unwrap();
    assert_eq!(deta.project_id(), "1234");
    assert_eq!(deta.project_key(), "1234_");
}

#[test]
fn lone_delimiter_is_accepted() {
    let deta = Deta::try_from("_".to_string()).unwrap();
    assert_eq!(deta.project_id(), "");
    assert_eq!(deta.project_key(), "_");
}

#[test]
fn non_ascii_key_splits_on_the_delimiter() {
    let deta = Deta::try_from("идентификатор_секрет".to_string()).unwrap();
    assert_eq!(deta.project_id(), "идентификатор");
    assert_eq!(deta.project_key(), "идентификатор_секрет");
}

#[test]
fn environment_value_fails_exactly_as_direct_key() {
    let from_env = Deta::new(Some("1234".to_string()));
    let from_key = Deta::try_from("1234".to_string());
    assert_eq!(from_env.unwrap_err(), from_key.unwrap_err());
}
