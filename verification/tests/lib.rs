use pylot::{create_checks, update_packages_from_requirements};

#[test]
fn test_create_missing_name() {
    let result = create_checks("", true, false);
    assert!(result.is_err());
    assert_eq!(result.unwrap_err(), "A valid name is required");
}

#[test]
fn test_create_missing_uv() {
    let result = create_checks("test_env", false, false);
    assert!(result.is_err());
    assert_eq!(
        result.unwrap_err(),
        "Astral UV is not installed. Please run 'pylot uv install' to install it."
    );
}

#[test]
fn create_rejects_an_existing_name() {
    let result = create_checks("demo", true, true);
    assert_eq!(
        result.unwrap_err(),
        "A virtual environment with the name demo already exists"
    );
}

#[test]
fn create_checks_pass_on_a_fresh_name() {
    assert!(create_checks("demo", true, false).is_ok());
}

#[test]
fn test_update_packages_from_requirements() {
    let mut packages = vec!["numpy".to_string()];
    let result = update_packages_from_requirements(
        &mut packages,
        "test_requirements.txt",
        Some("pandas\nscipy\n"),
    );
    assert!(result.is_ok());
    assert!(packages.contains(&"numpy".to_string()));
    assert!(packages.contains(&"pandas".to_string()));
    assert!(packages.contains(&"scipy".to_string()));
}

#[test]
fn requirements_do_not_duplicate_packages() {
    let mut packages = vec!["numpy".to_string()];
    update_packages_from_requirements(&mut packages, "reqs.txt", Some("numpy\npandas\n")).unwrap();
    assert_eq!(packages, vec!["numpy", "pandas"]);
}

#[test]
fn test_read_requirement_file_notexists() {
    let mut packages = vec!["numpy".to_string()];
    let result = update_packages_from_requirements(&mut packages, "non_existent_file.txt", None);
    assert!(result.is_err());
    assert_eq!(result.unwrap_err(), "Requirements file does not exist");
    assert_eq!(packages, vec!["numpy"]);
}

#[test]
fn empty_requirements_name_is_a_no_op() {
    let mut packages = vec!["numpy".to_string()];
    let result = update_packages_from_requirements(&mut packages, "", None);
    assert!(result.is_ok());
    assert_eq!(packages, vec!["numpy"]);
}
