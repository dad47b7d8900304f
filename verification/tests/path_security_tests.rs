use evorbrain::database::path_security::{
    is_within, resolve_from, split_path, starts_at_root, validate_filename, validate_path,
};
use evorbrain::database::DatabaseError;

const BASE: &str = "/var/data/app";

fn security_message<T: std::fmt::Debug>(r: Result<T, DatabaseError>) -> String {
    match r {
        Err(DatabaseError::SecurityError(msg)) => msg,
        other => panic!("Expected SecurityError, got {:?}", other),
    }
}

#[test]
fn test_validate_path_normal() {
    let result = validate_path(BASE, "subdir/file.db");
    assert!(result.is_ok());
    assert_eq!(result.unwrap(), "/var/data/app/subdir/file.db");
}

#[test]
fn test_validate_path_traversal_attempt() {
    let result = validate_path(BASE, "../../../etc/passwd");
    assert!(result.is_err());

    if let Err(DatabaseError::SecurityError(msg)) = result {
        assert!(msg.contains("Path traversal attempt detected"));
    } else {
        panic!("Expected SecurityError");
    }
}

#[test]
fn test_validate_path_absolute_rejected() {
    let result = validate_path(BASE, "/etc/passwd");
    assert!(result.is_err());

    if let Err(DatabaseError::SecurityError(msg)) = result {
        assert!(msg.contains("Absolute paths are not allowed"));
    } else {
        panic!("Expected SecurityError");
    }
}

#[test]
fn test_validate_filename_valid() {
    assert!(validate_filename("evorbrain.db").is_ok());
    assert!(validate_filename("backup_2025.db").is_ok());
    assert!(validate_filename("test-file.json").is_ok());
}

#[test]
fn test_validate_filename_invalid() {
    // Directory separators
    assert!(validate_filename("../evil.db").is_err());
    assert!(validate_filename("path/to/file.db").is_err());
    assert!(validate_filename("path\\to\\file.db").is_err());

    // Special names
    assert!(validate_filename("..").is_err());
    assert!(validate_filename(".").is_err());

    // Empty
    assert!(validate_filename("").is_err());

    // Null bytes
    assert!(validate_filename("file\0.db").is_err());
}

#[test]
fn path_two_levels_up_is_rejected() {
    assert_eq!(
        security_message(validate_path(BASE, "../../etc/passwd")),
        "Path traversal attempt detected: requested path is outside the allowed directory"
    );
    assert_eq!(
        security_message(validate_path("/", "/")),
        "Absolute paths are not allowed"
    );
    assert_eq!(security_message(validate_path("/", "/etc")), "Absolute paths are not allowed");
}

#[test]
fn path_is_resolved_by_its_components() {
    assert_eq!(validate_path(BASE, "evorbrain.db").unwrap(), "/var/data/app/evorbrain.db");
    assert_eq!(validate_path(BASE, "").unwrap(), "/var/data/app");
    assert_eq!(validate_path(BASE, ".").unwrap(), "/var/data/app");
    assert_eq!(validate_path(BASE, "a//b/./c/").unwrap(), "/var/data/app/a/b/c");
    assert_eq!(validate_path(BASE, "a/../b").unwrap(), "/var/data/app/b");
    assert_eq!(validate_path(BASE, "a/b/../../c").unwrap(), "/var/data/app/c");
    // out of the base and back in again
    assert_eq!(validate_path(BASE, "../app/x").unwrap(), "/var/data/app/x");
    // a sibling whose name begins like the base is outside
    assert!(validate_path(BASE, "../app2/x").is_err());
    assert!(validate_path(BASE, "..").is_err());
    assert!(validate_path(BASE, "a/../..").is_err());
    // names with dots are names
    assert_eq!(validate_path(BASE, "...").unwrap(), "/var/data/app/...");
    assert_eq!(validate_path(BASE, ".hidden/..x").unwrap(), "/var/data/app/.hidden/..x");
    // the base is resolved too
    assert_eq!(validate_path("/var/./data//tmp/../app/", "f").unwrap(), "/var/data/app/f");
    // above the root there is the root
    assert_eq!(validate_path("/", "../../x").unwrap(), "/x");
    assert_eq!(validate_path("/", "").unwrap(), "/");
}

#[test]
fn relative_base_is_rejected() {
    assert_eq!(
        security_message(validate_path("var/data", "f")),
        "Failed to resolve base directory: path is not absolute"
    );
    assert_eq!(
        security_message(validate_path("", "/f")),
        "Failed to resolve base directory: path is not absolute"
    );
}

#[test]
fn path_pieces() {
    assert_eq!(split_path(""), vec![""]);
    assert_eq!(split_path("/"), vec!["", ""]);
    assert_eq!(split_path("a/b"), vec!["a", "b"]);
    assert_eq!(split_path("/a//b/"), vec!["", "a", "", "b", ""]);
    let parts = |s: &[&str]| s.iter().map(|x| x.to_string()).collect::<Vec<String>>();
    assert_eq!(resolve_from(parts(&["x"]), &parts(&["..", "..", "a", ".", "", "b", "..", "c"])), parts(&["a", "c"]));
    assert!(is_within(&parts(&["a"]), &parts(&["a", "b"])));
    assert!(is_within(&parts(&[]), &parts(&[])));
    assert!(!is_within(&parts(&["a", "b"]), &parts(&["a"])));
    assert!(!is_within(&parts(&["a"]), &parts(&["ab"])));
    assert!(starts_at_root("/x"));
    assert!(!starts_at_root("x/"));
    assert!(!starts_at_root(""));
}

#[test]
fn filename_faults_in_order() {
    assert_eq!(security_message(validate_filename("")), "Filename cannot be empty");
    assert_eq!(security_message(validate_filename("a/b")), "Filename cannot contain directory separators");
    assert_eq!(security_message(validate_filename("a\\b\0")), "Filename cannot contain directory separators");
    assert_eq!(security_message(validate_filename("..")), "Invalid filename: cannot use . or ..");
    assert_eq!(security_message(validate_filename(".")), "Invalid filename: cannot use . or ..");
    assert_eq!(security_message(validate_filename("\0")), "Filename cannot contain null bytes");
    assert_eq!(validate_filename("...").unwrap(), "...");
    assert_eq!(validate_filename("a..b").unwrap(), "a..b");
    assert_eq!(validate_filename(" ").unwrap(), " ");
}

#[test]
fn init_migrations_succeeds() {
    assert!(evorbrain::database::migrations::init_migrations().is_ok());
}

#[test]
fn database_error_texts() {
    assert_eq!(DatabaseError::ConnectionError("x".to_string()).to_string(), "Database connection error: x");
    assert_eq!(DatabaseError::MigrationError("x".to_string()).to_string(), "Migration error: x");
    assert_eq!(DatabaseError::QueryError("x".to_string()).to_string(), "Query error: x");
    assert_eq!(DatabaseError::NotFound { entity: "goal".to_string() }.to_string(), "Entity not found: goal");
    assert_eq!(DatabaseError::ValidationError("x".to_string()).to_string(), "Validation error: x");
    assert_eq!(DatabaseError::SerializationError("x".to_string()).to_string(), "Serialization error: x");
    assert_eq!(DatabaseError::SecurityError("x".to_string()).to_string(), "Security error: x");
}
