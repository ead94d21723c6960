use lintd_taskops::error::TaskError;
use lintd_taskops::manifest::{
    checked_version, manifest_path, members_in, package_in, publishable,
};
use lintd_taskops::ops::{default_members, package_version, read_toml};

fn names(list: &[&str]) -> Vec<String> {
    list.iter().map(|name| name.to_string()).collect()
}

#[test]
fn workspace_members_without_the_tool() {
    let manifest = "[workspace]\nmembers = [\"xtask\", \"alpha\", \"beta\"]\n";
    assert_eq!(default_members(manifest), Ok(names(&["alpha", "beta"])));
}

#[test]
fn workspace_members_keep_their_order() {
    let manifest = "[workspace]\nmembers = [\"zeta\", \"xtask\", \"alpha\", \"mid\", \"xtask\", \"beta\"]\n";
    assert_eq!(default_members(manifest), Ok(names(&["zeta", "alpha", "mid", "beta"])));
}

#[test]
fn workspace_of_the_tool_alone_has_an_empty_plan() {
    let manifest = "[workspace]\nmembers = [\"xtask\"]\n";
    assert_eq!(default_members(manifest), Ok(Vec::new()));
}

#[test]
fn workspace_members_are_the_same_when_resolved_again() {
    let manifest = "[workspace]\nmembers = [\"b\", \"xtask\", \"a\"]\nresolver = \"2\"\n";
    let first = default_members(manifest);
    let second = default_members(manifest);
    assert_eq!(first, second);
    assert_eq!(first, Ok(names(&["b", "a"])));
}

#[test]
fn workspace_manifest_that_is_no_toml_is_rejected_with_the_parser_message() {
    let manifest = "[workspace\nmembers = ";
    let expected = manifest.parse::<toml::Table>().unwrap_err().to_string();
    assert!(!expected.is_empty());
    assert_ne!(expected, manifest);
    assert_eq!(default_members(manifest), Err(TaskError::ManifestParse(expected)));
}

#[test]
fn workspace_manifest_without_members_is_rejected() {
    let fault = TaskError::ManifestParse("workspace.members is not a list of strings".to_string());
    assert_eq!(default_members(""), Err(fault.clone()));
    assert_eq!(default_members("[workspace]\n"), Err(fault.clone()));
    assert_eq!(default_members("workspace = \"members\"\n"), Err(fault.clone()));
    assert_eq!(default_members("[workspace]\nmembers = \"alpha\"\n"), Err(fault.clone()));
    assert_eq!(default_members("[workspace]\nmembers = [\"alpha\", 1]\n"), Err(fault.clone()));
    assert_eq!(default_members("[workspace]\nmembers = [[\"alpha\"]]\n"), Err(fault.clone()));
    assert_eq!(default_members("[package]\nmembers = [\"alpha\"]\n"), Err(fault));
}

#[test]
fn workspace_with_no_members_has_an_empty_plan() {
    assert_eq!(default_members("[workspace]\nmembers = []\n"), Ok(Vec::new()));
}

#[test]
fn plan_of_members_given_as_values() {
    assert_eq!(publishable(names(&["xtask", "alpha", "beta"])), names(&["alpha", "beta"]));
    assert_eq!(publishable(names(&["alpha", "xtask"])), names(&["alpha"]));
    assert_eq!(publishable(names(&["Xtask", "xtask ", "xtas"])), names(&["Xtask", "xtask ", "xtas"]));
    assert_eq!(publishable(Vec::new()), Vec::<String>::new());
    let once = publishable(names(&["a", "xtask", "b"]));
    assert_eq!(publishable(once.clone()), once);
}

#[test]
fn package_version_of_a_matching_manifest() {
    let manifest = "[package]\nname = \"alpha\"\nversion = \"1.2.3\"\n";
    assert_eq!(package_version("alpha", manifest), Ok("1.2.3".to_string()));
}

#[test]
fn package_version_is_returned_as_written() {
    let manifest = "[package]\nname = \"alpha\"\nversion = \" 01.2-rc.1+build \"\nedition = \"2021\"\n\n[dependencies]\nbeta = \"1\"\n";
    assert_eq!(package_version("alpha", manifest), Ok(" 01.2-rc.1+build ".to_string()));
}

#[test]
fn package_version_of_a_manifest_with_another_name_is_a_mismatch() {
    let manifest = "[package]\nname = \"beta\"\nversion = \"1.2.3\"\n";
    assert_eq!(
        package_version("alpha", manifest),
        Err(TaskError::ManifestMismatch {
            requested: "alpha".to_string(),
            declared: "beta".to_string(),
        })
    );
}

#[test]
fn package_manifest_that_is_no_toml_is_rejected_with_the_parser_message() {
    let manifest = "name = = 1";
    let expected = manifest.parse::<toml::Table>().unwrap_err().to_string();
    assert_eq!(package_version("alpha", manifest), Err(TaskError::ManifestParse(expected)));
}

#[test]
fn package_manifest_without_name_or_version_is_rejected() {
    let fault = TaskError::ManifestParse(
        "package.name and package.version are not both strings".to_string(),
    );
    assert_eq!(package_version("alpha", ""), Err(fault.clone()));
    assert_eq!(package_version("alpha", "[package]\nname = \"alpha\"\n"), Err(fault.clone()));
    assert_eq!(package_version("alpha", "[package]\nversion = \"1.0.0\"\n"), Err(fault.clone()));
    assert_eq!(
        package_version("alpha", "[package]\nname = \"alpha\"\nversion = 1\n"),
        Err(fault.clone())
    );
    assert_eq!(
        package_version("alpha", "[package]\nname = [\"alpha\"]\nversion = \"1.0.0\"\n"),
        Err(fault.clone())
    );
    assert_eq!(
        package_version("alpha", "package = [\"alpha\", \"1.0.0\"]\n"),
        Err(fault.clone())
    );
    assert_eq!(
        package_version("beta", "[package]\nname = \"alpha\"\n"),
        Err(fault)
    );
}

#[test]
fn version_checked_against_the_declared_name() {
    assert_eq!(
        checked_version("alpha", "alpha".to_string(), "0.1.0".to_string()),
        Ok("0.1.0".to_string())
    );
    assert_eq!(
        checked_version("alpha", "Alpha".to_string(), "0.1.0".to_string()),
        Err(TaskError::ManifestMismatch {
            requested: "alpha".to_string(),
            declared: "Alpha".to_string(),
        })
    );
}

#[test]
fn manifest_paths() {
    assert_eq!(manifest_path("alpha"), "./alpha/Cargo.toml");
    assert_eq!(manifest_path("crates/beta"), "./crates/beta/Cargo.toml");
    assert_eq!(manifest_path(""), ".//Cargo.toml");
}

#[test]
fn parsed_table_is_the_one_the_parser_gives() {
    let manifest = "[workspace]\nmembers = [\"alpha\"]\n\n[package]\nname = \"root\"\nversion = \"2.0.0\"\n";
    let table = read_toml(manifest).unwrap();
    assert_eq!(table, manifest.parse::<toml::Table>().unwrap());
    assert_eq!(members_in(&table), Some(names(&["alpha"])));
    assert_eq!(package_in(&table), Some(("root".to_string(), "2.0.0".to_string())));
}

#[test]
fn members_and_package_of_tables_built_by_hand() {
    let mut workspace = toml::Table::new();
    workspace.insert(
        "members".to_string(),
        toml::Value::Array(vec![
            toml::Value::String("xtask".to_string()),
            toml::Value::String("alpha".to_string()),
        ]),
    );
    let mut document = toml::Table::new();
    document.insert("workspace".to_string(), toml::Value::Table(workspace));
    assert_eq!(members_in(&document), Some(names(&["xtask", "alpha"])));
    assert_eq!(package_in(&document), None);

    let mut package = toml::Table::new();
    package.insert("name".to_string(), toml::Value::String("alpha".to_string()));
    package.insert("version".to_string(), toml::Value::Integer(3));
    let mut document = toml::Table::new();
    document.insert("package".to_string(), toml::Value::Table(package.clone()));
    assert_eq!(package_in(&document), None);
    assert_eq!(members_in(&document), None);
    package.insert("version".to_string(), toml::Value::String("3".to_string()));
    document.insert("package".to_string(), toml::Value::Table(package));
    assert_eq!(package_in(&document), Some(("alpha".to_string(), "3".to_string())));

    let mut workspace = toml::Table::new();
    workspace.insert(
        "members".to_string(),
        toml::Value::Array(vec![
            toml::Value::String("alpha".to_string()),
            toml::Value::Boolean(true),
        ]),
    );
    let mut document = toml::Table::new();
    document.insert("workspace".to_string(), toml::Value::Table(workspace));
    assert_eq!(members_in(&document), None);
}
