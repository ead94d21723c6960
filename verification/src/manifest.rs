//! What the release reads from manifests: the packages of the workspace, and the
//! name and version that a package declares.

use vstd::prelude::*;
use vstd::string::*;
use crate::document::{
    error_message, parse_table, parsed, table_get, table_shape, value_as_array, value_as_str,
    value_as_table, value_shape, Shape,
};
use crate::error::{list_view, text_view, TaskError, TaskErrorView};
use crate::text::{join, same, texts};

verus! {

/// The name under which the tool itself is a member of the workspace.
pub open spec fn tool() -> Seq<char> {
    "xtask"@
}

/// The members of a workspace that are released, in the order in which the
/// workspace lists them: every member but the tool itself.
pub open spec fn release_plan(members: Seq<Seq<char>>) -> Seq<Seq<char>> {
    members.filter(|name: Seq<char>| name != tool())
}

/// The table under a key of a table, if one is there.
pub open spec fn section(table: Map<Seq<char>, Shape>, key: Seq<char>) -> Option<
    Map<Seq<char>, Shape>,
> {
    if table.contains_key(key) {
        match table[key] {
            Shape::Table(inner) => Some(inner),
            _ => None,
        }
    } else {
        None
    }
}

/// The string under a key of a table, if one is there.
pub open spec fn text_field(table: Map<Seq<char>, Shape>, key: Seq<char>) -> Option<Seq<char>> {
    if table.contains_key(key) {
        match table[key] {
            Shape::Text(text) => Some(text),
            _ => None,
        }
    } else {
        None
    }
}

/// The strings that a value lists, if it is a list of strings and nothing else.
pub open spec fn text_list(shape: Shape) -> Option<Seq<Seq<char>>> {
    match shape {
        Shape::List(items) => if forall|i: int| 0 <= i < items.len() ==> items[i] is Text {
            Some(
                items.map_values(
                    |item: Shape|
                        match item {
                            Shape::Text(text) => text,
                            _ => seq![],
                        },
                ),
            )
        } else {
            None
        },
        _ => None,
    }
}

/// The members that a workspace manifest declares: the list of strings
/// `workspace.members`.
pub open spec fn declared_members(document: Map<Seq<char>, Shape>) -> Option<Seq<Seq<char>>> {
    match section(document, "workspace"@) {
        Some(workspace) => if workspace.contains_key("members"@) {
            text_list(workspace["members"@])
        } else {
            None
        },
        None => None,
    }
}

/// The name and the version that a package manifest declares: the strings
/// `package.name` and `package.version`.
pub open spec fn declared_package(document: Map<Seq<char>, Shape>) -> Option<
    (Seq<char>, Seq<char>),
> {
    match section(document, "package"@) {
        Some(package) => match (text_field(package, "name"@), text_field(package, "version"@)) {
            (Some(name), Some(version)) => Some((name, version)),
            _ => None,
        },
        None => None,
    }
}

/// What a manifest without a list of members is reported with.
pub open spec fn members_fault() -> Seq<char> {
    "workspace.members is not a list of strings"@
}

/// What a manifest without a package name and version is reported with.
pub open spec fn package_fault() -> Seq<char> {
    "package.name and package.version are not both strings"@
}

/// The release plan that the text of a workspace manifest gives.
pub open spec fn resolve_members(manifest: Seq<char>) -> Result<Seq<Seq<char>>, TaskErrorView> {
    match parsed(manifest) {
        Err(message) => Err(TaskErrorView::ManifestParse(message)),
        Ok(document) => match declared_members(document) {
            None => Err(TaskErrorView::ManifestParse(members_fault())),
            Some(members) => Ok(release_plan(members)),
        },
    }
}

/// The version that a package has by a declared name and version.
pub open spec fn version_for(package: Seq<char>, name: Seq<char>, version: Seq<char>) -> Result<
    Seq<char>,
    TaskErrorView,
> {
    if name == package {
        Ok(version)
    } else {
        Err(TaskErrorView::ManifestMismatch { requested: package, declared: name })
    }
}

/// The version of a package that the text of its manifest gives.
pub open spec fn resolve_version(package: Seq<char>, manifest: Seq<char>) -> Result<
    Seq<char>,
    TaskErrorView,
> {
    match parsed(manifest) {
        Err(message) => Err(TaskErrorView::ManifestParse(message)),
        Ok(document) => match declared_package(document) {
            None => Err(TaskErrorView::ManifestParse(package_fault())),
            Some((name, version)) => version_for(package, name, version),
        },
    }
}

/// Where the manifest of the workspace lies.
pub open spec fn workspace_manifest() -> Seq<char> {
    "./Cargo.toml"@
}

/// Where the manifest of a package lies.
pub open spec fn package_manifest(package: Seq<char>) -> Seq<char> {
    "./"@ + package + "/Cargo.toml"@
}

/// Where the manifest of a package lies.
pub fn manifest_path(package: &str) -> (r: String)
    ensures
        r@ == package_manifest(package@),
{
    join("./", package).concat("/Cargo.toml")
}

/// The members that are released, in their order: every member but the tool itself.
pub fn publishable(members: Vec<String>) -> (plan: Vec<String>)
    ensures
        texts(plan@) == release_plan(texts(members@)),
        !texts(plan@).contains(tool()),
{
    let ghost keep = |name: Seq<char>| name != tool();
    let mut plan: Vec<String> = Vec::new();
    let mut i: usize = 0;
    proof {
        reveal(Seq::filter);
        assert(texts(members@).subrange(0, 0) =~= seq![]);
        assert(texts(plan@) =~= seq![]);
    }
    while i < members.len()
        invariant
            i <= members.len(),
            keep == |name: Seq<char>| name != tool(),
            texts(plan@) == texts(members@).subrange(0, i as int).filter(keep),
        decreases members.len() - i,
    {
        let ghost before = texts(members@).subrange(0, i as int);
        let ghost listed = texts(plan@);
        proof {
            assert(texts(members@).subrange(0, i + 1) =~= before.push(members[i as int]@));
            before.lemma_filter_push(members[i as int]@, keep);
        }
        if !same(members[i].as_str(), "xtask") {
            plan.push(members[i].clone());
            assert(texts(plan@) =~= listed.push(members[i as int]@));
        }
        i = i + 1;
    }
    proof {
        assert(texts(members@).subrange(0, i as int) =~= texts(members@));
        lemma_plan_excludes_tool(texts(members@));
    }
    plan
}

/// The tool itself is never in a release plan.
pub proof fn lemma_plan_excludes_tool(members: Seq<Seq<char>>)
    ensures
        !release_plan(members).contains(tool()),
{
    let keep = |name: Seq<char>| name != tool();
    if members.filter(keep).contains(tool()) {
        let i = choose|i: int| 0 <= i < members.filter(keep).len() && members.filter(keep)[i] == tool();
        members.lemma_filter_pred(keep, i);
    }
}

/// Parses the text of a manifest as a TOML document.
pub fn read_toml(manifest: &str) -> (r: Result<toml::Table, TaskError>)
    ensures
        match r {
            Ok(table) => parsed(manifest@) == Ok::<Map<Seq<char>, Shape>, Seq<char>>(
                table_shape(table),
            ),
            Err(error) => parsed(manifest@) matches Err(message) && error@
                == TaskErrorView::ManifestParse(message),
        },
{
    match parse_table(manifest) {
        Ok(table) => Ok(table),
        Err(error) => Err(TaskError::ManifestParse(error_message(&error))),
    }
}

/// The table under a key of a table, if one is there.
fn table_section<'a>(table: &'a toml::Table, key: &str) -> (r: Option<&'a toml::Table>)
    ensures
        match r {
            Some(inner) => section(table_shape(*table), key@) == Some(table_shape(*inner)),
            None => section(table_shape(*table), key@) is None,
        },
{
    match table_get(table, key) {
        Some(value) => value_as_table(value),
        None => None,
    }
}

/// The string under a key of a table, if one is there.
fn table_text(table: &toml::Table, key: &str) -> (r: Option<String>)
    ensures
        match r {
            Some(text) => text_field(table_shape(*table), key@) == Some(text@),
            None => text_field(table_shape(*table), key@) is None,
        },
{
    match table_get(table, key) {
        Some(value) => match value_as_str(value) {
            Some(text) => Some(String::from_str(text)),
            None => None,
        },
        None => None,
    }
}

/// The strings that a value lists, if it is a list of strings and nothing else.
fn value_texts(value: &toml::Value) -> (r: Option<Vec<String>>)
    ensures
        match r {
            Some(list) => text_list(value_shape(*value)) == Some(texts(list@)),
            None => text_list(value_shape(*value)) is None,
        },
{
    match value_as_array(value) {
        None => None,
        Some(items) => {
            let ghost shapes = items@.map_values(|item: toml::Value| value_shape(item));
            let mut list: Vec<String> = Vec::new();
            let mut i: usize = 0;
            while i < items.len()
                invariant
                    i <= items.len(),
                    shapes == items@.map_values(|item: toml::Value| value_shape(item)),
                    value_shape(*value) == Shape::List(shapes),
                    list.len() == i,
                    forall|j: int| 0 <= j < i ==> shapes[j] == Shape::Text(#[trigger] list[j]@),
                decreases items.len() - i,
            {
                match value_as_str(&items[i]) {
                    Some(text) => {
                        list.push(String::from_str(text));
                    },
                    None => {
                        assert(!(shapes[i as int] is Text));
                        return None;
                    },
                }
                i = i + 1;
            }
            proof {
                assert forall|j: int| 0 <= j < shapes.len() implies shapes[j] is Text by {
                    assert(shapes[j] == Shape::Text(list[j]@));
                }
                assert(text_list(value_shape(*value))->Some_0 =~= texts(list@));
            }
            Some(list)
        },
    }
}

/// The members that a workspace manifest declares.
pub fn members_in(document: &toml::Table) -> (r: Option<Vec<String>>)
    ensures
        match r {
            Some(members) => declared_members(table_shape(*document)) == Some(texts(members@)),
            None => declared_members(table_shape(*document)) is None,
        },
{
    match table_section(document, "workspace") {
        Some(workspace) => match table_get(workspace, "members") {
            Some(value) => value_texts(value),
            None => None,
        },
        None => None,
    }
}

/// The name and the version that a package manifest declares.
pub fn package_in(document: &toml::Table) -> (r: Option<(String, String)>)
    ensures
        match r {
            Some(found) => declared_package(table_shape(*document)) == Some((found.0@, found.1@)),
            None => declared_package(table_shape(*document)) is None,
        },
{
    match table_section(document, "package") {
        Some(package) => {
            let name = table_text(package, "name");
            let version = table_text(package, "version");
            match (name, version) {
                (Some(name), Some(version)) => Some((name, version)),
                _ => None,
            }
        },
        None => None,
    }
}

/// The version that a package has by the name and version that its manifest
/// declares: the declared version, unless the manifest declares another name.
pub fn checked_version(package: &str, name: String, version: String) -> (r: Result<
    String,
    TaskError,
>)
    ensures
        text_view(r) == version_for(package@, name@, version@),
{
    if same(name.as_str(), package) {
        Ok(version)
    } else {
        Err(TaskError::ManifestMismatch { requested: String::from_str(package), declared: name })
    }
}

/// The packages to release, in order, from the text of the workspace manifest:
/// the members it declares, without the tool itself.
pub fn default_members(manifest: &str) -> (r: Result<Vec<String>, TaskError>)
    ensures
        list_view(r) == resolve_members(manifest@),
        r matches Ok(plan) ==> !texts(plan@).contains(tool()),
{
    let document = match read_toml(manifest) {
        Ok(document) => document,
        Err(error) => {
            return Err(error);
        },
    };
    match members_in(&document) {
        Some(members) => Ok(publishable(members)),
        None => Err(
            TaskError::ManifestParse(
                String::from_str("workspace.members is not a list of strings"),
            ),
        ),
    }
}

/// The version of a package, from the text of its manifest. A manifest that
/// declares another name than the package's is a mismatch.
pub fn package_version(package: &str, manifest: &str) -> (r: Result<String, TaskError>)
    ensures
        text_view(r) == resolve_version(package@, manifest@),
        parsed(manifest@) matches Ok(document) && declared_package(document) matches Some(found)
            && found.0 != package@ ==> r matches Err(TaskError::ManifestMismatch { .. }),
{
    let document = match read_toml(manifest) {
        Ok(document) => document,
        Err(error) => {
            return Err(error);
        },
    };
    match package_in(&document) {
        Some((name, version)) => checked_version(package, name, version),
        None => Err(
            TaskError::ManifestParse(
                String::from_str("package.name and package.version are not both strings"),
            ),
        ),
    }
}

} // verus!
