//! The default-features rule for the shared dependencies of a workspace.
use crate::node::{entry_value, Node};
use crate::toml_text::{parse_toml, toml_document};
use vstd::prelude::*;
use vstd::string::StringExecFns;

verus! {

/// Why a dependency entry breaks the rule that default features be off.
#[derive(Debug, Clone, Copy, PartialEq, Eq, Structural)]
pub enum Violation {
    /// The entry is a bare version string.
    SimpleVersion,
    /// The entry is neither a string nor a table.
    NotATable,
    /// The table has no `default-features` attribute.
    MissingDefaultFeatures,
    /// The table sets `default-features = true`.
    DefaultFeaturesTrue,
    /// `default-features` holds something other than a boolean.
    UnexpectedValue,
}

/// What stops the check of a whole manifest before any entry is looked at.
#[derive(Debug)]
pub enum ValidateError {
    /// The text is not TOML; the parser's own error is kept.
    Parse(toml::de::Error),
    /// There is no `[workspace]` section.
    NoWorkspace,
    /// `[workspace]` has no `dependencies` entry.
    NoDependencies,
    /// `workspace.dependencies` is not a table.
    DependenciesNotTable,
}

/// The verdict on one dependency entry: `None` when it turns default features off.
pub open spec fn violation_of(value: Node) -> Option<Violation> {
    match value {
        Node::Str(_) => Some(Violation::SimpleVersion),
        Node::Table(attrs) => match entry_value(attrs@, "default-features"@) {
            None => Some(Violation::MissingDefaultFeatures),
            Some(Node::Boolean(false)) => None,
            Some(Node::Boolean(true)) => Some(Violation::DefaultFeaturesTrue),
            Some(_) => Some(Violation::UnexpectedValue),
        },
        _ => Some(Violation::NotATable),
    }
}

/// The line reported for entry `name` with violation `v`.
pub open spec fn violation_message(name: Seq<char>, v: Violation) -> Seq<char> {
    "  - '"@ + name + "': "@ + v.spec_reason()
}

impl Violation {
    /// The reason, in words, for this violation.
    pub open spec fn spec_reason(self) -> Seq<char> {
        match self {
            Violation::SimpleVersion =>
                "uses simple version string, should be a table with default-features = false"@,
            Violation::NotATable => "dependency is not a table"@,
            Violation::MissingDefaultFeatures => "missing default-features = false"@,
            Violation::DefaultFeaturesTrue => "has default-features = true (must be false)"@,
            Violation::UnexpectedValue =>
                "default-features has unexpected value (must be boolean false)"@,
        }
    }

    /// The reason, in words, that a report gives for this violation.
    pub fn reason(&self) -> (r: &'static str)
        ensures
            r@ == self.spec_reason(),
    {
        match self {
            Violation::SimpleVersion =>
                "uses simple version string, should be a table with default-features = false",
            Violation::NotATable => "dependency is not a table",
            Violation::MissingDefaultFeatures => "missing default-features = false",
            Violation::DefaultFeaturesTrue => "has default-features = true (must be false)",
            Violation::UnexpectedValue =>
                "default-features has unexpected value (must be boolean false)",
        }
    }

    /// The report line for entry `name`: its name in quotes, then the reason.
    pub fn message(&self, name: &str) -> (r: String)
        ensures
            r@ == violation_message(name@, *self),
    {
        let mut line = String::from_str("  - '");
        line.append(name);
        line.append("': ");
        line.append(self.reason());
        line
    }
}

/// Classifies one dependency entry.
///
/// A bare string, a table without `default-features`, a table with
/// `default-features = true` or with a non-boolean there, and any other kind of
/// value each give their own violation; only a table with
/// `default-features = false` passes, whatever else it holds.
pub fn classify(value: &Node) -> (r: Option<Violation>)
    ensures
        r == violation_of(*value),
        value.spec_get("default-features"@) == Some(Node::Boolean(false)) ==> r is None,
        *value is Str ==> r == Some(Violation::SimpleVersion),
        (*value is Table && value.spec_get("default-features"@) is None) ==> r == Some(
            Violation::MissingDefaultFeatures,
        ),
        value.spec_get("default-features"@) == Some(Node::Boolean(true)) ==> r == Some(
            Violation::DefaultFeaturesTrue,
        ),
        (value.spec_get("default-features"@) is Some && !(value.spec_get(
            "default-features"@,
        )->0 is Boolean)) ==> r == Some(Violation::UnexpectedValue),
        !(*value is Str || *value is Table) ==> r == Some(Violation::NotATable),
{
    match value {
        Node::Str(_) => Some(Violation::SimpleVersion),
        Node::Table(_) => match value.get("default-features") {
            None => Some(Violation::MissingDefaultFeatures),
            Some(Node::Boolean(false)) => None,
            Some(Node::Boolean(true)) => Some(Violation::DefaultFeaturesTrue),
            Some(_) => Some(Violation::UnexpectedValue),
        },
        _ => Some(Violation::NotATable),
    }
}

/// Checks one dependency entry named `name`: `Ok` when it turns default
/// features off, else the report line for it.
pub fn validate_dependency(name: &str, value: &Node) -> (r: Result<(), String>)
    ensures
        r is Ok <==> violation_of(*value) is None,
        r is Err ==> r->Err_0@ == violation_message(name@, violation_of(*value)->0),
{
    match classify(value) {
        None => Ok(()),
        Some(v) => Err(v.message(name)),
    }
}

impl ValidateError {
    /// The message for this error.
    pub open spec fn spec_message(self) -> Seq<char> {
        match self {
            ValidateError::Parse(_) => "Failed to parse Cargo.toml"@,
            ValidateError::NoWorkspace => "No [workspace] section found"@,
            ValidateError::NoDependencies => "No [workspace.dependencies] section found"@,
            ValidateError::DependenciesNotTable => "[workspace.dependencies] is not a table"@,
        }
    }

    /// What went wrong, in words; for a parse error the parser's own account
    /// is in the kept `toml::de::Error`.
    pub fn message(&self) -> (r: &'static str)
        ensures
            r@ == self.spec_message(),
    {
        match self {
            ValidateError::Parse(_) => "Failed to parse Cargo.toml",
            ValidateError::NoWorkspace => "No [workspace] section found",
            ValidateError::NoDependencies => "No [workspace.dependencies] section found",
            ValidateError::DependenciesNotTable => "[workspace.dependencies] is not a table",
        }
    }
}

/// The entries of `workspace.dependencies` in document `doc`, or the reason
/// there are none to check.
pub open spec fn dependency_table(doc: Node) -> Result<Seq<(String, Node)>, ValidateError> {
    match doc.spec_get("workspace"@) {
        None => Err(ValidateError::NoWorkspace),
        Some(workspace) => match workspace.spec_get("dependencies"@) {
            None => Err(ValidateError::NoDependencies),
            Some(Node::Table(entries)) => Ok(entries@),
            Some(_) => Err(ValidateError::DependenciesNotTable),
        },
    }
}

/// Whether `name` is one of `exceptions`.
pub open spec fn is_exempt(exceptions: Seq<String>, name: Seq<char>) -> bool {
    exists|j: int| 0 <= j < exceptions.len() && exceptions[j]@ == name
}

/// The report lines for `entries`, in their order: one for each entry that
/// is not exempt and breaks the rule.
pub open spec fn violations_of(entries: Seq<(String, Node)>, exceptions: Seq<String>) -> Seq<
    Seq<char>,
>
    decreases entries.len(),
{
    if entries.len() == 0 {
        Seq::empty()
    } else {
        let earlier = violations_of(entries.drop_last(), exceptions);
        let (name, value) = entries.last();
        if is_exempt(exceptions, name@) {
            earlier
        } else {
            match violation_of(value) {
                None => earlier,
                Some(v) => earlier.push(violation_message(name@, v)),
            }
        }
    }
}

/// The names of `entries`, in their order.
pub open spec fn entry_names(entries: Seq<(String, Node)>) -> Seq<Seq<char>> {
    entries.map_values(|e: (String, Node)| e.0@)
}

/// What checking document `doc` gives: the report lines and the names found,
/// or the error that stops it.
pub open spec fn spec_validate(doc: Node, exceptions: Seq<String>) -> Result<
    (Seq<Seq<char>>, Seq<Seq<char>>),
    ValidateError,
> {
    match dependency_table(doc) {
        Ok(entries) => Ok((violations_of(entries, exceptions), entry_names(entries))),
        Err(e) => Err(e),
    }
}

/// The view of a result of a check.
pub open spec fn result_view(r: Result<(Vec<String>, Vec<String>), ValidateError>) -> Result<
    (Seq<Seq<char>>, Seq<Seq<char>>),
    ValidateError,
> {
    match r {
        Ok((violations, found)) => Ok((violations.deep_view(), found.deep_view())),
        Err(e) => Err(e),
    }
}

fn is_listed(exceptions: &[String], name: &String) -> (r: bool)
    ensures
        r == is_exempt(exceptions@, name@),
{
    let mut j: usize = 0;
    while j < exceptions.len()
        invariant
            0 <= j <= exceptions.len(),
            forall|k: int| 0 <= k < j ==> exceptions@[k]@ != name@,
        decreases exceptions.len() - j,
    {
        if exceptions[j] == *name {
            return true;
        }
        j = j + 1;
    }
    false
}

/// Checks the shared dependencies of a parsed manifest.
///
/// Every entry of `workspace.dependencies` is named in the second list, in
/// order; each that is not in `exceptions` and breaks the rule gives one line
/// of the first, in the same order.
pub fn validate_document(doc: &Node, exceptions: &[String]) -> (r: Result<
    (Vec<String>, Vec<String>),
    ValidateError,
>)
    ensures
        result_view(r) == spec_validate(*doc, exceptions@),
        r is Ok ==> r->Ok_0.1@.len() == dependency_table(*doc)->Ok_0.len(),
        dependency_table(*doc) == Ok::<Seq<(String, Node)>, ValidateError>(Seq::empty()) ==> (
        r is Ok && r->Ok_0.0@.len() == 0 && r->Ok_0.1@.len() == 0),
        (doc.spec_get("workspace"@) is None || doc.spec_get("workspace"@)->0.spec_get(
            "dependencies"@,
        ) is None) ==> r is Err,
{
    let workspace = match doc.get("workspace") {
        Some(w) => w,
        None => return Err(ValidateError::NoWorkspace),
    };
    let dependencies = match workspace.get("dependencies") {
        Some(d) => d,
        None => return Err(ValidateError::NoDependencies),
    };
    let entries = match dependencies.as_table() {
        Some(t) => t,
        None => return Err(ValidateError::DependenciesNotTable),
    };
    let mut violations: Vec<String> = Vec::new();
    let mut found: Vec<String> = Vec::new();
    let mut i: usize = 0;
    while i < entries.len()
        invariant
            0 <= i <= entries.len(),
            dependency_table(*doc) == Ok::<Seq<(String, Node)>, ValidateError>(entries@),
            violations.deep_view() == violations_of(entries@.take(i as int), exceptions@),
            found.deep_view() == entry_names(entries@.take(i as int)),
        decreases entries.len() - i,
    {
        let name = &entries[i].0;
        let value = &entries[i].1;
        assert(entries@.take(i as int + 1).drop_last() =~= entries@.take(i as int));
        assert(entries@.take(i as int + 1).last() == entries@[i as int]);
        let ghost before = violations.deep_view();
        let ghost found_before = found.deep_view();
        found.push(name.clone());
        assert(found.deep_view() =~= found_before.push(name@));
        if !is_listed(exceptions, name) {
            match validate_dependency(name.as_str(), value) {
                Ok(()) => {},
                Err(line) => {
                    let ghost line_view = line@;
                    violations.push(line);
                    assert(violations.deep_view() =~= before.push(line_view));
                },
            }
        }
        assert(found.deep_view() =~= entry_names(entries@.take(i as int + 1)));
        i = i + 1;
    }
    assert(entries@.take(entries.len() as int) =~= entries@);
    Ok((violations, found))
}

/// Parses TOML text into a document tree.
pub fn parse_document(text: &str) -> (r: Result<Node, ValidateError>)
    ensures
        match toml_document(text@) {
            Some(doc) => r == Ok::<Node, ValidateError>(doc),
            None => r matches Err(ValidateError::Parse(_)),
        },
{
    match parse_toml(text) {
        Ok(doc) => Ok(doc),
        Err(e) => Err(ValidateError::Parse(e)),
    }
}

/// Checks the shared dependencies of the manifest `content`: parses it, then
/// proceeds as `validate_document`. Text that is not TOML is an error before
/// any entry is looked at.
pub fn validate_workspace_dependencies(content: &str, exceptions: &[String]) -> (r: Result<
    (Vec<String>, Vec<String>),
    ValidateError,
>)
    ensures
        match toml_document(content@) {
            Some(doc) => result_view(r) == spec_validate(doc, exceptions@),
            None => r matches Err(ValidateError::Parse(_)),
        },
{
    let doc = parse_document(content)?;
    validate_document(&doc, exceptions)
}

/// An exempt entry never gives a report line: checking a table with
/// exceptions gives exactly the lines of the same table, without exceptions,
/// from which the exempt entries have been left out. (The names found do not
/// depend on the exceptions at all: see `entry_names`.)
pub proof fn exempt_entries_contribute_nothing(
    entries: Seq<(String, Node)>,
    exceptions: Seq<String>,
)
    ensures
        violations_of(entries, exceptions) == violations_of(
            entries.filter(|e: (String, Node)| !is_exempt(exceptions, e.0@)),
            Seq::empty(),
        ),
    decreases entries.len(),
{
    reveal(Seq::filter);
    let keep = |e: (String, Node)| !is_exempt(exceptions, e.0@);
    if entries.len() > 0 {
        exempt_entries_contribute_nothing(entries.drop_last(), exceptions);
        let kept = entries.drop_last().filter(keep);
        let last = entries.last();
        assert(entries.filter(keep) == (if keep(last) { kept.push(last) } else { kept }));
        if keep(last) {
            assert(kept.push(last).drop_last() =~= kept);
            assert(!is_exempt(Seq::<String>::empty(), last.0@));
        }
    }
}

} // verus!
