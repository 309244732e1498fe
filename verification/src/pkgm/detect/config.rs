//! The detection rules: which marker files speak for which tool, and which
//! tool wins where several are spoken for.

use crate::pkgm::types::ManagerType;
use vstd::prelude::*;

verus! {

/// One rule: the marker files of a tool, and the tool's priority. Where the
/// markers of several tools are found, the lowest priority wins.
#[derive(Debug)]
pub struct DetectionConfig {
    pub manager_type: ManagerType,
    pub priority: u8,
    pub identifier_files: &'static [&'static str],
}

/// A rule with its file names as character sequences.
pub struct RuleView {
    pub manager_type: ManagerType,
    pub priority: u8,
    pub identifier_files: Seq<Seq<char>>,
}

/// The character sequences of a list of names, in order.
pub open spec fn names<'a>(files: Seq<&'a str>) -> Seq<Seq<char>> {
    Seq::new(files.len(), |i: int| files[i]@)
}

impl View for DetectionConfig {
    type V = RuleView;

    open spec fn view(&self) -> RuleView {
        RuleView {
            manager_type: self.manager_type,
            priority: self.priority,
            identifier_files: names(self.identifier_files@),
        }
    }
}

/// The views of a list of rules, in order.
pub open spec fn rule_views(rules: Seq<DetectionConfig>) -> Seq<RuleView> {
    Seq::new(rules.len(), |i: int| rules[i]@)
}

impl DetectionConfig {
    pub fn new(manager_type: ManagerType, priority: u8, files: &'static [&'static str]) -> (rule:
        Self)
        ensures
            rule.manager_type == manager_type,
            rule.priority == priority,
            rule.identifier_files == files,
    {
        Self { manager_type, priority, identifier_files: files }
    }
}

/// The built-in rules. By priority: Cargo, pnpm, Bun, npm, Yarn, pip, Poetry,
/// PDM.
pub open spec fn builtin_rules() -> Seq<RuleView> {
    seq![
        RuleView {
            manager_type: ManagerType::Cargo,
            priority: 0,
            identifier_files: seq!["Cargo.toml"@],
        },
        RuleView {
            manager_type: ManagerType::Pdm,
            priority: 7,
            identifier_files: seq!["pdm.lock"@, "pyproject.toml"@],
        },
        RuleView {
            manager_type: ManagerType::Poetry,
            priority: 6,
            identifier_files: seq!["pyproject.toml"@],
        },
        RuleView {
            manager_type: ManagerType::Pnpm,
            priority: 1,
            identifier_files: seq!["pnpm-lock.yaml"@],
        },
        RuleView {
            manager_type: ManagerType::Bun,
            priority: 2,
            identifier_files: seq!["bun.lock"@],
        },
        RuleView {
            manager_type: ManagerType::Yarn,
            priority: 4,
            identifier_files: seq!["yarn.lock"@],
        },
        RuleView {
            manager_type: ManagerType::Npm,
            priority: 3,
            identifier_files: seq!["package-lock.json"@],
        },
        RuleView {
            manager_type: ManagerType::Pip,
            priority: 5,
            identifier_files: seq!["requirements.txt"@],
        },
    ]
}

/// No two rules of a table have the same priority.
pub open spec fn distinct_priorities(rules: Seq<RuleView>) -> bool {
    forall|i: int, j: int|
        0 <= i < rules.len() && 0 <= j < rules.len() && i != j ==> rules[i].priority
            != rules[j].priority
}

/// The built-in rules give every tool a priority of its own.
pub proof fn lemma_builtin_priorities_distinct()
    ensures
        distinct_priorities(builtin_rules()),
{
}

/// The built-in rules, in the order of the table.
pub fn configurations() -> (rules: Vec<DetectionConfig>)
    ensures
        rule_views(rules@) == builtin_rules(),
{
    let mut rules: Vec<DetectionConfig> = Vec::new();
    let cargo: &'static [&'static str] = &["Cargo.toml"];
    let pdm: &'static [&'static str] = &["pdm.lock", "pyproject.toml"];
    let poetry: &'static [&'static str] = &["pyproject.toml"];
    let pnpm: &'static [&'static str] = &["pnpm-lock.yaml"];
    let bun: &'static [&'static str] = &["bun.lock"];
    let yarn: &'static [&'static str] = &["yarn.lock"];
    let npm: &'static [&'static str] = &["package-lock.json"];
    let pip: &'static [&'static str] = &["requirements.txt"];
    rules.push(DetectionConfig::new(ManagerType::Cargo, 0, cargo));
    rules.push(DetectionConfig::new(ManagerType::Pdm, 7, pdm));
    rules.push(DetectionConfig::new(ManagerType::Poetry, 6, poetry));
    rules.push(DetectionConfig::new(ManagerType::Pnpm, 1, pnpm));
    rules.push(DetectionConfig::new(ManagerType::Bun, 2, bun));
    rules.push(DetectionConfig::new(ManagerType::Yarn, 4, yarn));
    rules.push(DetectionConfig::new(ManagerType::Npm, 3, npm));
    rules.push(DetectionConfig::new(ManagerType::Pip, 5, pip));
    proof {
        let views = rule_views(rules@);
        let table = builtin_rules();
        assert(views.len() == table.len());
        assert forall|i: int| 0 <= i < views.len() implies views[i] == table[i] by {
            assert(views[i].identifier_files =~= table[i].identifier_files);
        }
        assert(views =~= table);
    }
    rules
}

} // verus!
