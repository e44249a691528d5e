//! Risk assessment of approval requests: shell commands are screened for
//! destructive or privilege-raising patterns.

use crate::approval::{ApprovalRiskLevel, ApprovalType};
use crate::text::{
    chars_contain, concat3, has_infix, opt_str_view, opt_string_view, spec_to_lowercase,
    strings_contain, strs_view, to_chars, to_lowercase, trim_non_empty, trimmed_non_empty,
};
use vstd::prelude::*;

verus! {

/// The number of shell risk rules.
pub const RISK_RULE_COUNT: usize = 18;

/// The pattern of risk rule `k`, searched in the padded lower-case command.
pub open spec fn rule_pattern(k: int) -> Seq<char> {
    if k == 0 { " sudo "@ }
    else if k == 1 { " rm -rf"@ }
    else if k == 2 { " rm -fr"@ }
    else if k == 3 { " git reset --hard"@ }
    else if k == 4 { " git clean -fd"@ }
    else if k == 5 { " git clean -xdf"@ }
    else if k == 6 { " git push --force"@ }
    else if k == 7 { " git push -f"@ }
    else if k == 8 { " drop table"@ }
    else if k == 9 { " drop database"@ }
    else if k == 10 { " truncate table"@ }
    else if k == 11 { " chmod 777"@ }
    else if k == 12 { " curl | sh"@ }
    else if k == 13 { " wget | sh"@ }
    else if k == 14 { " dd if="@ }
    else if k == 15 { " > /dev/"@ }
    else if k == 16 { " mkfs"@ }
    else { ":(){ :|:& };:"@ }
}

/// The finding reported when risk rule `k` matches.
pub open spec fn rule_finding(k: int) -> Seq<char> {
    if k == 0 { "Uses elevated privileges via sudo."@ }
    else if k == 1 { "Deletes files recursively with rm -rf."@ }
    else if k == 2 { "Deletes files recursively with rm -fr."@ }
    else if k == 3 { "Performs hard git reset and discards local changes."@ }
    else if k == 4 { "Deletes untracked files with git clean -fd."@ }
    else if k == 5 { "Deletes ignored and untracked files with git clean -xdf."@ }
    else if k == 6 { "Force-pushes git history."@ }
    else if k == 7 { "Force-pushes git history."@ }
    else if k == 8 { "Contains SQL DROP TABLE statement."@ }
    else if k == 9 { "Contains SQL DROP DATABASE statement."@ }
    else if k == 10 { "Contains SQL TRUNCATE TABLE statement."@ }
    else if k == 11 { "Sets permissive file mode (chmod 777)."@ }
    else if k == 12 { "Pipes remote script directly into shell (curl | sh)."@ }
    else if k == 13 { "Pipes remote script directly into shell (wget | sh)."@ }
    else if k == 14 { "Uses dd with direct device/file writes."@ }
    else if k == 15 { "Writes output directly to a /dev device path."@ }
    else if k == 16 { "Formats a filesystem with mkfs."@ }
    else { "Contains a shell fork bomb signature."@ }
}

fn risk_rule(k: usize) -> (r: (&'static str, &'static str))
    requires
        k < RISK_RULE_COUNT,
    ensures
        r.0@ == rule_pattern(k as int),
        r.1@ == rule_finding(k as int),
{
    match k {
        0 => (" sudo ", "Uses elevated privileges via sudo."),
        1 => (" rm -rf", "Deletes files recursively with rm -rf."),
        2 => (" rm -fr", "Deletes files recursively with rm -fr."),
        3 => (" git reset --hard", "Performs hard git reset and discards local changes."),
        4 => (" git clean -fd", "Deletes untracked files with git clean -fd."),
        5 => (" git clean -xdf", "Deletes ignored and untracked files with git clean -xdf."),
        6 => (" git push --force", "Force-pushes git history."),
        7 => (" git push -f", "Force-pushes git history."),
        8 => (" drop table", "Contains SQL DROP TABLE statement."),
        9 => (" drop database", "Contains SQL DROP DATABASE statement."),
        10 => (" truncate table", "Contains SQL TRUNCATE TABLE statement."),
        11 => (" chmod 777", "Sets permissive file mode (chmod 777)."),
        12 => (" curl | sh", "Pipes remote script directly into shell (curl | sh)."),
        13 => (" wget | sh", "Pipes remote script directly into shell (wget | sh)."),
        14 => (" dd if=", "Uses dd with direct device/file writes."),
        15 => (" > /dev/", "Writes output directly to a /dev device path."),
        16 => (" mkfs", "Formats a filesystem with mkfs."),
        _ => (":(){ :|:& };:", "Contains a shell fork bomb signature."),
    }
}

/// The findings of the first `k` rules on a normalized command, each
/// distinct finding once, in rule order.
pub open spec fn findings_upto(cmd: Seq<char>, k: int) -> Seq<Seq<char>>
    decreases k,
{
    if k <= 0 {
        Seq::empty()
    } else {
        let prev = findings_upto(cmd, k - 1);
        if has_infix(cmd, rule_pattern(k - 1)) && !prev.contains(rule_finding(k - 1)) {
            prev.push(rule_finding(k - 1))
        } else {
            prev
        }
    }
}

/// The command as the risk rules read it: trimmed, lower-cased and padded
/// with one space on each side; `None` when blank or absent.
pub open spec fn normalized_for_risk(command: Option<Seq<char>>) -> Option<Seq<char>> {
    match trimmed_non_empty(command) {
        Some(t) => Some(" "@ + spec_to_lowercase(t) + " "@),
        None => None,
    }
}

proof fn lemma_findings_distinct(cmd: Seq<char>, k: int)
    ensures
        findings_upto(cmd, k).no_duplicates(),
    decreases k,
{
    if k > 0 {
        lemma_findings_distinct(cmd, k - 1);
        let prev = findings_upto(cmd, k - 1);
        if has_infix(cmd, rule_pattern(k - 1)) && !prev.contains(rule_finding(k - 1)) {
            let next = prev.push(rule_finding(k - 1));
            assert forall|i: int, j: int|
                0 <= i < next.len() && 0 <= j < next.len() && i != j implies next[i] != next[j] by {
                if i < prev.len() && j < prev.len() {
                } else if i < prev.len() {
                    assert(prev.contains(prev[i]));
                } else {
                    assert(prev.contains(prev[j]));
                }
            }
        }
    }
}

/// The risk level and findings of a request.
pub open spec fn risk_of(
    approval_type: ApprovalType,
    command: Option<Seq<char>>,
) -> (ApprovalRiskLevel, Seq<Seq<char>>) {
    match approval_type {
        ApprovalType::Question => (ApprovalRiskLevel::Low, Seq::empty()),
        ApprovalType::Permissions | ApprovalType::Patch => (ApprovalRiskLevel::Normal, Seq::empty()),
        ApprovalType::Exec => match normalized_for_risk(command) {
            None => (ApprovalRiskLevel::Normal, Seq::empty()),
            Some(cmd) => command_risk(cmd),
        },
    }
}

/// The risk of a shell command already trimmed, lower-cased and padded
/// with a space at each end: the findings of every rule whose pattern it
/// contains, each once, in rule order; high risk when there is any.
pub open spec fn command_risk(cmd: Seq<char>) -> (ApprovalRiskLevel, Seq<Seq<char>>) {
    let findings = findings_upto(cmd, RISK_RULE_COUNT as int);
    (
        if findings.len() == 0 {
            ApprovalRiskLevel::Normal
        } else {
            ApprovalRiskLevel::High
        },
        findings,
    )
}

proof fn lemma_findings_include(cmd: Seq<char>, k: int, j: int)
    requires
        0 <= j < k,
        has_infix(cmd, rule_pattern(j)),
    ensures
        findings_upto(cmd, k).contains(rule_finding(j)),
    decreases k,
{
    let prev = findings_upto(cmd, k - 1);
    if j < k - 1 {
        lemma_findings_include(cmd, k - 1, j);
        let i = choose|i: int| 0 <= i < prev.len() && prev[i] == rule_finding(j);
        if has_infix(cmd, rule_pattern(k - 1)) && !prev.contains(rule_finding(k - 1)) {
            assert(prev.push(rule_finding(k - 1))[i] == rule_finding(j));
        }
    } else if !prev.contains(rule_finding(j)) {
        assert(findings_upto(cmd, k) == prev.push(rule_finding(j)));
        assert(prev.push(rule_finding(j))[prev.len() as int] == rule_finding(j));
    }
}

proof fn lemma_findings_come_from_rules(cmd: Seq<char>, k: int, x: Seq<char>)
    requires
        findings_upto(cmd, k).contains(x),
    ensures
        exists|j: int| 0 <= j < k && rule_finding(j) == x && has_infix(cmd, rule_pattern(j)),
    decreases k,
{
    if k > 0 {
        let prev = findings_upto(cmd, k - 1);
        if prev.contains(x) {
            lemma_findings_come_from_rules(cmd, k - 1, x);
        } else {
            assert(has_infix(cmd, rule_pattern(k - 1)) && !prev.contains(rule_finding(k - 1)));
            let i = choose|i: int| 0 <= i < findings_upto(cmd, k).len() && findings_upto(cmd, k)[i] == x;
            assert(i == prev.len());
            assert(x == rule_finding(k - 1));
        }
    }
}

/// Each risk rule names the destructive command its finding describes: in
/// a normalized command (trimmed, lower-cased, padded with a space at each
/// end), each pattern below brings its finding, and every finding comes
/// from a pattern the command contains. The command is high risk exactly
/// when it contains one of the patterns.
pub proof fn law_risk_rules_name_their_commands(cmd: Seq<char>)
    ensures
        has_infix(cmd, " sudo "@) ==> command_risk(cmd).1.contains("Uses elevated privileges via sudo."@),
        has_infix(cmd, " rm -rf"@) ==> command_risk(cmd).1.contains("Deletes files recursively with rm -rf."@),
        has_infix(cmd, " rm -fr"@) ==> command_risk(cmd).1.contains("Deletes files recursively with rm -fr."@),
        has_infix(cmd, " git reset --hard"@) ==> command_risk(cmd).1.contains("Performs hard git reset and discards local changes."@),
        has_infix(cmd, " git clean -fd"@) ==> command_risk(cmd).1.contains("Deletes untracked files with git clean -fd."@),
        has_infix(cmd, " git clean -xdf"@) ==> command_risk(cmd).1.contains("Deletes ignored and untracked files with git clean -xdf."@),
        has_infix(cmd, " git push --force"@) ==> command_risk(cmd).1.contains("Force-pushes git history."@),
        has_infix(cmd, " git push -f"@) ==> command_risk(cmd).1.contains("Force-pushes git history."@),
        has_infix(cmd, " drop table"@) ==> command_risk(cmd).1.contains("Contains SQL DROP TABLE statement."@),
        has_infix(cmd, " drop database"@) ==> command_risk(cmd).1.contains("Contains SQL DROP DATABASE statement."@),
        has_infix(cmd, " truncate table"@) ==> command_risk(cmd).1.contains("Contains SQL TRUNCATE TABLE statement."@),
        has_infix(cmd, " chmod 777"@) ==> command_risk(cmd).1.contains("Sets permissive file mode (chmod 777)."@),
        has_infix(cmd, " curl | sh"@) ==> command_risk(cmd).1.contains("Pipes remote script directly into shell (curl | sh)."@),
        has_infix(cmd, " wget | sh"@) ==> command_risk(cmd).1.contains("Pipes remote script directly into shell (wget | sh)."@),
        has_infix(cmd, " dd if="@) ==> command_risk(cmd).1.contains("Uses dd with direct device/file writes."@),
        has_infix(cmd, " > /dev/"@) ==> command_risk(cmd).1.contains("Writes output directly to a /dev device path."@),
        has_infix(cmd, " mkfs"@) ==> command_risk(cmd).1.contains("Formats a filesystem with mkfs."@),
        has_infix(cmd, ":(){ :|:& };:"@) ==> command_risk(cmd).1.contains("Contains a shell fork bomb signature."@),
        forall|x: Seq<char>| #[trigger] command_risk(cmd).1.contains(x) ==> {
            ||| (x == "Uses elevated privileges via sudo."@ && has_infix(cmd, " sudo "@))
            ||| (x == "Deletes files recursively with rm -rf."@ && has_infix(cmd, " rm -rf"@))
            ||| (x == "Deletes files recursively with rm -fr."@ && has_infix(cmd, " rm -fr"@))
            ||| (x == "Performs hard git reset and discards local changes."@ && has_infix(cmd, " git reset --hard"@))
            ||| (x == "Deletes untracked files with git clean -fd."@ && has_infix(cmd, " git clean -fd"@))
            ||| (x == "Deletes ignored and untracked files with git clean -xdf."@ && has_infix(cmd, " git clean -xdf"@))
            ||| (x == "Force-pushes git history."@ && has_infix(cmd, " git push --force"@))
            ||| (x == "Force-pushes git history."@ && has_infix(cmd, " git push -f"@))
            ||| (x == "Contains SQL DROP TABLE statement."@ && has_infix(cmd, " drop table"@))
            ||| (x == "Contains SQL DROP DATABASE statement."@ && has_infix(cmd, " drop database"@))
            ||| (x == "Contains SQL TRUNCATE TABLE statement."@ && has_infix(cmd, " truncate table"@))
            ||| (x == "Sets permissive file mode (chmod 777)."@ && has_infix(cmd, " chmod 777"@))
            ||| (x == "Pipes remote script directly into shell (curl | sh)."@ && has_infix(cmd, " curl | sh"@))
            ||| (x == "Pipes remote script directly into shell (wget | sh)."@ && has_infix(cmd, " wget | sh"@))
            ||| (x == "Uses dd with direct device/file writes."@ && has_infix(cmd, " dd if="@))
            ||| (x == "Writes output directly to a /dev device path."@ && has_infix(cmd, " > /dev/"@))
            ||| (x == "Formats a filesystem with mkfs."@ && has_infix(cmd, " mkfs"@))
            ||| (x == "Contains a shell fork bomb signature."@ && has_infix(cmd, ":(){ :|:& };:"@))
        },
        (command_risk(cmd).0 == ApprovalRiskLevel::High) <==> (has_infix(cmd, " sudo "@) || has_infix(cmd, " rm -rf"@) || has_infix(cmd, " rm -fr"@) || has_infix(cmd, " git reset --hard"@) || has_infix(cmd, " git clean -fd"@) || has_infix(cmd, " git clean -xdf"@) || has_infix(cmd, " git push --force"@) || has_infix(cmd, " git push -f"@) || has_infix(cmd, " drop table"@) || has_infix(cmd, " drop database"@) || has_infix(cmd, " truncate table"@) || has_infix(cmd, " chmod 777"@) || has_infix(cmd, " curl | sh"@) || has_infix(cmd, " wget | sh"@) || has_infix(cmd, " dd if="@) || has_infix(cmd, " > /dev/"@) || has_infix(cmd, " mkfs"@) || has_infix(cmd, ":(){ :|:& };:"@)),
{
    assert(rule_pattern(0) == " sudo "@ && rule_finding(0) == "Uses elevated privileges via sudo."@);
    assert(rule_pattern(1) == " rm -rf"@ && rule_finding(1) == "Deletes files recursively with rm -rf."@);
    assert(rule_pattern(2) == " rm -fr"@ && rule_finding(2) == "Deletes files recursively with rm -fr."@);
    assert(rule_pattern(3) == " git reset --hard"@ && rule_finding(3) == "Performs hard git reset and discards local changes."@);
    assert(rule_pattern(4) == " git clean -fd"@ && rule_finding(4) == "Deletes untracked files with git clean -fd."@);
    assert(rule_pattern(5) == " git clean -xdf"@ && rule_finding(5) == "Deletes ignored and untracked files with git clean -xdf."@);
    assert(rule_pattern(6) == " git push --force"@ && rule_finding(6) == "Force-pushes git history."@);
    assert(rule_pattern(7) == " git push -f"@ && rule_finding(7) == "Force-pushes git history."@);
    assert(rule_pattern(8) == " drop table"@ && rule_finding(8) == "Contains SQL DROP TABLE statement."@);
    assert(rule_pattern(9) == " drop database"@ && rule_finding(9) == "Contains SQL DROP DATABASE statement."@);
    assert(rule_pattern(10) == " truncate table"@ && rule_finding(10) == "Contains SQL TRUNCATE TABLE statement."@);
    assert(rule_pattern(11) == " chmod 777"@ && rule_finding(11) == "Sets permissive file mode (chmod 777)."@);
    assert(rule_pattern(12) == " curl | sh"@ && rule_finding(12) == "Pipes remote script directly into shell (curl | sh)."@);
    assert(rule_pattern(13) == " wget | sh"@ && rule_finding(13) == "Pipes remote script directly into shell (wget | sh)."@);
    assert(rule_pattern(14) == " dd if="@ && rule_finding(14) == "Uses dd with direct device/file writes."@);
    assert(rule_pattern(15) == " > /dev/"@ && rule_finding(15) == "Writes output directly to a /dev device path."@);
    assert(rule_pattern(16) == " mkfs"@ && rule_finding(16) == "Formats a filesystem with mkfs."@);
    assert(rule_pattern(17) == ":(){ :|:& };:"@ && rule_finding(17) == "Contains a shell fork bomb signature."@);
    assert forall|j: int| 0 <= j < 18 && has_infix(cmd, #[trigger] rule_pattern(j)) implies command_risk(
        cmd,
    ).1.contains(rule_finding(j)) by {
        lemma_findings_include(cmd, RISK_RULE_COUNT as int, j);
    }
    assert forall|x: Seq<char>| #[trigger] command_risk(cmd).1.contains(x) implies {
            ||| (x == "Uses elevated privileges via sudo."@ && has_infix(cmd, " sudo "@))
            ||| (x == "Deletes files recursively with rm -rf."@ && has_infix(cmd, " rm -rf"@))
            ||| (x == "Deletes files recursively with rm -fr."@ && has_infix(cmd, " rm -fr"@))
            ||| (x == "Performs hard git reset and discards local changes."@ && has_infix(cmd, " git reset --hard"@))
            ||| (x == "Deletes untracked files with git clean -fd."@ && has_infix(cmd, " git clean -fd"@))
            ||| (x == "Deletes ignored and untracked files with git clean -xdf."@ && has_infix(cmd, " git clean -xdf"@))
            ||| (x == "Force-pushes git history."@ && has_infix(cmd, " git push --force"@))
            ||| (x == "Force-pushes git history."@ && has_infix(cmd, " git push -f"@))
            ||| (x == "Contains SQL DROP TABLE statement."@ && has_infix(cmd, " drop table"@))
            ||| (x == "Contains SQL DROP DATABASE statement."@ && has_infix(cmd, " drop database"@))
            ||| (x == "Contains SQL TRUNCATE TABLE statement."@ && has_infix(cmd, " truncate table"@))
            ||| (x == "Sets permissive file mode (chmod 777)."@ && has_infix(cmd, " chmod 777"@))
            ||| (x == "Pipes remote script directly into shell (curl | sh)."@ && has_infix(cmd, " curl | sh"@))
            ||| (x == "Pipes remote script directly into shell (wget | sh)."@ && has_infix(cmd, " wget | sh"@))
            ||| (x == "Uses dd with direct device/file writes."@ && has_infix(cmd, " dd if="@))
            ||| (x == "Writes output directly to a /dev device path."@ && has_infix(cmd, " > /dev/"@))
            ||| (x == "Formats a filesystem with mkfs."@ && has_infix(cmd, " mkfs"@))
            ||| (x == "Contains a shell fork bomb signature."@ && has_infix(cmd, ":(){ :|:& };:"@))
    } by {
        lemma_findings_come_from_rules(cmd, RISK_RULE_COUNT as int, x);
        let j = choose|j: int| 0 <= j < 18 && rule_finding(j) == x && has_infix(cmd, rule_pattern(j));
        assert(0 <= j < 18);
    }
    let f = command_risk(cmd).1;
    if f.len() > 0 {
        assert(f.contains(f[0]));
    }
}

/// A request is rated high risk exactly when it carries findings; only shell
/// commands carry findings, and none is listed twice.
pub proof fn law_high_risk_iff_findings(approval_type: ApprovalType, command: Option<Seq<char>>)
    ensures
        (risk_of(approval_type, command).0 == ApprovalRiskLevel::High) <==> risk_of(
            approval_type,
            command,
        ).1.len() > 0,
        risk_of(approval_type, command).1.len() > 0 ==> approval_type is Exec,
        risk_of(approval_type, command).1.no_duplicates(),
{
    if let Some(cmd) = normalized_for_risk(command) {
        lemma_findings_distinct(cmd, RISK_RULE_COUNT as int);
    }
}

/// The risk level of a request and the findings behind it.
#[derive(Debug, Clone)]
pub struct ApprovalRiskAssessment {
    pub level: ApprovalRiskLevel,
    pub findings: Vec<String>,
}

fn normalize_command_for_risk(command: Option<&str>) -> (r: Option<String>)
    ensures
        opt_string_view(r) == normalized_for_risk(opt_str_view(command)),
{
    match trim_non_empty(command) {
        None => None,
        Some(t) => {
            let lower = to_lowercase(t.as_str());
            Some(concat3(" ", lower.as_str(), " "))
        },
    }
}

/// Assesses a shell command already trimmed, lower-cased and padded with a
/// space at each end, as `assess_approval_risk` does after normalizing it.
pub fn assess_normalized_command(normalized: &str) -> (r: ApprovalRiskAssessment)
    ensures
        (r.level, strs_view(r.findings@)) == command_risk(normalized@),
{
    let cmd = to_chars(normalized);
    let mut findings: Vec<String> = Vec::new();
    let mut k: usize = 0;
    while k < RISK_RULE_COUNT
        invariant
            k <= RISK_RULE_COUNT,
            cmd@ == normalized@,
            strs_view(findings@) == findings_upto(normalized@, k as int),
        decreases RISK_RULE_COUNT - k,
    {
        let (pattern, finding) = risk_rule(k);
        let pat = to_chars(pattern);
        if chars_contain(cmd.as_slice(), pat.as_slice()) {
            if !strings_contain(&findings, finding) {
                let ghost before = strs_view(findings@);
                findings.push(finding.to_string());
                assert(strs_view(findings@) =~= before.push(finding@));
            }
        }
        k = k + 1;
    }
    let level = if findings.len() == 0 {
        ApprovalRiskLevel::Normal
    } else {
        ApprovalRiskLevel::High
    };
    ApprovalRiskAssessment { level, findings }
}

/// Assesses how risky a request is; only shell commands can carry findings.
pub fn assess_approval_risk(approval_type: ApprovalType, command: Option<&str>) -> (r:
    ApprovalRiskAssessment)
    ensures
        (r.level, strs_view(r.findings@)) == risk_of(approval_type, opt_str_view(command)),
{
    match approval_type {
        ApprovalType::Question => {
            let r = ApprovalRiskAssessment { level: ApprovalRiskLevel::Low, findings: Vec::new() };
            assert(strs_view(r.findings@) =~= Seq::<Seq<char>>::empty());
            r
        },
        ApprovalType::Permissions | ApprovalType::Patch => {
            let r = ApprovalRiskAssessment {
                level: ApprovalRiskLevel::Normal,
                findings: Vec::new(),
            };
            assert(strs_view(r.findings@) =~= Seq::<Seq<char>>::empty());
            r
        },
        ApprovalType::Exec => {
            let normalized = match normalize_command_for_risk(command) {
                None => {
                    let r = ApprovalRiskAssessment {
                        level: ApprovalRiskLevel::Normal,
                        findings: Vec::new(),
                    };
                    assert(strs_view(r.findings@) =~= Seq::<Seq<char>>::empty());
                    return r;
                },
                Some(n) => n,
            };
            assess_normalized_command(normalized.as_str())
        },
    }
}

/// The label of an approval type in manifests.
pub open spec fn approval_type_text(t: ApprovalType) -> Seq<char> {
    match t {
        ApprovalType::Exec => "exec"@,
        ApprovalType::Patch => "patch"@,
        ApprovalType::Question => "question"@,
        ApprovalType::Permissions => "permissions"@,
    }
}

pub fn approval_type_label(approval_type: ApprovalType) -> (r: &'static str)
    ensures
        r@ == approval_type_text(approval_type),
{
    match approval_type {
        ApprovalType::Exec => "exec",
        ApprovalType::Patch => "patch",
        ApprovalType::Question => "question",
        ApprovalType::Permissions => "permissions",
    }
}

/// The label of a risk level in manifests.
pub open spec fn risk_level_text(level: ApprovalRiskLevel) -> Seq<char> {
    match level {
        ApprovalRiskLevel::Low => "low"@,
        ApprovalRiskLevel::Normal => "normal"@,
        ApprovalRiskLevel::High => "high"@,
    }
}

pub fn risk_level_label(risk_level: ApprovalRiskLevel) -> (r: &'static str)
    ensures
        r@ == risk_level_text(risk_level),
{
    match risk_level {
        ApprovalRiskLevel::Low => "low",
        ApprovalRiskLevel::Normal => "normal",
        ApprovalRiskLevel::High => "high",
    }
}

} // verus!
