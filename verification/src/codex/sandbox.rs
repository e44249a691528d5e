//! Approval and sandbox policies: read from their stored names, or taken
//! from the details a session was configured with.

use crate::text::{concat3, opt_str_view, opt_string_view, str_eq, trim_non_empty, trimmed_non_empty};
use vstd::prelude::*;

verus! {

/// Which kinds of approval prompts a granular policy lets through.
#[derive(Debug, Clone, Copy, PartialEq, Eq, Structural)]
pub struct GranularApprovalConfig {
    pub sandbox_approval: bool,
    pub rules: bool,
    pub skill_approval: bool,
    pub request_permissions: bool,
    pub mcp_elicitations: bool,
}

/// When the runtime asks for approval.
#[derive(Debug, Clone, Copy, PartialEq, Eq, Structural)]
pub enum AskForApproval {
    UnlessTrusted,
    OnFailure,
    OnRequest,
    Granular(GranularApprovalConfig),
    Never,
}

/// Whether a sandbox lets the network through.
#[derive(Debug, Clone, Copy, PartialEq, Eq, Structural)]
pub enum NetworkAccess {
    Restricted,
    Enabled,
}

/// What the runtime's sandbox allows. The policies made here grant no
/// writable roots beyond the workspace and the default read access.
#[derive(Debug, Clone, Copy, PartialEq, Eq, Structural)]
pub enum SandboxPolicy {
    DangerFullAccess,
    ReadOnly { network_access: bool },
    WorkspaceWrite { network_access: bool, exclude_tmpdir_env_var: bool, exclude_slash_tmp: bool },
    ExternalSandbox { network_access: NetworkAccess },
}

/// An approval mode a session was configured with.
#[derive(Debug, Clone, Copy, PartialEq, Eq, Structural)]
pub enum CodexApprovalMode {
    Untrusted,
    OnFailure,
    OnRequest,
    Never,
}

/// The approval policy a session was configured with.
#[derive(Debug, Clone, Copy, PartialEq, Eq, Structural)]
pub enum CodexApprovalPolicy {
    Mode(CodexApprovalMode),
    Granular { granular: GranularApprovalConfig },
}

/// A sandbox mode a session was configured with.
#[derive(Debug, Clone, Copy, PartialEq, Eq, Structural)]
pub enum CodexSandboxMode {
    DangerFullAccess,
    ReadOnly,
    WorkspaceWrite,
    ExternalSandbox,
}

/// The sandbox a session was configured with.
#[derive(Debug, Clone, Copy, PartialEq, Eq, Structural)]
pub struct CodexSandboxPolicy {
    pub mode: CodexSandboxMode,
    pub network_access: bool,
}

/// The policy that rejects every approval prompt.
pub open spec fn rejecting() -> AskForApproval {
    AskForApproval::Granular(
        GranularApprovalConfig {
            sandbox_approval: false,
            rules: false,
            skill_approval: false,
            request_permissions: false,
            mcp_elicitations: false,
        },
    )
}

/// The policy that rejects every approval prompt.
pub fn reject_policy() -> (r: AskForApproval)
    ensures
        r == rejecting(),
{
    AskForApproval::Granular(
        GranularApprovalConfig {
            sandbox_approval: false,
            rules: false,
            skill_approval: false,
            request_permissions: false,
            mcp_elicitations: false,
        },
    )
}

/// A read-only sandbox.
pub fn read_only_sandbox_policy(network_access: bool) -> (r: SandboxPolicy)
    ensures
        r == (SandboxPolicy::ReadOnly { network_access }),
{
    SandboxPolicy::ReadOnly { network_access }
}

/// The sandbox of a workspace that may be written.
pub open spec fn workspace_write(network_access: bool) -> SandboxPolicy {
    SandboxPolicy::WorkspaceWrite {
        network_access,
        exclude_tmpdir_env_var: false,
        exclude_slash_tmp: false,
    }
}

/// The sandbox of a workspace that may be written.
pub fn workspace_write_sandbox_policy(network_access: bool) -> (r: SandboxPolicy)
    ensures
        r == workspace_write(network_access),
{
    SandboxPolicy::WorkspaceWrite {
        network_access,
        exclude_tmpdir_env_var: false,
        exclude_slash_tmp: false,
    }
}

/// The approval policy a stored name stands for.
pub open spec fn approval_named(name: Seq<char>) -> Option<AskForApproval> {
    if name == "untrusted"@ || name == "unless-allow-listed"@ {
        Some(AskForApproval::UnlessTrusted)
    } else if name == "on-failure"@ {
        Some(AskForApproval::OnFailure)
    } else if name == "on-request"@ {
        Some(AskForApproval::OnRequest)
    } else if name == "reject"@ {
        Some(rejecting())
    } else if name == "never"@ {
        Some(AskForApproval::Never)
    } else {
        None
    }
}

/// Why a stored approval policy name is refused.
pub open spec fn approval_error(name: Seq<char>) -> Seq<char> {
    "unsupported approval policy `"@ + name
        + "`; expected untrusted, on-failure, on-request, reject, or never"@
}

/// A stored approval policy: none when blank or absent, the policy its
/// trimmed name stands for, or an error naming an unknown one.
pub open spec fn approval_policy_of(value: Option<Seq<char>>) -> Result<Option<AskForApproval>, Seq<char>> {
    match trimmed_non_empty(value) {
        None => Ok(None),
        Some(t) => match approval_named(t) {
            Some(p) => Ok(Some(p)),
            None => Err(approval_error(t)),
        },
    }
}

/// The error text of a result as characters.
pub open spec fn error_view<T>(r: Result<T, String>) -> Result<T, Seq<char>> {
    match r {
        Ok(v) => Ok(v),
        Err(e) => Err(e@),
    }
}

/// Reads a stored approval policy.
pub fn parse_approval_policy(value: Option<&str>) -> (r: Result<Option<AskForApproval>, String>)
    ensures
        error_view(r) == approval_policy_of(opt_str_view(value)),
{
    let t = match trim_non_empty(value) {
        None => return Ok(None),
        Some(t) => t,
    };
    let name = t.as_str();
    if str_eq(name, "untrusted") || str_eq(name, "unless-allow-listed") {
        Ok(Some(AskForApproval::UnlessTrusted))
    } else if str_eq(name, "on-failure") {
        Ok(Some(AskForApproval::OnFailure))
    } else if str_eq(name, "on-request") {
        Ok(Some(AskForApproval::OnRequest))
    } else if str_eq(name, "reject") {
        Ok(Some(reject_policy()))
    } else if str_eq(name, "never") {
        Ok(Some(AskForApproval::Never))
    } else {
        Err(
            concat3(
                "unsupported approval policy `",
                name,
                "`; expected untrusted, on-failure, on-request, reject, or never",
            ),
        )
    }
}

/// The runtime's approval policy for the one a session was configured
/// with.
pub open spec fn approval_of_details(details: CodexApprovalPolicy) -> AskForApproval {
    match details {
        CodexApprovalPolicy::Mode(mode) => match mode {
            CodexApprovalMode::Untrusted => AskForApproval::UnlessTrusted,
            CodexApprovalMode::OnFailure => AskForApproval::OnFailure,
            CodexApprovalMode::OnRequest => AskForApproval::OnRequest,
            CodexApprovalMode::Never => AskForApproval::Never,
        },
        CodexApprovalPolicy::Granular { granular } => AskForApproval::Granular(granular),
    }
}

/// Reads an approval policy: the configured details win over the stored
/// name.
pub fn parse_approval_policy_with_details(
    value: Option<&str>,
    details: Option<&CodexApprovalPolicy>,
) -> (r: Result<Option<AskForApproval>, String>)
    ensures
        match details {
            Some(d) => r == Ok::<Option<AskForApproval>, String>(Some(approval_of_details(*d))),
            None => error_view(r) == approval_policy_of(opt_str_view(value)),
        },
{
    match details {
        Some(d) => {
            let parsed = match d {
                CodexApprovalPolicy::Mode(mode) => match mode {
                    CodexApprovalMode::Untrusted => AskForApproval::UnlessTrusted,
                    CodexApprovalMode::OnFailure => AskForApproval::OnFailure,
                    CodexApprovalMode::OnRequest => AskForApproval::OnRequest,
                    CodexApprovalMode::Never => AskForApproval::Never,
                },
                CodexApprovalPolicy::Granular { granular } => AskForApproval::Granular(*granular),
            };
            Ok(Some(parsed))
        },
        None => parse_approval_policy(value),
    }
}

/// The sandbox a stored mode stands for; `-network` lets the network
/// through.
pub open spec fn sandbox_named(name: Seq<char>) -> Option<SandboxPolicy> {
    if name == "danger-full-access"@ {
        Some(SandboxPolicy::DangerFullAccess)
    } else if name == "read-only"@ {
        Some(SandboxPolicy::ReadOnly { network_access: false })
    } else if name == "read-only-network"@ {
        Some(SandboxPolicy::ReadOnly { network_access: true })
    } else if name == "workspace-write"@ {
        Some(workspace_write(false))
    } else if name == "workspace-write-network"@ {
        Some(workspace_write(true))
    } else if name == "external-sandbox"@ {
        Some(SandboxPolicy::ExternalSandbox { network_access: NetworkAccess::Restricted })
    } else if name == "external-sandbox-network"@ {
        Some(SandboxPolicy::ExternalSandbox { network_access: NetworkAccess::Enabled })
    } else {
        None
    }
}

/// Why a stored sandbox mode is refused.
pub open spec fn sandbox_error(name: Seq<char>) -> Seq<char> {
    "unsupported sandbox mode `"@ + name
        + "`; expected danger-full-access, read-only, workspace-write, or external-sandbox (+ optional -network suffix)"@
}

/// A stored sandbox mode: none when blank or absent, the sandbox its
/// trimmed name stands for, or an error naming an unknown one.
pub open spec fn sandbox_policy_of(value: Option<Seq<char>>) -> Result<Option<SandboxPolicy>, Seq<char>> {
    match trimmed_non_empty(value) {
        None => Ok(None),
        Some(t) => match sandbox_named(t) {
            Some(p) => Ok(Some(p)),
            None => Err(sandbox_error(t)),
        },
    }
}

/// A stored sandbox mode stands for the sandbox kind it names: once
/// trimmed, `danger-full-access` gives full access, `read-only` and
/// `read-only-network` a read-only sandbox, `workspace-write` and
/// `workspace-write-network` a writable workspace, and `external-sandbox`
/// and `external-sandbox-network` an external sandbox; the `-network`
/// names let the network through and the others do not. Reading a stored
/// mode gives the same sandbox as the details that mode stands for.
pub proof fn law_stored_sandbox_names_its_kind(value: Seq<char>)
    ensures
        crate::text::trim(value) == "danger-full-access"@ ==> sandbox_policy_of(Some(value)) == Ok::<
            Option<SandboxPolicy>,
            Seq<char>,
        >(Some(SandboxPolicy::DangerFullAccess)),
        crate::text::trim(value) == "read-only"@ ==> sandbox_policy_of(Some(value)) == Ok::<
            Option<SandboxPolicy>,
            Seq<char>,
        >(Some(SandboxPolicy::ReadOnly { network_access: false })),
        crate::text::trim(value) == "read-only-network"@ ==> sandbox_policy_of(Some(value)) == Ok::<
            Option<SandboxPolicy>,
            Seq<char>,
        >(Some(SandboxPolicy::ReadOnly { network_access: true })),
        crate::text::trim(value) == "workspace-write"@ ==> sandbox_policy_of(Some(value)) matches Ok(
            Some(SandboxPolicy::WorkspaceWrite { network_access: false, .. }),
        ),
        crate::text::trim(value) == "workspace-write-network"@ ==> sandbox_policy_of(Some(value)) matches Ok(
            Some(SandboxPolicy::WorkspaceWrite { network_access: true, .. }),
        ),
        crate::text::trim(value) == "external-sandbox"@ ==> sandbox_policy_of(Some(value)) == Ok::<
            Option<SandboxPolicy>,
            Seq<char>,
        >(Some(SandboxPolicy::ExternalSandbox { network_access: NetworkAccess::Restricted })),
        crate::text::trim(value) == "external-sandbox-network"@ ==> sandbox_policy_of(Some(value)) == Ok::<
            Option<SandboxPolicy>,
            Seq<char>,
        >(Some(SandboxPolicy::ExternalSandbox { network_access: NetworkAccess::Enabled })),
        stored_details(crate::text::trim(value)) matches Some(d) ==> sandbox_policy_of(Some(value)) == Ok::<
            Option<SandboxPolicy>,
            Seq<char>,
        >(Some(sandbox_of_details(d))),
{
    reveal_strlit("danger-full-access");
    reveal_strlit("read-only");
    reveal_strlit("read-only-network");
    reveal_strlit("workspace-write");
    reveal_strlit("workspace-write-network");
    reveal_strlit("external-sandbox");
    reveal_strlit("external-sandbox-network");
    let t = crate::text::trim(value);
    if t.len() == 0 {
        assert(t != "danger-full-access"@);
        assert(t != "read-only"@);
        assert(t != "read-only-network"@);
        assert(t != "workspace-write"@);
        assert(t != "workspace-write-network"@);
        assert(t != "external-sandbox"@);
        assert(t != "external-sandbox-network"@);
    }
}

/// Reads a stored sandbox mode.
pub fn parse_sandbox_policy(value: Option<&str>) -> (r: Result<Option<SandboxPolicy>, String>)
    ensures
        error_view(r) == sandbox_policy_of(opt_str_view(value)),
{
    let t = match trim_non_empty(value) {
        None => return Ok(None),
        Some(t) => t,
    };
    let name = t.as_str();
    if str_eq(name, "danger-full-access") {
        Ok(Some(SandboxPolicy::DangerFullAccess))
    } else if str_eq(name, "read-only") {
        Ok(Some(read_only_sandbox_policy(false)))
    } else if str_eq(name, "read-only-network") {
        Ok(Some(read_only_sandbox_policy(true)))
    } else if str_eq(name, "workspace-write") {
        Ok(Some(workspace_write_sandbox_policy(false)))
    } else if str_eq(name, "workspace-write-network") {
        Ok(Some(workspace_write_sandbox_policy(true)))
    } else if str_eq(name, "external-sandbox") {
        Ok(Some(SandboxPolicy::ExternalSandbox { network_access: NetworkAccess::Restricted }))
    } else if str_eq(name, "external-sandbox-network") {
        Ok(Some(SandboxPolicy::ExternalSandbox { network_access: NetworkAccess::Enabled }))
    } else {
        Err(
            concat3(
                "unsupported sandbox mode `",
                name,
                "`; expected danger-full-access, read-only, workspace-write, or external-sandbox (+ optional -network suffix)",
            ),
        )
    }
}

/// The runtime's sandbox for the one a session was configured with.
pub open spec fn sandbox_of_details(details: CodexSandboxPolicy) -> SandboxPolicy {
    match details.mode {
        CodexSandboxMode::DangerFullAccess => SandboxPolicy::DangerFullAccess,
        CodexSandboxMode::ReadOnly => SandboxPolicy::ReadOnly { network_access: details.network_access },
        CodexSandboxMode::WorkspaceWrite => workspace_write(details.network_access),
        CodexSandboxMode::ExternalSandbox => SandboxPolicy::ExternalSandbox {
            network_access: if details.network_access {
                NetworkAccess::Enabled
            } else {
                NetworkAccess::Restricted
            },
        },
    }
}

/// Reads a sandbox policy: the configured details win over the stored
/// mode.
pub fn parse_sandbox_policy_with_details(
    value: Option<&str>,
    details: Option<&CodexSandboxPolicy>,
) -> (r: Result<Option<SandboxPolicy>, String>)
    ensures
        match details {
            Some(d) => r == Ok::<Option<SandboxPolicy>, String>(Some(sandbox_of_details(*d))),
            None => error_view(r) == sandbox_policy_of(opt_str_view(value)),
        },
{
    match details {
        Some(d) => {
            let parsed = match d.mode {
                CodexSandboxMode::DangerFullAccess => SandboxPolicy::DangerFullAccess,
                CodexSandboxMode::ReadOnly => read_only_sandbox_policy(d.network_access),
                CodexSandboxMode::WorkspaceWrite => workspace_write_sandbox_policy(d.network_access),
                CodexSandboxMode::ExternalSandbox => SandboxPolicy::ExternalSandbox {
                    network_access: if d.network_access {
                        NetworkAccess::Enabled
                    } else {
                        NetworkAccess::Restricted
                    },
                },
            };
            Ok(Some(parsed))
        },
        None => parse_sandbox_policy(value),
    }
}

/// The sandbox details a stored mode stands for: its mode, and whether a
/// `-network` suffix lets the network through.
pub open spec fn stored_details(name: Seq<char>) -> Option<CodexSandboxPolicy> {
    if name == "danger-full-access"@ {
        Some(CodexSandboxPolicy { mode: CodexSandboxMode::DangerFullAccess, network_access: false })
    } else if name == "read-only"@ {
        Some(CodexSandboxPolicy { mode: CodexSandboxMode::ReadOnly, network_access: false })
    } else if name == "read-only-network"@ {
        Some(CodexSandboxPolicy { mode: CodexSandboxMode::ReadOnly, network_access: true })
    } else if name == "workspace-write"@ {
        Some(CodexSandboxPolicy { mode: CodexSandboxMode::WorkspaceWrite, network_access: false })
    } else if name == "workspace-write-network"@ {
        Some(CodexSandboxPolicy { mode: CodexSandboxMode::WorkspaceWrite, network_access: true })
    } else if name == "external-sandbox"@ {
        Some(CodexSandboxPolicy { mode: CodexSandboxMode::ExternalSandbox, network_access: false })
    } else if name == "external-sandbox-network"@ {
        Some(CodexSandboxPolicy { mode: CodexSandboxMode::ExternalSandbox, network_access: true })
    } else {
        None
    }
}

fn details_from_storage_text(name: &str) -> (r: Option<CodexSandboxPolicy>)
    ensures
        r == stored_details(name@),
{
    if str_eq(name, "danger-full-access") {
        Some(CodexSandboxPolicy { mode: CodexSandboxMode::DangerFullAccess, network_access: false })
    } else if str_eq(name, "read-only") {
        Some(CodexSandboxPolicy { mode: CodexSandboxMode::ReadOnly, network_access: false })
    } else if str_eq(name, "read-only-network") {
        Some(CodexSandboxPolicy { mode: CodexSandboxMode::ReadOnly, network_access: true })
    } else if str_eq(name, "workspace-write") {
        Some(CodexSandboxPolicy { mode: CodexSandboxMode::WorkspaceWrite, network_access: false })
    } else if str_eq(name, "workspace-write-network") {
        Some(CodexSandboxPolicy { mode: CodexSandboxMode::WorkspaceWrite, network_access: true })
    } else if str_eq(name, "external-sandbox") {
        Some(CodexSandboxPolicy { mode: CodexSandboxMode::ExternalSandbox, network_access: false })
    } else if str_eq(name, "external-sandbox-network") {
        Some(CodexSandboxPolicy { mode: CodexSandboxMode::ExternalSandbox, network_access: true })
    } else {
        None
    }
}

/// The sandbox details asked for: the configured details, else those the
/// stored mode stands for.
pub open spec fn requested_details(mode: Option<Seq<char>>, details: Option<CodexSandboxPolicy>) -> Option<
    CodexSandboxPolicy,
> {
    match details {
        Some(d) => Some(d),
        None => match mode {
            Some(m) => stored_details(m),
            None => None,
        },
    }
}

/// The sandbox details asked for.
pub fn requested_sandbox_policy_details(
    sandbox_mode: Option<&str>,
    sandbox_policy_details: Option<&CodexSandboxPolicy>,
) -> (r: Option<CodexSandboxPolicy>)
    ensures
        r == requested_details(opt_str_view(sandbox_mode), match sandbox_policy_details {
            Some(d) => Some(*d),
            None => None,
        }),
{
    match sandbox_policy_details {
        Some(d) => Some(*d),
        None => match sandbox_mode {
            Some(m) => details_from_storage_text(m),
            None => None,
        },
    }
}

/// The sandbox mode handed to the configuration loader: the name of the
/// requested mode (none for an external sandbox), else the stored mode as
/// given, trimmed, unless blank.
pub open spec fn loader_mode(mode: Option<Seq<char>>, details: Option<CodexSandboxPolicy>) -> Option<Seq<char>> {
    match requested_details(mode, details) {
        Some(d) => match d.mode {
            CodexSandboxMode::DangerFullAccess => Some("danger-full-access"@),
            CodexSandboxMode::ReadOnly => Some("read-only"@),
            CodexSandboxMode::WorkspaceWrite => Some("workspace-write"@),
            CodexSandboxMode::ExternalSandbox => None,
        },
        None => trimmed_non_empty(mode),
    }
}

/// The sandbox mode handed to the configuration loader.
pub fn config_loader_sandbox_mode(
    sandbox_mode: Option<&str>,
    sandbox_policy_details: Option<&CodexSandboxPolicy>,
) -> (r: Option<String>)
    ensures
        opt_string_view(r) == loader_mode(opt_str_view(sandbox_mode), match sandbox_policy_details {
            Some(d) => Some(*d),
            None => None,
        }),
{
    match requested_sandbox_policy_details(sandbox_mode, sandbox_policy_details) {
        Some(d) => match d.mode {
            CodexSandboxMode::DangerFullAccess => Some("danger-full-access".to_string()),
            CodexSandboxMode::ReadOnly => Some("read-only".to_string()),
            CodexSandboxMode::WorkspaceWrite => Some("workspace-write".to_string()),
            CodexSandboxMode::ExternalSandbox => None,
        },
        None => trim_non_empty(sandbox_mode),
    }
}

/// The sandbox modes the app server knows.
#[derive(Debug, Clone, Copy, PartialEq, Eq, Structural)]
pub enum AppServerSandboxMode {
    ReadOnly,
    WorkspaceWrite,
    DangerFullAccess,
}

/// The app server's mode for a configured one: an external sandbox runs
/// as workspace write.
pub open spec fn app_server_mode_of(mode: CodexSandboxMode) -> AppServerSandboxMode {
    match mode {
        CodexSandboxMode::DangerFullAccess => AppServerSandboxMode::DangerFullAccess,
        CodexSandboxMode::ReadOnly => AppServerSandboxMode::ReadOnly,
        CodexSandboxMode::WorkspaceWrite => AppServerSandboxMode::WorkspaceWrite,
        CodexSandboxMode::ExternalSandbox => AppServerSandboxMode::WorkspaceWrite,
    }
}

/// The app server's mode for a stored name, trimmed.
pub open spec fn app_server_mode_named(name: Seq<char>) -> Option<AppServerSandboxMode> {
    if name == "danger-full-access"@ {
        Some(AppServerSandboxMode::DangerFullAccess)
    } else if name == "read-only"@ || name == "read-only-network"@ {
        Some(AppServerSandboxMode::ReadOnly)
    } else if name == "workspace-write"@ || name == "workspace-write-network"@ || name
        == "external-sandbox"@ || name == "external-sandbox-network"@ {
        Some(AppServerSandboxMode::WorkspaceWrite)
    } else {
        None
    }
}

/// The app server's sandbox mode: that of the requested details, else that
/// of the trimmed stored name.
pub open spec fn app_server_mode(mode: Option<Seq<char>>, details: Option<CodexSandboxPolicy>) -> Option<
    AppServerSandboxMode,
> {
    match requested_details(mode, details) {
        Some(d) => Some(app_server_mode_of(d.mode)),
        None => match trimmed_non_empty(mode) {
            Some(t) => app_server_mode_named(t),
            None => None,
        },
    }
}

/// The app server's sandbox mode for what a session asked for.
pub fn app_server_sandbox_mode(
    sandbox_mode: Option<&str>,
    sandbox_policy_details: Option<&CodexSandboxPolicy>,
) -> (r: Option<AppServerSandboxMode>)
    ensures
        r == app_server_mode(opt_str_view(sandbox_mode), match sandbox_policy_details {
            Some(d) => Some(*d),
            None => None,
        }),
{
    match requested_sandbox_policy_details(sandbox_mode, sandbox_policy_details) {
        Some(d) => Some(
            match d.mode {
                CodexSandboxMode::DangerFullAccess => AppServerSandboxMode::DangerFullAccess,
                CodexSandboxMode::ReadOnly => AppServerSandboxMode::ReadOnly,
                CodexSandboxMode::WorkspaceWrite => AppServerSandboxMode::WorkspaceWrite,
                CodexSandboxMode::ExternalSandbox => AppServerSandboxMode::WorkspaceWrite,
            },
        ),
        None => match trim_non_empty(sandbox_mode) {
            Some(t) => {
                let n = t.as_str();
                if str_eq(n, "danger-full-access") {
                    Some(AppServerSandboxMode::DangerFullAccess)
                } else if str_eq(n, "read-only") || str_eq(n, "read-only-network") {
                    Some(AppServerSandboxMode::ReadOnly)
                } else if str_eq(n, "workspace-write") || str_eq(n, "workspace-write-network") || str_eq(
                    n,
                    "external-sandbox",
                ) || str_eq(n, "external-sandbox-network") {
                    Some(AppServerSandboxMode::WorkspaceWrite)
                } else {
                    None
                }
            },
            None => None,
        },
    }
}

} // verus!
