//! Taking back access rules that an old version left on the shared login.
use crate::credential::contract::CredentialMetadataView;
use crate::credential::errors::CredentialError;
use crate::credential::metadata;
use crate::credential::metadata::{load_metadata, save_metadata};
use crate::credential::store;
use crate::credential::store::{CredentialStore, FileWriteView};
use crate::desktop::windows;
use crate::desktop::windows::powershell_arguments;
use crate::desktop::CommandOutput;
use crate::environment;
use crate::environment::{new_variable, EnvironmentVariable, EnvironmentVariableView};
use crate::json_compat;
use crate::json_compat::list_to_text;
use crate::product_config::ProductConfig;
use crate::text;
use vstd::prelude::*;

verus! {

/// The script that removes exactly the rules that the old version added.
pub const REVOKE_LEGACY_SHARED_AUTH_ACL_SCRIPT: &'static str = r#"
$ErrorActionPreference = 'Stop'
[Console]::OutputEncoding = New-Object System.Text.UTF8Encoding($false)
$OutputEncoding = [Console]::OutputEncoding

$authFile = $env:CODEX_DESKTOP_LEGACY_AUTH_FILE
if ([string]::IsNullOrWhiteSpace($authFile) -or -not [System.IO.Path]::IsPathRooted($authFile)) {
  throw '旧版共享授权清理要求绝对授权文件路径'
}
$authDirectory = Split-Path -Parent $authFile
if (-not (Test-Path -LiteralPath $authDirectory -PathType Container)) { exit 0 }

$sandboxPrincipalNames = [System.Collections.Generic.HashSet[string]]::new([System.StringComparer]::OrdinalIgnoreCase)
@('CodexSandboxOffline', 'CodexSandboxOnline') | ForEach-Object {
  [void]$sandboxPrincipalNames.Add($_)
}
$codexHomes = @($env:CODEX_DESKTOP_MANAGED_HOMES_JSON | ConvertFrom-Json)
foreach ($codexHome in $codexHomes) {
  $markerPath = Join-Path ([string]$codexHome) '.sandbox\setup_marker.json'
  if (-not (Test-Path -LiteralPath $markerPath -PathType Leaf)) { continue }
  try {
    $marker = Get-Content -Raw -LiteralPath $markerPath | ConvertFrom-Json
    @($marker.offline_username, $marker.online_username) | Where-Object {
      -not [string]::IsNullOrWhiteSpace([string]$_)
    } | ForEach-Object {
      [void]$sandboxPrincipalNames.Add(([string]$_).Trim())
    }
  } catch {
    throw "读取旧版 Codex Windows 沙箱主体登记失败：$markerPath"
  }
}

$sandboxSids = @($sandboxPrincipalNames | ForEach-Object {
  try {
    ([System.Security.Principal.NTAccount]::new($env:COMPUTERNAME, $_)).Translate([System.Security.Principal.SecurityIdentifier]).Value
  } catch { $null }
} | Where-Object { $_ } | Sort-Object -Unique)

foreach ($sidValue in $sandboxSids) {
  $sid = [System.Security.Principal.SecurityIdentifier]::new($sidValue)
  $directoryAcl = Get-Acl -LiteralPath $authDirectory
  $directoryRule = [System.Security.AccessControl.FileSystemAccessRule]::new(
    $sid,
    [System.Security.AccessControl.FileSystemRights]::ReadAndExecute,
    [System.Security.AccessControl.InheritanceFlags]::ContainerInherit -bor [System.Security.AccessControl.InheritanceFlags]::ObjectInherit,
    [System.Security.AccessControl.PropagationFlags]::None,
    [System.Security.AccessControl.AccessControlType]::Allow
  )
  $directoryAcl.RemoveAccessRuleSpecific($directoryRule)
  Set-Acl -LiteralPath $authDirectory -AclObject $directoryAcl

  if (Test-Path -LiteralPath $authFile -PathType Leaf) {
    $fileAcl = Get-Acl -LiteralPath $authFile
    $fileRule = [System.Security.AccessControl.FileSystemAccessRule]::new(
      $sid,
      [System.Security.AccessControl.FileSystemRights]::Read,
      [System.Security.AccessControl.AccessControlType]::Allow
    )
    $fileAcl.RemoveAccessRuleSpecific($fileRule)
    Set-Acl -LiteralPath $authFile -AclObject $fileAcl
  }
}
"#;

/// Whether the rules are still to be taken back.
pub fn legacy_shared_auth_acl_cleanup_required(
    credentials: &mut CredentialStore,
    product: &ProductConfig,
) -> (res: Result<bool, CredentialError>)
    ensures
        exists|item: Option<Seq<char>>|
            #![trigger metadata::item_possible(old(credentials).deep_view(), product.deep_view(), item)]
            metadata::item_possible(old(credentials).deep_view(), product.deep_view(), item) && ({
                let (t, loaded) = metadata::loaded(
                    old(credentials).deep_view(),
                    product.deep_view(),
                    item,
                );
                final(credentials).deep_view() == t && res == match loaded {
                    Err(error) => Err(error),
                    Ok(m) => Ok(m.legacy_shared_auth_acl_cleanup_required),
                }
            }),
{
    let m = load_metadata(credentials, product)?;
    Ok(m.legacy_shared_auth_acl_cleanup_required)
}

/// The record once the rules are taken back.
pub open spec fn revoked(m: CredentialMetadataView, now: u64) -> CredentialMetadataView {
    CredentialMetadataView {
        legacy_shared_auth_acl_cleanup_required: false,
        legacy_shared_auth_acl_revoked_at_epoch_seconds: Some(now),
        ..m
    }
}

/// Records that the rules are taken back.
pub fn record_legacy_shared_auth_acl_cleanup(
    credentials: &mut CredentialStore,
    product: &ProductConfig,
    now: u64,
) -> (res: Result<(), CredentialError>)
    ensures
        exists|item: Option<Seq<char>>|
            #![trigger metadata::item_possible(old(credentials).deep_view(), product.deep_view(), item)]
            metadata::item_possible(old(credentials).deep_view(), product.deep_view(), item) && ({
                let (t, loaded) = metadata::loaded(
                    old(credentials).deep_view(),
                    product.deep_view(),
                    item,
                );
                match loaded {
                    Err(error) => res == Err::<(), CredentialError>(error)
                        && final(credentials).deep_view() == t,
                    Ok(m) => res is Ok && final(credentials).deep_view() == store::written(
                        t,
                        FileWriteView::Metadata(revoked(m, now)),
                    ),
                }
            }),
{
    let mut m = load_metadata(credentials, product)?;
    m.legacy_shared_auth_acl_cleanup_required = false;
    m.legacy_shared_auth_acl_revoked_at_epoch_seconds = Some(now);
    save_metadata(credentials, &m);
    Ok(())
}

/// The program that takes the rules back: its arguments and what its environment holds.
pub struct CleanupCommand {
    /// The arguments of PowerShell.
    pub arguments: Vec<String>,
    /// The variables that are set.
    pub variables: Vec<EnvironmentVariable>,
}

/// The environment of the script: the login file, and the state directories as JSON.
pub open spec fn cleanup_environment(auth_file: Seq<char>, homes: Seq<Seq<char>>) -> Seq<
    EnvironmentVariableView,
> {
    seq![
        environment::variable("CODEX_DESKTOP_LEGACY_AUTH_FILE"@, auth_file),
        environment::variable(
            "CODEX_DESKTOP_MANAGED_HOMES_JSON"@,
            json_compat::json_list_text(homes),
        ),
    ]
}

/// The program that takes the rules back.
pub fn cleanup_command(auth_file: &str, managed_homes: &Vec<String>) -> (res: CleanupCommand)
    ensures
        res.arguments.deep_view() == windows::script_arguments(
            REVOKE_LEGACY_SHARED_AUTH_ACL_SCRIPT@,
        ),
        res.variables.deep_view() == cleanup_environment(auth_file@, managed_homes.deep_view()),
{
    let homes = match list_to_text(managed_homes) {
        Ok(text) => text,
        Err(_) => String::new(),
    };
    let mut variables: Vec<EnvironmentVariable> = Vec::new();
    variables.push(new_variable("CODEX_DESKTOP_LEGACY_AUTH_FILE", auth_file.to_string()));
    variables.push(new_variable("CODEX_DESKTOP_MANAGED_HOMES_JSON", homes));
    assert(variables.deep_view() =~= cleanup_environment(auth_file@, managed_homes.deep_view()));
    CleanupCommand {
        arguments: powershell_arguments(REVOKE_LEGACY_SHARED_AUTH_ACL_SCRIPT),
        variables,
    }
}

/// What went wrong with the script, if anything.
pub fn cleanup_failure(output: &CommandOutput) -> (res: Option<String>)
    ensures
        text::opt_view(res) == if output.deep_view().success {
            None
        } else {
            Some("回收旧版 Codex 沙箱全局授权失败："@ + text::trimmed(output.deep_view().stderr))
        },
{
    if output.success {
        return None;
    }
    let mut message = "回收旧版 Codex 沙箱全局授权失败：".to_string();
    message.append(text::trim(output.stderr.as_str()).as_str());
    Some(message)
}

/// Once the rules are taken back and that is on record, they need not be taken back again.
pub proof fn revoked_rules_stay_revoked(
    m: CredentialMetadataView,
    now: u64,
    origin: metadata::Origin,
)
    ensures
        !metadata::cleanup_noted(revoked(m, now), origin).legacy_shared_auth_acl_cleanup_required,
{
}

} // verus!
