//! The desktop application on Windows.
use super::{CommandOutput, DesktopError, DesktopErrorView, DesktopSwitch};
use crate::environment;
use crate::environment::{new_variable, EnvironmentVariable, EnvironmentVariableView};
use crate::text;
use vstd::prelude::*;

verus! {

/// What every script begins with: how the processes of the application are found, which are those
/// with a known name and a trusted signature.
pub const POWERSHELL_PREAMBLE: &'static str = r#"
$ErrorActionPreference = 'Stop'
[Console]::OutputEncoding = New-Object System.Text.UTF8Encoding($false)
$OutputEncoding = [Console]::OutputEncoding
$codexDesktopProtocol = $env:CODEX_DESKTOP_PROTOCOL
if ([string]::IsNullOrWhiteSpace($codexDesktopProtocol)) { throw '缺少 Windows 桌面协议配置' }
$codexDesktopProcessNames = @($env:CODEX_DESKTOP_PROCESS_NAMES -split '\r?\n' | ForEach-Object { $_.Trim() } | Where-Object { $_ })
if ($codexDesktopProcessNames.Count -eq 0) { throw 'Windows 桌面进程名配置为空' }
$codexDesktopTrustedSignerSubjects = @($env:CODEX_DESKTOP_TRUSTED_SIGNER_SUBJECTS -split '\r?\n' | ForEach-Object { $_.Trim() } | Where-Object { $_ })
if ($codexDesktopTrustedSignerSubjects.Count -eq 0) { throw 'Windows 桌面可信签名主体配置为空' }

function Get-CodexDesktopProcesses {
  $candidates = @($codexDesktopProcessNames | ForEach-Object {
    Get-Process -Name $_ -ErrorAction SilentlyContinue
  } | Sort-Object Id -Unique)
  $trustedPaths = @($candidates | ForEach-Object {
    try {
      $path = $_.Path
      if ([string]::IsNullOrWhiteSpace($path) -or [System.IO.Path]::GetExtension($path) -ne '.exe') { return }
      $signature = Get-AuthenticodeSignature -LiteralPath $path
      if ($signature.Status -eq [System.Management.Automation.SignatureStatus]::Valid -and
          $signature.SignerCertificate -and
          $codexDesktopTrustedSignerSubjects -contains ([string]$signature.SignerCertificate.Subject)) {
        return $path
      }
    } catch { return }
  } | Sort-Object -Unique)
  @($candidates | Where-Object {
      try {
        $path = $_.Path
        $path -and $trustedPaths -contains $path
      } catch { $false }
    } | Sort-Object Id -Unique)
}
"#;

/// The script that stops the application.
pub const STOP_SCRIPT: &'static str = r#"
$targets = @(Get-CodexDesktopProcesses)
$wasRunning = $targets.Count -gt 0
if ($wasRunning) {
  $targets | Stop-Process -Force -ErrorAction Stop
  $deadline = (Get-Date).AddSeconds(15)
  do {
    $remaining = @(Get-Process -Id $targets.Id -ErrorAction SilentlyContinue)
    if ($remaining.Count -gt 0) { Start-Sleep -Milliseconds 250 }
  } while ($remaining.Count -gt 0 -and (Get-Date) -lt $deadline)
  if ($remaining.Count -gt 0) { throw 'ChatGPT/Codex 桌面应用进程未在 15 秒内停止' }
}
[pscustomobject]@{ wasRunning = $wasRunning } | ConvertTo-Json -Compress
"#;

/// The script that opens the application.
pub const LAUNCH_SCRIPT: &'static str = r#"
Start-Process -FilePath "${codexDesktopProtocol}:"
$deadline = (Get-Date).AddSeconds(10)
do {
  $targets = @(Get-CodexDesktopProcesses)
  if ($targets.Count -eq 0) { Start-Sleep -Milliseconds 100 }
} while ($targets.Count -eq 0 -and (Get-Date) -lt $deadline)
if ($targets.Count -eq 0) { throw 'Windows 已接受 codex: 协议请求，但可信 ChatGPT/Codex 桌面进程未在 10 秒内出现' }
[pscustomobject]@{
  activationAccepted = $true
  processCount = $targets.Count
} | ConvertTo-Json -Compress
"#;

/// The arguments with which PowerShell runs a script.
pub open spec fn script_arguments(script: Seq<char>) -> Seq<Seq<char>> {
    seq![
        "-NoLogo"@,
        "-NoProfile"@,
        "-NonInteractive"@,
        "-ExecutionPolicy"@,
        "Bypass"@,
        "-Command"@,
        script,
    ]
}

/// The arguments with which PowerShell runs a script.
pub fn powershell_arguments(script: &str) -> (res: Vec<String>)
    ensures
        res.deep_view() == script_arguments(script@),
{
    let mut out: Vec<String> = Vec::new();
    out.push("-NoLogo".to_string());
    out.push("-NoProfile".to_string());
    out.push("-NonInteractive".to_string());
    out.push("-ExecutionPolicy".to_string());
    out.push("Bypass".to_string());
    out.push("-Command".to_string());
    out.push(script.to_string());
    assert(out.deep_view() =~= script_arguments(script@));
    out
}

/// The arguments with which PowerShell runs a script of this module after what every script begins
/// with.
pub fn desktop_arguments(script: &str) -> (res: Vec<String>)
    ensures
        res.deep_view() == script_arguments(POWERSHELL_PREAMBLE@ + "\n"@ + script@),
{
    let mut complete = POWERSHELL_PREAMBLE.to_string();
    complete.append("\n");
    complete.append(script);
    powershell_arguments(complete.as_str())
}

/// The environment of the scripts: the protocol, the names of the processes and those whose
/// signature is trusted.
pub open spec fn script_environment(
    protocol: Seq<char>,
    process_names: Seq<Seq<char>>,
    signers: Seq<Seq<char>>,
) -> Seq<EnvironmentVariableView> {
    seq![
        environment::variable("CODEX_DESKTOP_PROTOCOL"@, protocol),
        environment::variable("CODEX_DESKTOP_PROCESS_NAMES"@, text::joined(process_names, "\n"@)),
        environment::variable(
            "CODEX_DESKTOP_TRUSTED_SIGNER_SUBJECTS"@,
            text::joined(signers, "\n"@),
        ),
    ]
}

/// The environment of the scripts.
pub fn desktop_environment(
    protocol: &str,
    process_names: &Vec<String>,
    trusted_signer_subjects: &Vec<String>,
) -> (res: Vec<EnvironmentVariable>)
    ensures
        res.deep_view() == script_environment(
            protocol@,
            process_names.deep_view(),
            trusted_signer_subjects.deep_view(),
        ),
{
    let names = text::join(process_names, "\n");
    let signers = text::join(trusted_signer_subjects, "\n");
    assert(text::views(process_names@) =~= process_names.deep_view());
    assert(text::views(trusted_signer_subjects@) =~= trusted_signer_subjects.deep_view());
    let mut out: Vec<EnvironmentVariable> = Vec::new();
    out.push(new_variable("CODEX_DESKTOP_PROTOCOL", protocol.to_string()));
    out.push(new_variable("CODEX_DESKTOP_PROCESS_NAMES", names));
    out.push(new_variable("CODEX_DESKTOP_TRUSTED_SIGNER_SUBJECTS", signers));
    assert(out.deep_view() =~= script_environment(
        protocol@,
        process_names.deep_view(),
        trusted_signer_subjects.deep_view(),
    ));
    out
}

/// What came of running a script.
pub fn run_powershell(output: &CommandOutput) -> (res: Result<(), DesktopError>)
    ensures
        match res {
            Ok(()) => output.deep_view().success,
            Err(error) => !output.deep_view().success && error.deep_view()
                == DesktopErrorView::ProcessesFailed(text::trimmed(output.deep_view().stderr)),
        },
{
    if output.success {
        Ok(())
    } else {
        Err(DesktopError::ProcessesFailed(text::trim(output.stderr.as_str())))
    }
}

/// What is known of the application once the script that stops it ended; `was_running` is what the
/// script reported.
pub fn stop_for_workspace_switch(output: &CommandOutput, was_running: bool) -> (res: Result<
    DesktopSwitch,
    DesktopError,
>)
    ensures
        match res {
            Ok(switch) => output.deep_view().success && switch.was_running == was_running,
            Err(error) => !output.deep_view().success && error.deep_view()
                == DesktopErrorView::ProcessesFailed(text::trimmed(output.deep_view().stderr)),
        },
{
    run_powershell(output)?;
    Ok(DesktopSwitch { was_running })
}

/// What came of opening the application: the script ended so, and reported whether Windows
/// accepted the wish.
pub fn launch_workspace(output: &CommandOutput, activation_accepted: bool) -> (res: Result<
    (),
    DesktopError,
>)
    ensures
        match res {
            Ok(()) => output.deep_view().success && activation_accepted,
            Err(error) => error.deep_view() == (if output.deep_view().success {
                DesktopErrorView::NotAccepted
            } else {
                DesktopErrorView::ProcessesFailed(text::trimmed(output.deep_view().stderr))
            }) && !(output.deep_view().success && activation_accepted),
        },
{
    run_powershell(output)?;
    if !activation_accepted {
        return Err(DesktopError::NotAccepted);
    }
    Ok(())
}

} // verus!
