//! What the installers report of their progress and their result.
use crate::duplicate::Duplicate;
use crate::text;
use vstd::prelude::*;

verus! {

/// How far a step of an installation is.
#[derive(Debug, Clone, Copy, PartialEq, Eq, Structural)]
pub enum InstallerStepState {
    /// Not begun.
    Pending,
    /// Begun and not ended.
    Running,
    /// Ended well.
    Completed,
    /// Not needed.
    Skipped,
    /// Ended badly.
    Failed,
}

/// A step of an installation.
#[derive(Debug)]
pub struct InstallerStep {
    /// The number of the step, from one.
    pub index: usize,
    /// The name that is shown.
    pub name: String,
    /// How far the step is.
    pub state: InstallerStepState,
    /// What the step is doing or has done.
    pub detail: String,
    /// How much has been downloaded.
    pub downloaded_bytes: Option<u64>,
    /// How much there is to download.
    pub total_bytes: Option<u64>,
}

/// The view of `InstallerStep`: the same fields with their texts as characters.
pub struct InstallerStepView {
    pub index: usize,
    pub name: Seq<char>,
    pub state: InstallerStepState,
    pub detail: Seq<char>,
    pub downloaded_bytes: Option<u64>,
    pub total_bytes: Option<u64>,
}

impl DeepView for InstallerStep {
    type V = InstallerStepView;

    open spec fn deep_view(&self) -> InstallerStepView {
        InstallerStepView {
            index: self.index,
            name: self.name@,
            state: self.state,
            detail: self.detail@,
            downloaded_bytes: self.downloaded_bytes.deep_view(),
            total_bytes: self.total_bytes.deep_view(),
        }
    }
}

impl Duplicate for InstallerStep {
    fn duplicate(&self) -> (res: Self) {
        InstallerStep {
            index: self.index,
            name: self.name.duplicate(),
            state: self.state,
            detail: self.detail.duplicate(),
            downloaded_bytes: self.downloaded_bytes.duplicate(),
            total_bytes: self.total_bytes.duplicate(),
        }
    }
}

/// The progress of an installation.
#[derive(Debug)]
pub struct InstallerStatus {
    /// The title that is shown.
    pub title: String,
    /// The language of the texts.
    pub locale: String,
    /// The operating system.
    pub platform: String,
    /// When the installation began.
    pub started_at: String,
    /// When the progress changed last.
    pub updated_at: String,
    /// The number of the step that changed last, zero before the first.
    pub current_step: usize,
    /// Where the progress is kept.
    pub status_path: String,
    /// Where the result is kept.
    pub result_path: String,
    /// The steps in order.
    pub steps: Vec<InstallerStep>,
}

/// The view of `InstallerStatus`: the same fields with their texts as characters.
pub struct InstallerStatusView {
    pub title: Seq<char>,
    pub locale: Seq<char>,
    pub platform: Seq<char>,
    pub started_at: Seq<char>,
    pub updated_at: Seq<char>,
    pub current_step: usize,
    pub status_path: Seq<char>,
    pub result_path: Seq<char>,
    pub steps: Seq<InstallerStepView>,
}

impl DeepView for InstallerStatus {
    type V = InstallerStatusView;

    open spec fn deep_view(&self) -> InstallerStatusView {
        InstallerStatusView {
            title: self.title@,
            locale: self.locale@,
            platform: self.platform@,
            started_at: self.started_at@,
            updated_at: self.updated_at@,
            current_step: self.current_step,
            status_path: self.status_path@,
            result_path: self.result_path@,
            steps: self.steps.deep_view(),
        }
    }
}

impl Duplicate for InstallerStatus {
    fn duplicate(&self) -> (res: Self) {
        InstallerStatus {
            title: self.title.duplicate(),
            locale: self.locale.duplicate(),
            platform: self.platform.duplicate(),
            started_at: self.started_at.duplicate(),
            updated_at: self.updated_at.duplicate(),
            current_step: self.current_step,
            status_path: self.status_path.duplicate(),
            result_path: self.result_path.duplicate(),
            steps: self.steps.duplicate(),
        }
    }
}

/// A step that the installation does not have.
#[derive(Debug)]
pub struct InstallerProgressError {
    /// The number that was asked for.
    pub index: usize,
    /// How many steps there are.
    pub step_count: usize,
}

/// The view of `InstallerProgressError`: the same fields with their texts as characters.
pub struct InstallerProgressErrorView {
    pub index: usize,
    pub step_count: usize,
}

impl DeepView for InstallerProgressError {
    type V = InstallerProgressErrorView;

    open spec fn deep_view(&self) -> InstallerProgressErrorView {
        InstallerProgressErrorView {
            index: self.index,
            step_count: self.step_count,
        }
    }
}

impl Duplicate for InstallerProgressError {
    fn duplicate(&self) -> (res: Self) {
        InstallerProgressError {
            index: self.index,
            step_count: self.step_count,
        }
    }
}

/// What the installation script of Windows reports at its end.
#[derive(Debug)]
pub struct InstallerResultEnvelope {
    /// Whether everything went well.
    pub ok: bool,
    /// What went wrong.
    pub errors: Vec<String>,
}

/// The view of `InstallerResultEnvelope`: the same fields with their texts as characters.
pub struct InstallerResultEnvelopeView {
    pub ok: bool,
    pub errors: Seq<Seq<char>>,
}

impl DeepView for InstallerResultEnvelope {
    type V = InstallerResultEnvelopeView;

    open spec fn deep_view(&self) -> InstallerResultEnvelopeView {
        InstallerResultEnvelopeView {
            ok: self.ok,
            errors: self.errors.deep_view(),
        }
    }
}

impl Duplicate for InstallerResultEnvelope {
    fn duplicate(&self) -> (res: Self) {
        InstallerResultEnvelope {
            ok: self.ok,
            errors: self.errors.duplicate(),
        }
    }
}

/// What the installer of macOS reports at its end.
#[derive(Debug)]
pub struct MacosInstallerResult {
    /// Whether everything went well.
    pub ok: bool,
    /// The operating system.
    pub platform: String,
    /// When the installation began.
    pub started_at: String,
    /// The home of the profile.
    pub codex_home: String,
    /// Whether the application is installed.
    pub app_installed: bool,
    /// How the application came to be installed.
    pub app_install_method: String,
    /// Where the application is.
    pub app_path: String,
    /// The version of the application.
    pub version: String,
    /// The bundle of the application.
    pub bundle_id: String,
    /// The workspace that was set up.
    pub workspace_id: u64,
    /// The project, where there is one.
    pub project_id: Option<u64>,
    /// Whether the workspace has its credential.
    pub llm_credential_created: bool,
    /// Whether the settings are written.
    pub config_written: bool,
    /// Whether the login is written.
    pub auth_written: bool,
    /// What the router answered, where it was asked.
    pub router_http_status: Option<u16>,
    /// The model of the profile.
    pub model: String,
    /// How long the installation took.
    pub elapsed_ms: u128,
    /// What is worth a warning.
    pub warnings: Vec<String>,
    /// What went wrong.
    pub errors: Vec<String>,
}

/// The view of `MacosInstallerResult`: the same fields with their texts as characters.
pub struct MacosInstallerResultView {
    pub ok: bool,
    pub platform: Seq<char>,
    pub started_at: Seq<char>,
    pub codex_home: Seq<char>,
    pub app_installed: bool,
    pub app_install_method: Seq<char>,
    pub app_path: Seq<char>,
    pub version: Seq<char>,
    pub bundle_id: Seq<char>,
    pub workspace_id: u64,
    pub project_id: Option<u64>,
    pub llm_credential_created: bool,
    pub config_written: bool,
    pub auth_written: bool,
    pub router_http_status: Option<u16>,
    pub model: Seq<char>,
    pub elapsed_ms: u128,
    pub warnings: Seq<Seq<char>>,
    pub errors: Seq<Seq<char>>,
}

impl DeepView for MacosInstallerResult {
    type V = MacosInstallerResultView;

    open spec fn deep_view(&self) -> MacosInstallerResultView {
        MacosInstallerResultView {
            ok: self.ok,
            platform: self.platform@,
            started_at: self.started_at@,
            codex_home: self.codex_home@,
            app_installed: self.app_installed,
            app_install_method: self.app_install_method@,
            app_path: self.app_path@,
            version: self.version@,
            bundle_id: self.bundle_id@,
            workspace_id: self.workspace_id,
            project_id: self.project_id.deep_view(),
            llm_credential_created: self.llm_credential_created,
            config_written: self.config_written,
            auth_written: self.auth_written,
            router_http_status: self.router_http_status.deep_view(),
            model: self.model@,
            elapsed_ms: self.elapsed_ms,
            warnings: self.warnings.deep_view(),
            errors: self.errors.deep_view(),
        }
    }
}

impl Duplicate for MacosInstallerResult {
    fn duplicate(&self) -> (res: Self) {
        MacosInstallerResult {
            ok: self.ok,
            platform: self.platform.duplicate(),
            started_at: self.started_at.duplicate(),
            codex_home: self.codex_home.duplicate(),
            app_installed: self.app_installed,
            app_install_method: self.app_install_method.duplicate(),
            app_path: self.app_path.duplicate(),
            version: self.version.duplicate(),
            bundle_id: self.bundle_id.duplicate(),
            workspace_id: self.workspace_id,
            project_id: self.project_id.duplicate(),
            llm_credential_created: self.llm_credential_created,
            config_written: self.config_written,
            auth_written: self.auth_written,
            router_http_status: self.router_http_status.duplicate(),
            model: self.model.duplicate(),
            elapsed_ms: self.elapsed_ms,
            warnings: self.warnings.duplicate(),
            errors: self.errors.duplicate(),
        }
    }
}

impl InstallerProgressErrorView {
    /// The message of the error.
    pub open spec fn text(self) -> Seq<char> {
        "安装步骤 "@ + text::decimal(self.index as nat) + " 超出有效范围 1..="@ + text::decimal(
            self.step_count as nat,
        )
    }
}

impl InstallerProgressError {
    /// The message of the error.
    pub fn message(&self) -> (res: String)
        ensures
            res@ == self.deep_view().text(),
    {
        let mut out = "安装步骤 ".to_string();
        out.append(text::decimal_text(self.index as u64).as_str());
        out.append(" 超出有效范围 1..=");
        out.append(text::decimal_text(self.step_count as u64).as_str());
        out
    }
}

/// The names of the steps on macOS.
pub open spec fn macos_names() -> Seq<Seq<char>> {
    seq![
        "检查 ChatGPT 桌面应用"@,
        "读取应用安装包清单"@,
        "下载 ChatGPT 桌面应用"@,
        "校验并安装应用"@,
        "创建百积木 LLM 凭证和配置"@,
        "验证百积木路由"@,
        "完成安装配置"@,
    ]
}

/// A step that has not begun.
pub open spec fn pending_step(index: usize, name: Seq<char>) -> InstallerStepView {
    InstallerStepView {
        index,
        name,
        state: InstallerStepState::Pending,
        detail: Seq::empty(),
        downloaded_bytes: None,
        total_bytes: None,
    }
}

/// The steps on macOS before the first has begun.
pub open spec fn macos_steps() -> Seq<InstallerStepView> {
    macos_names().map(|i: int, name: Seq<char>| pending_step((i + 1) as usize, name))
}

/// The progress of an installation on macOS that has not begun.
pub open spec fn macos_status(
    started_at: Seq<char>,
    status_path: Seq<char>,
    result_path: Seq<char>,
) -> InstallerStatusView {
    InstallerStatusView {
        title: "百积木正在安装 ChatGPT 桌面应用"@,
        locale: "zh-CN"@,
        platform: "macos"@,
        started_at,
        updated_at: started_at,
        current_step: 0,
        status_path,
        result_path,
        steps: macos_steps(),
    }
}

/// A step that has not begun.
fn new_step(index: usize, name: &str) -> (res: InstallerStep)
    ensures
        res.deep_view() == pending_step(index, name@),
{
    let res = InstallerStep {
        index,
        name: name.to_string(),
        state: InstallerStepState::Pending,
        detail: String::new(),
        downloaded_bytes: None,
        total_bytes: None,
    };
    assert(res.detail@ =~= Seq::<char>::empty());
    res
}

/// Where the step with the number is looked for.
pub open spec fn place(index: usize) -> int {
    if index == 0 {
        0
    } else {
        index - 1
    }
}

/// Whether there is a step with the number.
pub open spec fn has_step(status: InstallerStatusView, index: usize) -> bool {
    place(index) < status.steps.len() && status.steps[place(index)].index == index
}

/// The progress after news of one step.
pub open spec fn with_step(
    status: InstallerStatusView,
    index: usize,
    state: InstallerStepState,
    detail: Seq<char>,
    downloaded_bytes: Option<u64>,
    total_bytes: Option<u64>,
    updated_at: Seq<char>,
) -> InstallerStatusView {
    InstallerStatusView {
        current_step: index,
        updated_at,
        steps: status.steps.update(
            place(index),
            (InstallerStepView {
                state,
                detail,
                downloaded_bytes,
                total_bytes,
                ..status.steps[place(index)]
            }),
        ),
        ..status
    }
}

/// A step that ends in this state if it has not begun.
pub open spec fn settled_step(
    step: InstallerStepView,
    state: InstallerStepState,
    detail: Seq<char>,
) -> InstallerStepView {
    if step.state == InstallerStepState::Pending {
        InstallerStepView { state, detail, ..step }
    } else {
        step
    }
}

/// The progress after every step that has not begun was ended.
pub open spec fn with_pending_settled(
    status: InstallerStatusView,
    state: InstallerStepState,
    detail: Seq<char>,
    updated_at: Seq<char>,
) -> InstallerStatusView {
    InstallerStatusView {
        updated_at,
        steps: status.steps.map_values(
            |step: InstallerStepView| settled_step(step, state, detail),
        ),
        ..status
    }
}

impl InstallerStatus {
    /// The progress of an installation on macOS that has not begun.
    pub fn macos(started_at: String, status_path: String, result_path: String) -> (res: Self)
        ensures
            res.deep_view() == macos_status(started_at@, status_path@, result_path@),
    {
        let mut steps: Vec<InstallerStep> = Vec::new();
        steps.push(new_step(1, "检查 ChatGPT 桌面应用"));
        steps.push(new_step(2, "读取应用安装包清单"));
        steps.push(new_step(3, "下载 ChatGPT 桌面应用"));
        steps.push(new_step(4, "校验并安装应用"));
        steps.push(new_step(5, "创建百积木 LLM 凭证和配置"));
        steps.push(new_step(6, "验证百积木路由"));
        steps.push(new_step(7, "完成安装配置"));
        assert(steps.deep_view() =~= macos_steps());
        InstallerStatus {
            title: "百积木正在安装 ChatGPT 桌面应用".to_string(),
            locale: "zh-CN".to_string(),
            platform: "macos".to_string(),
            updated_at: started_at.clone(),
            started_at,
            current_step: 0,
            status_path,
            result_path,
            steps,
        }
    }

    /// Takes news of one step. A step that there is not is refused, and nothing changes.
    pub fn update_step(
        &mut self,
        index: usize,
        state: InstallerStepState,
        detail: &str,
        downloaded_bytes: Option<u64>,
        total_bytes: Option<u64>,
        updated_at: String,
    ) -> (res: Result<(), InstallerProgressError>)
        ensures
            match res {
                Ok(()) => has_step(old(self).deep_view(), index) && final(self).deep_view()
                    == with_step(
                    old(self).deep_view(),
                    index,
                    state,
                    detail@,
                    downloaded_bytes,
                    total_bytes,
                    updated_at@,
                ),
                Err(error) => !has_step(old(self).deep_view(), index) && error.index == index
                    && error.step_count == old(self).deep_view().steps.len()
                    && final(self).deep_view() == old(self).deep_view(),
            },
    {
        let ghost before = self.deep_view();
        let at: usize = if index == 0 {
            0
        } else {
            index - 1
        };
        if at >= self.steps.len() || self.steps[at].index != index {
            return Err(InstallerProgressError { index, step_count: self.steps.len() });
        }
        let name = self.steps[at].name.clone();
        self.steps[at] = InstallerStep {
            index,
            name,
            state,
            detail: detail.to_string(),
            downloaded_bytes,
            total_bytes,
        };
        self.current_step = index;
        self.updated_at = updated_at;
        assert(self.deep_view().steps =~= with_step(
            before,
            index,
            state,
            detail@,
            downloaded_bytes,
            total_bytes,
            updated_at@,
        ).steps);
        Ok(())
    }

    /// Ends every step that has not begun.
    pub fn complete_pending(&mut self, state: InstallerStepState, detail: &str, updated_at: String)
        ensures
            final(self).deep_view() == with_pending_settled(
                old(self).deep_view(),
                state,
                detail@,
                updated_at@,
            ),
    {
        let ghost before = self.deep_view();
        let mut i: usize = 0;
        while i < self.steps.len()
            invariant
                i <= self.steps.len(),
                self.steps.len() == before.steps.len(),
                before == old(self).deep_view(),
                self.deep_view() == (InstallerStatusView {
                    steps: self.deep_view().steps,
                    ..before
                }),
                forall|j: int|
                    0 <= j < self.steps.len() ==> (#[trigger] self.steps@[j]).deep_view() == (if j
                        < i {
                        settled_step(before.steps[j], state, detail@)
                    } else {
                        before.steps[j]
                    }),
            decreases self.steps.len() - i,
        {
            if self.steps[i].state == InstallerStepState::Pending {
                let step = self.steps[i].duplicate();
                self.steps[i] = InstallerStep { state, detail: detail.to_string(), ..step };
            }
            i = i + 1;
        }
        self.updated_at = updated_at;
        assert(self.deep_view().steps =~= with_pending_settled(
            before,
            state,
            detail@,
            updated_at@,
        ).steps);
    }
}

/// The result of an installation on macOS that has not begun.
pub open spec fn pending_result(
    started_at: Seq<char>,
    codex_home: Seq<char>,
    workspace_id: u64,
    model: Seq<char>,
) -> MacosInstallerResultView {
    MacosInstallerResultView {
        ok: false,
        platform: "macos"@,
        started_at,
        codex_home,
        app_installed: false,
        app_install_method: Seq::empty(),
        app_path: Seq::empty(),
        version: Seq::empty(),
        bundle_id: Seq::empty(),
        workspace_id,
        project_id: None,
        llm_credential_created: false,
        config_written: false,
        auth_written: false,
        router_http_status: None,
        model,
        elapsed_ms: 0,
        warnings: Seq::empty(),
        errors: Seq::empty(),
    }
}

impl MacosInstallerResult {
    /// The result of an installation that has not begun.
    pub fn pending(
        started_at: String,
        codex_home: String,
        workspace_id: u64,
        model: String,
    ) -> (res: Self)
        ensures
            res.deep_view() == pending_result(started_at@, codex_home@, workspace_id, model@),
    {
        let res = MacosInstallerResult {
            ok: false,
            platform: "macos".to_string(),
            started_at,
            codex_home,
            app_installed: false,
            app_install_method: String::new(),
            app_path: String::new(),
            version: String::new(),
            bundle_id: String::new(),
            workspace_id,
            project_id: None,
            llm_credential_created: false,
            config_written: false,
            auth_written: false,
            router_http_status: None,
            model,
            elapsed_ms: 0,
            warnings: Vec::new(),
            errors: Vec::new(),
        };
        assert(res.app_install_method@ =~= Seq::<char>::empty());
        assert(res.deep_view().warnings =~= Seq::<Seq<char>>::empty());
        assert(res.deep_view().errors =~= Seq::<Seq<char>>::empty());
        res
    }
}

/// A new installation on macOS has the steps one to seven, and no other.
pub proof fn macos_has_its_steps(
    started_at: Seq<char>,
    status_path: Seq<char>,
    result_path: Seq<char>,
    index: usize,
)
    ensures
        has_step(macos_status(started_at, status_path, result_path), index) == (1 <= index <= 7),
{
    let steps = macos_steps();
    assert(steps.len() == 7);
    if 0 <= place(index) < 7 {
        assert(steps[place(index)].index == place(index) + 1);
    }
}

/// News of one step leaves the other steps and the identity of the installation as they were, and
/// the same steps can be told of afterwards.
pub proof fn other_steps_stay(
    status: InstallerStatusView,
    index: usize,
    state: InstallerStepState,
    detail: Seq<char>,
    downloaded_bytes: Option<u64>,
    total_bytes: Option<u64>,
    updated_at: Seq<char>,
    other: usize,
)
    requires
        has_step(status, index),
    ensures
        ({
            let after = with_step(
                status,
                index,
                state,
                detail,
                downloaded_bytes,
                total_bytes,
                updated_at,
            );
            &&& after.steps.len() == status.steps.len()
            &&& forall|i: int|
                0 <= i < status.steps.len() && i != place(index) ==> after.steps[i]
                    == status.steps[i]
            &&& after.steps[place(index)].name == status.steps[place(index)].name
            &&& after.title == status.title
            &&& after.status_path == status.status_path
            &&& after.result_path == status.result_path
            &&& after.started_at == status.started_at
            &&& has_step(after, other) == has_step(status, other)
        }),
{
}

/// Ended in another state, no step is left that has not begun, and ending the rest once more
/// changes no step.
pub proof fn settling_leaves_nothing_pending(
    status: InstallerStatusView,
    state: InstallerStepState,
    detail: Seq<char>,
    updated_at: Seq<char>,
)
    requires
        state != InstallerStepState::Pending,
    ensures
        ({
            let after = with_pending_settled(status, state, detail, updated_at);
            &&& after.steps.len() == status.steps.len()
            &&& forall|i: int|
                0 <= i < after.steps.len() ==> (#[trigger] after.steps[i]).state
                    != InstallerStepState::Pending
            &&& with_pending_settled(after, state, detail, updated_at) == after
        }),
{
    let after = with_pending_settled(status, state, detail, updated_at);
    assert(with_pending_settled(after, state, detail, updated_at).steps =~= after.steps);
}

} // verus!
