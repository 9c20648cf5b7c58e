//! What the platform client answers, checked and put into the values that the rest works with.
use crate::duplicate::Duplicate;
use crate::ids;
use crate::text;
use vstd::prelude::*;

verus! {

/// The environment variable that names the platform client.
pub const BAIJIMU_BINARY_ENV: &'static str = "CODEX_DESKTOP_BAIJIMU_BINARY";

/// How many workspaces are asked for at once.
pub const WORKSPACE_PAGE_SIZE: u64 = 200;

/// How much of what a failed command wrote is shown.
pub const ERROR_LIMIT: usize = 400;

/// What this device is authorized for.
#[derive(Debug)]
pub struct AuthStatus {
    /// Whether the device is authorized at all.
    pub authenticated: bool,
    /// The platform that it is authorized with.
    pub base_url: String,
    /// The current workspace.
    pub current_workspace_id: Option<u64>,
    /// The workspaces that it is authorized for, in ascending order.
    pub workspace_ids: Vec<u64>,
}

/// The view of `AuthStatus`: the same fields with their texts as characters.
pub struct AuthStatusView {
    pub authenticated: bool,
    pub base_url: Seq<char>,
    pub current_workspace_id: Option<u64>,
    pub workspace_ids: Seq<u64>,
}

impl DeepView for AuthStatus {
    type V = AuthStatusView;

    open spec fn deep_view(&self) -> AuthStatusView {
        AuthStatusView {
            authenticated: self.authenticated,
            base_url: self.base_url@,
            current_workspace_id: self.current_workspace_id.deep_view(),
            workspace_ids: self.workspace_ids.deep_view(),
        }
    }
}

impl Duplicate for AuthStatus {
    fn duplicate(&self) -> (res: Self) {
        AuthStatus {
            authenticated: self.authenticated,
            base_url: self.base_url.duplicate(),
            current_workspace_id: self.current_workspace_id.duplicate(),
            workspace_ids: self.workspace_ids.duplicate(),
        }
    }
}

/// A workspace of the platform.
#[derive(Debug)]
pub struct Workspace {
    /// The workspace.
    pub id: u64,
    /// Its name.
    pub name: String,
}

/// The view of `Workspace`: the same fields with their texts as characters.
pub struct WorkspaceView {
    pub id: u64,
    pub name: Seq<char>,
}

impl DeepView for Workspace {
    type V = WorkspaceView;

    open spec fn deep_view(&self) -> WorkspaceView {
        WorkspaceView {
            id: self.id,
            name: self.name@,
        }
    }
}

impl Duplicate for Workspace {
    fn duplicate(&self) -> (res: Self) {
        Workspace {
            id: self.id,
            name: self.name.duplicate(),
        }
    }
}

/// The answer to the question for the authorization status.
#[derive(Debug)]
pub struct AuthStatusContract {
    /// Whether the device is authorized at all.
    pub authenticated: bool,
    /// The platform that it is authorized with.
    pub base_url: String,
    /// The current workspace.
    pub current_workspace_id: Option<u64>,
    /// The workspaces that it is authorized for.
    pub workspace_ids: Vec<u64>,
}

/// The view of `AuthStatusContract`: the same fields with their texts as characters.
pub struct AuthStatusContractView {
    pub authenticated: bool,
    pub base_url: Seq<char>,
    pub current_workspace_id: Option<u64>,
    pub workspace_ids: Seq<u64>,
}

impl DeepView for AuthStatusContract {
    type V = AuthStatusContractView;

    open spec fn deep_view(&self) -> AuthStatusContractView {
        AuthStatusContractView {
            authenticated: self.authenticated,
            base_url: self.base_url@,
            current_workspace_id: self.current_workspace_id.deep_view(),
            workspace_ids: self.workspace_ids.deep_view(),
        }
    }
}

impl Duplicate for AuthStatusContract {
    fn duplicate(&self) -> (res: Self) {
        AuthStatusContract {
            authenticated: self.authenticated,
            base_url: self.base_url.duplicate(),
            current_workspace_id: self.current_workspace_id.duplicate(),
            workspace_ids: self.workspace_ids.duplicate(),
        }
    }
}

/// A workspace in an answer.
#[derive(Debug)]
pub struct WorkspaceContract {
    /// The workspace.
    pub id: u64,
    /// Its name.
    pub name: String,
}

/// The view of `WorkspaceContract`: the same fields with their texts as characters.
pub struct WorkspaceContractView {
    pub id: u64,
    pub name: Seq<char>,
}

impl DeepView for WorkspaceContract {
    type V = WorkspaceContractView;

    open spec fn deep_view(&self) -> WorkspaceContractView {
        WorkspaceContractView {
            id: self.id,
            name: self.name@,
        }
    }
}

impl Duplicate for WorkspaceContract {
    fn duplicate(&self) -> (res: Self) {
        WorkspaceContract {
            id: self.id,
            name: self.name.duplicate(),
        }
    }
}

/// The workspaces of one page.
#[derive(Debug)]
pub struct WorkspaceListDataContract {
    /// The workspaces.
    pub list: Vec<WorkspaceContract>,
    /// How many pages there are.
    pub total_pages: u64,
}

/// The view of `WorkspaceListDataContract`: the same fields with their texts as characters.
pub struct WorkspaceListDataContractView {
    pub list: Seq<WorkspaceContractView>,
    pub total_pages: u64,
}

impl DeepView for WorkspaceListDataContract {
    type V = WorkspaceListDataContractView;

    open spec fn deep_view(&self) -> WorkspaceListDataContractView {
        WorkspaceListDataContractView {
            list: self.list.deep_view(),
            total_pages: self.total_pages,
        }
    }
}

impl Duplicate for WorkspaceListDataContract {
    fn duplicate(&self) -> (res: Self) {
        WorkspaceListDataContract {
            list: self.list.duplicate(),
            total_pages: self.total_pages,
        }
    }
}

/// The answer to the question for a page of workspaces.
#[derive(Debug)]
pub struct WorkspaceListContract {
    /// The current workspace.
    pub current_workspace_id: Option<u64>,
    /// The page.
    pub data: WorkspaceListDataContract,
    /// Zero, or the code of an error.
    pub error_code: String,
    /// What the error is.
    pub value: Option<String>,
}

/// The view of `WorkspaceListContract`: the same fields with their texts as characters.
pub struct WorkspaceListContractView {
    pub current_workspace_id: Option<u64>,
    pub data: WorkspaceListDataContractView,
    pub error_code: Seq<char>,
    pub value: Option<Seq<char>>,
}

impl DeepView for WorkspaceListContract {
    type V = WorkspaceListContractView;

    open spec fn deep_view(&self) -> WorkspaceListContractView {
        WorkspaceListContractView {
            current_workspace_id: self.current_workspace_id.deep_view(),
            data: self.data.deep_view(),
            error_code: self.error_code@,
            value: self.value.deep_view(),
        }
    }
}

impl Duplicate for WorkspaceListContract {
    fn duplicate(&self) -> (res: Self) {
        WorkspaceListContract {
            current_workspace_id: self.current_workspace_id.duplicate(),
            data: self.data.duplicate(),
            error_code: self.error_code.duplicate(),
            value: self.value.duplicate(),
        }
    }
}

/// The answer to the order for a credential.
#[derive(Debug)]
pub struct LlmCredentialContract {
    /// Whether a credential was created.
    pub created: bool,
    /// The kind of the credential.
    pub key_type: String,
    /// The workspace that it belongs to.
    pub workspace_id: u64,
    /// The project that it belongs to.
    pub project_id: Option<u64>,
    /// The credential.
    pub credential: String,
}

/// The view of `LlmCredentialContract`: the same fields with their texts as characters.
pub struct LlmCredentialContractView {
    pub created: bool,
    pub key_type: Seq<char>,
    pub workspace_id: u64,
    pub project_id: Option<u64>,
    pub credential: Seq<char>,
}

impl DeepView for LlmCredentialContract {
    type V = LlmCredentialContractView;

    open spec fn deep_view(&self) -> LlmCredentialContractView {
        LlmCredentialContractView {
            created: self.created,
            key_type: self.key_type@,
            workspace_id: self.workspace_id,
            project_id: self.project_id.deep_view(),
            credential: self.credential@,
        }
    }
}

impl Duplicate for LlmCredentialContract {
    fn duplicate(&self) -> (res: Self) {
        LlmCredentialContract {
            created: self.created,
            key_type: self.key_type.duplicate(),
            workspace_id: self.workspace_id,
            project_id: self.project_id.duplicate(),
            credential: self.credential.duplicate(),
        }
    }
}

/// An answer of the platform, with what it answers or the error.
#[derive(Debug)]
pub struct PlatformEnvelope<T> {
    /// Zero, or the code of an error.
    pub error_code: String,
    /// What the error is.
    pub value: Option<String>,
    /// What is answered.
    pub data: T,
}

/// What can go wrong with the platform client.
#[derive(Debug)]
pub enum CliError {
    /// The platform reports an error: of which operation, its code, and what it is.
    PlatformFailed(String, String, String),
    /// The device is said to be authorized, but for no workspace.
    NothingAuthorized,
    /// A field of the answer is blank.
    FieldMissing(String),
    /// A field of the answer holds a number that is none of a workspace.
    IllegalIds(String),
    /// No workspace was named.
    WorkspaceIdZero,
    /// The current workspace changed from one page to the next.
    CurrentWorkspaceChanged,
    /// A page holds a workspace with a number that is none.
    IllegalWorkspaceId,
    /// Another workspace was answered than was asked for: the one, and the other.
    WorkspaceMismatch(u64, u64),
    /// The credential is not confirmed.
    CredentialUnconfirmed,
    /// The credential belongs to something else.
    CredentialForeign,
    /// The platform client is not named.
    BinaryMissing,
    /// The platform client is not named by an absolute path.
    BinaryRelative,
    /// The platform client does not exist at its path.
    BinaryAbsent(String),
    /// A command failed: which, and what it wrote.
    CommandFailed(String, String),
}

/// The view of `CliError`.
pub enum CliErrorView {
    PlatformFailed(Seq<char>, Seq<char>, Seq<char>),
    NothingAuthorized,
    FieldMissing(Seq<char>),
    IllegalIds(Seq<char>),
    WorkspaceIdZero,
    CurrentWorkspaceChanged,
    IllegalWorkspaceId,
    WorkspaceMismatch(u64, u64),
    CredentialUnconfirmed,
    CredentialForeign,
    BinaryMissing,
    BinaryRelative,
    BinaryAbsent(Seq<char>),
    CommandFailed(Seq<char>, Seq<char>),
}

impl DeepView for CliError {
    type V = CliErrorView;

    open spec fn deep_view(&self) -> CliErrorView {
        match self {
            CliError::PlatformFailed(operation, code, detail) => CliErrorView::PlatformFailed(
                operation@,
                code@,
                detail@,
            ),
            CliError::NothingAuthorized => CliErrorView::NothingAuthorized,
            CliError::FieldMissing(field) => CliErrorView::FieldMissing(field@),
            CliError::IllegalIds(field) => CliErrorView::IllegalIds(field@),
            CliError::WorkspaceIdZero => CliErrorView::WorkspaceIdZero,
            CliError::CurrentWorkspaceChanged => CliErrorView::CurrentWorkspaceChanged,
            CliError::IllegalWorkspaceId => CliErrorView::IllegalWorkspaceId,
            CliError::WorkspaceMismatch(expected, actual) => CliErrorView::WorkspaceMismatch(
                *expected,
                *actual,
            ),
            CliError::CredentialUnconfirmed => CliErrorView::CredentialUnconfirmed,
            CliError::CredentialForeign => CliErrorView::CredentialForeign,
            CliError::BinaryMissing => CliErrorView::BinaryMissing,
            CliError::BinaryRelative => CliErrorView::BinaryRelative,
            CliError::BinaryAbsent(path) => CliErrorView::BinaryAbsent(path@),
            CliError::CommandFailed(operation, detail) => CliErrorView::CommandFailed(
                operation@,
                detail@,
            ),
        }
    }
}

impl CliErrorView {
    /// The message of the error.
    pub open spec fn text(self) -> Seq<char> {
        match self {
            CliErrorView::PlatformFailed(operation, code, detail) => "baijimu CLI "@ + operation
                + " 失败（"@ + code + "）："@ + detail,
            CliErrorView::NothingAuthorized => "baijimu CLI 报告已认证，但授权工作区为空"@,
            CliErrorView::FieldMissing(field) => "baijimu CLI 响应缺少 "@ + field,
            CliErrorView::IllegalIds(field) => "baijimu CLI 响应中的 "@ + field + " 包含非法 ID"@,
            CliErrorView::WorkspaceIdZero => "工作区 ID 必须大于 0"@,
            CliErrorView::CurrentWorkspaceChanged => {
                "baijimu CLI workspace list 分页期间当前工作区发生变化"@
            },
            CliErrorView::IllegalWorkspaceId => {
                "baijimu CLI workspace list 返回了非法工作区 ID"@
            },
            CliErrorView::WorkspaceMismatch(expected, actual) => {
                "baijimu CLI workspace get 返回的工作区不匹配：expected="@ + text::decimal(
                    expected as nat,
                ) + ", actual="@ + text::decimal(actual as nat)
            },
            CliErrorView::CredentialUnconfirmed => "baijimu CLI 未确认 LLM credential 已创建"@,
            CliErrorView::CredentialForeign => {
                "baijimu CLI 返回的 LLM credential 归属不匹配"@
            },
            CliErrorView::BinaryMissing => {
                "Bridge Agent 未注入平台管理的 baijimu CLI 绝对路径；请升级或重启 Bridge Agent"@
            },
            CliErrorView::BinaryRelative => {
                "CODEX_DESKTOP_BAIJIMU_BINARY 必须是绝对路径，不能依赖 PATH 查找"@
            },
            CliErrorView::BinaryAbsent(path) => {
                "Bridge Agent 注入的 baijimu CLI 不存在："@ + path
            },
            CliErrorView::CommandFailed(operation, detail) => if detail.len() == 0 {
                "baijimu CLI "@ + operation + " 失败"@
            } else {
                "baijimu CLI "@ + operation + " 失败"@ + "："@ + detail
            },
        }
    }
}

impl CliError {
    /// The message of the error.
    pub fn message(&self) -> (res: String)
        ensures
            res@ == self.deep_view().text(),
    {
        match self {
            CliError::PlatformFailed(operation, code, detail) => {
                let mut out = "baijimu CLI ".to_string();
                out.append(operation.as_str());
                out.append(" 失败（");
                out.append(code.as_str());
                out.append("）：");
                out.append(detail.as_str());
                out
            },
            CliError::NothingAuthorized => {
                "baijimu CLI 报告已认证，但授权工作区为空".to_string()
            },
            CliError::FieldMissing(field) => {
                let mut out = "baijimu CLI 响应缺少 ".to_string();
                out.append(field.as_str());
                out
            },
            CliError::IllegalIds(field) => {
                let mut out = "baijimu CLI 响应中的 ".to_string();
                out.append(field.as_str());
                out.append(" 包含非法 ID");
                out
            },
            CliError::WorkspaceIdZero => "工作区 ID 必须大于 0".to_string(),
            CliError::CurrentWorkspaceChanged => {
                "baijimu CLI workspace list 分页期间当前工作区发生变化".to_string()
            },
            CliError::IllegalWorkspaceId => {
                "baijimu CLI workspace list 返回了非法工作区 ID".to_string()
            },
            CliError::WorkspaceMismatch(expected, actual) => {
                let mut out = "baijimu CLI workspace get 返回的工作区不匹配：expected=".to_string();
                out.append(text::decimal_text(*expected).as_str());
                out.append(", actual=");
                out.append(text::decimal_text(*actual).as_str());
                out
            },
            CliError::CredentialUnconfirmed => {
                "baijimu CLI 未确认 LLM credential 已创建".to_string()
            },
            CliError::CredentialForeign => {
                "baijimu CLI 返回的 LLM credential 归属不匹配".to_string()
            },
            CliError::BinaryMissing => {
                "Bridge Agent 未注入平台管理的 baijimu CLI 绝对路径；请升级或重启 Bridge Agent".to_string()
            },
            CliError::BinaryRelative => {
                "CODEX_DESKTOP_BAIJIMU_BINARY 必须是绝对路径，不能依赖 PATH 查找".to_string()
            },
            CliError::BinaryAbsent(path) => {
                let mut out = "Bridge Agent 注入的 baijimu CLI 不存在：".to_string();
                out.append(path.as_str());
                out
            },
            CliError::CommandFailed(operation, detail) => {
                let mut out = "baijimu CLI ".to_string();
                out.append(operation.as_str());
                out.append(" 失败");
                if !detail.as_str().is_empty() {
                    out.append("：");
                    out.append(detail.as_str());
                }
                out
            },
        }
    }
}

/// What is said of an error that the platform does not explain.
pub open spec fn explained(value: Option<Seq<char>>) -> Seq<char> {
    match value {
        Some(detail) => detail,
        None => "平台操作失败"@,
    }
}

/// The error that an answer reports, if it does.
pub open spec fn reported(
    operation: Seq<char>,
    code: Seq<char>,
    value: Option<Seq<char>>,
) -> Option<CliErrorView> {
    if code == "0"@ {
        None
    } else {
        Some(CliErrorView::PlatformFailed(operation, code, explained(value)))
    }
}

/// The error that an answer reports, if it does.
fn report(operation: &str, code: &str, value: &Option<String>) -> (res: Option<CliError>)
    ensures
        res.deep_view() == reported(operation@, code@, text::opt_view(*value)),
{
    if text::same(code, "0") {
        return None;
    }
    let detail = match value {
        Some(detail) => detail.clone(),
        None => "平台操作失败".to_string(),
    };
    Some(CliError::PlatformFailed(operation.to_string(), code.to_string(), detail))
}

impl<T> PlatformEnvelope<T> {
    /// What is answered, where the answer reports no error.
    pub fn into_data(self, operation: &str) -> (res: Result<T, CliError>)
        ensures
            match res {
                Ok(data) => data == self.data && self.error_code@ == "0"@,
                Err(error) => reported(
                    operation@,
                    self.error_code@,
                    text::opt_view(self.value),
                ) == Some(error.deep_view()),
            },
    {
        match report(operation, self.error_code.as_str(), &self.value) {
            Some(error) => Err(error),
            None => Ok(self.data),
        }
    }
}

/// The field of an answer without surrounding white space. It may not be blank.
pub fn required_text(value: &str, field: &str) -> (res: Result<String, CliError>)
    ensures
        match res {
            Ok(found) => !text::blank(value@) && found@ == text::trimmed(value@),
            Err(error) => text::blank(value@) && error.deep_view() == CliErrorView::FieldMissing(
                field@,
            ),
        },
{
    if text::is_blank(value) {
        Err(CliError::FieldMissing(field.to_string()))
    } else {
        Ok(text::trim(value))
    }
}

/// Refuses the number that is none of a workspace.
pub fn require_workspace_id(workspace_id: u64) -> (res: Result<(), CliError>)
    ensures
        match res {
            Ok(()) => workspace_id != 0,
            Err(error) => workspace_id == 0 && error.deep_view() == CliErrorView::WorkspaceIdZero,
        },
{
    if workspace_id == 0 {
        Err(CliError::WorkspaceIdZero)
    } else {
        Ok(())
    }
}

/// The numbers of an answer in ascending order, each once. All of them have to be positive.
pub fn positive_unique_ids(all: &Vec<u64>, field: &str) -> (res: Result<Vec<u64>, CliError>)
    ensures
        match res {
            Ok(sorted) => !all@.contains(0u64) && sorted@ == ids::listing(all@.to_set())
                && ids::lists(sorted@, all@.to_set()),
            Err(error) => all@.contains(0u64) && error.deep_view() == CliErrorView::IllegalIds(
                field@,
            ),
        },
{
    if ids::contains_id(all, 0) {
        Err(CliError::IllegalIds(field.to_string()))
    } else {
        Ok(ids::sort_ids(all))
    }
}

/// The authorization status that an answer gives, or what is wrong with the answer.
pub open spec fn checked_status(contract: AuthStatusContractView) -> Result<
    AuthStatusView,
    CliErrorView,
> {
    if contract.authenticated && contract.workspace_ids.len() == 0 {
        Err(CliErrorView::NothingAuthorized)
    } else if text::blank(contract.base_url) {
        Err(CliErrorView::FieldMissing("auth status.baseUrl"@))
    } else if contract.workspace_ids.contains(0u64) {
        Err(CliErrorView::IllegalIds("auth status.workspaceIds"@))
    } else {
        Ok(
            AuthStatusView {
                authenticated: contract.authenticated,
                base_url: text::trimmed(contract.base_url),
                current_workspace_id: match contract.current_workspace_id {
                    Some(id) => if id > 0 {
                        Some(id)
                    } else {
                        None
                    },
                    None => None,
                },
                workspace_ids: ids::listing(contract.workspace_ids.to_set()),
            },
        )
    }
}

/// The authorization status that an answer gives.
pub fn auth_status(contract: &AuthStatusContract) -> (res: Result<AuthStatus, CliError>)
    ensures
        match res {
            Ok(status) => checked_status(contract.deep_view()) == Ok::<AuthStatusView, CliErrorView>(
                status.deep_view(),
            ),
            Err(error) => checked_status(contract.deep_view()) == Err::<
                AuthStatusView,
                CliErrorView,
            >(error.deep_view()),
        },
{
    assert(contract.workspace_ids.deep_view() =~= contract.workspace_ids@);
    if contract.authenticated && contract.workspace_ids.len() == 0 {
        return Err(CliError::NothingAuthorized);
    }
    let base_url = required_text(contract.base_url.as_str(), "auth status.baseUrl")?;
    let workspace_ids = positive_unique_ids(&contract.workspace_ids, "auth status.workspaceIds")?;
    let current_workspace_id = match contract.current_workspace_id {
        Some(id) => {
            if id > 0 {
                Some(id)
            } else {
                None
            }
        },
        None => None,
    };
    assert(workspace_ids.deep_view() =~= workspace_ids@);
    Ok(
        AuthStatus {
            authenticated: contract.authenticated,
            base_url,
            current_workspace_id,
            workspace_ids,
        },
    )
}

/// The names of workspaces with those of a page added, or what is wrong with the page. A workspace
/// that is there already gets the later name.
pub open spec fn names_with(
    names: Map<u64, Seq<char>>,
    items: Seq<WorkspaceContractView>,
) -> Result<Map<u64, Seq<char>>, CliErrorView>
    decreases items.len(),
{
    if items.len() == 0 {
        Ok(names)
    } else {
        match names_with(names, items.drop_last()) {
            Err(error) => Err(error),
            Ok(before) => if items.last().id == 0 {
                Err(CliErrorView::IllegalWorkspaceId)
            } else if text::blank(items.last().name) {
                Err(CliErrorView::FieldMissing("workspace list.data.list[].name"@))
            } else {
                Ok(before.insert(items.last().id, text::trimmed(items.last().name)))
            },
        }
    }
}

/// How far the workspaces are listed.
pub struct ListingProgress {
    /// The current workspace that the pages agree on.
    pub expected: Option<u64>,
    /// The names of the workspaces so far.
    pub names: Map<u64, Seq<char>>,
    /// Whether the last page was received.
    pub done: bool,
}

/// The progress with a page added, or what is wrong with the page.
pub open spec fn page_received(
    progress: ListingProgress,
    page: WorkspaceListContractView,
    number: nat,
) -> Result<ListingProgress, CliErrorView> {
    if reported("workspace list"@, page.error_code, page.value) is Some {
        Err(reported("workspace list"@, page.error_code, page.value)->0)
    } else if progress.expected is Some && page.current_workspace_id != progress.expected {
        Err(CliErrorView::CurrentWorkspaceChanged)
    } else {
        match names_with(progress.names, page.data.list) {
            Err(error) => Err(error),
            Ok(names) => Ok(
                ListingProgress {
                    expected: page.current_workspace_id,
                    names,
                    done: number >= page.data.total_pages && number >= 1,
                },
            ),
        }
    }
}

/// The progress after the pages, in their order. Pages behind the last one are not looked at.
pub open spec fn pages_received(pages: Seq<WorkspaceListContractView>) -> Result<
    ListingProgress,
    CliErrorView,
>
    decreases pages.len(),
{
    if pages.len() == 0 {
        Ok(ListingProgress { expected: None, names: Map::empty(), done: false })
    } else {
        match pages_received(pages.drop_last()) {
            Err(error) => Err(error),
            Ok(progress) => if progress.done {
                Ok(progress)
            } else {
                page_received(progress, pages.last(), pages.len())
            },
        }
    }
}

/// The workspaces in ascending order.
pub open spec fn listed(names: Map<u64, Seq<char>>) -> Seq<WorkspaceView> {
    ids::listing(names.dom()).map_values(|id: u64| WorkspaceView { id, name: names[id] })
}

/// Whether the list holds the workspaces in ascending order.
spec fn holds_names(list: Seq<WorkspaceView>, names: Map<u64, Seq<char>>) -> bool {
    &&& forall|i: int, j: int|
        0 <= i < j < list.len() ==> (#[trigger] list[i]).id < (#[trigger] list[j]).id
    &&& forall|i: int|
        0 <= i < list.len() ==> names.contains_key((#[trigger] list[i]).id) && names[list[i].id]
            == list[i].name
    &&& forall|id: u64| #[trigger]
        names.contains_key(id) ==> exists|i: int| 0 <= i < list.len() && (#[trigger] list[i]).id
            == id
}

/// A list that holds the workspaces in ascending order is the list of them.
proof fn held_is_listed(list: Seq<WorkspaceView>, names: Map<u64, Seq<char>>)
    requires
        holds_names(list, names),
    ensures
        listed(names) == list,
{
    let found = list.map_values(|w: WorkspaceView| w.id);
    assert(ids::ascending(found)) by {
        assert forall|i: int, j: int| 0 <= i < j < found.len() implies #[trigger] found[i]
            < #[trigger] found[j] by {
            assert(list[i].id < list[j].id);
        }
    }
    assert forall|id: u64| #[trigger] found.contains(id) <==> names.dom().contains(id) by {
        if found.contains(id) {
            let i = choose|i: int| 0 <= i < found.len() && found[i] == id;
            assert(list[i].id == id);
        }
        if names.contains_key(id) {
            let i = choose|i: int| 0 <= i < list.len() && (#[trigger] list[i]).id == id;
            assert(found[i] == id);
        }
    }
    ids::lists_the_listing(found, names.dom());
    assert(listed(names) =~= list);
}

/// Adds a workspace, or gives the one that is there a new name.
fn put_workspace(list: &mut Vec<Workspace>, workspace: Workspace, Ghost(names): Ghost<Map<u64, Seq<char>>>)
    requires
        holds_names(old(list).deep_view(), names),
    ensures
        holds_names(final(list).deep_view(), names.insert(workspace.id, workspace.name@)),
{
    let ghost before = list.deep_view();
    let ghost added = workspace.deep_view();
    let mut at: usize = list.len();
    while at > 0 && list[at - 1].id >= workspace.id
        invariant
            at <= list.len(),
            list.deep_view() == before,
            forall|j: int| at <= j < before.len() ==> (#[trigger] before[j]).id >= workspace.id,
        decreases at,
    {
        assert(before[at - 1].id == list@[at - 1].id);
        at = at - 1;
    }
    assert(at > 0 ==> before[at - 1].id < workspace.id);
    let ghost after_names = names.insert(added.id, added.name);
    if at < list.len() && list[at].id == workspace.id {
        list[at] = workspace;
        proof {
            let after = list.deep_view();
            assert(after =~= before.update(at as int, added));
            assert(before[at as int].id == added.id);
            assert forall|i: int, j: int| 0 <= i < j < after.len() implies (#[trigger] after[i]).id
                < (#[trigger] after[j]).id by {
                assert(before[i].id < before[j].id);
            }
            assert forall|i: int| 0 <= i < after.len() implies after_names.contains_key(
                (#[trigger] after[i]).id,
            ) && after_names[after[i].id] == after[i].name by {
                if i != at {
                    assert(names.contains_key(before[i].id));
                    if i < at {
                        assert(before[i].id < before[at as int].id);
                    } else {
                        assert(before[at as int].id < before[i].id);
                    }
                }
            }
            assert forall|id: u64| #[trigger] after_names.contains_key(id) implies exists|i: int|
                0 <= i < after.len() && (#[trigger] after[i]).id == id by {
                if id == added.id {
                    assert(after[at as int].id == id);
                } else {
                    assert(names.contains_key(id));
                    let i = choose|i: int| 0 <= i < before.len() && (#[trigger] before[i]).id == id;
                    assert(after[i].id == id);
                }
            }
        }
        return;
    }
    list.insert(at, workspace);
    proof {
        let after = list.deep_view();
        assert(after =~= before.insert(at as int, added));
        assert forall|j: int| at <= j < before.len() implies (#[trigger] before[j]).id
            > added.id by {
            if j > at {
                assert(before[at as int].id < before[j].id);
            }
        }
        assert forall|j: int| 0 <= j < at implies (#[trigger] before[j]).id < added.id by {
            if j < at - 1 {
                assert(before[j].id < before[at - 1].id);
            }
        }
        assert forall|i: int, j: int| 0 <= i < j < after.len() implies (#[trigger] after[i]).id
            < (#[trigger] after[j]).id by {
            let x = if i < at {
                i
            } else {
                i - 1
            };
            let y = if j < at {
                j
            } else {
                j - 1
            };
            if i == at {
                assert(after[j] == before[y]);
            } else if j == at {
                assert(after[i] == before[x]);
            } else {
                assert(after[i] == before[x]);
                assert(after[j] == before[y]);
                assert(before[x].id < before[y].id);
            }
        }
        assert forall|i: int| 0 <= i < after.len() implies after_names.contains_key(
            (#[trigger] after[i]).id,
        ) && after_names[after[i].id] == after[i].name by {
            if i < at {
                assert(after[i] == before[i]);
                assert(names.contains_key(before[i].id));
            } else if i > at {
                assert(after[i] == before[i - 1]);
                assert(names.contains_key(before[i - 1].id));
            }
        }
        assert forall|id: u64| #[trigger] after_names.contains_key(id) implies exists|i: int|
            0 <= i < after.len() && (#[trigger] after[i]).id == id by {
            if id == added.id {
                assert(after[at as int].id == id);
            } else {
                assert(names.contains_key(id));
                let i = choose|i: int| 0 <= i < before.len() && (#[trigger] before[i]).id == id;
                if i < at {
                    assert(after[i].id == id);
                } else {
                    assert(after[i + 1].id == id);
                }
            }
        }
    }
}

/// A page that is refused stays refused however many items follow.
proof fn items_stay_refused(
    names: Map<u64, Seq<char>>,
    items: Seq<WorkspaceContractView>,
    k: int,
)
    requires
        0 <= k <= items.len(),
        names_with(names, items.take(k)) is Err,
    ensures
        names_with(names, items) == names_with(names, items.take(k)),
    decreases items.len(),
{
    if k < items.len() {
        assert(items.drop_last().take(k) =~= items.take(k));
        items_stay_refused(names, items.drop_last(), k);
    } else {
        assert(items.take(k) =~= items);
    }
}

/// Adds the workspaces of a page.
fn put_page(
    list: &mut Vec<Workspace>,
    items: &Vec<WorkspaceContract>,
    Ghost(names): Ghost<Map<u64, Seq<char>>>,
) -> (res: Result<(), CliError>)
    requires
        holds_names(old(list).deep_view(), names),
    ensures
        match res {
            Ok(()) => names_with(names, items.deep_view()) is Ok && holds_names(
                final(list).deep_view(),
                names_with(names, items.deep_view())->Ok_0,
            ),
            Err(error) => names_with(names, items.deep_view()) == Err::<
                Map<u64, Seq<char>>,
                CliErrorView,
            >(error.deep_view()),
        },
{
    let ghost all = items.deep_view();
    let mut i: usize = 0;
    assert(all.take(0) =~= seq![]);
    while i < items.len()
        invariant
            i <= items.len(),
            all == items.deep_view(),
            names_with(names, all.take(i as int)) is Ok,
            holds_names(list.deep_view(), names_with(names, all.take(i as int))->Ok_0),
        decreases items.len() - i,
    {
        let ghost so_far = names_with(names, all.take(i as int))->Ok_0;
        proof {
            assert(all.take(i + 1).drop_last() =~= all.take(i as int));
            assert(all.take(i + 1).last() == all[i as int]);
            if names_with(names, all.take(i + 1)) is Err {
                items_stay_refused(names, all, i + 1);
            }
        }
        let item = &items[i];
        if item.id == 0 {
            return Err(CliError::IllegalWorkspaceId);
        }
        let name = match required_text(item.name.as_str(), "workspace list.data.list[].name") {
            Ok(name) => name,
            Err(error) => {
                return Err(error);
            },
        };
        put_workspace(list, Workspace { id: item.id, name }, Ghost(so_far));
        i = i + 1;
    }
    assert(all.take(i as int) =~= all);
    Ok(())
}

/// What listing workspaces needs next.
#[derive(Debug)]
pub enum WorkspaceListing {
    /// The page with this number, counted from one.
    Page(u64),
    /// Nothing: these are the workspaces in ascending order.
    Complete(Vec<Workspace>),
}

/// What is wrong with a page stays wrong however many pages follow.
proof fn pages_stay_refused(pages: Seq<WorkspaceListContractView>, k: int)
    requires
        0 <= k <= pages.len(),
        pages_received(pages.take(k)) is Err,
    ensures
        pages_received(pages) == pages_received(pages.take(k)),
    decreases pages.len(),
{
    if k < pages.len() {
        assert(pages.drop_last().take(k) =~= pages.take(k));
        pages_stay_refused(pages.drop_last(), k);
    } else {
        assert(pages.take(k) =~= pages);
    }
}

/// The last page ends the listing however many pages follow.
proof fn pages_stay_done(pages: Seq<WorkspaceListContractView>, k: int)
    requires
        0 <= k <= pages.len(),
        pages_received(pages.take(k)) matches Ok(progress) && progress.done,
    ensures
        pages_received(pages) == pages_received(pages.take(k)),
    decreases pages.len(),
{
    if k < pages.len() {
        assert(pages.drop_last().take(k) =~= pages.take(k));
        pages_stay_done(pages.drop_last(), k);
    } else {
        assert(pages.take(k) =~= pages);
    }
}

/// Lists the workspaces from the pages received so far: says which page is needed next, or gives
/// the workspaces once the last page was received.
pub fn list_workspaces(pages: &Vec<WorkspaceListContract>) -> (res: Result<
    WorkspaceListing,
    CliError,
>)
    requires
        pages.len() < u64::MAX,
    ensures
        match res {
            Ok(WorkspaceListing::Complete(list)) => pages_received(pages.deep_view()) matches Ok(
                progress,
            ) && progress.done && list.deep_view() == listed(progress.names),
            Ok(WorkspaceListing::Page(number)) => pages_received(pages.deep_view()) matches Ok(
                progress,
            ) && !progress.done && number == pages.len() + 1,
            Err(error) => pages_received(pages.deep_view()) == Err::<ListingProgress, CliErrorView>(
                error.deep_view(),
            ),
        },
{
    let ghost all = pages.deep_view();
    let mut list: Vec<Workspace> = Vec::new();
    let mut expected: Option<u64> = None;
    let ghost mut progress = ListingProgress { expected: None, names: Map::empty(), done: false };
    let mut i: usize = 0;
    assert(all.take(0) =~= seq![]);
    assert(holds_names(list.deep_view(), progress.names));
    while i < pages.len()
        invariant
            i <= pages.len(),
            pages.len() < u64::MAX,
            all == pages.deep_view(),
            pages_received(all.take(i as int)) == Ok::<ListingProgress, CliErrorView>(progress),
            !progress.done,
            expected == progress.expected,
            holds_names(list.deep_view(), progress.names),
        decreases pages.len() - i,
    {
        let page = &pages[i];
        proof {
            assert(all.take(i + 1).drop_last() =~= all.take(i as int));
            assert(all.take(i + 1).last() == all[i as int]);
            if pages_received(all.take(i + 1)) is Err {
                pages_stay_refused(all, i + 1);
            }
        }
        if let Some(error) = report("workspace list", page.error_code.as_str(), &page.value) {
            return Err(error);
        }
        if expected.is_some() && page.current_workspace_id != expected {
            return Err(CliError::CurrentWorkspaceChanged);
        }
        expected = page.current_workspace_id;
        match put_page(&mut list, &page.data.list, Ghost(progress.names)) {
            Ok(()) => {},
            Err(error) => {
                return Err(error);
            },
        }
        proof {
            progress = pages_received(all.take(i + 1))->Ok_0;
        }
        if i as u64 + 1 >= page.data.total_pages {
            proof {
                pages_stay_done(all, i + 1);
                held_is_listed(list.deep_view(), progress.names);
            }
            return Ok(WorkspaceListing::Complete(list));
        }
        i = i + 1;
    }
    assert(all.take(i as int) =~= all);
    Ok(WorkspaceListing::Page(pages.len() as u64 + 1))
}

/// The workspace that an answer gives, or what is wrong with the answer.
pub open spec fn checked_workspace(
    workspace_id: u64,
    code: Seq<char>,
    value: Option<Seq<char>>,
    data: WorkspaceContractView,
) -> Result<WorkspaceView, CliErrorView> {
    if workspace_id == 0 {
        Err(CliErrorView::WorkspaceIdZero)
    } else if reported("workspace get"@, code, value) is Some {
        Err(reported("workspace get"@, code, value)->0)
    } else if data.id != workspace_id {
        Err(CliErrorView::WorkspaceMismatch(workspace_id, data.id))
    } else if text::blank(data.name) {
        Err(CliErrorView::FieldMissing("workspace get.data.name"@))
    } else {
        Ok(WorkspaceView { id: data.id, name: text::trimmed(data.name) })
    }
}

/// The workspace that an answer gives. It has to be the one that was asked for.
pub fn get_workspace(workspace_id: u64, envelope: PlatformEnvelope<WorkspaceContract>) -> (res:
    Result<Workspace, CliError>)
    ensures
        match res {
            Ok(workspace) => checked_workspace(
                workspace_id,
                envelope.error_code@,
                text::opt_view(envelope.value),
                envelope.data.deep_view(),
            ) == Ok::<WorkspaceView, CliErrorView>(workspace.deep_view()),
            Err(error) => checked_workspace(
                workspace_id,
                envelope.error_code@,
                text::opt_view(envelope.value),
                envelope.data.deep_view(),
            ) == Err::<WorkspaceView, CliErrorView>(error.deep_view()),
        },
{
    require_workspace_id(workspace_id)?;
    let workspace = envelope.into_data("workspace get")?;
    if workspace.id != workspace_id {
        return Err(CliError::WorkspaceMismatch(workspace_id, workspace.id));
    }
    let name = required_text(workspace.name.as_str(), "workspace get.data.name")?;
    Ok(Workspace { id: workspace.id, name })
}

/// The credential that an answer gives, or what is wrong with the answer.
pub open spec fn checked_credential(workspace_id: u64, contract: LlmCredentialContractView) -> Result<
    Seq<char>,
    CliErrorView,
> {
    if workspace_id == 0 {
        Err(CliErrorView::WorkspaceIdZero)
    } else if !contract.created || contract.key_type != "llmCredential"@ {
        Err(CliErrorView::CredentialUnconfirmed)
    } else if contract.workspace_id != workspace_id || contract.project_id is Some {
        Err(CliErrorView::CredentialForeign)
    } else if text::blank(contract.credential) {
        Err(CliErrorView::FieldMissing("llm-credential create.credential"@))
    } else {
        Ok(text::trimmed(contract.credential))
    }
}

/// The credential that an answer gives. It has to be one of the workspace and of no project.
pub fn create_llm_credential(workspace_id: u64, contract: &LlmCredentialContract) -> (res: Result<
    String,
    CliError,
>)
    ensures
        match res {
            Ok(credential) => checked_credential(workspace_id, contract.deep_view()) == Ok::<
                Seq<char>,
                CliErrorView,
            >(credential@),
            Err(error) => checked_credential(workspace_id, contract.deep_view()) == Err::<
                Seq<char>,
                CliErrorView,
            >(error.deep_view()),
        },
{
    require_workspace_id(workspace_id)?;
    if !contract.created || !text::same(contract.key_type.as_str(), "llmCredential") {
        return Err(CliError::CredentialUnconfirmed);
    }
    if contract.workspace_id != workspace_id || contract.project_id.is_some() {
        return Err(CliError::CredentialForeign);
    }
    required_text(contract.credential.as_str(), "llm-credential create.credential")
}

/// The arguments of the question for the authorization status.
pub fn auth_status_arguments() -> (res: Vec<String>)
    ensures
        res.deep_view() == seq!["auth"@, "status"@],
{
    let mut out: Vec<String> = Vec::new();
    out.push("auth".to_string());
    out.push("status".to_string());
    assert(out.deep_view() =~= seq!["auth"@, "status"@]);
    out
}

/// The arguments of the question for a page of workspaces.
pub fn list_workspaces_arguments(page: u64) -> (res: Vec<String>)
    ensures
        res.deep_view() == seq![
            "workspace"@,
            "list"@,
            "--json"@,
            "--page"@,
            text::decimal(page as nat),
            "--page-size"@,
            text::decimal(WORKSPACE_PAGE_SIZE as nat),
        ],
{
    let mut out: Vec<String> = Vec::new();
    out.push("workspace".to_string());
    out.push("list".to_string());
    out.push("--json".to_string());
    out.push("--page".to_string());
    out.push(text::decimal_text(page));
    out.push("--page-size".to_string());
    out.push(text::decimal_text(WORKSPACE_PAGE_SIZE));
    assert(out.deep_view() =~= seq![
        "workspace"@,
        "list"@,
        "--json"@,
        "--page"@,
        text::decimal(page as nat),
        "--page-size"@,
        text::decimal(WORKSPACE_PAGE_SIZE as nat),
    ]);
    out
}

/// The arguments of the question for a workspace.
pub fn get_workspace_arguments(workspace_id: u64) -> (res: Vec<String>)
    ensures
        res.deep_view() == seq![
            "workspace"@,
            "get"@,
            text::decimal(workspace_id as nat),
            "--json"@,
        ],
{
    let mut out: Vec<String> = Vec::new();
    out.push("workspace".to_string());
    out.push("get".to_string());
    out.push(text::decimal_text(workspace_id));
    out.push("--json".to_string());
    assert(out.deep_view() =~= seq![
        "workspace"@,
        "get"@,
        text::decimal(workspace_id as nat),
        "--json"@,
    ]);
    out
}

/// The arguments of the order for a credential.
pub fn create_llm_credential_arguments(workspace_id: u64) -> (res: Vec<String>)
    ensures
        res.deep_view() == seq![
            "llm-credential"@,
            "create"@,
            "--json"@,
            "--workspace-id"@,
            text::decimal(workspace_id as nat),
            "--show-secret"@,
        ],
{
    let mut out: Vec<String> = Vec::new();
    out.push("llm-credential".to_string());
    out.push("create".to_string());
    out.push("--json".to_string());
    out.push("--workspace-id".to_string());
    out.push(text::decimal_text(workspace_id));
    out.push("--show-secret".to_string());
    assert(out.deep_view() =~= seq![
        "llm-credential"@,
        "create"@,
        "--json"@,
        "--workspace-id"@,
        text::decimal(workspace_id as nat),
        "--show-secret"@,
    ]);
    out
}

/// What is shown of what a failed command wrote.
pub fn compact_error(value: &str) -> (res: String)
    ensures
        res@ == text::compacted(value@, ERROR_LIMIT as nat),
{
    text::compact(value, ERROR_LIMIT)
}

/// The error of a command that failed.
pub fn command_failed(operation: &str, stderr: &str) -> (res: CliError)
    ensures
        res.deep_view() == CliErrorView::CommandFailed(
            operation@,
            text::compacted(stderr@, ERROR_LIMIT as nat),
        ),
{
    CliError::CommandFailed(operation.to_string(), compact_error(stderr))
}

/// Checks the path of the platform client: it has to be named, absolute and a file.
pub fn validate_binary_path(path: &str, is_absolute: bool, is_file: bool) -> (res: Result<
    (),
    CliError,
>)
    ensures
        match res {
            Ok(()) => path@.len() > 0 && is_absolute && is_file,
            Err(error) => error.deep_view() == (if path@.len() == 0 {
                CliErrorView::BinaryMissing
            } else if !is_absolute {
                CliErrorView::BinaryRelative
            } else {
                CliErrorView::BinaryAbsent(path@)
            }) && !(path@.len() > 0 && is_absolute && is_file),
        },
{
    if path.is_empty() {
        return Err(CliError::BinaryMissing);
    }
    if !is_absolute {
        return Err(CliError::BinaryRelative);
    }
    if !is_file {
        return Err(CliError::BinaryAbsent(path.to_string()));
    }
    Ok(())
}

} // verus!
