//! The catalog of Codex workspaces: each has a state directory and a selected authorization.
use crate::codex_path;
use crate::credential::store::Stored;
use crate::digest;
use crate::duplicate::Duplicate;
use crate::ranking;
use crate::ranking::Ranked;
use crate::text;
use rand::RngCore;
use vstd::prelude::*;

verus! {

/// The version of the catalog.
pub const CATALOG_SCHEMA_VERSION: u32 = 1;

/// The workspace that is always there.
pub const DEFAULT_WORKSPACE_ID: &'static str = "default";

/// How many characters a name may have.
pub const NAME_LIMIT: usize = 80;

/// A Codex workspace.
#[derive(Debug)]
pub struct CodexWorkspace {
    /// What the workspace is found by.
    pub workspace_id: String,
    /// The name that is shown.
    pub name: String,
    /// Its state directory.
    pub codex_home: String,
    /// The authorization profile that is selected for it.
    pub auth_profile_id: Option<String>,
    /// When it was created.
    pub created_at_epoch_seconds: u64,
    /// When it was last changed or used.
    pub updated_at_epoch_seconds: u64,
    /// Whether it is the active one, as far as that is shown.
    pub active: bool,
    /// Whether it is the one that is always there.
    pub is_default: bool,
    /// Whether it was taken over from an earlier version.
    pub imported: bool,
}

/// The view of `CodexWorkspace`: the same fields with their texts as characters.
pub struct CodexWorkspaceView {
    pub workspace_id: Seq<char>,
    pub name: Seq<char>,
    pub codex_home: Seq<char>,
    pub auth_profile_id: Option<Seq<char>>,
    pub created_at_epoch_seconds: u64,
    pub updated_at_epoch_seconds: u64,
    pub active: bool,
    pub is_default: bool,
    pub imported: bool,
}

impl DeepView for CodexWorkspace {
    type V = CodexWorkspaceView;

    open spec fn deep_view(&self) -> CodexWorkspaceView {
        CodexWorkspaceView {
            workspace_id: self.workspace_id@,
            name: self.name@,
            codex_home: self.codex_home@,
            auth_profile_id: self.auth_profile_id.deep_view(),
            created_at_epoch_seconds: self.created_at_epoch_seconds,
            updated_at_epoch_seconds: self.updated_at_epoch_seconds,
            active: self.active,
            is_default: self.is_default,
            imported: self.imported,
        }
    }
}

impl Duplicate for CodexWorkspace {
    fn duplicate(&self) -> (res: Self) {
        CodexWorkspace {
            workspace_id: self.workspace_id.duplicate(),
            name: self.name.duplicate(),
            codex_home: self.codex_home.duplicate(),
            auth_profile_id: self.auth_profile_id.duplicate(),
            created_at_epoch_seconds: self.created_at_epoch_seconds,
            updated_at_epoch_seconds: self.updated_at_epoch_seconds,
            active: self.active,
            is_default: self.is_default,
            imported: self.imported,
        }
    }
}

/// The catalog.
#[derive(Debug)]
pub struct WorkspaceCatalog {
    /// The version of the catalog.
    pub schema_version: u32,
    /// The active workspace.
    pub active_workspace_id: String,
    /// The workspaces.
    pub workspaces: Vec<CodexWorkspace>,
}

/// The view of `WorkspaceCatalog`: the same fields with their texts as characters.
pub struct WorkspaceCatalogView {
    pub schema_version: u32,
    pub active_workspace_id: Seq<char>,
    pub workspaces: Seq<CodexWorkspaceView>,
}

impl DeepView for WorkspaceCatalog {
    type V = WorkspaceCatalogView;

    open spec fn deep_view(&self) -> WorkspaceCatalogView {
        WorkspaceCatalogView {
            schema_version: self.schema_version,
            active_workspace_id: self.active_workspace_id@,
            workspaces: self.workspaces.deep_view(),
        }
    }
}

impl Duplicate for WorkspaceCatalog {
    fn duplicate(&self) -> (res: Self) {
        WorkspaceCatalog {
            schema_version: self.schema_version,
            active_workspace_id: self.active_workspace_id.duplicate(),
            workspaces: self.workspaces.duplicate(),
        }
    }
}

/// What is shown of the catalog.
#[derive(Debug)]
pub struct WorkspaceState {
    /// The active workspace.
    pub active_workspace_id: String,
    /// The workspaces.
    pub workspaces: Vec<CodexWorkspace>,
}

/// The view of `WorkspaceState`: the same fields with their texts as characters.
pub struct WorkspaceStateView {
    pub active_workspace_id: Seq<char>,
    pub workspaces: Seq<CodexWorkspaceView>,
}

impl DeepView for WorkspaceState {
    type V = WorkspaceStateView;

    open spec fn deep_view(&self) -> WorkspaceStateView {
        WorkspaceStateView {
            active_workspace_id: self.active_workspace_id@,
            workspaces: self.workspaces.deep_view(),
        }
    }
}

impl Duplicate for WorkspaceState {
    fn duplicate(&self) -> (res: Self) {
        WorkspaceState {
            active_workspace_id: self.active_workspace_id.duplicate(),
            workspaces: self.workspaces.duplicate(),
        }
    }
}

/// A state directory of an earlier version that is to become a workspace.
#[derive(Debug)]
pub struct LegacyCodexWorkspaceCandidate {
    /// The authorization profile that it belonged to.
    pub profile_id: String,
    /// The name that is shown.
    pub workspace_name: String,
    /// The state directory.
    pub codex_home: String,
    /// When it was set up.
    pub initialized_at_epoch_seconds: u64,
}

/// The view of `LegacyCodexWorkspaceCandidate`: the same fields with their texts as characters.
pub struct LegacyCodexWorkspaceCandidateView {
    pub profile_id: Seq<char>,
    pub workspace_name: Seq<char>,
    pub codex_home: Seq<char>,
    pub initialized_at_epoch_seconds: u64,
}

impl DeepView for LegacyCodexWorkspaceCandidate {
    type V = LegacyCodexWorkspaceCandidateView;

    open spec fn deep_view(&self) -> LegacyCodexWorkspaceCandidateView {
        LegacyCodexWorkspaceCandidateView {
            profile_id: self.profile_id@,
            workspace_name: self.workspace_name@,
            codex_home: self.codex_home@,
            initialized_at_epoch_seconds: self.initialized_at_epoch_seconds,
        }
    }
}

impl Duplicate for LegacyCodexWorkspaceCandidate {
    fn duplicate(&self) -> (res: Self) {
        LegacyCodexWorkspaceCandidate {
            profile_id: self.profile_id.duplicate(),
            workspace_name: self.workspace_name.duplicate(),
            codex_home: self.codex_home.duplicate(),
            initialized_at_epoch_seconds: self.initialized_at_epoch_seconds,
        }
    }
}

/// What can go wrong with the catalog.
#[derive(Debug)]
pub enum WorkspaceError {
    /// The catalog cannot be read.
    Unreadable,
    /// The file holds no catalog.
    Invalid,
    /// The catalog is of another version.
    UnsupportedVersion,
    /// A workspace that is to be taken over would get the identity of another: its directory.
    ImportConflict(String),
    /// There is no such workspace.
    NotFound,
    /// The active workspace is not there.
    ActiveMissing,
    /// No authorization profile is selected for the workspace.
    NoAuthProfile,
    /// The name is blank.
    EmptyName,
    /// The name is too long.
    LongName,
    /// The name holds a control character.
    ControlName,
    /// Another workspace has the name.
    DuplicateName,
    /// Another workspace has the identity.
    TakenId,
}

/// The view of `WorkspaceError`.
pub enum WorkspaceErrorView {
    Unreadable,
    Invalid,
    UnsupportedVersion,
    ImportConflict(Seq<char>),
    NotFound,
    ActiveMissing,
    NoAuthProfile,
    EmptyName,
    LongName,
    ControlName,
    DuplicateName,
    TakenId,
}

impl DeepView for WorkspaceError {
    type V = WorkspaceErrorView;

    open spec fn deep_view(&self) -> WorkspaceErrorView {
        match self {
            WorkspaceError::Unreadable => WorkspaceErrorView::Unreadable,
            WorkspaceError::Invalid => WorkspaceErrorView::Invalid,
            WorkspaceError::UnsupportedVersion => WorkspaceErrorView::UnsupportedVersion,
            WorkspaceError::ImportConflict(home) => WorkspaceErrorView::ImportConflict(home@),
            WorkspaceError::NotFound => WorkspaceErrorView::NotFound,
            WorkspaceError::ActiveMissing => WorkspaceErrorView::ActiveMissing,
            WorkspaceError::NoAuthProfile => WorkspaceErrorView::NoAuthProfile,
            WorkspaceError::EmptyName => WorkspaceErrorView::EmptyName,
            WorkspaceError::LongName => WorkspaceErrorView::LongName,
            WorkspaceError::ControlName => WorkspaceErrorView::ControlName,
            WorkspaceError::DuplicateName => WorkspaceErrorView::DuplicateName,
            WorkspaceError::TakenId => WorkspaceErrorView::TakenId,
        }
    }
}

impl WorkspaceErrorView {
    /// The message of the error.
    pub open spec fn text(self) -> Seq<char> {
        match self {
            WorkspaceErrorView::Unreadable => "读取 Codex 工作区目录失败"@,
            WorkspaceErrorView::Invalid => "解析 Codex 工作区目录失败"@,
            WorkspaceErrorView::UnsupportedVersion => "Codex 工作区目录版本不受支持"@,
            WorkspaceErrorView::ImportConflict(home) => "历史 Codex 工作区标识冲突: "@ + home,
            WorkspaceErrorView::NotFound => "Codex 工作区不存在"@,
            WorkspaceErrorView::ActiveMissing => "当前 Codex 工作区不存在"@,
            WorkspaceErrorView::NoAuthProfile => "Codex 工作区尚未选择认证通道"@,
            WorkspaceErrorView::EmptyName => "工作区名称不能为空"@,
            WorkspaceErrorView::LongName => "工作区名称不能超过 80 个字符"@,
            WorkspaceErrorView::ControlName => "工作区名称不能包含控制字符"@,
            WorkspaceErrorView::DuplicateName => "已存在同名 Codex 工作区"@,
            WorkspaceErrorView::TakenId => "Codex 工作区标识已被占用"@,
        }
    }
}

impl WorkspaceError {
    /// The message of the error.
    pub fn message(&self) -> (res: String)
        ensures
            res@ == self.deep_view().text(),
    {
        match self {
            WorkspaceError::Unreadable => "读取 Codex 工作区目录失败".to_string(),
            WorkspaceError::Invalid => "解析 Codex 工作区目录失败".to_string(),
            WorkspaceError::UnsupportedVersion => "Codex 工作区目录版本不受支持".to_string(),
            WorkspaceError::ImportConflict(home) => {
                let mut out = "历史 Codex 工作区标识冲突: ".to_string();
                out.append(home.as_str());
                out
            },
            WorkspaceError::NotFound => "Codex 工作区不存在".to_string(),
            WorkspaceError::ActiveMissing => "当前 Codex 工作区不存在".to_string(),
            WorkspaceError::NoAuthProfile => "Codex 工作区尚未选择认证通道".to_string(),
            WorkspaceError::EmptyName => "工作区名称不能为空".to_string(),
            WorkspaceError::LongName => "工作区名称不能超过 80 个字符".to_string(),
            WorkspaceError::ControlName => "工作区名称不能包含控制字符".to_string(),
            WorkspaceError::DuplicateName => "已存在同名 Codex 工作区".to_string(),
            WorkspaceError::TakenId => "Codex 工作区标识已被占用".to_string(),
        }
    }
}

/// The lower-case form of a text.
pub uninterp spec fn lower_case(s: Seq<char>) -> Seq<char>;

/// `str::to_lowercase`: `lower_case` names what it returns.
#[verifier::external_body]
fn to_lower_case(s: &str) -> (res: String)
    ensures
        res@ == lower_case(s@),
{
    s.to_lowercase()
}

/// `rand::rngs::OsRng::try_fill_bytes` on twelve bytes: twelve random bytes, unless the system has
/// none. Nothing is said of which they are.
#[verifier::external_body]
fn random_bytes() -> (res: Option<Vec<u8>>)
    ensures
        res matches Some(bytes) ==> bytes@.len() == 12,
{
    let mut bytes = [0u8; 12];
    rand::rngs::OsRng.try_fill_bytes(&mut bytes).ok().map(|_done: ()| bytes.to_vec())
}

/// The default workspace comes first; the others are ordered by when they were last changed, the
/// latest first, and then by name.
pub open spec fn workspace_precedes(a: CodexWorkspaceView, b: CodexWorkspaceView) -> bool {
    if a.is_default != b.is_default {
        a.is_default
    } else if a.updated_at_epoch_seconds != b.updated_at_epoch_seconds {
        a.updated_at_epoch_seconds > b.updated_at_epoch_seconds
    } else {
        text::text_leq(a.name, b.name)
    }
}

impl Ranked for CodexWorkspace {
    open spec fn precedes(a: CodexWorkspaceView, b: CodexWorkspaceView) -> bool {
        workspace_precedes(a, b)
    }

    fn may_precede(&self, other: &Self) -> (res: bool) {
        if self.is_default != other.is_default {
            self.is_default
        } else if self.updated_at_epoch_seconds != other.updated_at_epoch_seconds {
            self.updated_at_epoch_seconds > other.updated_at_epoch_seconds
        } else {
            text::leq(self.name.as_str(), other.name.as_str())
        }
    }
}

/// The order of workspaces is total and transitive.
pub proof fn workspaces_are_ranked()
    ensures
        ranking::ranks::<CodexWorkspace>(),
{
    assert forall|a: CodexWorkspaceView, b: CodexWorkspaceView| #[trigger]
        <CodexWorkspace as Ranked>::precedes(a, b) || <CodexWorkspace as Ranked>::precedes(
            b,
            a,
        ) by {
        text::text_leq_total(a.name, b.name);
    }
    assert forall|a: CodexWorkspaceView, b: CodexWorkspaceView, c: CodexWorkspaceView|
        #![trigger <CodexWorkspace as Ranked>::precedes(a, b), <CodexWorkspace as Ranked>::precedes(b, c)]
        <CodexWorkspace as Ranked>::precedes(a, b) && <CodexWorkspace as Ranked>::precedes(
            b,
            c,
        ) implies <CodexWorkspace as Ranked>::precedes(a, c) by {
        if text::text_leq(a.name, b.name) && text::text_leq(b.name, c.name) {
            text::text_leq_transitive(a.name, b.name, c.name);
        }
    }
}

/// The workspaces in their order.
pub open spec fn sorted(all: Seq<CodexWorkspaceView>) -> Seq<CodexWorkspaceView> {
    ranking::arranged::<CodexWorkspace>(all)
}

/// Where the first workspace with the identity is.
pub open spec fn position(all: Seq<CodexWorkspaceView>, id: Seq<char>) -> Option<int>
    decreases all.len(),
{
    if all.len() == 0 {
        None
    } else {
        match position(all.drop_last(), id) {
            Some(at) => Some(at),
            None => if all.last().workspace_id == id {
                Some(all.len() - 1)
            } else {
                None
            },
        }
    }
}

/// A workspace is at its position.
pub proof fn position_is_right(all: Seq<CodexWorkspaceView>, id: Seq<char>)
    ensures
        match position(all, id) {
            Some(at) => 0 <= at < all.len() && all[at].workspace_id == id && forall|j: int|
                0 <= j < at ==> (#[trigger] all[j]).workspace_id != id,
            None => forall|j: int|
                0 <= j < all.len() ==> (#[trigger] all[j]).workspace_id != id,
        },
    decreases all.len(),
{
    if all.len() > 0 {
        position_is_right(all.drop_last(), id);
        match position(all.drop_last(), id) {
            Some(at) => {
                assert(all.drop_last()[at] == all[at]);
                assert forall|j: int| 0 <= j < at implies (#[trigger] all[j]).workspace_id != id by {
                    assert(all.drop_last()[j] == all[j]);
                }
            },
            None => {
                assert forall|j: int| 0 <= j < all.len() - 1 implies (#[trigger] all[j]).workspace_id
                    != id by {
                    assert(all.drop_last()[j] == all[j]);
                }
            },
        }
    }
}

/// The first place where a workspace has the identity is its position.
pub proof fn position_at(all: Seq<CodexWorkspaceView>, id: Seq<char>, at: int)
    requires
        0 <= at < all.len(),
        all[at].workspace_id == id,
        forall|j: int| 0 <= j < at ==> (#[trigger] all[j]).workspace_id != id,
    ensures
        position(all, id) == Some(at),
{
    position_is_right(all, id);
    match position(all, id) {
        Some(found) => {
            if found < at {
                assert(all[found].workspace_id == id);
            }
            if at < found {
                assert(all[at].workspace_id == id);
            }
        },
        None => {
            assert(all[at].workspace_id == id);
        },
    }
}

/// Where the first workspace with the identity is.
fn find_position(all: &Vec<CodexWorkspace>, id: &str) -> (res: Option<usize>)
    ensures
        match res {
            Some(at) => at < all.len() && position(all.deep_view(), id@) == Some(at as int),
            None => position(all.deep_view(), id@) is None,
        },
{
    let ghost views = all.deep_view();
    let mut i: usize = 0;
    while i < all.len()
        invariant
            i <= all.len(),
            views == all.deep_view(),
            forall|j: int| 0 <= j < i ==> (#[trigger] views[j]).workspace_id != id@,
        decreases all.len() - i,
    {
        if text::same(all[i].workspace_id.as_str(), id) {
            proof {
                assert(views[i as int].workspace_id == id@);
                position_at(views, id@, i as int);
            }
            return Some(i);
        }
        assert(views[i as int].workspace_id != id@);
        i = i + 1;
    }
    proof {
        position_is_right(views, id@);
        if let Some(at) = position(views, id@) {
            assert(views[at].workspace_id == id@);
        }
    }
    None
}

/// The default workspace as it has to be. Its authorization profile follows the given one.
pub open spec fn as_default(
    workspace: CodexWorkspaceView,
    home: Seq<char>,
    profile: Option<Seq<char>>,
) -> CodexWorkspaceView {
    CodexWorkspaceView {
        codex_home: home,
        auth_profile_id: if profile is Some {
            profile
        } else {
            workspace.auth_profile_id
        },
        is_default: true,
        imported: false,
        ..workspace
    }
}

/// A default workspace for a catalog that has none.
pub open spec fn new_default(
    home: Seq<char>,
    profile: Option<Seq<char>>,
    now: u64,
) -> CodexWorkspaceView {
    CodexWorkspaceView {
        workspace_id: DEFAULT_WORKSPACE_ID@,
        name: "默认工作区"@,
        codex_home: home,
        auth_profile_id: profile,
        created_at_epoch_seconds: now,
        updated_at_epoch_seconds: now,
        active: false,
        is_default: true,
        imported: false,
    }
}

/// The workspaces with the default one among them.
pub open spec fn with_default(
    all: Seq<CodexWorkspaceView>,
    home: Seq<char>,
    profile: Option<Seq<char>>,
    now: u64,
) -> Seq<CodexWorkspaceView> {
    match position(all, DEFAULT_WORKSPACE_ID@) {
        Some(at) => all.update(at, as_default(all[at], home, profile)),
        None => all.push(new_default(home, profile, now)),
    }
}

/// Whether the default workspace is missing, or has another directory or authorization profile.
pub open spec fn default_changes(
    all: Seq<CodexWorkspaceView>,
    home: Seq<char>,
    profile: Option<Seq<char>>,
) -> bool {
    match position(all, DEFAULT_WORKSPACE_ID@) {
        Some(at) => all[at].codex_home != home || (profile is Some && all[at].auth_profile_id
            != profile),
        None => true,
    }
}

/// Makes sure that the default workspace is there as it has to be, and says whether it was not.
fn ensure_default(
    all: &mut Vec<CodexWorkspace>,
    home: &str,
    profile: &Option<String>,
    now: u64,
) -> (res: bool)
    ensures
        final(all).deep_view() == with_default(
            old(all).deep_view(),
            home@,
            text::opt_view(*profile),
            now,
        ),
        res == default_changes(old(all).deep_view(), home@, text::opt_view(*profile)),
{
    let ghost before = all.deep_view();
    match find_position(all, DEFAULT_WORKSPACE_ID) {
        Some(at) => {
            let mut workspace = all[at].duplicate();
            let mut changed: bool = false;
            if !text::same(workspace.codex_home.as_str(), home) {
                workspace.codex_home = home.to_string();
                changed = true;
            }
            if let Some(wanted) = profile {
                let same = match &workspace.auth_profile_id {
                    Some(found) => text::same(found.as_str(), wanted.as_str()),
                    None => false,
                };
                if !same {
                    workspace.auth_profile_id = Some(wanted.clone());
                    changed = true;
                }
            }
            workspace.is_default = true;
            workspace.imported = false;
            let ghost fixed = workspace.deep_view();
            assert(fixed == as_default(before[at as int], home@, text::opt_view(*profile)));
            all[at] = workspace;
            assert(all.deep_view() =~= before.update(at as int, fixed));
            changed
        },
        None => {
            let workspace = CodexWorkspace {
                workspace_id: DEFAULT_WORKSPACE_ID.to_string(),
                name: "默认工作区".to_string(),
                codex_home: home.to_string(),
                auth_profile_id: profile.duplicate(),
                created_at_epoch_seconds: now,
                updated_at_epoch_seconds: now,
                active: false,
                is_default: true,
                imported: false,
            };
            let ghost added = workspace.deep_view();
            all.push(workspace);
            assert(all.deep_view() =~= before.push(added));
            true
        },
    }
}

/// The identity of a workspace that is taken over: it follows from its authorization profile and
/// its directory, and shows nothing of them.
pub open spec fn imported_id(profile: Seq<char>, home: Seq<char>) -> Seq<char> {
    digest::sha256_digits(
        vstd::utf8::encode_utf8("baijimu-codex-imported-workspace-v1"@) + seq![0u8]
            + vstd::utf8::encode_utf8(profile) + seq![0u8] + vstd::utf8::encode_utf8(home),
    ).take(24)
}

/// The identity of a workspace that is taken over.
pub fn imported_workspace_id(profile_id: &str, codex_home: &str) -> (res: String)
    ensures
        res@ == imported_id(profile_id@, codex_home@),
        res@.len() == 24,
        forall|i: int| 0 <= i < 24 ==> digest::lower_hex(#[trigger] res@[i]),
{
    let mut bytes = "baijimu-codex-imported-workspace-v1".as_bytes_vec();
    bytes.push(0u8);
    let mut profile = profile_id.as_bytes_vec();
    bytes.append(&mut profile);
    bytes.push(0u8);
    let mut home = codex_home.as_bytes_vec();
    bytes.append(&mut home);
    assert(bytes@ =~= vstd::utf8::encode_utf8("baijimu-codex-imported-workspace-v1"@) + seq![0u8]
        + vstd::utf8::encode_utf8(profile_id@) + seq![0u8] + vstd::utf8::encode_utf8(codex_home@));
    let digits = digest::sha256_hex(bytes.as_slice());
    let chars = text::chars_of(digits.as_str());
    assert(chars@.subrange(0, 24) =~= chars@.take(24));
    text::text_of(&chars, 0, 24)
}

/// Whether a workspace has the directory.
pub open spec fn has_home(all: Seq<CodexWorkspaceView>, home: Seq<char>) -> bool {
    exists|i: int| 0 <= i < all.len() && (#[trigger] all[i]).codex_home == home
}

/// Whether a workspace has the directory.
fn find_home(all: &Vec<CodexWorkspace>, home: &str) -> (res: bool)
    ensures
        res == has_home(all.deep_view(), home@),
{
    let ghost views = all.deep_view();
    let mut i: usize = 0;
    while i < all.len()
        invariant
            i <= all.len(),
            views == all.deep_view(),
            forall|j: int| 0 <= j < i ==> (#[trigger] views[j]).codex_home != home@,
        decreases all.len() - i,
    {
        if text::same(all[i].codex_home.as_str(), home) {
            assert(views[i as int].codex_home == home@);
            return true;
        }
        assert(views[i as int].codex_home != home@);
        i = i + 1;
    }
    false
}

/// The workspace that a directory becomes.
pub open spec fn imported_workspace(
    candidate: LegacyCodexWorkspaceCandidateView,
) -> CodexWorkspaceView {
    CodexWorkspaceView {
        workspace_id: imported_id(candidate.profile_id, candidate.codex_home),
        name: candidate.workspace_name,
        codex_home: candidate.codex_home,
        auth_profile_id: Some(candidate.profile_id),
        created_at_epoch_seconds: candidate.initialized_at_epoch_seconds,
        updated_at_epoch_seconds: candidate.initialized_at_epoch_seconds,
        active: false,
        is_default: false,
        imported: true,
    }
}

/// The workspaces with the directories taken over that none has yet, or the directory that would
/// get the identity of another workspace.
pub open spec fn with_imported(
    all: Seq<CodexWorkspaceView>,
    candidates: Seq<LegacyCodexWorkspaceCandidateView>,
) -> Result<Seq<CodexWorkspaceView>, WorkspaceErrorView>
    decreases candidates.len(),
{
    if candidates.len() == 0 {
        Ok(all)
    } else {
        match with_imported(all, candidates.drop_last()) {
            Err(error) => Err(error),
            Ok(before) => {
                let candidate = candidates.last();
                if has_home(before, candidate.codex_home) {
                    Ok(before)
                } else if position(
                    before,
                    imported_id(candidate.profile_id, candidate.codex_home),
                ) is Some {
                    Err(WorkspaceErrorView::ImportConflict(candidate.codex_home))
                } else {
                    Ok(before.push(imported_workspace(candidate)))
                }
            },
        }
    }
}

/// The workspaces with the directories taken over that come before the first conflict.
pub open spec fn taken_over(
    all: Seq<CodexWorkspaceView>,
    candidates: Seq<LegacyCodexWorkspaceCandidateView>,
) -> Seq<CodexWorkspaceView>
    decreases candidates.len(),
{
    if candidates.len() == 0 {
        all
    } else {
        match with_imported(all, candidates) {
            Ok(after) => after,
            Err(_) => taken_over(all, candidates.drop_last()),
        }
    }
}

/// A conflict stays one however many directories follow.
proof fn conflict_stays(
    all: Seq<CodexWorkspaceView>,
    candidates: Seq<LegacyCodexWorkspaceCandidateView>,
    k: int,
)
    requires
        0 <= k <= candidates.len(),
        with_imported(all, candidates.take(k)) is Err,
    ensures
        with_imported(all, candidates) == with_imported(all, candidates.take(k)),
        taken_over(all, candidates) == taken_over(all, candidates.take(k)),
    decreases candidates.len(),
{
    if k < candidates.len() {
        assert(candidates.drop_last().take(k) =~= candidates.take(k));
        conflict_stays(all, candidates.drop_last(), k);
    } else {
        assert(candidates.take(k) =~= candidates);
    }
}

/// Taking directories over only adds workspaces.
pub proof fn importing_adds(
    all: Seq<CodexWorkspaceView>,
    candidates: Seq<LegacyCodexWorkspaceCandidateView>,
)
    requires
        with_imported(all, candidates) is Ok,
    ensures
        ({
            let after = with_imported(all, candidates)->Ok_0;
            all.len() <= after.len() && after.take(all.len() as int) == all
        }),
    decreases candidates.len(),
{
    if candidates.len() == 0 {
        assert(all.take(all.len() as int) =~= all);
    } else {
        importing_adds(all, candidates.drop_last());
        let before = with_imported(all, candidates.drop_last())->Ok_0;
        let after = with_imported(all, candidates)->Ok_0;
        assert(after.take(all.len() as int) =~= before.take(all.len() as int));
    }
}

/// Taking directories over up to a conflict only adds workspaces.
pub proof fn taking_over_adds(
    all: Seq<CodexWorkspaceView>,
    candidates: Seq<LegacyCodexWorkspaceCandidateView>,
)
    ensures
        all.len() <= taken_over(all, candidates).len(),
        taken_over(all, candidates).take(all.len() as int) == all,
    decreases candidates.len(),
{
    if candidates.len() == 0 {
        assert(all.take(all.len() as int) =~= all);
    } else if with_imported(all, candidates) is Ok {
        importing_adds(all, candidates);
    } else {
        taking_over_adds(all, candidates.drop_last());
    }
}

/// Takes over the directories that no workspace has yet, each as a workspace of its own, and says
/// whether there was one. Where one would get the identity of another workspace, those before it
/// are taken over.
pub fn import_legacy_workspaces(
    catalog: &mut WorkspaceCatalog,
    candidates: &Vec<LegacyCodexWorkspaceCandidate>,
) -> (res: Result<bool, WorkspaceError>)
    ensures
        match res {
            Ok(changed) => with_imported(
                old(catalog).deep_view().workspaces,
                candidates.deep_view(),
            ) matches Ok(after) && final(catalog).deep_view() == (WorkspaceCatalogView {
                workspaces: after,
                ..old(catalog).deep_view()
            }) && changed == (after.len() > old(catalog).deep_view().workspaces.len()),
            Err(error) => with_imported(
                old(catalog).deep_view().workspaces,
                candidates.deep_view(),
            ) == Err::<Seq<CodexWorkspaceView>, WorkspaceErrorView>(error.deep_view())
                && final(catalog).deep_view() == (WorkspaceCatalogView {
                workspaces: taken_over(
                    old(catalog).deep_view().workspaces,
                    candidates.deep_view(),
                ),
                ..old(catalog).deep_view()
            }),
        },
{
    let ghost all = catalog.workspaces.deep_view();
    let ghost views = candidates.deep_view();
    let ghost before = catalog.deep_view();
    let count: usize = catalog.workspaces.len();
    let mut i: usize = 0;
    assert(views.take(0) =~= seq![]);
    while i < candidates.len()
        invariant
            i <= candidates.len(),
            all == old(catalog).deep_view().workspaces,
            views == candidates.deep_view(),
            before == old(catalog).deep_view(),
            with_imported(all, views.take(i as int)) == Ok::<
                Seq<CodexWorkspaceView>,
                WorkspaceErrorView,
            >(catalog.workspaces.deep_view()),
            catalog.deep_view() == (WorkspaceCatalogView {
                workspaces: catalog.workspaces.deep_view(),
                ..before
            }),
            taken_over(all, views.take(i as int)) == catalog.workspaces.deep_view(),
        decreases candidates.len() - i,
    {
        let candidate = &candidates[i];
        let ghost so_far = catalog.workspaces.deep_view();
        proof {
            assert(views.take(i + 1).drop_last() =~= views.take(i as int));
            assert(views.take(i + 1).last() == views[i as int]);
            if with_imported(all, views.take(i + 1)) is Err {
                conflict_stays(all, views, i + 1);
            }
        }
        if !find_home(&catalog.workspaces, candidate.codex_home.as_str()) {
            let workspace_id = imported_workspace_id(
                candidate.profile_id.as_str(),
                candidate.codex_home.as_str(),
            );
            if find_position(&catalog.workspaces, workspace_id.as_str()).is_some() {
                return Err(WorkspaceError::ImportConflict(candidate.codex_home.clone()));
            }
            let workspace = CodexWorkspace {
                workspace_id,
                name: candidate.workspace_name.clone(),
                codex_home: candidate.codex_home.clone(),
                auth_profile_id: Some(candidate.profile_id.clone()),
                created_at_epoch_seconds: candidate.initialized_at_epoch_seconds,
                updated_at_epoch_seconds: candidate.initialized_at_epoch_seconds,
                active: false,
                is_default: false,
                imported: true,
            };
            let ghost added = workspace.deep_view();
            catalog.workspaces.push(workspace);
            assert(catalog.workspaces.deep_view() =~= so_far.push(added));
        }
        i = i + 1;
    }
    assert(views.take(i as int) =~= views);
    proof {
        importing_adds(all, views);
    }
    Ok(catalog.workspaces.len() > count)
}

/// The catalog as it has to be, or why it cannot be: it has a default workspace, holds the
/// directories that were to be taken over, names an active workspace that is there, and is sorted.
pub open spec fn normalized(
    catalog: WorkspaceCatalogView,
    home: Seq<char>,
    profile: Option<Seq<char>>,
    candidates: Seq<LegacyCodexWorkspaceCandidateView>,
    now: u64,
) -> Result<WorkspaceCatalogView, WorkspaceErrorView> {
    if catalog.schema_version != CATALOG_SCHEMA_VERSION {
        Err(WorkspaceErrorView::UnsupportedVersion)
    } else {
        match with_imported(
            with_default(catalog.workspaces, home, profile, now),
            candidates,
        ) {
            Err(error) => Err(error),
            Ok(all) => Ok(
                WorkspaceCatalogView {
                    schema_version: CATALOG_SCHEMA_VERSION,
                    active_workspace_id: if position(all, catalog.active_workspace_id) is Some {
                        catalog.active_workspace_id
                    } else {
                        DEFAULT_WORKSPACE_ID@
                    },
                    workspaces: sorted(all),
                },
            ),
        }
    }
}

/// Whether anything but the order of the workspaces has to change for that.
pub open spec fn normalizing_changes(
    catalog: WorkspaceCatalogView,
    home: Seq<char>,
    profile: Option<Seq<char>>,
    candidates: Seq<LegacyCodexWorkspaceCandidateView>,
    now: u64,
) -> bool {
    let base = with_default(catalog.workspaces, home, profile, now);
    let all = with_imported(base, candidates)->Ok_0;
    ||| default_changes(catalog.workspaces, home, profile)
    ||| all.len() > base.len()
    ||| position(all, catalog.active_workspace_id) is None
}

/// The catalog where it cannot be as it has to be: as it was where it is of another version, else
/// with the default workspace and the directories taken over up to the conflict.
pub open spec fn half_normalized(
    catalog: WorkspaceCatalogView,
    home: Seq<char>,
    profile: Option<Seq<char>>,
    candidates: Seq<LegacyCodexWorkspaceCandidateView>,
    now: u64,
) -> WorkspaceCatalogView {
    if catalog.schema_version != CATALOG_SCHEMA_VERSION {
        catalog
    } else {
        WorkspaceCatalogView {
            workspaces: taken_over(
                with_default(catalog.workspaces, home, profile, now),
                candidates,
            ),
            ..catalog
        }
    }
}

/// Makes the catalog as it has to be, and says whether anything but the order of the workspaces
/// changed.
pub fn normalize(
    catalog: &mut WorkspaceCatalog,
    default_home: &str,
    default_auth_profile_id: &Option<String>,
    candidates: &Vec<LegacyCodexWorkspaceCandidate>,
    now: u64,
) -> (res: Result<bool, WorkspaceError>)
    ensures
        match res {
            Ok(changed) => normalized(
                old(catalog).deep_view(),
                default_home@,
                text::opt_view(*default_auth_profile_id),
                candidates.deep_view(),
                now,
            ) == Ok::<WorkspaceCatalogView, WorkspaceErrorView>(final(catalog).deep_view())
                && changed == normalizing_changes(
                old(catalog).deep_view(),
                default_home@,
                text::opt_view(*default_auth_profile_id),
                candidates.deep_view(),
                now,
            ),
            Err(error) => normalized(
                old(catalog).deep_view(),
                default_home@,
                text::opt_view(*default_auth_profile_id),
                candidates.deep_view(),
                now,
            ) == Err::<WorkspaceCatalogView, WorkspaceErrorView>(error.deep_view())
                && final(catalog).deep_view() == half_normalized(
                old(catalog).deep_view(),
                default_home@,
                text::opt_view(*default_auth_profile_id),
                candidates.deep_view(),
                now,
            ),
        },
{
    if catalog.schema_version != CATALOG_SCHEMA_VERSION {
        return Err(WorkspaceError::UnsupportedVersion);
    }
    let mut changed = ensure_default(
        &mut catalog.workspaces,
        default_home,
        default_auth_profile_id,
        now,
    );
    match import_legacy_workspaces(catalog, candidates) {
        Ok(imported) => {
            if imported {
                changed = true;
            }
        },
        Err(error) => {
            return Err(error);
        },
    }
    if find_position(&catalog.workspaces, catalog.active_workspace_id.as_str()).is_none() {
        catalog.active_workspace_id = DEFAULT_WORKSPACE_ID.to_string();
        changed = true;
    }
    ranking::sort(&mut catalog.workspaces);
    Ok(changed)
}

/// The catalog on disk, with what it is brought up to date from.
#[derive(Debug)]
pub struct CatalogStore {
    /// The catalog.
    pub stored: Stored<WorkspaceCatalog>,
    /// The directory of the default workspace.
    pub default_home: String,
    /// The directories of earlier versions.
    pub candidates: Vec<LegacyCodexWorkspaceCandidate>,
    /// Whether the catalog has to be written to disk.
    pub unsaved: bool,
}

/// The view of `CatalogStore`.
pub struct CatalogStoreView {
    pub stored: Stored<WorkspaceCatalogView>,
    pub default_home: Seq<char>,
    pub candidates: Seq<LegacyCodexWorkspaceCandidateView>,
    pub unsaved: bool,
}

impl DeepView for CatalogStore {
    type V = CatalogStoreView;

    open spec fn deep_view(&self) -> CatalogStoreView {
        CatalogStoreView {
            stored: self.stored.deep_view(),
            default_home: self.default_home@,
            candidates: self.candidates.deep_view(),
            unsaved: self.unsaved,
        }
    }
}

/// The store with the catalog replaced.
pub open spec fn saved(s: CatalogStoreView, catalog: WorkspaceCatalogView) -> CatalogStoreView {
    CatalogStoreView { stored: Stored::Value(catalog), unsaved: true, ..s }
}

/// Replaces the catalog.
fn save(files: &mut CatalogStore, catalog: &WorkspaceCatalog)
    ensures
        final(files).deep_view() == saved(old(files).deep_view(), catalog.deep_view()),
{
    files.stored = Stored::Value(catalog.duplicate());
    files.unsaved = true;
}

/// The catalog that is there before anything was ever stored.
pub open spec fn empty_catalog() -> WorkspaceCatalogView {
    WorkspaceCatalogView {
        schema_version: CATALOG_SCHEMA_VERSION,
        active_workspace_id: DEFAULT_WORKSPACE_ID@,
        workspaces: seq![],
    }
}

/// The catalog as it is found.
pub open spec fn found(s: CatalogStoreView) -> Result<WorkspaceCatalogView, WorkspaceErrorView> {
    match s.stored {
        Stored::Missing => Ok(empty_catalog()),
        Stored::Unreadable => Err(WorkspaceErrorView::Unreadable),
        Stored::Invalid => Err(WorkspaceErrorView::Invalid),
        Stored::Value(catalog) => Ok(catalog),
    }
}

/// The store and the catalog after it was read and brought up to date, or why it was not.
pub open spec fn loaded(
    s: CatalogStoreView,
    profile: Option<Seq<char>>,
    now: u64,
) -> (CatalogStoreView, Result<WorkspaceCatalogView, WorkspaceErrorView>) {
    match found(s) {
        Err(error) => (s, Err(error)),
        Ok(catalog) => match normalized(catalog, s.default_home, profile, s.candidates, now) {
            Err(error) => (s, Err(error)),
            Ok(after) => (
                if s.stored is Missing || normalizing_changes(
                    catalog,
                    s.default_home,
                    profile,
                    s.candidates,
                    now,
                ) {
                    saved(s, after)
                } else {
                    s
                },
                Ok(after),
            ),
        },
    }
}

/// The catalog of a result.
pub open spec fn catalog_result(res: Result<WorkspaceCatalog, WorkspaceError>) -> Result<
    WorkspaceCatalogView,
    WorkspaceErrorView,
> {
    match res {
        Ok(catalog) => Ok(catalog.deep_view()),
        Err(error) => Err(error.deep_view()),
    }
}

/// Reads the catalog, brings it up to date, and writes it back where it changed.
pub fn load(
    files: &mut CatalogStore,
    default_auth_profile_id: &Option<String>,
    now: u64,
) -> (res: Result<WorkspaceCatalog, WorkspaceError>)
    ensures
        loaded(old(files).deep_view(), text::opt_view(*default_auth_profile_id), now) == (
            final(files).deep_view(),
            catalog_result(res),
        ),
{
    let mut missing: bool = false;
    let mut catalog = match &files.stored {
        Stored::Missing => {
            missing = true;
            let catalog = WorkspaceCatalog {
                schema_version: CATALOG_SCHEMA_VERSION,
                active_workspace_id: DEFAULT_WORKSPACE_ID.to_string(),
                workspaces: Vec::new(),
            };
            assert(catalog.workspaces.deep_view() =~= seq![]);
            catalog
        },
        Stored::Unreadable => {
            return Err(WorkspaceError::Unreadable);
        },
        Stored::Invalid => {
            return Err(WorkspaceError::Invalid);
        },
        Stored::Value(catalog) => catalog.duplicate(),
    };
    match normalize(
        &mut catalog,
        files.default_home.as_str(),
        default_auth_profile_id,
        &files.candidates,
        now,
    ) {
        Ok(changed) => {
            if changed || missing {
                save(files, &catalog);
            }
        },
        Err(error) => {
            return Err(error);
        },
    }
    Ok(catalog)
}

/// The workspaces with the active one marked.
pub open spec fn marked(all: Seq<CodexWorkspaceView>, active: Seq<char>) -> Seq<
    CodexWorkspaceView,
> {
    all.map_values(
        |workspace: CodexWorkspaceView|
            (CodexWorkspaceView { active: workspace.workspace_id == active, ..workspace }),
    )
}

/// What is shown of the catalog, or why nothing is.
pub open spec fn shown(
    s: CatalogStoreView,
    profile: Option<Seq<char>>,
    now: u64,
) -> Result<WorkspaceStateView, WorkspaceErrorView> {
    match loaded(s, profile, now).1 {
        Err(error) => Err(error),
        Ok(catalog) => match normalized(catalog, s.default_home, profile, s.candidates, now) {
            Err(error) => Err(error),
            Ok(again) => Ok(
                WorkspaceStateView {
                    active_workspace_id: again.active_workspace_id,
                    workspaces: marked(again.workspaces, again.active_workspace_id),
                },
            ),
        },
    }
}

/// What is shown of the catalog. The default workspace follows the given authorization profile.
pub fn state(
    files: &mut CatalogStore,
    default_auth_profile_id: &Option<String>,
    now: u64,
) -> (res: Result<WorkspaceState, WorkspaceError>)
    ensures
        final(files).deep_view() == loaded(
            old(files).deep_view(),
            text::opt_view(*default_auth_profile_id),
            now,
        ).0,
        match res {
            Ok(state) => shown(
                old(files).deep_view(),
                text::opt_view(*default_auth_profile_id),
                now,
            ) == Ok::<WorkspaceStateView, WorkspaceErrorView>(state.deep_view()),
            Err(error) => shown(
                old(files).deep_view(),
                text::opt_view(*default_auth_profile_id),
                now,
            ) == Err::<WorkspaceStateView, WorkspaceErrorView>(error.deep_view()),
        },
{
    let mut catalog = load(files, default_auth_profile_id, now)?;
    match normalize(
        &mut catalog,
        files.default_home.as_str(),
        default_auth_profile_id,
        &files.candidates,
        now,
    ) {
        Ok(_) => {},
        Err(error) => {
            return Err(error);
        },
    }
    let ghost all = catalog.workspaces.deep_view();
    let ghost active = catalog.active_workspace_id@;
    let mut workspaces: Vec<CodexWorkspace> = Vec::new();
    let mut i: usize = 0;
    while i < catalog.workspaces.len()
        invariant
            i <= catalog.workspaces.len(),
            all == catalog.workspaces.deep_view(),
            active == catalog.active_workspace_id@,
            workspaces.len() == i,
            forall|j: int|
                0 <= j < i ==> (#[trigger] workspaces@[j]).deep_view() == marked(all, active)[j],
        decreases catalog.workspaces.len() - i,
    {
        let mut workspace = catalog.workspaces[i].duplicate();
        workspace.active = text::same(
            workspace.workspace_id.as_str(),
            catalog.active_workspace_id.as_str(),
        );
        workspaces.push(workspace);
        i = i + 1;
    }
    assert(workspaces.deep_view() =~= marked(all, active));
    Ok(WorkspaceState { active_workspace_id: catalog.active_workspace_id, workspaces })
}

/// What is wrong with a name, if anything.
pub open spec fn name_fault(name: Seq<char>) -> Option<WorkspaceErrorView> {
    let plain = text::trimmed(name);
    if plain.len() == 0 {
        Some(WorkspaceErrorView::EmptyName)
    } else if plain.len() > NAME_LIMIT {
        Some(WorkspaceErrorView::LongName)
    } else if exists|i: int| 0 <= i < plain.len() && text::control(#[trigger] plain[i]) {
        Some(WorkspaceErrorView::ControlName)
    } else {
        None
    }
}

/// The name without surrounding white space. It may not be blank, longer than eighty characters or
/// hold a control character; anything else is allowed in it.
pub fn validate_name(name: &str) -> (res: Result<String, WorkspaceError>)
    ensures
        match res {
            Ok(plain) => name_fault(name@) is None && plain@ == text::trimmed(name@),
            Err(error) => name_fault(name@) == Some(error.deep_view()),
        },
{
    let plain = text::trim(name);
    let chars = text::chars_of(plain.as_str());
    if chars.len() == 0 {
        return Err(WorkspaceError::EmptyName);
    }
    if chars.len() > NAME_LIMIT {
        return Err(WorkspaceError::LongName);
    }
    let mut i: usize = 0;
    while i < chars.len()
        invariant
            i <= chars.len(),
            chars@ == text::trimmed(name@),
            0 < chars@.len() <= NAME_LIMIT,
            forall|j: int| 0 <= j < i ==> !text::control(#[trigger] chars@[j]),
        decreases chars.len() - i,
    {
        if text::is_control(chars[i]) {
            assert(text::control(text::trimmed(name@)[i as int]));
            return Err(WorkspaceError::ControlName);
        }
        i = i + 1;
    }
    Ok(plain)
}

/// Whether a workspace has the name, upper and lower case taken as the same.
pub open spec fn has_name(all: Seq<CodexWorkspaceView>, name: Seq<char>) -> bool {
    exists|i: int|
        0 <= i < all.len() && lower_case((#[trigger] all[i]).name) == lower_case(name)
}

/// Whether a workspace has the name, upper and lower case taken as the same.
fn find_name(all: &Vec<CodexWorkspace>, name: &str) -> (res: bool)
    ensures
        res == has_name(all.deep_view(), name@),
{
    let ghost views = all.deep_view();
    let wanted = to_lower_case(name);
    let mut i: usize = 0;
    while i < all.len()
        invariant
            i <= all.len(),
            views == all.deep_view(),
            wanted@ == lower_case(name@),
            forall|j: int|
                0 <= j < i ==> lower_case((#[trigger] views[j]).name) != lower_case(name@),
        decreases all.len() - i,
    {
        let lower = to_lower_case(all[i].name.as_str());
        if text::same(lower.as_str(), wanted.as_str()) {
            assert(lower_case(views[i as int].name) == lower_case(name@));
            return true;
        }
        assert(lower_case(views[i as int].name) != lower_case(name@));
        i = i + 1;
    }
    false
}

/// A hexadecimal digit of a number below sixteen.
pub open spec fn hex_char(d: u8) -> char {
    if d < 10 {
        ((0x30 + d) as u8) as char
    } else {
        ((0x57 + d) as u8) as char
    }
}

/// The bytes as lower-case hexadecimal digits, two for each.
pub open spec fn hex_text(bytes: Seq<u8>) -> Seq<char>
    decreases bytes.len(),
{
    if bytes.len() == 0 {
        seq![]
    } else {
        hex_text(bytes.drop_last()).push(hex_char(bytes.last() / 16)).push(
            hex_char(bytes.last() % 16),
        )
    }
}

/// A hexadecimal digit of a number below sixteen.
fn to_hex_char(d: u8) -> (res: char)
    requires
        d < 16,
    ensures
        res == hex_char(d),
{
    if d < 10 {
        (0x30u8 + d) as char
    } else {
        (0x57u8 + d) as char
    }
}

/// The bytes as lower-case hexadecimal digits, two for each.
pub fn to_hex(bytes: &Vec<u8>) -> (res: String)
    ensures
        res@ == hex_text(bytes@),
{
    let mut out = String::new();
    let mut i: usize = 0;
    assert(bytes@.take(0) =~= seq![]);
    while i < bytes.len()
        invariant
            i <= bytes.len(),
            out@ == hex_text(bytes@.take(i as int)),
        decreases bytes.len() - i,
    {
        assert(bytes@.take(i + 1).drop_last() =~= bytes@.take(i as int));
        let byte = bytes[i];
        out.push(to_hex_char(byte / 16));
        out.push(to_hex_char(byte % 16));
        i = i + 1;
    }
    assert(bytes@.take(i as int) =~= bytes@);
    out
}

/// The identity that random bytes give, unless a workspace has it.
pub fn unused_workspace_id(catalog: &WorkspaceCatalog, bytes: &Vec<u8>) -> (res: Option<String>)
    ensures
        match res {
            Some(id) => id@ == hex_text(bytes@) && position(
                catalog.deep_view().workspaces,
                id@,
            ) is None,
            None => position(catalog.deep_view().workspaces, hex_text(bytes@)) is Some,
        },
{
    let id = to_hex(bytes);
    if find_position(&catalog.workspaces, id.as_str()).is_some() {
        None
    } else {
        Some(id)
    }
}

/// The most identities that are drawn for one workspace.
pub const DRAW_LIMIT: u64 = u64::MAX;

/// Draws identities at random until one comes that no workspace of the catalog has, and gives it.
/// Gives nothing where the system has no random bytes, or where every one of `DRAW_LIMIT` draws is
/// taken.
pub fn unique_workspace_id(catalog: &WorkspaceCatalog) -> (res: Option<String>)
    ensures
        res matches Some(id) ==> position(catalog.deep_view().workspaces, id@) is None && exists|
            bytes: Seq<u8>,
        |
            bytes.len() == 12 && id@ == #[trigger] hex_text(bytes),
{
    let mut left: u64 = DRAW_LIMIT;
    while left > 0
        decreases left,
    {
        match random_bytes() {
            Some(bytes) => {
                let id = unused_workspace_id(catalog, &bytes);
                if id.is_some() {
                    return id;
                }
            },
            None => {
                return None;
            },
        }
        left = left - 1;
    }
    None
}

/// The directory of a new workspace: below the directory of all workspaces and its own identity.
pub open spec fn home_in(root: Seq<char>, id: Seq<char>, separator: char) -> Seq<char> {
    codex_path::joined(codex_path::joined(root, id, separator), "codex-home"@, separator)
}

/// The directory of a new workspace.
pub fn workspace_home(root: &str, workspace_id: &str, separator: char) -> (res: String)
    ensures
        res@ == home_in(root@, workspace_id@, separator),
{
    let own = codex_path::join(root, workspace_id, separator);
    codex_path::join(own.as_str(), "codex-home", separator)
}

/// A new workspace.
pub open spec fn new_workspace(
    id: Seq<char>,
    name: Seq<char>,
    home: Seq<char>,
    profile: Seq<char>,
    now: u64,
) -> CodexWorkspaceView {
    CodexWorkspaceView {
        workspace_id: id,
        name,
        codex_home: home,
        auth_profile_id: Some(profile),
        created_at_epoch_seconds: now,
        updated_at_epoch_seconds: now,
        active: false,
        is_default: false,
        imported: false,
    }
}

/// The outcome of adding a workspace.
pub open spec fn created(
    s: CatalogStoreView,
    id: Seq<char>,
    name: Seq<char>,
    home: Seq<char>,
    profile: Seq<char>,
    now: u64,
) -> (CatalogStoreView, Result<CodexWorkspaceView, WorkspaceErrorView>) {
    match name_fault(name) {
        Some(error) => (s, Err(error)),
        None => match loaded(s, None, now) {
            (t, Err(error)) => (t, Err(error)),
            (t, Ok(catalog)) => if has_name(catalog.workspaces, text::trimmed(name)) {
                (t, Err(WorkspaceErrorView::DuplicateName))
            } else if position(catalog.workspaces, id) is Some {
                (t, Err(WorkspaceErrorView::TakenId))
            } else {
                let workspace = new_workspace(id, text::trimmed(name), home, profile, now);
                (
                    saved(
                        t,
                        WorkspaceCatalogView {
                            workspaces: catalog.workspaces.push(workspace),
                            ..catalog
                        },
                    ),
                    Ok(workspace),
                )
            },
        },
    }
}

/// The workspace of a result.
pub open spec fn workspace_result(res: Result<CodexWorkspace, WorkspaceError>) -> Result<
    CodexWorkspaceView,
    WorkspaceErrorView,
> {
    match res {
        Ok(workspace) => Ok(workspace.deep_view()),
        Err(error) => Err(error.deep_view()),
    }
}

/// Adds a workspace with an identity that was drawn for it and its directory. No two workspaces
/// have names that differ only in upper and lower case.
pub fn create(
    files: &mut CatalogStore,
    workspace_id: &str,
    name: &str,
    codex_home: &str,
    auth_profile_id: &str,
    now: u64,
) -> (res: Result<CodexWorkspace, WorkspaceError>)
    ensures
        created(
            old(files).deep_view(),
            workspace_id@,
            name@,
            codex_home@,
            auth_profile_id@,
            now,
        ) == (final(files).deep_view(), workspace_result(res)),
{
    let plain = validate_name(name)?;
    let none: Option<String> = None;
    let mut catalog = load(files, &none, now)?;
    if find_name(&catalog.workspaces, plain.as_str()) {
        return Err(WorkspaceError::DuplicateName);
    }
    if find_position(&catalog.workspaces, workspace_id).is_some() {
        return Err(WorkspaceError::TakenId);
    }
    let workspace = CodexWorkspace {
        workspace_id: workspace_id.to_string(),
        name: plain,
        codex_home: codex_home.to_string(),
        auth_profile_id: Some(auth_profile_id.to_string()),
        created_at_epoch_seconds: now,
        updated_at_epoch_seconds: now,
        active: false,
        is_default: false,
        imported: false,
    };
    let ghost before = catalog.workspaces.deep_view();
    let ghost added = workspace.deep_view();
    catalog.workspaces.push(workspace.duplicate());
    assert(catalog.workspaces.deep_view() =~= before.push(added));
    save(files, &catalog);
    Ok(workspace)
}

/// Having another identity.
pub open spec fn without_id(id: Seq<char>) -> spec_fn(CodexWorkspaceView) -> bool {
    |workspace: CodexWorkspaceView| workspace.workspace_id != id
}

/// The store with every workspace of the identity taken out of its catalog.
pub open spec fn discarded(s: CatalogStoreView, id: Seq<char>) -> CatalogStoreView {
    match s.stored {
        Stored::Value(catalog) => saved(
            s,
            WorkspaceCatalogView {
                workspaces: catalog.workspaces.filter(without_id(id)),
                ..catalog
            },
        ),
        _ => s,
    }
}

/// Takes a workspace out of the catalog again whose directory could not be set up.
pub fn roll_back_create(files: &mut CatalogStore, workspace_id: &str)
    ensures
        final(files).deep_view() == discarded(old(files).deep_view(), workspace_id@),
{
    let mut catalog = match &files.stored {
        Stored::Value(catalog) => catalog.duplicate(),
        _ => {
            return;
        },
    };
    let ghost all = catalog.workspaces.deep_view();
    let ghost keep = without_id(workspace_id@);
    let mut kept: Vec<CodexWorkspace> = Vec::new();
    let mut i: usize = 0;
    assert(kept.deep_view() =~= all.take(0).filter(keep)) by {
        reveal(Seq::filter);
    }
    while i < catalog.workspaces.len()
        invariant
            i <= catalog.workspaces.len(),
            all == catalog.workspaces.deep_view(),
            keep == without_id(workspace_id@),
            kept.deep_view() == all.take(i as int).filter(keep),
        decreases catalog.workspaces.len() - i,
    {
        let ghost before = kept.deep_view();
        assert(all.take(i + 1).drop_last() =~= all.take(i as int));
        assert(all.take(i + 1).last() == all[i as int]);
        assert(all.take(i + 1).filter(keep) == if keep(all[i as int]) {
            before.push(all[i as int])
        } else {
            before
        }) by {
            reveal(Seq::filter);
        }
        if !text::same(catalog.workspaces[i].workspace_id.as_str(), workspace_id) {
            kept.push(catalog.workspaces[i].duplicate());
            assert(kept.deep_view() =~= before.push(all[i as int]));
        }
        i = i + 1;
    }
    assert(all.take(i as int) =~= all);
    catalog.workspaces = kept;
    save(files, &catalog);
}

/// A workspace whose authorization profile was switched, with what is needed to switch it back.
#[derive(Debug)]
pub struct AuthSwitch {
    /// The workspace.
    pub workspace: CodexWorkspace,
    /// The authorization profile from before.
    pub previous_profile_id: Option<String>,
    /// When the workspace was last changed before.
    pub previous_updated_at: u64,
}

/// The workspace with another authorization profile.
pub open spec fn with_profile(
    workspace: CodexWorkspaceView,
    profile: Option<Seq<char>>,
    updated: u64,
) -> CodexWorkspaceView {
    CodexWorkspaceView {
        auth_profile_id: profile,
        updated_at_epoch_seconds: updated,
        ..workspace
    }
}

/// The catalog with another authorization profile for the workspace at the place.
pub open spec fn catalog_with_profile(
    catalog: WorkspaceCatalogView,
    at: int,
    profile: Option<Seq<char>>,
    updated: u64,
) -> WorkspaceCatalogView {
    WorkspaceCatalogView {
        workspaces: catalog.workspaces.update(
            at,
            with_profile(catalog.workspaces[at], profile, updated),
        ),
        ..catalog
    }
}

/// Selects another authorization profile for a workspace.
pub fn switch_auth_profile(
    files: &mut CatalogStore,
    workspace_id: &str,
    auth_profile_id: &str,
    now: u64,
) -> (res: Result<AuthSwitch, WorkspaceError>)
    ensures
        ({
            let (t, outcome) = loaded(old(files).deep_view(), None, now);
            match outcome {
                Err(expected) => res matches Err(error) && error.deep_view() == expected && final(files).deep_view() == t,
                Ok(catalog) => match position(catalog.workspaces, workspace_id@) {
                    None => res matches Err(error) && error.deep_view()
                        == WorkspaceErrorView::NotFound && final(files).deep_view() == t,
                    Some(at) => res matches Ok(switch) && final(files).deep_view() == saved(
                        t,
                        catalog_with_profile(catalog, at, Some(auth_profile_id@), now),
                    ) && switch.workspace.deep_view() == with_profile(
                        catalog.workspaces[at],
                        Some(auth_profile_id@),
                        now,
                    ) && text::opt_view(switch.previous_profile_id)
                        == catalog.workspaces[at].auth_profile_id && switch.previous_updated_at
                        == catalog.workspaces[at].updated_at_epoch_seconds,
                },
            }
        }),
{
    let none: Option<String> = None;
    let mut catalog = load(files, &none, now)?;
    let at = match find_position(&catalog.workspaces, workspace_id) {
        Some(at) => at,
        None => {
            return Err(WorkspaceError::NotFound);
        },
    };
    let ghost all = catalog.workspaces.deep_view();
    let mut workspace = catalog.workspaces[at].duplicate();
    let previous_profile_id = workspace.auth_profile_id.duplicate();
    let previous_updated_at = workspace.updated_at_epoch_seconds;
    workspace.auth_profile_id = Some(auth_profile_id.to_string());
    workspace.updated_at_epoch_seconds = now;
    let ghost changed = workspace.deep_view();
    catalog.workspaces[at] = workspace.duplicate();
    assert(catalog.workspaces.deep_view() =~= all.update(at as int, changed));
    save(files, &catalog);
    Ok(AuthSwitch { workspace, previous_profile_id, previous_updated_at })
}

/// The store with the authorization profile of the workspace put back.
pub open spec fn switched_back(
    s: CatalogStoreView,
    id: Seq<char>,
    profile: Option<Seq<char>>,
    updated: u64,
) -> CatalogStoreView {
    match s.stored {
        Stored::Value(catalog) => match position(catalog.workspaces, id) {
            Some(at) => saved(s, catalog_with_profile(catalog, at, profile, updated)),
            None => s,
        },
        _ => s,
    }
}

/// Puts the authorization profile of a workspace back whose directory could not be switched.
pub fn roll_back_switch(files: &mut CatalogStore, workspace_id: &str, switch: &AuthSwitch)
    ensures
        final(files).deep_view() == switched_back(
            old(files).deep_view(),
            workspace_id@,
            text::opt_view(switch.previous_profile_id),
            switch.previous_updated_at,
        ),
{
    let mut catalog = match &files.stored {
        Stored::Value(catalog) => catalog.duplicate(),
        _ => {
            return;
        },
    };
    let at = match find_position(&catalog.workspaces, workspace_id) {
        Some(at) => at,
        None => {
            return;
        },
    };
    let ghost all = catalog.workspaces.deep_view();
    let mut workspace = catalog.workspaces[at].duplicate();
    workspace.auth_profile_id = switch.previous_profile_id.duplicate();
    workspace.updated_at_epoch_seconds = switch.previous_updated_at;
    let ghost changed = workspace.deep_view();
    catalog.workspaces[at] = workspace;
    assert(catalog.workspaces.deep_view() =~= all.update(at as int, changed));
    save(files, &catalog);
}

/// The outcome of making a workspace the active one.
pub open spec fn activated(
    s: CatalogStoreView,
    id: Seq<char>,
    now: u64,
) -> (CatalogStoreView, Result<CodexWorkspaceView, WorkspaceErrorView>) {
    match loaded(s, None, now) {
        (t, Err(error)) => (t, Err(error)),
        (t, Ok(catalog)) => match position(catalog.workspaces, id) {
            None => (t, Err(WorkspaceErrorView::NotFound)),
            Some(at) => {
                let workspace = catalog.workspaces[at];
                let touched = CodexWorkspaceView { updated_at_epoch_seconds: now, ..workspace };
                if workspace.auth_profile_id is None {
                    (t, Err(WorkspaceErrorView::NoAuthProfile))
                } else {
                    (
                        saved(
                            t,
                            WorkspaceCatalogView {
                                active_workspace_id: id,
                                workspaces: catalog.workspaces.update(at, touched),
                                ..catalog
                            },
                        ),
                        Ok(touched),
                    )
                }
            },
        },
    }
}

/// Makes a workspace the active one. It has to have an authorization profile.
pub fn activate(files: &mut CatalogStore, workspace_id: &str, now: u64) -> (res: Result<
    CodexWorkspace,
    WorkspaceError,
>)
    ensures
        activated(old(files).deep_view(), workspace_id@, now) == (
            final(files).deep_view(),
            workspace_result(res),
        ),
{
    let none: Option<String> = None;
    let mut catalog = load(files, &none, now)?;
    let at = match find_position(&catalog.workspaces, workspace_id) {
        Some(at) => at,
        None => {
            return Err(WorkspaceError::NotFound);
        },
    };
    let ghost all = catalog.workspaces.deep_view();
    let mut workspace = catalog.workspaces[at].duplicate();
    if workspace.auth_profile_id.is_none() {
        return Err(WorkspaceError::NoAuthProfile);
    }
    workspace.updated_at_epoch_seconds = now;
    let ghost changed = workspace.deep_view();
    catalog.workspaces[at] = workspace.duplicate();
    assert(catalog.workspaces.deep_view() =~= all.update(at as int, changed));
    catalog.active_workspace_id = workspace_id.to_string();
    save(files, &catalog);
    Ok(workspace)
}

/// The workspace with the identity, or the error.
pub open spec fn looked_up(
    catalog: WorkspaceCatalogView,
    id: Seq<char>,
    missing: WorkspaceErrorView,
) -> Result<CodexWorkspaceView, WorkspaceErrorView> {
    match position(catalog.workspaces, id) {
        Some(at) => Ok(catalog.workspaces[at]),
        None => Err(missing),
    }
}

/// The active workspace.
pub fn active(files: &mut CatalogStore, now: u64) -> (res: Result<CodexWorkspace, WorkspaceError>)
    ensures
        final(files).deep_view() == loaded(old(files).deep_view(), None, now).0,
        workspace_result(res) == match loaded(old(files).deep_view(), None, now).1 {
            Err(error) => Err(error),
            Ok(catalog) => looked_up(
                catalog,
                catalog.active_workspace_id,
                WorkspaceErrorView::ActiveMissing,
            ),
        },
{
    let none: Option<String> = None;
    let catalog = load(files, &none, now)?;
    match find_position(&catalog.workspaces, catalog.active_workspace_id.as_str()) {
        Some(at) => Ok(catalog.workspaces[at].duplicate()),
        None => Err(WorkspaceError::ActiveMissing),
    }
}

/// The workspace with the identity.
pub fn workspace(files: &mut CatalogStore, workspace_id: &str, now: u64) -> (res: Result<
    CodexWorkspace,
    WorkspaceError,
>)
    ensures
        final(files).deep_view() == loaded(old(files).deep_view(), None, now).0,
        workspace_result(res) == match loaded(old(files).deep_view(), None, now).1 {
            Err(error) => Err(error),
            Ok(catalog) => looked_up(catalog, workspace_id@, WorkspaceErrorView::NotFound),
        },
{
    let none: Option<String> = None;
    let catalog = load(files, &none, now)?;
    match find_position(&catalog.workspaces, workspace_id) {
        Some(at) => Ok(catalog.workspaces[at].duplicate()),
        None => Err(WorkspaceError::NotFound),
    }
}

/// The directories of the workspaces that have the authorization profile, in the order of the
/// catalog.
pub open spec fn homes_with(all: Seq<CodexWorkspaceView>, profile: Seq<char>) -> Seq<Seq<char>>
    decreases all.len(),
{
    if all.len() == 0 {
        seq![]
    } else {
        let before = homes_with(all.drop_last(), profile);
        if all.last().auth_profile_id == Some(profile) {
            before.push(all.last().codex_home)
        } else {
            before
        }
    }
}

/// The directories that an authorization profile has to be written to anew: those of the
/// workspaces that have it.
pub fn refresh_auth_profile(
    files: &mut CatalogStore,
    auth_profile_id: &str,
    now: u64,
) -> (res: Result<Vec<String>, WorkspaceError>)
    ensures
        final(files).deep_view() == loaded(old(files).deep_view(), None, now).0,
        match res {
            Ok(homes) => loaded(old(files).deep_view(), None, now).1 matches Ok(catalog)
                && homes.deep_view() == homes_with(catalog.workspaces, auth_profile_id@),
            Err(error) => loaded(old(files).deep_view(), None, now).1 == Err::<
                WorkspaceCatalogView,
                WorkspaceErrorView,
            >(error.deep_view()),
        },
{
    let none: Option<String> = None;
    let catalog = load(files, &none, now)?;
    let ghost all = catalog.workspaces.deep_view();
    let mut homes: Vec<String> = Vec::new();
    let mut i: usize = 0;
    assert(all.take(0) =~= seq![]);
    assert(homes.deep_view() =~= seq![]);
    while i < catalog.workspaces.len()
        invariant
            i <= catalog.workspaces.len(),
            all == catalog.workspaces.deep_view(),
            homes.deep_view() == homes_with(all.take(i as int), auth_profile_id@),
        decreases catalog.workspaces.len() - i,
    {
        let ghost before = homes.deep_view();
        assert(all.take(i + 1).drop_last() =~= all.take(i as int));
        assert(all.take(i + 1).last() == all[i as int]);
        let workspace = &catalog.workspaces[i];
        let selected = match &workspace.auth_profile_id {
            Some(found) => text::same(found.as_str(), auth_profile_id),
            None => false,
        };
        if selected {
            homes.push(workspace.codex_home.clone());
            assert(homes.deep_view() =~= before.push(all[i as int].codex_home));
        }
        i = i + 1;
    }
    assert(all.take(i as int) =~= all);
    Ok(homes)
}

} // verus!
