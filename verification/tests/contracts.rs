use codex_desktop::baijimu_cli::{
    auth_status, auth_status_arguments, command_failed, create_llm_credential,
    create_llm_credential_arguments, get_workspace, get_workspace_arguments, list_workspaces,
    list_workspaces_arguments, positive_unique_ids, require_workspace_id, required_text,
    validate_binary_path, AuthStatus, AuthStatusContract, LlmCredentialContract, PlatformEnvelope,
    WorkspaceContract, WorkspaceListContract, WorkspaceListDataContract, WorkspaceListing,
};
use codex_desktop::product_config::{ProductConfig, SCHEMA_VERSION};

fn number(value: &serde_json::Value) -> Option<u64> {
    value.as_u64()
}

fn text(value: &serde_json::Value) -> String {
    value.as_str().unwrap().to_string()
}

#[test]
fn auth_status_contract_requires_owned_fields_and_normalizes_ids() {
    let value: serde_json::Value = serde_json::from_slice(
        br#"{
                "authenticated": true,
                "baseUrl": "https://api.baijimu.com",
                "configuredCurrentWorkspaceId": 642,
                "credentialCount": 2,
                "currentWorkspaceId": 642,
                "sharedAuthPath": "/owned/by/baijimu-cli/auth.json",
                "verification": null,
                "workspaceIds": [1390, 642, 642]
            }"#,
    )
    .unwrap();
    let contract = AuthStatusContract {
        authenticated: value["authenticated"].as_bool().unwrap(),
        base_url: text(&value["baseUrl"]),
        current_workspace_id: number(&value["currentWorkspaceId"]),
        workspace_ids: value["workspaceIds"]
            .as_array()
            .unwrap()
            .iter()
            .map(|id| id.as_u64().unwrap())
            .collect(),
    };
    let status = AuthStatus {
        authenticated: contract.authenticated,
        base_url: required_text(&contract.base_url, "baseUrl").unwrap(),
        current_workspace_id: contract.current_workspace_id,
        workspace_ids: positive_unique_ids(&contract.workspace_ids, "workspaceIds").unwrap(),
    };
    assert_eq!(status.workspace_ids, vec![642, 1390]);
    assert_eq!(status.current_workspace_id, Some(642));
    let told = auth_status(&contract).unwrap();
    assert_eq!(told.workspace_ids, vec![642, 1390]);
    assert_eq!(told.base_url, "https://api.baijimu.com");
}

#[test]
fn workspace_contract_rejects_failed_envelopes() {
    let value: serde_json::Value = serde_json::from_slice(
        r#"{
                "errorCode": "401",
                "value": "PAT 无效或已过期",
                "data": {"id": 642, "name": "不会使用"}
            }"#
        .as_bytes(),
    )
    .unwrap();
    let envelope = PlatformEnvelope {
        error_code: text(&value["errorCode"]),
        value: Some(text(&value["value"])),
        data: WorkspaceContract {
            id: number(&value["data"]["id"]).unwrap(),
            name: text(&value["data"]["name"]),
        },
    };
    let error = envelope.into_data("workspace get").unwrap_err();
    assert!(error.message().contains("PAT 无效或已过期"));
}

#[test]
fn llm_credential_contract_exposes_only_the_typed_secret_field() {
    let value: serde_json::Value = serde_json::from_slice(
        br#"{
                "created": true,
                "keyType": "llmCredential",
                "workspaceId": 642,
                "projectId": null,
                "agentConfigId": null,
                "agentSessionId": null,
                "sessionId": null,
                "maskedLlmCredential": "secret****tail",
                "credential": "workspace-llm-secret",
                "llmCredential": "workspace-llm-secret",
                "apiKey": "workspace-llm-secret"
            }"#,
    )
    .unwrap();
    let contract = LlmCredentialContract {
        created: value["created"].as_bool().unwrap(),
        key_type: text(&value["keyType"]),
        workspace_id: number(&value["workspaceId"]).unwrap(),
        project_id: number(&value["projectId"]),
        credential: text(&value["credential"]),
    };
    assert!(contract.created);
    assert_eq!(contract.workspace_id, 642);
    assert_eq!(contract.credential, "workspace-llm-secret");
    assert_eq!(create_llm_credential(642, &contract).unwrap(), "workspace-llm-secret");
}

#[test]
fn invalid_workspace_ids_fail_closed() {
    assert!(require_workspace_id(0).is_err());
    assert!(positive_unique_ids(&vec![642, 0], "workspaceIds").is_err());
}

#[test]
fn managed_cli_path_requires_an_absolute_existing_file() {
    assert!(validate_binary_path("baijimu", false, false).is_err());
    assert!(validate_binary_path("/opt/baijimu", true, false).is_err());
    assert!(validate_binary_path("/opt/baijimu", true, true).is_ok());
    assert_eq!(
        validate_binary_path("/opt/baijimu", true, false).unwrap_err().message(),
        "Bridge Agent 注入的 baijimu CLI 不存在：/opt/baijimu"
    );
}

#[test]
fn embedded_product_config_is_valid() {
    let config = ProductConfig {
        schema_version: 2,
        default_model: "gpt-5.5".to_string(),
        router_provider: "baijimu-router".to_string(),
        router_base_url: "https://router.baijimu.com/api/claudecode/v1".to_string(),
        windows_desktop_protocol: "codex".to_string(),
        windows_desktop_trusted_publishers: vec!["CN=OpenAI".to_string()],
    };
    assert!(config.check().is_none());
    assert_eq!(config.schema_version, SCHEMA_VERSION);
    assert!(config.router_base_url.starts_with("https://"));
    assert_eq!(config.windows_desktop_protocol, "codex");
    assert_eq!(config.windows_desktop_trusted_publishers.len(), 1);
}

fn config() -> ProductConfig {
    ProductConfig {
        schema_version: 2,
        default_model: "m".to_string(),
        router_provider: "p".to_string(),
        router_base_url: "https://r".to_string(),
        windows_desktop_protocol: "codex".to_string(),
        windows_desktop_trusted_publishers: vec!["x".to_string()],
    }
}

#[test]
fn every_fault_of_a_product_config_is_named() {
    let faults = vec![
        ProductConfig { schema_version: 1, ..config() },
        ProductConfig { default_model: " ".to_string(), ..config() },
        ProductConfig { router_provider: String::new(), ..config() },
        ProductConfig { router_base_url: "http://r".to_string(), ..config() },
        ProductConfig { windows_desktop_protocol: "\t".to_string(), ..config() },
        ProductConfig { windows_desktop_trusted_publishers: Vec::new(), ..config() },
        ProductConfig { windows_desktop_trusted_publishers: vec![" ".to_string()], ..config() },
    ];
    let messages: Vec<String> =
        faults.iter().map(|fault| fault.check().unwrap().message()).collect();
    assert_eq!(
        messages,
        vec![
            "Codex 桌面工作区配置版本无效",
            "默认模型不能为空",
            "路由 provider 不能为空",
            "路由地址必须使用 HTTPS",
            "Windows 桌面协议不能为空",
            "Windows 桌面可信 Publisher 不能为空",
            "Windows 桌面可信 Publisher 不能为空",
        ]
    );
    assert!(config().check().is_none());
}

fn page(current: Option<u64>, items: Vec<(u64, &str)>, total_pages: u64) -> WorkspaceListContract {
    WorkspaceListContract {
        current_workspace_id: current,
        data: WorkspaceListDataContract {
            list: items
                .into_iter()
                .map(|(id, name)| WorkspaceContract { id, name: name.to_string() })
                .collect(),
            total_pages,
        },
        error_code: "0".to_string(),
        value: None,
    }
}

#[test]
fn workspaces_of_all_pages_come_in_order_of_their_numbers() {
    assert!(matches!(list_workspaces(&Vec::new()).unwrap(), WorkspaceListing::Page(1)));
    let first = vec![page(Some(5), vec![(9, "i"), (3, " c ")], 2)];
    assert!(matches!(list_workspaces(&first).unwrap(), WorkspaceListing::Page(2)));
    let both = vec![
        page(Some(5), vec![(9, "i"), (3, " c ")], 2),
        page(Some(5), vec![(1, "a"), (9, "later")], 2),
    ];
    match list_workspaces(&both).unwrap() {
        WorkspaceListing::Complete(list) => {
            let shown: Vec<(u64, String)> =
                list.into_iter().map(|item| (item.id, item.name)).collect();
            assert_eq!(
                shown,
                vec![(1, "a".to_string()), (3, "c".to_string()), (9, "later".to_string())]
            );
        }
        WorkspaceListing::Page(_) => panic!("both pages are there"),
    }
}

#[test]
fn a_listing_that_cannot_be_relied_on_is_refused() {
    let changed = vec![page(Some(5), vec![(1, "a")], 2), page(Some(6), vec![(2, "b")], 2)];
    assert_eq!(
        list_workspaces(&changed).err().unwrap().message(),
        "baijimu CLI workspace list 分页期间当前工作区发生变化"
    );
    assert_eq!(
        list_workspaces(&vec![page(None, vec![(0, "a")], 1)]).err().unwrap().message(),
        "baijimu CLI workspace list 返回了非法工作区 ID"
    );
    assert_eq!(
        list_workspaces(&vec![page(None, vec![(1, " ")], 1)]).err().unwrap().message(),
        "baijimu CLI 响应缺少 workspace list.data.list[].name"
    );
    let mut failed = page(None, vec![(1, "a")], 1);
    failed.error_code = "500".to_string();
    assert_eq!(
        list_workspaces(&vec![failed]).err().unwrap().message(),
        "baijimu CLI workspace list 失败（500）：平台操作失败"
    );
}

fn envelope(id: u64, name: &str) -> PlatformEnvelope<WorkspaceContract> {
    PlatformEnvelope {
        error_code: "0".to_string(),
        value: None,
        data: WorkspaceContract { id, name: name.to_string() },
    }
}

#[test]
fn a_workspace_answers_for_itself() {
    let found = get_workspace(642, envelope(642, " 研发 ")).unwrap();
    assert_eq!(found.id, 642);
    assert_eq!(found.name, "研发");
    assert_eq!(
        get_workspace(642, envelope(643, "x")).err().unwrap().message(),
        "baijimu CLI workspace get 返回的工作区不匹配：expected=642, actual=643"
    );
    assert_eq!(
        get_workspace(0, envelope(0, "x")).err().unwrap().message(),
        "工作区 ID 必须大于 0"
    );
    assert!(get_workspace(642, envelope(642, "")).is_err());
}

fn credential(created: bool, kind: &str, workspace: u64, project: Option<u64>, secret: &str) -> LlmCredentialContract {
    LlmCredentialContract {
        created,
        key_type: kind.to_string(),
        workspace_id: workspace,
        project_id: project,
        credential: secret.to_string(),
    }
}

#[test]
fn a_credential_is_taken_only_for_its_workspace() {
    assert_eq!(
        create_llm_credential(1, &credential(true, "llmCredential", 1, None, " s ")).unwrap(),
        "s"
    );
    let unconfirmed = "baijimu CLI 未确认 LLM credential 已创建";
    let foreign = "baijimu CLI 返回的 LLM credential 归属不匹配";
    let message = |contract: LlmCredentialContract| {
        create_llm_credential(1, &contract).err().unwrap().message()
    };
    assert_eq!(message(credential(false, "llmCredential", 1, None, "s")), unconfirmed);
    assert_eq!(message(credential(true, "other", 1, None, "s")), unconfirmed);
    assert_eq!(message(credential(true, "llmCredential", 2, None, "s")), foreign);
    assert_eq!(message(credential(true, "llmCredential", 1, Some(3), "s")), foreign);
    assert_eq!(
        message(credential(true, "llmCredential", 1, None, "")),
        "baijimu CLI 响应缺少 llm-credential create.credential"
    );
    assert!(create_llm_credential(0, &credential(true, "llmCredential", 0, None, "s")).is_err());
}

#[test]
fn an_authenticated_status_names_workspaces() {
    let nothing = AuthStatusContract {
        authenticated: true,
        base_url: "https://api".to_string(),
        current_workspace_id: Some(0),
        workspace_ids: Vec::new(),
    };
    assert_eq!(
        auth_status(&nothing).err().unwrap().message(),
        "baijimu CLI 报告已认证，但授权工作区为空"
    );
    let anonymous = AuthStatusContract { authenticated: false, ..nothing };
    let status = auth_status(&anonymous).unwrap();
    assert!(!status.authenticated);
    assert_eq!(status.current_workspace_id, None);
    let blank = AuthStatusContract {
        authenticated: true,
        base_url: " ".to_string(),
        current_workspace_id: None,
        workspace_ids: vec![1],
    };
    assert_eq!(
        auth_status(&blank).err().unwrap().message(),
        "baijimu CLI 响应缺少 auth status.baseUrl"
    );
}

#[test]
fn commands_are_written_out() {
    assert_eq!(auth_status_arguments(), vec!["auth", "status"]);
    assert_eq!(
        list_workspaces_arguments(12),
        vec!["workspace", "list", "--json", "--page", "12", "--page-size", "200"]
    );
    assert_eq!(get_workspace_arguments(642), vec!["workspace", "get", "642", "--json"]);
    assert_eq!(
        create_llm_credential_arguments(642),
        vec!["llm-credential", "create", "--json", "--workspace-id", "642", "--show-secret"]
    );
}

#[test]
fn failed_commands_tell_what_they_wrote() {
    assert_eq!(
        command_failed("auth status", " first \n second ").message(),
        "baijimu CLI auth status 失败：first second"
    );
    assert_eq!(command_failed("auth status", " \n ").message(), "baijimu CLI auth status 失败");
}
