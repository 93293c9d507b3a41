use kuse_undo::executor::{mcp_tool_name, route, sanitize, starts_with, ToolRoute};
use kuse_undo::prompts::{get_system_prompt, EN_PROMPT, ZH_TW_PROMPT};
use kuse_undo::types::{build_system_prompt, SkillSummary};
use kuse_undo::{AgentConfig, BackupManager, PlanStepInfo, ToolExecutor, ToolResult};
use std::sync::{Arc, Mutex};

#[test]
fn system_prompt_by_locale() {
    assert_eq!(get_system_prompt("zh-TW"), ZH_TW_PROMPT);
    assert_eq!(get_system_prompt("en"), EN_PROMPT);
    assert_eq!(get_system_prompt("fr"), EN_PROMPT);
    assert_eq!(get_system_prompt("zh-tw"), EN_PROMPT);
    assert!(get_system_prompt("zh-TW").starts_with("你是一個名為 Kuse Cowork Agent"));
    assert!(get_system_prompt("en").contains("You MUST respond in **English**."));
}

#[test]
fn system_prompt_without_skills_is_the_base_prompt() {
    assert_eq!(build_system_prompt(None, &Vec::new(), "/s"), EN_PROMPT);
    assert_eq!(build_system_prompt(Some("zh-TW"), &Vec::new(), "/s"), ZH_TW_PROMPT);
}

#[test]
fn system_prompt_lists_skills() {
    let skills = vec![
        SkillSummary { name: "pdf".to_string(), description: "Read PDFs".to_string() },
        SkillSummary { name: "xlsx".to_string(), description: "Sheets".to_string() },
    ];
    let p = build_system_prompt(Some("en"), &skills, "/home/u/skills");
    let mut expected = EN_PROMPT.to_string();
    expected.push_str("\n\n## Available Skills\n");
    expected.push_str("Skills are located in /home/u/skills (auto-mounted at /skills in Docker):\n\n");
    expected.push_str("- **pdf**: Read PDFs\n");
    expected.push_str("- **xlsx**: Sheets\n");
    expected.push_str("\n### Using Skills\n");
    expected.push_str("When a user's request matches a skill:\n");
    expected.push_str("1. Read the skill's SKILL.md file using read_file tool: `/home/u/skills/{skill_name}/SKILL.md`\n");
    expected.push_str("2. Follow the instructions in SKILL.md\n");
    expected.push_str("3. Load additional referenced files progressively as needed:\n");
    expected.push_str("   - `/home/u/skills/{skill_name}/forms.md`\n");
    expected.push_str("   - `/home/u/skills/{skill_name}/reference.md`\n");
    expected.push_str("4. Execute scripts using docker_run tool - skills are auto-mounted at /skills\n");
    expected.push_str("5. Example: `python /skills/pdf/scripts/extract_text.py /workspace/document.pdf`\n");
    expected.push_str("\nNote: The ~ symbol is supported in read_file paths and will expand to the user's home directory.\n");
    assert_eq!(p, expected);
}

#[test]
fn default_agent_config() {
    let c = AgentConfig::default();
    assert_eq!(c.system_prompt, EN_PROMPT);
    assert_eq!(c.max_turns, 20);
    assert_eq!(c.project_path, None);
    assert_eq!(
        c.allowed_tools,
        vec![
            "read_file", "write_file", "edit_file", "bash", "glob", "grep", "list_dir",
            "move_file", "delete_file", "docker_run", "docker_list", "docker_images",
        ]
    );
}

#[test]
fn tool_result_constructors() {
    let ok = ToolResult::success("id1".to_string(), "done".to_string());
    assert_eq!(ok.result_type, "tool_result");
    assert_eq!(ok.tool_use_id, "id1");
    assert_eq!(ok.content, "done");
    assert_eq!(ok.is_error, None);
    assert_eq!(ok.thought_signature, None);
    let err = ToolResult::error("id2".to_string(), "boom".to_string());
    assert_eq!(err.result_type, "tool_result");
    assert_eq!(err.tool_use_id, "id2");
    assert_eq!(err.content, "boom");
    assert_eq!(err.is_error, Some(true));
    assert_eq!(err.thought_signature, None);
}

#[test]
fn plan_step_info_holds_its_fields() {
    let s = PlanStepInfo { step: 3, description: "list files".to_string() };
    assert_eq!(s.step, 3);
    assert_eq!(s.description, "list files");
}

#[test]
fn routes_by_tool_name() {
    assert_eq!(route("mcp_srv_tool"), ToolRoute::Mcp);
    assert_eq!(route("docker_run"), ToolRoute::Docker);
    assert_eq!(route("read_file"), ToolRoute::ReadFile);
    assert_eq!(route("write_file"), ToolRoute::WriteFile);
    assert_eq!(route("edit_file"), ToolRoute::EditFile);
    assert_eq!(route("bash"), ToolRoute::Bash);
    assert_eq!(route("glob"), ToolRoute::Glob);
    assert_eq!(route("grep"), ToolRoute::Grep);
    assert_eq!(route("list_dir"), ToolRoute::ListDir);
    assert_eq!(route("move_file"), ToolRoute::MoveFile);
    assert_eq!(route("delete_file"), ToolRoute::DeleteFile);
    assert_eq!(route("mcp"), ToolRoute::Unknown);
    assert_eq!(route("read_files"), ToolRoute::Unknown);
    assert_eq!(route(""), ToolRoute::Unknown);
}

#[test]
fn undo_hooks_by_route() {
    assert!(ToolRoute::WriteFile.snapshots_before());
    assert!(ToolRoute::EditFile.snapshots_before());
    assert!(!ToolRoute::MoveFile.snapshots_before());
    assert!(ToolRoute::MoveFile.registers_move());
    assert!(!ToolRoute::DeleteFile.registers_move());
    assert!(ToolRoute::DeleteFile.registers_delete());
    assert!(!ToolRoute::Bash.registers_delete());
}

#[test]
fn prefixes() {
    assert!(starts_with("mcp_x", "mcp_"));
    assert!(starts_with("abc", ""));
    assert!(!starts_with("mc", "mcp_"));
    assert!(!starts_with("xmcp_", "mcp_"));
}

#[test]
fn mcp_names_are_sanitized() {
    assert_eq!(sanitize("a-b:c_d"), "a_b_c_d");
    assert_eq!(sanitize(""), "");
    assert_eq!(mcp_tool_name("my-server:1", "do-it"), "mcp_my_server_1_do_it");
    assert_eq!(mcp_tool_name("s", "t"), "mcp_s_t");
}

#[test]
fn executor_builders() {
    let e = ToolExecutor::new(Some("/proj".to_string()));
    assert_eq!(e.project_path.as_deref(), Some("/proj"));
    assert!(e.backup_manager.is_none());
    assert!(e.conversation_id.is_none());
    assert!(!e.records_undo());
    let bm = Arc::new(Mutex::new(BackupManager::new()));
    let e = e.with_backup_manager(bm.clone());
    assert!(!e.records_undo());
    let e = e.with_conversation_id("conv".to_string());
    assert!(e.records_undo());
    assert_eq!(e.conversation_id.as_deref(), Some("conv"));
    assert_eq!(e.project_path.as_deref(), Some("/proj"));
    assert!(Arc::ptr_eq(e.backup_manager.as_ref().unwrap(), &bm));
}
